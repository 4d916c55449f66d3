//! Host-side support for producing verifiable witnesses of optimistic-rollup
//! state transitions: the canonical rollup-configuration text and its
//! digest, the fixed-layout boot commitment handed to the on-chain
//! verifier, and the orchestration protocol that runs a preimage server
//! alongside a witness generator for each data-availability backend.

pub mod boot;
pub mod canon;
pub mod config;
pub mod digest;
pub mod host;
pub mod text;
