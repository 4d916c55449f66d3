//! The rollup configuration model: the fields that feed the canonical
//! serialization, held as plain values, plus the packed parameter fields
//! whose bit layout is part of the wire contract.

use vstd::prelude::*;

verus! {

/// The L2 system configuration snapshot recorded at genesis.
pub struct SystemConfig {
    /// Batch submitter address, 20 bytes big-endian.
    pub batcher_address: [u8; 20],
    /// Legacy fee overhead, 32 bytes big-endian.
    pub overhead: [u8; 32],
    /// Legacy fee scalar, 32 bytes big-endian.
    pub scalar: [u8; 32],
    /// L2 block gas limit.
    pub gas_limit: u64,
    /// EIP-1559 base-fee denominator; absent means not yet configured.
    pub eip1559_denominator: Option<u32>,
    /// EIP-1559 elasticity multiplier; absent means not yet configured.
    pub eip1559_elasticity: Option<u32>,
    /// Operator fee scalar; absent means not yet configured.
    pub operator_fee_scalar: Option<u32>,
    /// Operator fee constant; absent means not yet configured.
    pub operator_fee_constant: Option<u64>,
}

/// One L1 or L2 block reference anchoring the genesis.
pub struct BlockRef {
    /// Block hash, 32 bytes.
    pub hash: [u8; 32],
    /// Block number.
    pub number: u64,
}

/// The genesis anchors of the rollup.
pub struct ChainGenesis {
    /// The L1 block the rollup starts from.
    pub l1: BlockRef,
    /// The first L2 block.
    pub l2: BlockRef,
    /// Timestamp of the first L2 block.
    pub l2_time: u64,
    /// Optional system configuration snapshot at genesis.
    pub system_config: Option<SystemConfig>,
}

/// Hard-fork activation timestamps; an absent value means "not yet active"
/// and canonicalizes as 0.
#[derive(Clone, Copy)]
pub struct HardForkConfig {
    pub regolith_time: Option<u64>,
    pub canyon_time: Option<u64>,
    pub delta_time: Option<u64>,
    pub ecotone_time: Option<u64>,
    pub fjord_time: Option<u64>,
    pub granite_time: Option<u64>,
    pub holocene_time: Option<u64>,
    pub isthmus_time: Option<u64>,
}

/// EIP-1559 parameters carried for the chain operator.
#[derive(Clone, Copy)]
pub struct ChainOpConfig {
    pub eip1559_elasticity: u64,
    pub eip1559_denominator: u64,
    pub eip1559_denominator_canyon: u64,
}

/// Alternative data-availability sub-configuration.
pub struct AltDaConfig {
    /// Challenge contract address; absent canonicalizes as null.
    pub da_challenge_address: Option<[u8; 20]>,
    /// Commitment type tag; absent canonicalizes as null.
    pub da_commitment_type: Option<String>,
    /// Challenge window length; absent canonicalizes as null.
    pub da_challenge_window: Option<u64>,
    /// Resolve window length; absent canonicalizes as null.
    pub da_resolve_window: Option<u64>,
}

/// The rollup configuration: genesis anchors, timing parameters, chain IDs,
/// hard-fork schedule, contract addresses, operator parameters and the
/// optional alternative-DA sub-configuration.
pub struct RollupConfig {
    pub genesis: ChainGenesis,
    pub block_time: u64,
    pub max_sequencer_drift: u64,
    pub seq_window_size: u64,
    pub channel_timeout: u64,
    pub l1_chain_id: u64,
    pub l2_chain_id: u64,
    pub hardforks: HardForkConfig,
    pub batch_inbox_address: [u8; 20],
    pub deposit_contract_address: [u8; 20],
    pub l1_system_config_address: [u8; 20],
    pub protocol_versions_address: [u8; 20],
    pub chain_op_config: ChainOpConfig,
    pub alt_da_config: Option<AltDaConfig>,
}

/// The hard-fork schedule extended with the chain's own activation time.
/// `cel2_time` is deliberately excluded from the canonical serialization:
/// it is not yet part of the on-chain contract.
#[derive(Clone, Copy)]
pub struct ExtendedHardForkConfig {
    pub op_hardfork_config: HardForkConfig,
    pub cel2_time: Option<u64>,
}

/// A rollup configuration together with the extended hard-fork schedule.
pub struct ExtendedRollupConfig {
    pub op_rollup_config: RollupConfig,
    pub hardforks: ExtendedHardForkConfig,
}

/// The EIP-1559 pack: denominator in the low byte, elasticity shifted left
/// eight bits, combined by bitwise or. Absent sub-values default to 0
/// before packing.
pub open spec fn spec_pack_eip1559(denominator: u32, elasticity: u32) -> u64 {
    (denominator as u64) | ((elasticity as u64) << 8)
}

/// The operator-fee pack: scalar in the low 64 bits, constant in the high
/// 64 bits. Absent sub-values default to 0 before packing.
pub open spec fn spec_pack_operator_fee(scalar: u32, constant: u64) -> u128 {
    (scalar as u128) | ((constant as u128) << 64)
}

pub fn pack_eip1559(denominator: Option<u32>, elasticity: Option<u32>) -> (r: u64)
    ensures
        r == spec_pack_eip1559(
            denominator.unwrap_or(0),
            elasticity.unwrap_or(0),
        ),
{
    let d = denominator.unwrap_or(0);
    let e = elasticity.unwrap_or(0);
    (d as u64) | ((e as u64) << 8u64)
}

pub fn pack_operator_fee(scalar: Option<u32>, constant: Option<u64>) -> (r: u128)
    ensures
        r == spec_pack_operator_fee(
            scalar.unwrap_or(0),
            constant.unwrap_or(0),
        ),
{
    let s = scalar.unwrap_or(0);
    let c = constant.unwrap_or(0);
    (s as u128) | ((c as u128) << 64u128)
}

/// The operator-fee pack is the exact sum of its parts: the two fields
/// occupy disjoint bit ranges, so the bitwise or equals
/// `scalar + constant * 2^64`.
pub proof fn lemma_pack_operator_fee_value(scalar: u32, constant: u64)
    ensures
        spec_pack_operator_fee(scalar, constant) == scalar + constant * 0x10000000000000000,
{
    assert((scalar as u128) | ((constant as u128) << 64) == (scalar as u128) + (constant as u128)
        * 0x10000000000000000) by (bit_vector);
}

/// When the denominator fits in the low byte, the EIP-1559 pack is the
/// exact sum `denominator + elasticity * 256`.
pub proof fn lemma_pack_eip1559_value(denominator: u32, elasticity: u32)
    requires
        denominator < 256,
    ensures
        spec_pack_eip1559(denominator, elasticity) == denominator + elasticity * 256,
{
    assert(denominator < 256 ==> ((denominator as u64) | ((elasticity as u64) << 8) == (
    denominator as u64) + (elasticity as u64) * 256)) by (bit_vector);
}

} // verus!
