//! The configuration digest: SHA-256 over the canonical configuration
//! text. The digest, not the text, is what the on-chain verifier holds,
//! so the hash choice is part of the wire contract.

use vstd::prelude::*;

use crate::canon::canon;
use crate::canon::canonical_config_text;
use crate::config::ExtendedRollupConfig;

verus! {

/// The SHA-256 digest of the UTF-8 encoding of a character sequence.
pub uninterp spec fn sha256_of(s: Seq<char>) -> Seq<u8>;

/// Relies on sha2's `Sha256`: the digest is a pure function of the input
/// bytes and is exactly 32 bytes long.
#[verifier::external_body]
fn sha256(s: &str) -> (r: [u8; 32])
    ensures
        r@ == sha256_of(s@),
{
    let digest = <sha2::Sha256 as sha2::Digest>::digest(s.as_bytes());
    let mut out = [0u8; 32];
    out.copy_from_slice(&digest);
    out
}

/// The digest of a rollup configuration: SHA-256 of its canonical text.
pub open spec fn config_digest(c: ExtendedRollupConfig) -> Seq<u8> {
    sha256_of(canon(c))
}

/// Hashes the canonical serialization of the rollup configuration with
/// SHA-256. The rollup config is never unrolled on-chain, so the only
/// constraint on the hash choice is that it stays consistent with the one
/// the contract holds.
pub fn hash_rollup_config(config: &ExtendedRollupConfig) -> (r: [u8; 32])
    ensures
        r@ == config_digest(*config),
        r@.len() == 32,
{
    let text = canonical_config_text(config);
    sha256(text.as_str())
}

/// Hashing is deterministic: any two configurations with the same
/// canonical text have the same digest, however and in whatever order
/// their fields were populated.
pub proof fn lemma_digest_deterministic(c1: ExtendedRollupConfig, c2: ExtendedRollupConfig)
    requires
        canon(c1) == canon(c2),
    ensures
        config_digest(c1) == config_digest(c2),
{
}

} // verus!
