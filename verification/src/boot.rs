//! The boot commitment: the fixed set of public inputs a proof attests
//! to, assembled from chain-derived facts and the configuration digest,
//! and linearized into the exact byte layout the on-chain verifier
//! decodes.

use vstd::prelude::*;

use crate::config::{ExtendedHardForkConfig, ExtendedRollupConfig, RollupConfig};
use crate::digest::{config_digest, hash_rollup_config};

verus! {

/// The linearized boot commitment is 6 words of 32 bytes.
pub const AGGREGATION_OUTPUTS_SIZE: usize = 192;

/// Boot information supplied by the upstream proof-input assembler,
/// assumed already validated by the proving pipeline.
pub struct BootInfo {
    /// The L1 head reference.
    pub l1_head: [u8; 32],
    /// The agreed pre-state L2 output root.
    pub agreed_l2_output_root: [u8; 32],
    /// The claimed post-state L2 output root.
    pub claimed_l2_output_root: [u8; 32],
    /// The claimed L2 block number.
    pub claimed_l2_block_number: u64,
    /// The rollup configuration the claim was produced under.
    pub rollup_config: RollupConfig,
}

/// The fixed-layout aggregate the on-chain verifier decodes before
/// accepting a proof.
pub struct BootInfoStruct {
    pub l1_head: [u8; 32],
    pub l2_pre_root: [u8; 32],
    pub l2_post_root: [u8; 32],
    pub l2_block_number: u64,
    pub rollup_config_hash: [u8; 32],
}

/// The extension of a rollup configuration used for hashing: the chain's
/// own activation time is pinned to an explicit zero and stays outside
/// the canonical text.
pub open spec fn extended_of(rc: RollupConfig) -> ExtendedRollupConfig {
    ExtendedRollupConfig {
        op_rollup_config: rc,
        hardforks: ExtendedHardForkConfig {
            op_hardfork_config: rc.hardforks,
            cel2_time: Some(0u64),
        },
    }
}

/// The big-endian base-256 digits of a 64-bit value, most significant
/// byte first.
pub open spec fn u64_be(n: u64) -> Seq<u8> {
    seq![
        ((n as nat) / 0x100000000000000 % 0x100) as u8,
        ((n as nat) / 0x1000000000000 % 0x100) as u8,
        ((n as nat) / 0x10000000000 % 0x100) as u8,
        ((n as nat) / 0x100000000 % 0x100) as u8,
        ((n as nat) / 0x1000000 % 0x100) as u8,
        ((n as nat) / 0x10000 % 0x100) as u8,
        ((n as nat) / 0x100 % 0x100) as u8,
        ((n as nat) % 0x100) as u8,
    ]
}

/// The eight big-endian bytes recombine to exactly the value they
/// render: the low eight bytes of the block-number word carry the
/// claimed L2 block number and nothing else.
pub proof fn lemma_u64_be_recombines(n: u64)
    ensures
        (u64_be(n)[0] as nat) * 0x100000000000000 + (u64_be(n)[1] as nat) * 0x1000000000000 + (
        u64_be(n)[2] as nat) * 0x10000000000 + (u64_be(n)[3] as nat) * 0x100000000 + (
        u64_be(n)[4] as nat) * 0x1000000 + (u64_be(n)[5] as nat) * 0x10000 + (u64_be(n)[6] as nat)
            * 0x100 + (u64_be(n)[7] as nat) == n as nat,
{
    let v = n as int;
    let q1 = v / 0x100;
    let q2 = v / 0x10000;
    let q3 = v / 0x1000000;
    let q4 = v / 0x100000000;
    let q5 = v / 0x10000000000;
    let q6 = v / 0x1000000000000;
    let q7 = v / 0x100000000000000;
    vstd::arithmetic::div_mod::lemma_fundamental_div_mod(v, 0x100);
    vstd::arithmetic::div_mod::lemma_div_denominator(v, 0x100, 0x100);
    vstd::arithmetic::div_mod::lemma_fundamental_div_mod(q1, 0x100);
    vstd::arithmetic::div_mod::lemma_div_denominator(v, 0x10000, 0x100);
    vstd::arithmetic::div_mod::lemma_fundamental_div_mod(q2, 0x100);
    vstd::arithmetic::div_mod::lemma_div_denominator(v, 0x1000000, 0x100);
    vstd::arithmetic::div_mod::lemma_fundamental_div_mod(q3, 0x100);
    vstd::arithmetic::div_mod::lemma_div_denominator(v, 0x100000000, 0x100);
    vstd::arithmetic::div_mod::lemma_fundamental_div_mod(q4, 0x100);
    vstd::arithmetic::div_mod::lemma_div_denominator(v, 0x10000000000, 0x100);
    vstd::arithmetic::div_mod::lemma_fundamental_div_mod(q5, 0x100);
    vstd::arithmetic::div_mod::lemma_div_denominator(v, 0x1000000000000, 0x100);
    vstd::arithmetic::div_mod::lemma_fundamental_div_mod(q6, 0x100);
    assert(q7 < 0x100) by (nonlinear_arith)
        requires
            0 <= v < 0x10000000000000000,
            q7 == v / 0x100000000000000,
    ;
    assert(q7 % 0x100 == q7);
}

/// A run of zero bytes.
pub open spec fn zero_bytes(n: nat) -> Seq<u8> {
    Seq::new(n, |i: int| 0u8)
}

/// Appends a byte slice.
fn push_bytes(out: &mut Vec<u8>, b: &[u8])
    ensures
        final(out)@ == old(out)@ + b@,
{
    let mut i: usize = 0;
    while i < b.len()
        invariant
            i <= b@.len(),
            out@ == old(out)@ + b@.take(i as int),
        decreases b@.len() - i,
    {
        out.push(b[i]);
        proof {
            assert(b@.take(i as int + 1) =~= b@.take(i as int).push(b@[i as int]));
            assert(out@ =~= old(out)@ + b@.take(i as int + 1));
        }
        i = i + 1;
    }
    proof {
        assert(b@.take(b@.len() as int) =~= b@);
    }
}

/// Appends `n` zero bytes.
fn push_zeros(out: &mut Vec<u8>, n: usize)
    ensures
        final(out)@ == old(out)@ + zero_bytes(n as nat),
{
    let mut i: usize = 0;
    while i < n
        invariant
            i <= n,
            out@ == old(out)@ + zero_bytes(i as nat),
        decreases n - i,
    {
        out.push(0u8);
        proof {
            assert(zero_bytes(i as nat + 1) =~= zero_bytes(i as nat).push(0u8));
            assert(out@ =~= old(out)@ + zero_bytes(i as nat + 1));
        }
        i = i + 1;
    }
}

/// Appends the 8-byte big-endian rendering of `n`.
fn push_u64_be(out: &mut Vec<u8>, n: u64)
    ensures
        final(out)@ == old(out)@ + u64_be(n),
{
    out.push((n / 0x100000000000000 % 0x100) as u8);
    out.push((n / 0x1000000000000 % 0x100) as u8);
    out.push((n / 0x10000000000 % 0x100) as u8);
    out.push((n / 0x100000000 % 0x100) as u8);
    out.push((n / 0x1000000 % 0x100) as u8);
    out.push((n / 0x10000 % 0x100) as u8);
    out.push((n / 0x100 % 0x100) as u8);
    out.push((n % 0x100) as u8);
    proof {
        assert(out@ =~= old(out)@ + u64_be(n));
    }
}

impl BootInfoStruct {
    /// Assembles the boot commitment: pure and deterministic, hashing the
    /// extended rollup configuration once.
    pub fn assemble(boot_info: BootInfo) -> (r: BootInfoStruct)
        ensures
            r.l1_head == boot_info.l1_head,
            r.l2_pre_root == boot_info.agreed_l2_output_root,
            r.l2_post_root == boot_info.claimed_l2_output_root,
            r.l2_block_number == boot_info.claimed_l2_block_number,
            r.rollup_config_hash@ == config_digest(extended_of(boot_info.rollup_config)),
    {
        let hf = boot_info.rollup_config.hardforks;
        let extended = ExtendedRollupConfig {
            op_rollup_config: boot_info.rollup_config,
            hardforks: ExtendedHardForkConfig { op_hardfork_config: hf, cel2_time: Some(0u64) },
        };
        let rollup_config_hash = hash_rollup_config(&extended);
        BootInfoStruct {
            l1_head: boot_info.l1_head,
            l2_pre_root: boot_info.agreed_l2_output_root,
            l2_post_root: boot_info.claimed_l2_output_root,
            l2_block_number: boot_info.claimed_l2_block_number,
            rollup_config_hash,
        }
    }

    /// The linearization of the commitment in the exact wire layout: six
    /// 32-byte words holding the L1 head, the two output roots, the
    /// right-aligned L2 block number, the configuration digest, and a
    /// reserved all-zero word.
    pub fn abi_encode(&self) -> (out: Vec<u8>)
        ensures
            out@.len() == AGGREGATION_OUTPUTS_SIZE,
            out@ == self.l1_head@ + self.l2_pre_root@ + self.l2_post_root@ + zero_bytes(24)
                + u64_be(self.l2_block_number) + self.rollup_config_hash@ + zero_bytes(32),
            out@.subrange(0, 32) == self.l1_head@,
            out@.subrange(32, 64) == self.l2_pre_root@,
            out@.subrange(64, 96) == self.l2_post_root@,
            forall|i: int| 96 <= i < 120 ==> out@[i] == 0,
            out@.subrange(120, 128) == u64_be(self.l2_block_number),
            out@.subrange(128, 160) == self.rollup_config_hash@,
            forall|i: int| 160 <= i < 192 ==> out@[i] == 0,
    {
        let mut out: Vec<u8> = Vec::new();
        push_bytes(&mut out, self.l1_head.as_slice());
        push_bytes(&mut out, self.l2_pre_root.as_slice());
        push_bytes(&mut out, self.l2_post_root.as_slice());
        push_zeros(&mut out, 24);
        push_u64_be(&mut out, self.l2_block_number);
        push_bytes(&mut out, self.rollup_config_hash.as_slice());
        push_zeros(&mut out, 32);
        proof {
            assert(out@.subrange(0, 32) =~= self.l1_head@);
            assert(out@.subrange(32, 64) =~= self.l2_pre_root@);
            assert(out@.subrange(64, 96) =~= self.l2_post_root@);
            assert(out@.subrange(120, 128) =~= u64_be(self.l2_block_number));
            assert(out@.subrange(128, 160) =~= self.rollup_config_hash@);
        }
        out
    }
}

} // verus!
