use witness_host::boot::{BootInfo, BootInfoStruct, AGGREGATION_OUTPUTS_SIZE};
use witness_host::config::{
    BlockRef, ChainGenesis, ChainOpConfig, ExtendedHardForkConfig, ExtendedRollupConfig,
    HardForkConfig, RollupConfig,
};
use witness_host::digest::hash_rollup_config;
use witness_host::host::{
    da_backed_finalized_l2_block_number, da_backed_safe_l1_block, resolve_safe_l1_head, run_step,
    single_chain_finalized_l2_block_number, RunAction, RunEvent, RunStage, SafeHeadError,
    SafeHeadResolution,
};

fn forks() -> HardForkConfig {
    HardForkConfig {
        regolith_time: None,
        canyon_time: None,
        delta_time: None,
        ecotone_time: None,
        fjord_time: None,
        granite_time: None,
        holocene_time: None,
        isthmus_time: None,
    }
}

fn rollup_config() -> RollupConfig {
    RollupConfig {
        genesis: ChainGenesis {
            l1: BlockRef { hash: [0xaa; 32], number: 15_000_000 },
            l2: BlockRef { hash: [0xbb; 32], number: 0 },
            l2_time: 1_686_068_903,
            system_config: None,
        },
        block_time: 2,
        max_sequencer_drift: 600,
        seq_window_size: 3600,
        channel_timeout: 300,
        l1_chain_id: 1,
        l2_chain_id: 10,
        hardforks: forks(),
        batch_inbox_address: [0x01; 20],
        deposit_contract_address: [0x02; 20],
        l1_system_config_address: [0x03; 20],
        protocol_versions_address: [0x04; 20],
        chain_op_config: ChainOpConfig {
            eip1559_elasticity: 6,
            eip1559_denominator: 50,
            eip1559_denominator_canyon: 250,
        },
        alt_da_config: None,
    }
}

fn boot_info() -> BootInfo {
    BootInfo {
        l1_head: [0x10; 32],
        agreed_l2_output_root: [0x20; 32],
        claimed_l2_output_root: [0x30; 32],
        claimed_l2_block_number: 0x0102030405060708,
        rollup_config: rollup_config(),
    }
}

#[test]
fn linearization_is_192_bytes() {
    let commitment = BootInfoStruct::assemble(boot_info());
    let encoded = commitment.abi_encode();
    assert_eq!(encoded.len(), 192);
    assert_eq!(encoded.len(), AGGREGATION_OUTPUTS_SIZE);
}

#[test]
fn block_number_word_is_right_aligned() {
    let commitment = BootInfoStruct::assemble(boot_info());
    let encoded = commitment.abi_encode();
    assert!(encoded[96..120].iter().all(|b| *b == 0));
    assert_eq!(&encoded[120..128], &[0x01, 0x02, 0x03, 0x04, 0x05, 0x06, 0x07, 0x08]);
}

#[test]
fn word_order_matches_wire_contract() {
    let commitment = BootInfoStruct::assemble(boot_info());
    let encoded = commitment.abi_encode();
    assert_eq!(&encoded[0..32], &[0x10; 32]);
    assert_eq!(&encoded[32..64], &[0x20; 32]);
    assert_eq!(&encoded[64..96], &[0x30; 32]);
    let extended = ExtendedRollupConfig {
        op_rollup_config: rollup_config(),
        hardforks: ExtendedHardForkConfig { op_hardfork_config: forks(), cel2_time: Some(0) },
    };
    let digest = hash_rollup_config(&extended);
    assert_eq!(&encoded[128..160], digest.as_slice());
    assert!(encoded[160..192].iter().all(|b| *b == 0));
}

#[test]
fn assemble_hashes_with_pinned_activation_time() {
    let commitment = BootInfoStruct::assemble(boot_info());
    let extended = ExtendedRollupConfig {
        op_rollup_config: rollup_config(),
        hardforks: ExtendedHardForkConfig { op_hardfork_config: forks(), cel2_time: Some(0) },
    };
    assert_eq!(commitment.rollup_config_hash, hash_rollup_config(&extended));
    assert_eq!(commitment.l2_block_number, 0x0102030405060708);
}

#[test]
fn run_reaches_witness_via_protocol() {
    let (s1, a1) = run_step(RunStage::Init, RunEvent::ChannelsOk).unwrap();
    assert_eq!(a1, RunAction::StartServer);
    let (s2, a2) = run_step(s1, RunEvent::ServerOk).unwrap();
    assert_eq!(a2, RunAction::RunWitness);
    let (s3, a3) = run_step(s2, RunEvent::WitnessOk).unwrap();
    assert_eq!(a3, RunAction::AbortServer);
    let (s4, a4) = run_step(s3, RunEvent::ServerAborted).unwrap();
    assert_eq!(a4, RunAction::ReturnWitness);
    assert_eq!(s4, RunStage::Returned { witness_ok: true });
}

#[test]
fn failed_witness_still_aborts_server() {
    let (s1, _) = run_step(RunStage::Init, RunEvent::ChannelsOk).unwrap();
    let (s2, _) = run_step(s1, RunEvent::ServerOk).unwrap();
    let (s3, a3) = run_step(s2, RunEvent::WitnessFailed).unwrap();
    assert_eq!(a3, RunAction::AbortServer);
    let (s4, a4) = run_step(s3, RunEvent::ServerAborted).unwrap();
    assert_eq!(a4, RunAction::ReturnWitnessError);
    assert_eq!(s4, RunStage::Returned { witness_ok: false });
}

#[test]
fn no_return_before_abort() {
    let (s1, _) = run_step(RunStage::Init, RunEvent::ChannelsOk).unwrap();
    let (s2, _) = run_step(s1, RunEvent::ServerOk).unwrap();
    let (s3, _) = run_step(s2, RunEvent::WitnessFailed).unwrap();
    assert!(run_step(s3, RunEvent::WitnessFailed).is_none());
    assert!(run_step(s3, RunEvent::ChannelsOk).is_none());
}

#[test]
fn setup_failures_abort_the_run() {
    let (s1, a1) = run_step(RunStage::Init, RunEvent::ChannelsFailed).unwrap();
    assert_eq!(s1, RunStage::SetupFailed);
    assert_eq!(a1, RunAction::ReturnSetupError);
    let (s2, _) = run_step(RunStage::Init, RunEvent::ChannelsOk).unwrap();
    let (s3, a3) = run_step(s2, RunEvent::ServerFailed).unwrap();
    assert_eq!(s3, RunStage::SetupFailed);
    assert_eq!(a3, RunAction::ReturnSetupError);
}

#[test]
fn finality_is_bounded_by_da_commitment() {
    assert_eq!(da_backed_finalized_l2_block_number(Some(500), 1_000_000), Some(500));
    assert_eq!(da_backed_finalized_l2_block_number(Some(500), 100), Some(100));
    assert_eq!(da_backed_finalized_l2_block_number(None, 1_000_000), None);
}

#[test]
fn single_chain_finality_is_the_chain_finalized_height() {
    assert_eq!(single_chain_finalized_l2_block_number(Some(42)), Some(42));
    assert_eq!(single_chain_finalized_l2_block_number(None), None);
}

#[test]
fn safe_head_fallback_is_observable() {
    assert_eq!(
        resolve_safe_l1_head(Some(900), 880, true),
        Ok(SafeHeadResolution { l1_block_number: 900, used_fallback: false })
    );
    assert_eq!(
        resolve_safe_l1_head(None, 880, true),
        Ok(SafeHeadResolution { l1_block_number: 880, used_fallback: true })
    );
    assert_eq!(resolve_safe_l1_head(None, 880, false), Err(SafeHeadError::SafeDbUnavailable));
}

#[test]
fn da_backed_safe_head_is_bounded_below_by_commitment() {
    assert_eq!(da_backed_safe_l1_block(1000, 900), 1000);
    assert_eq!(da_backed_safe_l1_block(800, 900), 900);
    assert_eq!(da_backed_safe_l1_block(900, 900), 900);
}
