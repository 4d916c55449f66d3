use witness_host::canon::canonical_config_text;
use witness_host::config::{
    AltDaConfig, BlockRef, ChainGenesis, ChainOpConfig, ExtendedHardForkConfig,
    ExtendedRollupConfig, HardForkConfig, RollupConfig, SystemConfig,
};
use witness_host::digest::hash_rollup_config;

fn forks_all_zero() -> HardForkConfig {
    HardForkConfig {
        regolith_time: None,
        canyon_time: None,
        delta_time: None,
        ecotone_time: None,
        fjord_time: None,
        granite_time: None,
        holocene_time: None,
        isthmus_time: None,
    }
}

fn minimal_config() -> ExtendedRollupConfig {
    ExtendedRollupConfig {
        op_rollup_config: RollupConfig {
            genesis: ChainGenesis {
                l1: BlockRef { hash: [0x11; 32], number: 100 },
                l2: BlockRef { hash: [0x22; 32], number: 0 },
                l2_time: 1_700_000_000,
                system_config: None,
            },
            block_time: 2,
            max_sequencer_drift: 600,
            seq_window_size: 3600,
            channel_timeout: 300,
            l1_chain_id: 1,
            l2_chain_id: 10,
            hardforks: forks_all_zero(),
            batch_inbox_address: {
                let mut a = [0u8; 20];
                a[0] = 0xff;
                a[19] = 0x10;
                a
            },
            deposit_contract_address: {
                let mut a = [0u8; 20];
                a[19] = 0xbe;
                a
            },
            l1_system_config_address: {
                let mut a = [0u8; 20];
                a[0] = 0x01;
                a
            },
            protocol_versions_address: [0u8; 20],
            chain_op_config: ChainOpConfig {
                eip1559_elasticity: 6,
                eip1559_denominator: 50,
                eip1559_denominator_canyon: 250,
            },
            alt_da_config: None,
        },
        hardforks: ExtendedHardForkConfig { op_hardfork_config: forks_all_zero(), cel2_time: None },
    }
}

fn full_config() -> ExtendedRollupConfig {
    let mut c = minimal_config();
    c.op_rollup_config.genesis.system_config = Some(SystemConfig {
        batcher_address: {
            let mut a = [0u8; 20];
            a[19] = 0x42;
            a
        },
        overhead: [0u8; 32],
        scalar: {
            let mut s = [0u8; 32];
            s[31] = 0x0a;
            s
        },
        gas_limit: 30_000_000,
        eip1559_denominator: Some(5),
        eip1559_elasticity: Some(2),
        operator_fee_scalar: Some(7),
        operator_fee_constant: Some(3),
    });
    c.op_rollup_config.alt_da_config = Some(AltDaConfig {
        da_challenge_address: Some({
            let mut a = [0u8; 20];
            a[19] = 0x99;
            a
        }),
        da_commitment_type: Some(String::from("KeccakCommitment")),
        da_challenge_window: Some(160),
        da_resolve_window: Some(160),
    });
    c.op_rollup_config.hardforks.regolith_time = Some(0);
    c.op_rollup_config.hardforks.canyon_time = Some(1_704_992_401);
    c
}

#[test]
fn end_to_end_minimal_text() {
    let c = minimal_config();
    let text = canonical_config_text(&c);
    assert!(text.contains("\"l1_chain_id\": 1"));
    assert!(text.contains("\"l2_chain_id\": 10"));
    assert!(text.contains("\"regolith_time\": 0"));
    assert!(text.contains("\"system_config\": null"));
    assert!(text.contains("\"alt_da\": null"));
    let d1 = hash_rollup_config(&c);
    let d2 = hash_rollup_config(&minimal_config());
    assert_eq!(d1, d2);
}

#[test]
fn hashing_is_deterministic() {
    let c = full_config();
    assert_eq!(hash_rollup_config(&c), hash_rollup_config(&c));
    assert_eq!(hash_rollup_config(&c), hash_rollup_config(&full_config()));
}

#[test]
fn digest_matches_sha256_of_text() {
    let c = full_config();
    let text = canonical_config_text(&c);
    let expected = <sha2::Sha256 as sha2::Digest>::digest(text.as_bytes());
    assert_eq!(hash_rollup_config(&c).as_slice(), expected.as_slice());
}

#[test]
fn fork_timestamp_changes_digest() {
    let c1 = minimal_config();
    let mut c2 = minimal_config();
    c2.op_rollup_config.hardforks.regolith_time = Some(12345);
    assert_ne!(hash_rollup_config(&c1), hash_rollup_config(&c2));
}

#[test]
fn chain_id_changes_digest() {
    let c1 = minimal_config();
    let mut c2 = minimal_config();
    c2.op_rollup_config.l2_chain_id = 11;
    assert_ne!(hash_rollup_config(&c1), hash_rollup_config(&c2));
}

#[test]
fn absent_fork_equals_explicit_zero() {
    let c1 = minimal_config();
    let mut c2 = minimal_config();
    c2.op_rollup_config.hardforks.regolith_time = Some(0);
    c2.op_rollup_config.hardforks.isthmus_time = Some(0);
    assert_eq!(canonical_config_text(&c1), canonical_config_text(&c2));
    assert_eq!(hash_rollup_config(&c1), hash_rollup_config(&c2));
}

#[test]
fn extended_activation_time_is_excluded() {
    let c1 = minimal_config();
    let mut c2 = minimal_config();
    c2.hardforks.cel2_time = Some(7777);
    assert_eq!(canonical_config_text(&c1), canonical_config_text(&c2));
}

#[test]
fn eip1559_pack_renders_expected_hex() {
    let c = full_config();
    let text = canonical_config_text(&c);
    assert!(text.contains("\"eip1559Params\": \"0x0000000000000205\""));
}

#[test]
fn operator_fee_pack_renders_expected_hex() {
    let c = full_config();
    let text = canonical_config_text(&c);
    let key = "\"operatorFeeParams\": \"0x";
    let start = text.find(key).expect("operator fee key present") + key.len();
    let digits = &text[start..start + 64];
    assert_eq!(&digits[48..64], "0000000000000007");
    assert_eq!(&digits[32..48], "0000000000000003");
    assert_eq!(&digits[0..32], "00000000000000000000000000000000");
}

#[test]
fn packed_fields_default_to_zero() {
    let mut c = full_config();
    let sc = c.op_rollup_config.genesis.system_config.as_mut().unwrap();
    sc.eip1559_denominator = None;
    sc.eip1559_elasticity = None;
    sc.operator_fee_scalar = None;
    sc.operator_fee_constant = None;
    let text = canonical_config_text(&c);
    assert!(text.contains("\"eip1559Params\": \"0x0000000000000000\""));
    let zeros = "0".repeat(64);
    let expected = format!("\"operatorFeeParams\": \"0x{}\"", zeros);
    assert!(text.contains(&expected));
}

#[test]
fn addresses_render_minimal_hex() {
    let c = minimal_config();
    let text = canonical_config_text(&c);
    assert!(text.contains(
        "\"batch_inbox_address\": \"0xff00000000000000000000000000000000000010\""
    ));
    assert!(text.contains("\"deposit_contract_address\": \"0xbe\""));
    assert!(text.contains("\"l1_system_config_address\": \"0x100000000000000000000000000000000000000\""));
    assert!(text.contains("\"protocol_versions_address\": \"0x0\""));
}

#[test]
fn hashes_render_full_width() {
    let c = minimal_config();
    let text = canonical_config_text(&c);
    assert!(text.contains(
        "\"hash\": \"0x1111111111111111111111111111111111111111111111111111111111111111\""
    ));
    assert!(text.contains(
        "\"hash\": \"0x2222222222222222222222222222222222222222222222222222222222222222\""
    ));
}

#[test]
fn commitment_type_string_is_escaped() {
    let mut c = full_config();
    c.op_rollup_config.alt_da_config.as_mut().unwrap().da_commitment_type =
        Some(String::from("a\"b\\c\nd"));
    let text = canonical_config_text(&c);
    assert!(text.contains("\"da_commitment_type\": \"a\\\"b\\\\c\\nd\""));
}

fn num(v: u64) -> serde_json::Value {
    serde_json::Value::Number(serde_json::Number::from(v))
}

fn s(v: &str) -> serde_json::Value {
    serde_json::Value::String(String::from(v))
}

/// Rebuilds the same document with serde_json's own pretty printer and
/// sorted object keys; the canonical text must match byte for byte.
#[test]
fn matches_serde_json_pretty_printing() {
    let c = full_config();

    let mut l1 = serde_json::Map::new();
    l1.insert(
        String::from("hash"),
        s("0x1111111111111111111111111111111111111111111111111111111111111111"),
    );
    l1.insert(String::from("number"), num(100));
    let mut l2 = serde_json::Map::new();
    l2.insert(
        String::from("hash"),
        s("0x2222222222222222222222222222222222222222222222222222222222222222"),
    );
    l2.insert(String::from("number"), num(0));

    let mut sc = serde_json::Map::new();
    sc.insert(String::from("batcherAddr"), s("0x42"));
    sc.insert(String::from("eip1559Params"), s("0x0000000000000205"));
    sc.insert(String::from("gasLimit"), num(30_000_000));
    sc.insert(
        String::from("operatorFeeParams"),
        s(&format!("0x{:064x}", 7u128 | (3u128 << 64))),
    );
    sc.insert(
        String::from("overhead"),
        s("0x0000000000000000000000000000000000000000000000000000000000000000"),
    );
    sc.insert(
        String::from("scalar"),
        s("0x000000000000000000000000000000000000000000000000000000000000000a"),
    );

    let mut genesis = serde_json::Map::new();
    genesis.insert(String::from("l1"), serde_json::Value::Object(l1));
    genesis.insert(String::from("l2"), serde_json::Value::Object(l2));
    genesis.insert(String::from("l2_time"), num(1_700_000_000));
    genesis.insert(String::from("system_config"), serde_json::Value::Object(sc));

    let mut chain_op = serde_json::Map::new();
    chain_op.insert(String::from("eip1559Denominator"), num(50));
    chain_op.insert(String::from("eip1559DenominatorCanyon"), num(250));
    chain_op.insert(String::from("eip1559Elasticity"), num(6));

    let mut alt_da = serde_json::Map::new();
    alt_da.insert(String::from("da_challenge_contract_address"), s("0x99"));
    alt_da.insert(String::from("da_challenge_window"), num(160));
    alt_da.insert(String::from("da_commitment_type"), s("KeccakCommitment"));
    alt_da.insert(String::from("da_resolve_window"), num(160));

    let mut top = serde_json::Map::new();
    top.insert(String::from("alt_da"), serde_json::Value::Object(alt_da));
    top.insert(
        String::from("batch_inbox_address"),
        s("0xff00000000000000000000000000000000000010"),
    );
    top.insert(String::from("block_time"), num(2));
    top.insert(String::from("canyon_time"), num(1_704_992_401));
    top.insert(String::from("chain_op_config"), serde_json::Value::Object(chain_op));
    top.insert(String::from("channel_timeout"), num(300));
    top.insert(String::from("delta_time"), num(0));
    top.insert(String::from("deposit_contract_address"), s("0xbe"));
    top.insert(String::from("ecotone_time"), num(0));
    top.insert(String::from("fjord_time"), num(0));
    top.insert(String::from("genesis"), serde_json::Value::Object(genesis));
    top.insert(String::from("granite_time"), num(0));
    top.insert(String::from("holocene_time"), num(0));
    top.insert(String::from("isthmus_time"), num(0));
    top.insert(String::from("l1_chain_id"), num(1));
    top.insert(
        String::from("l1_system_config_address"),
        s("0x100000000000000000000000000000000000000"),
    );
    top.insert(String::from("l2_chain_id"), num(10));
    top.insert(String::from("max_sequencer_drift"), num(600));
    top.insert(
        String::from("protocol_versions_address"),
        s("0x0"),
    );
    top.insert(String::from("regolith_time"), num(0));
    top.insert(String::from("seq_window_size"), num(3600));

    let expected =
        serde_json::to_string_pretty(&serde_json::Value::Object(top)).expect("serializes");
    let actual = canonical_config_text(&c);
    assert_eq!(actual, expected);
}
