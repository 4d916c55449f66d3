//! The canonical textual form of a rollup configuration: a pretty-printed
//! JSON object with alphabetically ordered keys, two-space indentation, and
//! exact hexadecimal field widths. The text is a wire format: it is the
//! exact input of the configuration digest that an on-chain verifier
//! re-derives, so every byte of it is specified here.

use vstd::prelude::*;
use vstd::string::*;

use crate::config::{
    AltDaConfig, ChainGenesis, ChainOpConfig, ExtendedRollupConfig, SystemConfig, pack_eip1559,
    pack_operator_fee, spec_pack_eip1559, spec_pack_operator_fee,
};
use crate::text::{
    append_bytes_hex, append_dec, append_hex16, append_hex64, append_min_hex, bytes_hex, dec_of,
    empty_string, hex_char, hex_char_of, hex_pad, min_hex, push_char,
};

verus! {

/// The escape of one character inside a JSON string: quote and backslash
/// are escaped, control characters take their short escapes or `\u00XX`,
/// and every other character stands as itself.
pub open spec fn esc_char(c: char) -> Seq<char> {
    if c == '"' {
        seq!['\\', '"']
    } else if c == '\\' {
        seq!['\\', '\\']
    } else if c as u32 == 8 {
        seq!['\\', 'b']
    } else if c as u32 == 9 {
        seq!['\\', 't']
    } else if c as u32 == 10 {
        seq!['\\', 'n']
    } else if c as u32 == 12 {
        seq!['\\', 'f']
    } else if c as u32 == 13 {
        seq!['\\', 'r']
    } else if (c as u32) < 32 {
        seq!['\\', 'u', '0', '0', hex_char((c as u32 / 16) as u8), hex_char((c as u32 % 16) as u8)]
    } else {
        seq![c]
    }
}

/// A character sequence escaped for inclusion in a JSON string literal.
pub open spec fn json_escape(s: Seq<char>) -> Seq<char>
    decreases s.len(),
{
    if s.len() == 0 {
        Seq::empty()
    } else {
        esc_char(s[0]) + json_escape(s.drop_first())
    }
}

pub proof fn lemma_json_escape_snoc(s: Seq<char>, i: int)
    requires
        0 <= i < s.len(),
    ensures
        json_escape(s.take(i + 1)) =~= json_escape(s.take(i)) + esc_char(s[i]),
    decreases i,
{
    if i == 0 {
        assert(s.take(1).len() == 1);
        assert(s.take(1)[0] == s[0]);
        assert(s.take(1).drop_first() =~= Seq::<char>::empty());
        assert(json_escape(Seq::<char>::empty()) =~= Seq::<char>::empty());
        assert(s.take(0) =~= Seq::<char>::empty());
        assert(json_escape(s.take(1)) == esc_char(s[0]) + json_escape(s.take(1).drop_first()));
    } else {
        assert(s.take(i + 1).drop_first() =~= s.drop_first().take(i));
        assert(s.take(i).drop_first() =~= s.drop_first().take(i - 1));
        lemma_json_escape_snoc(s.drop_first(), i - 1);
        assert(s.take(i + 1)[0] == s[0]);
        assert(s.take(i)[0] == s[0]);
        assert(s.drop_first()[i - 1] == s[i]);
        assert(json_escape(s.take(i + 1)) == esc_char(s[0]) + json_escape(
            s.take(i + 1).drop_first(),
        ));
        assert(json_escape(s.take(i)) == esc_char(s[0]) + json_escape(s.take(i).drop_first()));
    }
}

/// Appends the JSON escape of every character of `v`.
pub fn append_json_escaped(s: &mut String, v: &str)
    ensures
        final(s)@ == old(s)@ + json_escape(v@),
{
    let n = v.unicode_len();
    let mut i: usize = 0;
    while i < n
        invariant
            n == v@.len(),
            i <= n,
            s@ == old(s)@ + json_escape(v@.take(i as int)),
        decreases n - i,
    {
        let c = v.get_char(i);
        let cu = c as u32;
        if c == '"' {
            s.append("\\\"");
            proof {
                reveal_strlit("\\\"");
                assert("\\\""@ =~= esc_char(c));
            }
        } else if c == '\\' {
            s.append("\\\\");
            proof {
                reveal_strlit("\\\\");
                assert("\\\\"@ =~= esc_char(c));
            }
        } else if cu == 8 {
            s.append("\\b");
            proof {
                reveal_strlit("\\b");
                assert("\\b"@ =~= esc_char(c));
            }
        } else if cu == 9 {
            s.append("\\t");
            proof {
                reveal_strlit("\\t");
                assert("\\t"@ =~= esc_char(c));
            }
        } else if cu == 10 {
            s.append("\\n");
            proof {
                reveal_strlit("\\n");
                assert("\\n"@ =~= esc_char(c));
            }
        } else if cu == 12 {
            s.append("\\f");
            proof {
                reveal_strlit("\\f");
                assert("\\f"@ =~= esc_char(c));
            }
        } else if cu == 13 {
            s.append("\\r");
            proof {
                reveal_strlit("\\r");
                assert("\\r"@ =~= esc_char(c));
            }
        } else if cu < 32 {
            s.append("\\u00");
            push_char(s, hex_char_of((cu / 16) as u8));
            push_char(s, hex_char_of((cu % 16) as u8));
            proof {
                reveal_strlit("\\u00");
                assert("\\u00"@.push(hex_char((cu / 16) as u8)).push(hex_char((cu % 16) as u8))
                    =~= esc_char(c));
            }
        } else {
            push_char(s, c);
            proof {
                assert(old(s)@ + json_escape(v@.take(i as int)) + seq![c] =~= old(s)@ + (
                json_escape(v@.take(i as int)) + esc_char(c)));
            }
        }
        proof {
            lemma_json_escape_snoc(v@, i as int);
            assert(s@ =~= old(s)@ + json_escape(v@.take(i as int + 1)));
        }
        i = i + 1;
    }
    proof {
        assert(v@.take(v@.len() as int) =~= v@);
    }
}

/// A fork activation value: an absent timestamp canonicalizes as 0.
pub open spec fn fork_val(o: Option<u64>) -> nat {
    o.unwrap_or(0) as nat
}

/// The canonical text of an optional number: `null` when absent.
pub open spec fn opt_num_text(o: Option<u64>) -> Seq<char> {
    match o {
        Option::None => "null"@,
        Option::Some(v) => dec_of(v as nat),
    }
}

/// The canonical text of an optional address: `null` when absent, the
/// quoted minimal hexadecimal form otherwise.
pub open spec fn opt_addr_text(o: Option<[u8; 20]>) -> Seq<char> {
    match o {
        Option::None => "null"@,
        Option::Some(ad) => "\"0x"@ + min_hex(ad@) + "\""@,
    }
}

/// The canonical text of an optional string: `null` when absent, the
/// escaped and quoted contents otherwise.
pub open spec fn opt_string_text(o: Option<String>) -> Seq<char> {
    match o {
        Option::None => "null"@,
        Option::Some(t) => "\""@ + json_escape(t@) + "\""@,
    }
}

/// The canonical text of the chain operator parameters.
pub open spec fn chain_op_text(c: ChainOpConfig) -> Seq<char> {
    "{\n    \"eip1559Denominator\": "@ + dec_of(c.eip1559_denominator as nat)
        + ",\n    \"eip1559DenominatorCanyon\": "@ + dec_of(c.eip1559_denominator_canyon as nat)
        + ",\n    \"eip1559Elasticity\": "@ + dec_of(c.eip1559_elasticity as nat) + "\n  }"@
}

/// The canonical text of the optional genesis system configuration.
pub open spec fn system_config_text(o: Option<SystemConfig>) -> Seq<char> {
    match o {
        Option::None => "null"@,
        Option::Some(sc) => "{\n      \"batcherAddr\": \"0x"@ + min_hex(sc.batcher_address@)
            + "\",\n      \"eip1559Params\": \"0x"@ + hex_pad(
            spec_pack_eip1559(sc.eip1559_denominator.unwrap_or(0), sc.eip1559_elasticity.unwrap_or(0)) as nat,
            16,
        ) + "\",\n      \"gasLimit\": "@ + dec_of(sc.gas_limit as nat)
            + ",\n      \"operatorFeeParams\": \"0x"@ + hex_pad(
            spec_pack_operator_fee(sc.operator_fee_scalar.unwrap_or(0), sc.operator_fee_constant.unwrap_or(0)) as nat,
            64,
        ) + "\",\n      \"overhead\": \"0x"@ + bytes_hex(sc.overhead@)
            + "\",\n      \"scalar\": \"0x"@ + bytes_hex(sc.scalar@) + "\"\n    }"@,
    }
}

/// The canonical text of the genesis anchors.
pub open spec fn genesis_text(g: ChainGenesis) -> Seq<char> {
    "{\n    \"l1\": {\n      \"hash\": \"0x"@ + bytes_hex(g.l1.hash@) + "\",\n      \"number\": "@
        + dec_of(g.l1.number as nat) + "\n    },\n    \"l2\": {\n      \"hash\": \"0x"@ + bytes_hex(
        g.l2.hash@,
    ) + "\",\n      \"number\": "@ + dec_of(g.l2.number as nat) + "\n    },\n    \"l2_time\": "@
        + dec_of(g.l2_time as nat) + ",\n    \"system_config\": "@ + system_config_text(
        g.system_config,
    ) + "\n  }"@
}

/// The canonical text of the optional alternative-DA sub-configuration.
pub open spec fn alt_da_text(o: Option<AltDaConfig>) -> Seq<char> {
    match o {
        Option::None => "null"@,
        Option::Some(a) => "{\n    \"da_challenge_contract_address\": "@ + opt_addr_text(
            a.da_challenge_address,
        ) + ",\n    \"da_challenge_window\": "@ + opt_num_text(a.da_challenge_window)
            + ",\n    \"da_commitment_type\": "@ + opt_string_text(a.da_commitment_type)
            + ",\n    \"da_resolve_window\": "@ + opt_num_text(a.da_resolve_window) + "\n  }"@,
    }
}

/// The canonical text up to and including the `regolith_time` key: every
/// field but the last two.
pub open spec fn canon_head(c: ExtendedRollupConfig) -> Seq<char> {
    "{\n  \"alt_da\": "@ + alt_da_text(c.op_rollup_config.alt_da_config)
        + ",\n  \"batch_inbox_address\": \"0x"@ + min_hex(c.op_rollup_config.batch_inbox_address@)
        + "\",\n  \"block_time\": "@ + dec_of(c.op_rollup_config.block_time as nat)
        + ",\n  \"canyon_time\": "@ + dec_of(fork_val(c.op_rollup_config.hardforks.canyon_time))
        + ",\n  \"chain_op_config\": "@ + chain_op_text(c.op_rollup_config.chain_op_config)
        + ",\n  \"channel_timeout\": "@ + dec_of(c.op_rollup_config.channel_timeout as nat)
        + ",\n  \"delta_time\": "@ + dec_of(fork_val(c.op_rollup_config.hardforks.delta_time))
        + ",\n  \"deposit_contract_address\": \"0x"@ + min_hex(
        c.op_rollup_config.deposit_contract_address@,
    ) + "\",\n  \"ecotone_time\": "@ + dec_of(fork_val(c.op_rollup_config.hardforks.ecotone_time))
        + ",\n  \"fjord_time\": "@ + dec_of(fork_val(c.op_rollup_config.hardforks.fjord_time))
        + ",\n  \"genesis\": "@ + genesis_text(c.op_rollup_config.genesis)
        + ",\n  \"granite_time\": "@ + dec_of(fork_val(c.op_rollup_config.hardforks.granite_time))
        + ",\n  \"holocene_time\": "@ + dec_of(
        fork_val(c.op_rollup_config.hardforks.holocene_time),
    ) + ",\n  \"isthmus_time\": "@ + dec_of(fork_val(c.op_rollup_config.hardforks.isthmus_time))
        + ",\n  \"l1_chain_id\": "@ + dec_of(c.op_rollup_config.l1_chain_id as nat)
        + ",\n  \"l1_system_config_address\": \"0x"@ + min_hex(
        c.op_rollup_config.l1_system_config_address@,
    ) + "\",\n  \"l2_chain_id\": "@ + dec_of(c.op_rollup_config.l2_chain_id as nat)
        + ",\n  \"max_sequencer_drift\": "@ + dec_of(c.op_rollup_config.max_sequencer_drift as nat)
        + ",\n  \"protocol_versions_address\": \"0x"@ + min_hex(
        c.op_rollup_config.protocol_versions_address@,
    ) + "\",\n  \"regolith_time\": "@
}

/// The canonical text of a rollup configuration: one JSON object, keys in
/// alphabetical order, two-space indentation. The extended fork schedule's
/// own activation time is deliberately not part of this text.
pub open spec fn canon(c: ExtendedRollupConfig) -> Seq<char> {
    canon_head(c) + dec_of(fork_val(c.op_rollup_config.hardforks.regolith_time))
        + ",\n  \"seq_window_size\": "@ + dec_of(c.op_rollup_config.seq_window_size as nat) + "\n}"@
}

/// The canonical inputs of two configurations agree everywhere except
/// possibly in how absent hard-fork timestamps are represented.
pub open spec fn same_canonical_fields(c1: ExtendedRollupConfig, c2: ExtendedRollupConfig) -> bool {
    &&& c1.op_rollup_config.genesis == c2.op_rollup_config.genesis
    &&& c1.op_rollup_config.block_time == c2.op_rollup_config.block_time
    &&& c1.op_rollup_config.max_sequencer_drift == c2.op_rollup_config.max_sequencer_drift
    &&& c1.op_rollup_config.seq_window_size == c2.op_rollup_config.seq_window_size
    &&& c1.op_rollup_config.channel_timeout == c2.op_rollup_config.channel_timeout
    &&& c1.op_rollup_config.l1_chain_id == c2.op_rollup_config.l1_chain_id
    &&& c1.op_rollup_config.l2_chain_id == c2.op_rollup_config.l2_chain_id
    &&& c1.op_rollup_config.batch_inbox_address == c2.op_rollup_config.batch_inbox_address
    &&& c1.op_rollup_config.deposit_contract_address
        == c2.op_rollup_config.deposit_contract_address
    &&& c1.op_rollup_config.l1_system_config_address
        == c2.op_rollup_config.l1_system_config_address
    &&& c1.op_rollup_config.protocol_versions_address
        == c2.op_rollup_config.protocol_versions_address
    &&& c1.op_rollup_config.chain_op_config == c2.op_rollup_config.chain_op_config
    &&& c1.op_rollup_config.alt_da_config == c2.op_rollup_config.alt_da_config
}

/// The defaulted values of all hard-fork timestamps agree.
pub open spec fn same_fork_vals(c1: ExtendedRollupConfig, c2: ExtendedRollupConfig) -> bool {
    &&& fork_val(c1.op_rollup_config.hardforks.regolith_time) == fork_val(
        c2.op_rollup_config.hardforks.regolith_time,
    )
    &&& same_fork_vals_but_regolith(c1, c2)
}

/// The defaulted values of every hard-fork timestamp except
/// `regolith_time` agree.
pub open spec fn same_fork_vals_but_regolith(
    c1: ExtendedRollupConfig,
    c2: ExtendedRollupConfig,
) -> bool {
    &&& fork_val(c1.op_rollup_config.hardforks.canyon_time) == fork_val(
        c2.op_rollup_config.hardforks.canyon_time,
    )
    &&& fork_val(c1.op_rollup_config.hardforks.delta_time) == fork_val(
        c2.op_rollup_config.hardforks.delta_time,
    )
    &&& fork_val(c1.op_rollup_config.hardforks.ecotone_time) == fork_val(
        c2.op_rollup_config.hardforks.ecotone_time,
    )
    &&& fork_val(c1.op_rollup_config.hardforks.fjord_time) == fork_val(
        c2.op_rollup_config.hardforks.fjord_time,
    )
    &&& fork_val(c1.op_rollup_config.hardforks.granite_time) == fork_val(
        c2.op_rollup_config.hardforks.granite_time,
    )
    &&& fork_val(c1.op_rollup_config.hardforks.holocene_time) == fork_val(
        c2.op_rollup_config.hardforks.holocene_time,
    )
    &&& fork_val(c1.op_rollup_config.hardforks.isthmus_time) == fork_val(
        c2.op_rollup_config.hardforks.isthmus_time,
    )
}

/// Default equivalence: a configuration with an explicitly-zero hard-fork
/// timestamp and one with that timestamp entirely absent canonicalize
/// identically — the canonical text depends on the fork schedule only
/// through its defaulted values, and never on the extended schedule's own
/// activation time.
pub proof fn lemma_fork_default_equivalence(c1: ExtendedRollupConfig, c2: ExtendedRollupConfig)
    requires
        same_canonical_fields(c1, c2),
        same_fork_vals(c1, c2),
    ensures
        canon(c1) == canon(c2),
{
}

/// A sequence equation with equal framing determines its middle piece.
proof fn lemma_mid_injective(
    p: Seq<char>,
    a: Seq<char>,
    b: Seq<char>,
    t1: Seq<char>,
    x: Seq<char>,
    t2: Seq<char>,
)
    requires
        p + a + t1 + x + t2 == p + b + t1 + x + t2,
    ensures
        a == b,
{
    assert((p + a + t1 + x + t2).len() == p.len() + a.len() + t1.len() + x.len() + t2.len());
    assert((p + b + t1 + x + t2).len() == p.len() + b.len() + t1.len() + x.len() + t2.len());
    assert(a.len() == b.len());
    assert forall|i: int| 0 <= i < a.len() implies a[i] == b[i] by {
        assert((p + a + t1 + x + t2)[p.len() + i] == a[i]);
        assert((p + b + t1 + x + t2)[p.len() + i] == b[i]);
    }
    assert(a =~= b);
}

/// Sensitivity, shown for a representative canonicalized field: two
/// configurations that agree everywhere except in the defaulted
/// `regolith_time` value have different canonical texts, so their
/// digests are derived from different hash inputs.
#[verifier::rlimit(100)]
pub proof fn lemma_canon_sensitive_regolith(c1: ExtendedRollupConfig, c2: ExtendedRollupConfig)
    requires
        same_canonical_fields(c1, c2),
        same_fork_vals_but_regolith(c1, c2),
        fork_val(c1.op_rollup_config.hardforks.regolith_time) != fork_val(
            c2.op_rollup_config.hardforks.regolith_time,
        ),
    ensures
        canon(c1) != canon(c2),
{
    assert(canon_head(c1) == canon_head(c2));
    if canon(c1) == canon(c2) {
        lemma_mid_injective(
            canon_head(c1),
            dec_of(fork_val(c1.op_rollup_config.hardforks.regolith_time)),
            dec_of(fork_val(c2.op_rollup_config.hardforks.regolith_time)),
            ",\n  \"seq_window_size\": "@,
            dec_of(c1.op_rollup_config.seq_window_size as nat),
            "\n}"@,
        );
        crate::text::lemma_dec_of_injective(
            fork_val(c1.op_rollup_config.hardforks.regolith_time),
            fork_val(c2.op_rollup_config.hardforks.regolith_time),
        );
        assert(false);
    }
}

/// Appends the decimal rendering of a fork activation, defaulting to 0.
fn append_fork(s: &mut String, o: Option<u64>)
    ensures
        final(s)@ == old(s)@ + dec_of(fork_val(o)),
{
    append_dec(s, o.unwrap_or(0));
}

fn opt_num_part(o: &Option<u64>) -> (r: String)
    ensures
        r@ == opt_num_text(*o),
{
    match o {
        Option::None => String::from_str("null"),
        Option::Some(v) => {
            let mut r = empty_string();
            append_dec(&mut r, *v);
            r
        },
    }
}

fn opt_addr_part(o: &Option<[u8; 20]>) -> (r: String)
    ensures
        r@ == opt_addr_text(*o),
{
    match o {
        Option::None => String::from_str("null"),
        Option::Some(ad) => {
            let mut r = String::from_str("\"0x");
            append_min_hex(&mut r, ad.as_slice());
            r.append("\"");
            r
        },
    }
}

fn opt_string_part(o: &Option<String>) -> (r: String)
    ensures
        r@ == opt_string_text(*o),
{
    match o {
        Option::None => String::from_str("null"),
        Option::Some(t) => {
            let mut r = String::from_str("\"");
            append_json_escaped(&mut r, t.as_str());
            r.append("\"");
            r
        },
    }
}

fn chain_op_part(c: &ChainOpConfig) -> (r: String)
    ensures
        r@ == chain_op_text(*c),
{
    let mut r = String::from_str("{\n    \"eip1559Denominator\": ");
    append_dec(&mut r, c.eip1559_denominator);
    r.append(",\n    \"eip1559DenominatorCanyon\": ");
    append_dec(&mut r, c.eip1559_denominator_canyon);
    r.append(",\n    \"eip1559Elasticity\": ");
    append_dec(&mut r, c.eip1559_elasticity);
    r.append("\n  }");
    r
}

fn system_config_part(o: &Option<SystemConfig>) -> (r: String)
    ensures
        r@ == system_config_text(*o),
{
    match o {
        Option::None => String::from_str("null"),
        Option::Some(sc) => {
            let mut r = String::from_str("{\n      \"batcherAddr\": \"0x");
            append_min_hex(&mut r, sc.batcher_address.as_slice());
            r.append("\",\n      \"eip1559Params\": \"0x");
            append_hex16(&mut r, pack_eip1559(sc.eip1559_denominator, sc.eip1559_elasticity));
            r.append("\",\n      \"gasLimit\": ");
            append_dec(&mut r, sc.gas_limit);
            r.append(",\n      \"operatorFeeParams\": \"0x");
            append_hex64(&mut r, pack_operator_fee(sc.operator_fee_scalar, sc.operator_fee_constant));
            r.append("\",\n      \"overhead\": \"0x");
            append_bytes_hex(&mut r, sc.overhead.as_slice());
            r.append("\",\n      \"scalar\": \"0x");
            append_bytes_hex(&mut r, sc.scalar.as_slice());
            r.append("\"\n    }");
            r
        },
    }
}

fn genesis_part(g: &ChainGenesis) -> (r: String)
    ensures
        r@ == genesis_text(*g),
{
    let mut r = String::from_str("{\n    \"l1\": {\n      \"hash\": \"0x");
    append_bytes_hex(&mut r, g.l1.hash.as_slice());
    r.append("\",\n      \"number\": ");
    append_dec(&mut r, g.l1.number);
    r.append("\n    },\n    \"l2\": {\n      \"hash\": \"0x");
    append_bytes_hex(&mut r, g.l2.hash.as_slice());
    r.append("\",\n      \"number\": ");
    append_dec(&mut r, g.l2.number);
    r.append("\n    },\n    \"l2_time\": ");
    append_dec(&mut r, g.l2_time);
    r.append(",\n    \"system_config\": ");
    let sc = system_config_part(&g.system_config);
    r.append(sc.as_str());
    r.append("\n  }");
    r
}

fn alt_da_part(o: &Option<AltDaConfig>) -> (r: String)
    ensures
        r@ == alt_da_text(*o),
{
    match o {
        Option::None => String::from_str("null"),
        Option::Some(a) => {
            let mut r = String::from_str("{\n    \"da_challenge_contract_address\": ");
            let challenge_addr = opt_addr_part(&a.da_challenge_address);
            r.append(challenge_addr.as_str());
            r.append(",\n    \"da_challenge_window\": ");
            let challenge_window = opt_num_part(&a.da_challenge_window);
            r.append(challenge_window.as_str());
            r.append(",\n    \"da_commitment_type\": ");
            let commitment_type = opt_string_part(&a.da_commitment_type);
            r.append(commitment_type.as_str());
            r.append(",\n    \"da_resolve_window\": ");
            let resolve_window = opt_num_part(&a.da_resolve_window);
            r.append(resolve_window.as_str());
            r.append("\n  }");
            r
        },
    }
}

/// Produces the canonical text of a rollup configuration: deterministic,
/// byte-stable, and exactly the sequence given by [`canon`].
pub fn canonical_config_text(c: &ExtendedRollupConfig) -> (r: String)
    ensures
        r@ == canon(*c),
{
    let rc = &c.op_rollup_config;
    let mut r = String::from_str("{\n  \"alt_da\": ");
    let alt = alt_da_part(&rc.alt_da_config);
    r.append(alt.as_str());
    r.append(",\n  \"batch_inbox_address\": \"0x");
    append_min_hex(&mut r, rc.batch_inbox_address.as_slice());
    r.append("\",\n  \"block_time\": ");
    append_dec(&mut r, rc.block_time);
    r.append(",\n  \"canyon_time\": ");
    append_fork(&mut r, rc.hardforks.canyon_time);
    r.append(",\n  \"chain_op_config\": ");
    let cop = chain_op_part(&rc.chain_op_config);
    r.append(cop.as_str());
    r.append(",\n  \"channel_timeout\": ");
    append_dec(&mut r, rc.channel_timeout);
    r.append(",\n  \"delta_time\": ");
    append_fork(&mut r, rc.hardforks.delta_time);
    r.append(",\n  \"deposit_contract_address\": \"0x");
    append_min_hex(&mut r, rc.deposit_contract_address.as_slice());
    r.append("\",\n  \"ecotone_time\": ");
    append_fork(&mut r, rc.hardforks.ecotone_time);
    r.append(",\n  \"fjord_time\": ");
    append_fork(&mut r, rc.hardforks.fjord_time);
    r.append(",\n  \"genesis\": ");
    let gen = genesis_part(&rc.genesis);
    r.append(gen.as_str());
    r.append(",\n  \"granite_time\": ");
    append_fork(&mut r, rc.hardforks.granite_time);
    r.append(",\n  \"holocene_time\": ");
    append_fork(&mut r, rc.hardforks.holocene_time);
    r.append(",\n  \"isthmus_time\": ");
    append_fork(&mut r, rc.hardforks.isthmus_time);
    r.append(",\n  \"l1_chain_id\": ");
    append_dec(&mut r, rc.l1_chain_id);
    r.append(",\n  \"l1_system_config_address\": \"0x");
    append_min_hex(&mut r, rc.l1_system_config_address.as_slice());
    r.append("\",\n  \"l2_chain_id\": ");
    append_dec(&mut r, rc.l2_chain_id);
    r.append(",\n  \"max_sequencer_drift\": ");
    append_dec(&mut r, rc.max_sequencer_drift);
    r.append(",\n  \"protocol_versions_address\": \"0x");
    append_min_hex(&mut r, rc.protocol_versions_address.as_slice());
    r.append("\",\n  \"regolith_time\": ");
    append_fork(&mut r, rc.hardforks.regolith_time);
    r.append(",\n  \"seq_window_size\": ");
    append_dec(&mut r, rc.seq_window_size);
    r.append("\n}");
    r
}

} // verus!
