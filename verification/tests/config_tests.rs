use genesis_json::err::ErrKind;
use genesis_json::json::Json;
use genesis_json::config::{parse_config, parse_config_with_mandatory_params};
use genesis_json::params::{ConfigParam, ConfigSet};
use genesis_json::types::WorkchainFormat;

fn obj(entries: Vec<(&str, Json)>) -> Vec<(String, Json)> {
    entries.into_iter().map(|(k, v)| (k.to_owned(), v)).collect()
}

fn jstr(x: &str) -> Json {
    Json::Str(x.to_owned())
}

fn hash64() -> String {
    "11".repeat(32)
}

#[test]
fn config_with_only_p0_and_mandatory_zero() {
    let cfg = obj(vec![("p0", jstr(&hash64()))]);
    let cs = parse_config_with_mandatory_params(&cfg, &[0]).unwrap();
    // The always-present slashing parameter joins the explicitly given one.
    assert_eq!(cs.len(), 2);
    match cs.get(0).unwrap() {
        ConfigParam::P0(h) => assert_eq!(h.bytes, vec![0x11u8; 32]),
        _ => panic!("wrong variant"),
    }
    assert!(cs.get(40).is_some());
    assert!(cs.get(1).is_none());
}

#[test]
fn config_with_mandatory_one_missing_names_p1() {
    let cfg = obj(vec![("p0", jstr(&hash64()))]);
    let e = parse_config_with_mandatory_params(&cfg, &[0, 1]).unwrap_err();
    assert_eq!(e.kind, ErrKind::MandatoryParameterMissing(1));
    assert_eq!(e.field, "p1".to_owned());
}

#[test]
fn absent_optional_parameter_is_omitted() {
    let cfg = obj(vec![]);
    let cs = parse_config(&cfg).unwrap();
    assert!(cs.get(5).is_none());
    assert!(cs.get(62).is_none());
    // Only the always-present slashing parameter is set.
    assert_eq!(cs.len(), 1);
    match cs.get(40).unwrap() {
        ConfigParam::P40(s) => {
            assert_eq!(s.slashing_period_mc_blocks_count, 0);
            assert_eq!(s.z_param_denominator, 0);
        },
        _ => panic!("wrong variant"),
    }
}

#[test]
fn malformed_optional_parameter_is_skipped() {
    // A present but malformed optional parameter is skipped silently.
    let cfg = obj(vec![("p0", jstr("zz"))]);
    let cs = parse_config(&cfg).unwrap();
    assert!(cs.get(0).is_none());
}

#[test]
fn malformed_mandatory_parameter_fails() {
    let cfg = obj(vec![("p0", jstr("zz"))]);
    let e = parse_config_with_mandatory_params(&cfg, &[0]).unwrap_err();
    assert_eq!(e.kind, ErrKind::MandatoryParameterMissing(0));
}

#[test]
fn election_params_decode_exactly() {
    let p15 = Json::Obj(obj(vec![
        ("validators_elected_for", Json::Int(65536)),
        ("elections_start_before", Json::Int(32768)),
        ("elections_end_before", jstr("8192")),
        ("stake_held_for", jstr("0x8000")),
    ]));
    let cfg = obj(vec![("p15", p15)]);
    let cs = parse_config(&cfg).unwrap();
    match cs.get(15).unwrap() {
        ConfigParam::P15(e) => {
            assert_eq!(e.validators_elected_for, 65536);
            assert_eq!(e.elections_start_before, 32768);
            assert_eq!(e.elections_end_before, 8192);
            assert_eq!(e.stake_held_for, 32768);
        },
        _ => panic!("wrong variant"),
    }
}

#[test]
fn inner_field_errors_surface() {
    let p15 = Json::Obj(obj(vec![("validators_elected_for", Json::Int(1))]));
    let cfg = obj(vec![("p15", p15)]);
    let e = parse_config(&cfg).unwrap_err();
    assert_eq!(e.kind, ErrKind::MissingOrInvalidNumber);
    assert_eq!(e.field, "elections_start_before".to_owned());
    assert_eq!(e.path, vec!["root".to_owned(), "p15".to_owned()]);
}

#[test]
fn gas_limits_decode_exactly() {
    let fields = [
        ("gas_price", 655360000i64),
        ("gas_limit", 1000000),
        ("special_gas_limit", 100000000),
        ("gas_credit", 10000),
        ("block_gas_limit", 10000000),
        ("freeze_due_limit", 100000000),
        ("delete_due_limit", 1000000000),
        ("flat_gas_limit", 1000),
        ("flat_gas_price", 10000000),
    ];
    let entries: Vec<(&str, Json)> = fields.iter().map(|&(k, v)| (k, Json::Int(v))).collect();
    let cfg = obj(vec![("p20", Json::Obj(obj(entries)))]);
    let cs = parse_config(&cfg).unwrap();
    match cs.get(20).unwrap() {
        ConfigParam::P20(g) => {
            assert_eq!(g.gas_price, 655360000);
            assert_eq!(g.flat_gas_price, 10000000);
            assert_eq!(g.max_gas_threshold, 0);
        },
        _ => panic!("wrong variant"),
    }
}

#[test]
fn param_limits_must_be_ordered() {
    let limits = |u: i64, s: i64, h: i64| {
        Json::Obj(obj(vec![
            ("underload", Json::Int(u)),
            ("soft_limit", Json::Int(s)),
            ("hard_limit", Json::Int(h)),
        ]))
    };
    let mk = |u: i64, s: i64, h: i64| {
        Json::Obj(obj(vec![
            ("bytes", limits(u, s, h)),
            ("gas", limits(u, s, h)),
            ("lt_delta", limits(u, s, h)),
        ]))
    };
    let cfg = obj(vec![("p22", mk(100, 200, 300))]);
    assert!(parse_config(&cfg).is_ok());
    let cfg2 = obj(vec![("p22", mk(300, 200, 100))]);
    assert_eq!(parse_config(&cfg2).unwrap_err().kind, ErrKind::SemanticInvalid);
}

#[test]
fn param_id_sets_deduplicate() {
    let cfg = obj(vec![(
        "p9",
        Json::Arr(vec![Json::Int(1), Json::Int(2), Json::Int(2), jstr("3"), jstr("1")]),
    )]);
    let cs = parse_config(&cfg).unwrap();
    match cs.get(9).unwrap() {
        ConfigParam::P9(ids) => assert_eq!(ids, &vec![1u32, 2, 3]),
        _ => panic!("wrong variant"),
    }
}

#[test]
fn param_id_set_rejects_wrong_shape() {
    // An element that is neither a non-negative number nor a string is the
    // wrong type, and no best-effort value stands in for it.
    for bad in [Json::Bool(true), Json::Null, Json::Int(-1), Json::Arr(vec![])] {
        let cfg = obj(vec![("p10", Json::Arr(vec![Json::Int(1), bad]))]);
        let e = parse_config(&cfg).unwrap_err();
        assert_eq!(e.kind, ErrKind::WrongType);
        assert_eq!(e.field, "p10".to_owned());
    }
}

#[test]
fn param_id_set_rejects_malformed_string() {
    let cfg = obj(vec![("p9", Json::Arr(vec![jstr("7"), jstr("abc")]))]);
    let e = parse_config(&cfg).unwrap_err();
    assert_eq!(e.kind, ErrKind::ParseFailure);
    assert_eq!(e.field, "p9".to_owned());
}

#[test]
fn currencies_resolve_value_fields() {
    let c1 = Json::Obj(obj(vec![("currency", Json::Int(5)), ("value_dec", jstr("77"))]));
    let c2 = Json::Obj(obj(vec![("currency", Json::Int(6)), ("value", jstr("88"))]));
    let cfg = obj(vec![("p7", Json::Arr(vec![c1, c2]))]);
    let cs = parse_config(&cfg).unwrap();
    match cs.get(7).unwrap() {
        ConfigParam::P7(v) => assert_eq!(v, &vec![(5u32, 77u128), (6u32, 88u128)]),
        _ => panic!("wrong variant"),
    }
}

#[test]
fn workchain_split_bounds_are_checked() {
    let wc = |min_split: i64, max_split: i64| {
        Json::Obj(obj(vec![
            ("workchain_id", Json::Int(0)),
            ("enabled_since", Json::Int(1)),
            ("min_split", Json::Int(min_split)),
            ("max_split", Json::Int(max_split)),
            ("flags", Json::Int(0)),
            ("active", Json::Bool(true)),
            ("accept_msgs", Json::Bool(true)),
            ("zerostate_root_hash", jstr(&hash64())),
            ("zerostate_file_hash", jstr(&hash64())),
            ("version", Json::Int(1)),
            ("basic", Json::Bool(true)),
            ("vm_version", Json::Int(-1)),
            ("vm_mode", Json::Int(0)),
        ]))
    };
    let cfg = obj(vec![("p12", Json::Arr(vec![wc(2, 8)]))]);
    let cs = parse_config(&cfg).unwrap();
    match cs.get(12).unwrap() {
        ConfigParam::P12(v) => {
            assert_eq!(v.len(), 1);
            assert_eq!(v[0].0, 0);
            assert_eq!(v[0].1.min_split, 2);
            assert!(matches!(v[0].1.format, WorkchainFormat::Basic { vm_version: -1, vm_mode: 0 }));
        },
        _ => panic!("wrong variant"),
    }
    let cfg2 = obj(vec![("p12", Json::Arr(vec![wc(8, 2)]))]);
    assert_eq!(parse_config(&cfg2).unwrap_err().kind, ErrKind::SemanticInvalid);
    let cfg3 = obj(vec![("p12", Json::Arr(vec![wc(61, 62)]))]);
    assert_eq!(parse_config(&cfg3).unwrap_err().kind, ErrKind::SemanticInvalid);
}

#[test]
fn validator_set_accepts_full_length_bls_key() {
    let descr = Json::Obj(obj(vec![
        ("public_key", jstr(&"22".repeat(32))),
        ("weight", Json::Int(1)),
        ("bls_public_key", jstr(&"33".repeat(96))),
    ]));
    let p32 = Json::Obj(obj(vec![
        ("utime_since", Json::Int(0)),
        ("utime_until", Json::Int(100)),
        ("main", Json::Int(1)),
        ("list", Json::Arr(vec![descr])),
    ]));
    let cfg = obj(vec![("p32", p32)]);
    let cs = parse_config(&cfg).unwrap();
    match cs.get(32).unwrap() {
        ConfigParam::P32(vs) => {
            assert_eq!(vs.list.len(), 1);
            assert_eq!(vs.list[0].public_key, vec![0x22u8; 32]);
            assert_eq!(vs.list[0].bls_public_key.as_ref().unwrap().len(), 96);
            assert!(vs.list[0].adnl_addr.is_none());
        },
        _ => panic!("wrong variant"),
    }
}

#[test]
fn short_bls_key_fails_everywhere() {
    // The same wrong-length key is rejected by the ordinary decoder and by
    // the current-validator decoder alike.
    let p32 = || {
        let d32 = Json::Obj(obj(vec![
            ("public_key", jstr(&"22".repeat(32))),
            ("weight", Json::Int(1)),
            ("bls_public_key", jstr(&"33".repeat(48))),
        ]));
        Json::Obj(obj(vec![
            ("utime_since", Json::Int(0)),
            ("utime_until", Json::Int(100)),
            ("main", Json::Int(1)),
            ("list", Json::Arr(vec![d32])),
        ]))
    };
    let cfg = obj(vec![("p32", p32())]);
    assert_eq!(parse_config(&cfg).unwrap_err().kind, ErrKind::SemanticInvalid);
    let cfg2 = obj(vec![("p34", p32())]);
    assert_eq!(parse_config(&cfg2).unwrap_err().kind, ErrKind::SemanticInvalid);
}

#[test]
fn validator_set_consistency_is_checked() {
    let descr = || {
        Json::Obj(obj(vec![
            ("public_key", jstr(&"22".repeat(32))),
            ("weight", Json::Int(1)),
        ]))
    };
    let mk = |main: i64, list: Vec<Json>| {
        Json::Obj(obj(vec![
            ("utime_since", Json::Int(0)),
            ("utime_until", Json::Int(100)),
            ("main", Json::Int(main)),
            ("list", Json::Arr(list)),
        ]))
    };
    let empty = obj(vec![("p36", mk(1, vec![]))]);
    assert_eq!(parse_config(&empty).unwrap_err().kind, ErrKind::SemanticInvalid);
    let zero_main = obj(vec![("p36", mk(0, vec![descr()]))]);
    assert_eq!(parse_config(&zero_main).unwrap_err().kind, ErrKind::SemanticInvalid);
    let too_many_main = obj(vec![("p36", mk(2, vec![descr()]))]);
    assert_eq!(parse_config(&too_many_main).unwrap_err().kind, ErrKind::SemanticInvalid);
    let ok = obj(vec![("p36", mk(1, vec![descr()]))]);
    assert!(parse_config(&ok).is_ok());
}

#[test]
fn suspended_addresses_parse_and_deduplicate() {
    let a = format!("-1:{}", "44".repeat(32));
    let cfg = obj(vec![("p44", Json::Arr(vec![jstr(&a), jstr(&a)]))]);
    let cs = parse_config(&cfg).unwrap();
    match cs.get(44).unwrap() {
        ConfigParam::P44(v) => {
            assert_eq!(v.len(), 1);
            assert_eq!(v[0].0, -1);
            assert_eq!(v[0].1.bytes, vec![0x44u8; 32]);
        },
        _ => panic!("wrong variant"),
    }
    let bad = obj(vec![("p44", Json::Arr(vec![jstr("nonsense")]))]);
    assert_eq!(parse_config(&bad).unwrap_err().kind, ErrKind::ParseFailure);
}

#[test]
fn copyleft_payouts_fill_best_effort() {
    let pay = Json::Obj(obj(vec![
        ("license_type", Json::Int(1)),
        ("payout_percent", Json::Int(30)),
    ]));
    let partial = Json::Obj(obj(vec![("license_type", Json::Int(2))]));
    let p42 = Json::Obj(obj(vec![
        ("threshold", jstr("100")),
        ("payouts", Json::Arr(vec![pay, partial])),
    ]));
    let cfg = obj(vec![("p42", p42)]);
    let cs = parse_config(&cfg).unwrap();
    match cs.get(42).unwrap() {
        ConfigParam::P42(c) => {
            assert_eq!(c.copyleft_reward_threshold, 100);
            assert_eq!(c.license_rates, vec![(1u8, 30u8), (2u8, 0u8)]);
        },
        _ => panic!("wrong variant"),
    }
}

#[test]
fn fast_finality_present_fills_defaults() {
    let p61 = Json::Obj(obj(vec![("split_merge_interval", Json::Int(9))]));
    let cfg = obj(vec![("p61", p61)]);
    let cs = parse_config(&cfg).unwrap();
    match cs.get(61).unwrap() {
        ConfigParam::P61(f) => {
            assert_eq!(f.split_merge_interval, 9);
            assert_eq!(f.unreliability_max, 0);
        },
        _ => panic!("wrong variant"),
    }
}

#[test]
fn set_config_refuses_duplicates() {
    let mut cs = ConfigSet::new();
    assert!(cs.set_config(3, ConfigParam::P13(vec![1, 2])));
    assert!(!cs.set_config(3, ConfigParam::P13(vec![3])));
    assert_eq!(cs.len(), 1);
}

#[test]
fn temp_key_list_decodes_signature_halves() {
    let entry = Json::Obj(obj(vec![
        ("map_key", jstr(&"55".repeat(32))),
        ("adnl_addr", jstr(&"66".repeat(32))),
        ("temp_public_key", jstr(&"77".repeat(32))),
        ("seqno", Json::Int(4)),
        ("valid_until", Json::Int(99)),
        ("signature_r", jstr(&"88".repeat(32))),
        ("signature_s", jstr(&"99".repeat(32))),
    ]));
    let cfg = obj(vec![("p39", Json::Arr(vec![entry]))]);
    let cs = parse_config(&cfg).unwrap();
    match cs.get(39).unwrap() {
        ConfigParam::P39(v) => {
            assert_eq!(v.len(), 1);
            assert_eq!(v[0].0.bytes, vec![0x55u8; 32]);
            assert_eq!(v[0].1.key.seqno, 4);
            let sig = &v[0].1.signature;
            assert_eq!(sig.len(), 64);
            assert_eq!(sig[0], 0x88);
            assert_eq!(sig[63], 0x99);
        },
        _ => panic!("wrong variant"),
    }
}

#[test]
fn mesh_entry_decodes() {
    let blk = |seq: i64| {
        Json::Obj(obj(vec![
            ("wc", Json::Int(0)),
            ("shard", jstr("8000000000000000")),
            ("seqno", Json::Int(seq)),
            ("root_hash", jstr(&"aa".repeat(32))),
            ("file_hash", jstr(&"bb".repeat(32))),
        ]))
    };
    let nw = Json::Obj(obj(vec![
        ("network_id", Json::Int(7)),
        ("zerostate", blk(0)),
        ("is_active", Json::Bool(true)),
        ("currency_id", Json::Int(3)),
        ("init_block", blk(5)),
        ("emergency_guard_addr", jstr(&"cc".repeat(32))),
        ("pull_addr", jstr(&"dd".repeat(32))),
        ("minter_addr", jstr(&"ee".repeat(32))),
        ("hardforks", Json::Arr(vec![blk(9)])),
    ]));
    let cfg = obj(vec![("p58", Json::Arr(vec![nw]))]);
    let cs = parse_config(&cfg).unwrap();
    match cs.get(58).unwrap() {
        ConfigParam::P58(v) => {
            assert_eq!(v.len(), 1);
            assert_eq!(v[0].0, 7);
            assert_eq!(v[0].1.init_block.seq_no, 5);
            assert_eq!(v[0].1.hardforks.len(), 1);
            assert_eq!(v[0].1.hardforks[0].seq_no, 9);
            assert!(v[0].1.is_active);
        },
        _ => panic!("wrong variant"),
    }
}

#[test]
fn proposal_setup_thresholds_are_checked() {
    let setup = |min_rounds: i64| {
        Json::Obj(obj(vec![
            ("min_tot_rounds", Json::Int(min_rounds)),
            ("max_tot_rounds", Json::Int(4)),
            ("min_wins", Json::Int(2)),
            ("max_losses", Json::Int(2)),
            ("min_store_sec", Json::Int(100)),
            ("max_store_sec", Json::Int(200)),
            ("bit_price", Json::Int(1)),
            ("cell_price", Json::Int(2)),
        ]))
    };
    let p11 = |n: Json, c: Json| Json::Obj(obj(vec![("normal_params", n), ("critical_params", c)]));
    let ok = obj(vec![("p11", p11(setup(2), setup(3)))]);
    assert!(parse_config(&ok).is_ok());
    let bad = obj(vec![("p11", p11(setup(5), setup(3)))]);
    assert_eq!(parse_config(&bad).unwrap_err().kind, ErrKind::SemanticInvalid);
}
