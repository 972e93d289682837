use genesis_json::blockproof::{parse_block_proof, BlockHeaderInfo};
use genesis_json::codec::Hash256;
use genesis_json::err::ErrKind;
use genesis_json::json::Json;
use genesis_json::policy::{is_need_under, mask_from_list, GENESIS_MANDATORY_MASK};
use genesis_json::remp::{parse_remp_status, RempMessageLevel, RempMessageStatus};
use genesis_json::state::{parse_state, parse_state_unchecked, StateParser};

fn obj(entries: Vec<(&str, Json)>) -> Vec<(String, Json)> {
    entries.into_iter().map(|(k, v)| (k.to_owned(), v)).collect()
}

fn jstr(x: &str) -> Json {
    Json::Str(x.to_owned())
}

fn hash(byte: &str) -> String {
    byte.repeat(32)
}

#[test]
fn genesis_mask_asserts_exactly_the_documented_set() {
    let documented = [
        0u32, 1, 2, 7, 8, 9, 10, 11, 12, 14, 15, 16, 17, 18, 20, 21, 22, 23, 24, 25, 28, 29, 31,
        34,
    ];
    let parser = StateParser::for_zero_state();
    for n in 0..64u32 {
        assert_eq!(parser.is_need(n), documented.contains(&n), "bit {}", n);
    }
}

#[test]
fn explicit_list_builds_the_same_mask() {
    let documented = [
        0u32, 1, 2, 7, 8, 9, 10, 11, 12, 14, 15, 16, 17, 18, 20, 21, 22, 23, 24, 25, 28, 29, 31,
        34,
    ];
    assert_eq!(mask_from_list(&documented), GENESIS_MANDATORY_MASK);
    assert_eq!(mask_from_list(&[]), 0);
    assert!(is_need_under(mask_from_list(&[5]), 5));
    assert!(!is_need_under(mask_from_list(&[5]), 6));
}

#[test]
fn empty_snapshot_state_keeps_defaults() {
    let m = obj(vec![]);
    let s = parse_state_unchecked(&m).unwrap();
    assert_eq!(s.global_id, 0);
    assert_eq!(s.gen_utime, 0);
    assert_eq!(s.min_ref_mc_seqno, u32::MAX);
    assert_eq!(s.total_balance, 0);
    assert!(s.custom.is_none());
    assert!(s.accounts.is_empty());
    assert!(s.libraries.is_empty());
}

#[test]
fn genesis_state_requires_its_fields() {
    let m = obj(vec![]);
    assert!(parse_state(&m).is_err());
}

#[test]
fn snapshot_state_with_master_parses() {
    let master = Json::Obj(obj(vec![
        ("config", Json::Obj(obj(vec![("p0", jstr(&hash("11")))]))),
        ("config_addr", jstr(&hash("22"))),
        ("validator_list_hash_short", Json::Int(7)),
        ("catchain_seqno", Json::Int(8)),
        ("nx_cc_updated", Json::Bool(true)),
        ("global_balance", jstr("500")),
    ]));
    let m = obj(vec![
        ("global_id", Json::Int(-239)),
        ("gen_utime", Json::Int(1600000000)),
        ("total_balance", jstr("1000")),
        ("master", master),
    ]);
    let s = parse_state_unchecked(&m).unwrap();
    assert_eq!(s.global_id, -239);
    assert_eq!(s.gen_utime, 1600000000);
    assert_eq!(s.total_balance, 1000);
    let x = s.custom.unwrap();
    assert!(x.after_key_block);
    assert_eq!(x.config_addr.bytes, vec![0x22u8; 32]);
    assert_eq!(x.validator_info.validator_list_hash_short, 7);
    assert_eq!(x.validator_info.catchain_seqno, 8);
    assert!(x.validator_info.nx_cc_updated);
    assert_eq!(x.global_balance, 500);
    assert!(x.config.get(0).is_some());
}

#[test]
fn master_with_tolerant_defaults() {
    let master = Json::Obj(obj(vec![("config", Json::Obj(obj(vec![])))]));
    let m = obj(vec![("master", master)]);
    let s = parse_state_unchecked(&m).unwrap();
    let x = s.custom.unwrap();
    assert_eq!(x.config_addr.bytes, vec![0u8; 32]);
    assert_eq!(x.validator_info.validator_list_hash_short, 0);
    assert!(!x.validator_info.nx_cc_updated);
    assert_eq!(x.global_balance, 0);
}

#[test]
fn master_requires_its_config() {
    let master = Json::Obj(obj(vec![("config_addr", jstr(&hash("22")))]));
    let m = obj(vec![("master", master)]);
    let e = parse_state_unchecked(&m).unwrap_err();
    assert_eq!(e.kind, ErrKind::MissingField);
    assert_eq!(e.field, "config".to_owned());
}

#[test]
fn accounts_and_libraries_are_collected() {
    let acc = Json::Obj(obj(vec![("boc", jstr("aGVsbG8="))]));
    let lib = Json::Obj(obj(vec![
        ("hash", jstr(&hash("aa"))),
        ("lib", jstr("bGli")),
        ("publishers", Json::Arr(vec![jstr(&hash("bb")), jstr(&hash("bb"))])),
    ]));
    let m = obj(vec![
        ("accounts", Json::Arr(vec![acc])),
        ("libraries", Json::Arr(vec![lib])),
    ]);
    let s = parse_state_unchecked(&m).unwrap();
    assert_eq!(s.accounts, vec![b"hello".to_vec()]);
    assert_eq!(s.libraries.len(), 1);
    assert_eq!(s.libraries[0].0.bytes, vec![0xaau8; 32]);
    assert_eq!(s.libraries[0].1.lib, b"lib".to_vec());
    assert_eq!(s.libraries[0].1.publishers.len(), 1);
}

#[test]
fn account_entry_must_carry_boc() {
    let acc = Json::Obj(obj(vec![("data", jstr("aGVsbG8="))]));
    let m = obj(vec![("accounts", Json::Arr(vec![acc]))]);
    let e = parse_state_unchecked(&m).unwrap_err();
    assert_eq!(e.kind, ErrKind::MissingField);
    assert_eq!(e.path, vec!["root".to_owned(), "accounts".to_owned()]);
}

fn receipt_base() -> Vec<(&'static str, Json)> {
    vec![
        ("source_id", jstr("1111111111111111111111111111111111111111111111111111111111111111")),
        ("signature", jstr("c2ln")),
        ("timestamp", Json::Int(1234)),
        ("message_id", jstr("2222222222222222222222222222222222222222222222222222222222222222")),
    ]
}

fn block_fields() -> Vec<(&'static str, Json)> {
    vec![
        ("wc", Json::Int(0)),
        ("shard", jstr("8000000000000000")),
        ("block_seqno", Json::Int(77)),
        ("block_id", jstr(&hash("aa"))),
        ("block_file_hash", jstr(&hash("bb"))),
    ]
}

#[test]
fn timeout_receipt_needs_no_block() {
    let mut fields = receipt_base();
    fields.push(("kind", jstr("Timeout")));
    let m = obj(fields);
    let (r, sig) = parse_remp_status(&m).unwrap();
    assert!(matches!(r.status, RempMessageStatus::Timeout));
    assert_eq!(r.timestamp, 1234);
    assert_eq!(sig, b"sig".to_vec());
}

#[test]
fn every_kind_maps_to_its_level() {
    let accepted = [
        ("IncludedIntoBlock", RempMessageLevel::Collator),
        ("AcceptedByFullnode", RempMessageLevel::Fullnode),
        ("Finalized", RempMessageLevel::Masterchain),
        ("AcceptedByQueue", RempMessageLevel::Queue),
        ("IncludedIntoAcceptedBlock", RempMessageLevel::Shardchain),
    ];
    for (kind, level) in accepted {
        let mut fields = receipt_base();
        fields.extend(block_fields());
        fields.push(("kind", jstr(kind)));
        let (r, _) = parse_remp_status(&obj(fields)).unwrap();
        match r.status {
            RempMessageStatus::Accepted { level: l, block_id, master_id } => {
                assert_eq!(l, level, "{}", kind);
                assert_eq!(block_id.seq_no, 77);
                // No masterchain fields were given: the empty identifier.
                assert_eq!(master_id.seq_no, 0);
                assert_eq!(master_id.root_hash.bytes, vec![0u8; 32]);
            },
            _ => panic!("wrong variant for {}", kind),
        }
    }
    let ignored = [
        ("IgnoredByCollator", RempMessageLevel::Collator),
        ("IgnoredByFullNode", RempMessageLevel::Fullnode),
        ("IgnoredByMasterchain", RempMessageLevel::Masterchain),
        ("IgnoredByQueue", RempMessageLevel::Queue),
        ("IgnoredByShardchain", RempMessageLevel::Shardchain),
    ];
    for (kind, level) in ignored {
        let mut fields = receipt_base();
        fields.extend(block_fields());
        fields.push(("kind", jstr(kind)));
        let (r, _) = parse_remp_status(&obj(fields)).unwrap();
        match r.status {
            RempMessageStatus::Ignored { level: l, .. } => assert_eq!(l, level, "{}", kind),
            _ => panic!("wrong variant for {}", kind),
        }
    }
    let rejected = [
        ("RejectedByCollator", RempMessageLevel::Collator),
        ("RejectedByFullnode", RempMessageLevel::Fullnode),
        ("RejectedByMasterchain", RempMessageLevel::Masterchain),
        ("RejectedByQueue", RempMessageLevel::Queue),
        ("RejectedByShardchain", RempMessageLevel::Shardchain),
    ];
    for (kind, level) in rejected {
        let mut fields = receipt_base();
        fields.extend(block_fields());
        fields.push(("error", jstr("too late")));
        fields.push(("kind", jstr(kind)));
        let (r, _) = parse_remp_status(&obj(fields)).unwrap();
        match r.status {
            RempMessageStatus::Rejected { level: l, error, .. } => {
                assert_eq!(l, level, "{}", kind);
                assert_eq!(error, "too late".to_owned());
            },
            _ => panic!("wrong variant for {}", kind),
        }
    }
}

#[test]
fn remaining_kinds_and_unknown_tag() {
    let mut fields = receipt_base();
    fields.extend(block_fields());
    fields.push(("kind", jstr("Duplicate")));
    let (r, _) = parse_remp_status(&obj(fields)).unwrap();
    assert!(matches!(r.status, RempMessageStatus::Duplicate { .. }));

    let mut fields = receipt_base();
    fields.push(("kind", jstr("PutIntoQueue")));
    let (r, _) = parse_remp_status(&obj(fields)).unwrap();
    assert!(matches!(r.status, RempMessageStatus::New));

    let mut fields = receipt_base();
    fields.push(("sent_to", Json::Int(9)));
    fields.push(("total_validators", Json::Int(21)));
    fields.push(("kind", jstr("SentToValidators")));
    let (r, _) = parse_remp_status(&obj(fields)).unwrap();
    match r.status {
        RempMessageStatus::SentToValidators { sent_to, total_validators } => {
            assert_eq!(sent_to, 9);
            assert_eq!(total_validators, 21);
        },
        _ => panic!("wrong variant"),
    }

    let mut fields = receipt_base();
    fields.push(("kind", jstr("SomethingElse")));
    let e = parse_remp_status(&obj(fields)).unwrap_err();
    assert_eq!(e.kind, ErrKind::UnknownTag);
    assert_eq!(e.field, "SomethingElse".to_owned());
}

#[test]
fn accepted_takes_masterchain_block_when_given() {
    let mut fields = receipt_base();
    fields.extend(block_fields());
    fields.push(("mc_block_seqno", Json::Int(5)));
    fields.push(("mc_block_id", jstr(&hash("cc"))));
    fields.push(("mc_block_file_hash", jstr(&hash("dd"))));
    fields.push(("kind", jstr("Finalized")));
    let (r, _) = parse_remp_status(&obj(fields)).unwrap();
    match r.status {
        RempMessageStatus::Accepted { master_id, .. } => {
            assert_eq!(master_id.seq_no, 5);
            assert_eq!(master_id.shard.workchain_id, -1);
        },
        _ => panic!("wrong variant"),
    }
}

fn header() -> BlockHeaderInfo {
    BlockHeaderInfo {
        workchain_id: -1,
        shard_prefix_tagged: 0x8000_0000_0000_0000,
        seq_no: 42,
        root_hash: Hash256 { bytes: vec![0x0eu8; 32] },
    }
}

#[test]
fn unsigned_proof_parses() {
    let m = obj(vec![("proof", jstr("cHJvb2Y="))]);
    let p = parse_block_proof(&m, Hash256 { bytes: vec![0x0fu8; 32] }, header()).unwrap();
    assert_eq!(p.root, b"proof".to_vec());
    assert!(p.signatures.is_none());
    assert_eq!(p.proof_for.seq_no, 42);
    assert_eq!(p.proof_for.root_hash.bytes, vec![0x0eu8; 32]);
    assert_eq!(p.proof_for.file_hash.bytes, vec![0x0fu8; 32]);
}

#[test]
fn signed_proof_collects_signatures() {
    let sig = Json::Obj(obj(vec![
        ("node_id", jstr(&hash("77"))),
        ("r", jstr(&hash("88"))),
        ("s", jstr(&hash("99"))),
    ]));
    let m = obj(vec![
        ("proof", jstr("cHJvb2Y=")),
        ("signatures", Json::Arr(vec![sig])),
        ("sig_weight", jstr("0x10")),
        ("validator_list_hash_short", Json::Int(3)),
        ("catchain_seqno", Json::Int(4)),
    ]);
    let p = parse_block_proof(&m, Hash256 { bytes: vec![0u8; 32] }, header()).unwrap();
    let b = p.signatures.unwrap();
    assert_eq!(b.sig_weight, 16);
    assert_eq!(b.validator_list_hash_short, 3);
    assert_eq!(b.catchain_seqno, 4);
    assert_eq!(b.sigs.len(), 1);
    assert_eq!(b.sigs[0].1.len(), 64);
}

#[test]
fn invalid_shard_prefix_is_rejected() {
    let m = obj(vec![("proof", jstr("cHJvb2Y="))]);
    let mut h = header();
    h.shard_prefix_tagged = 0;
    let e = parse_block_proof(&m, Hash256 { bytes: vec![0u8; 32] }, h).unwrap_err();
    assert_eq!(e.kind, ErrKind::SemanticInvalid);
}
