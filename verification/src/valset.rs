use vstd::prelude::*;
use crate::assoc::{temp_keys_v, upsert, upsert_temp_key};
use crate::codec::{hex_decoded, hex_decode, Hash256};
use crate::err::{errv, ErrKind, ErrV, ParseError};
use crate::json::Json;
use crate::path::{
    cont_spec, get_num_spec, get_str_spec, get_uint256_spec, get_vec_spec, sbytes, PathMap,
};
use crate::types::{
    ValidatorDescr, ValidatorDescrV, ValidatorSet, ValidatorSetV, ValidatorSignedTempKey,
    ValidatorSignedTempKeyV, ValidatorTempKey, ValidatorTempKeyV, BLS_PUBKEY_LEN, PUBKEY_LEN,
};

verus! {

/// An optional alternate-scheme public key: absent when the field is
/// missing; present only when the hex decodes to exactly the documented
/// key length, rejected otherwise.
pub open spec fn bls_opt_spec(o: Seq<(String, Json)>, p: Seq<Seq<char>>) -> Result<
    Option<Seq<u8>>,
    ErrV,
> {
    match get_str_spec(o, p, "bls_public_key"@) {
        Err(_) => Ok(None),
        Ok(s) => match hex_decoded(sbytes(s)) {
            None => Err(errv(ErrKind::ParseFailure, p, "bls_public_key"@)),
            Some(b) => if b.len() == BLS_PUBKEY_LEN {
                Ok(Some(b))
            } else {
                Err(errv(ErrKind::SemanticInvalid, p, "bls_public_key"@))
            },
        },
    }
}

/// Parses the optional alternate-scheme public key of a descriptor.
fn parse_bls_opt(m: &PathMap) -> (r: Result<Option<Vec<u8>>, ParseError>)
    ensures
        match r {
            Ok(Some(v)) => bls_opt_spec(m.entries(), m.pathv()) == Ok::<_, ErrV>(Some(v@)),
            Ok(None) => bls_opt_spec(m.entries(), m.pathv()) == Ok::<Option<Seq<u8>>, ErrV>(None),
            Err(e) => bls_opt_spec(m.entries(), m.pathv()) == Err::<Option<Seq<u8>>, _>(e@),
        },
{
    match m.get_str("bls_public_key") {
        Err(_) => Ok(None),
        Ok(s) => match hex_decode(s.as_str().as_bytes()) {
            None => Err(ParseError::at(ErrKind::ParseFailure, &m.path, "bls_public_key")),
            Some(b) => {
                if b.len() == BLS_PUBKEY_LEN {
                    Ok(Some(b))
                } else {
                    Err(ParseError::at(ErrKind::SemanticInvalid, &m.path, "bls_public_key"))
                }
            },
        },
    }
}

/// One validator descriptor of an ordinary validator-set parameter: a hex
/// public key of the documented length, a weight, an optional network
/// address (ignored when unreadable) and an optional alternate key.
pub open spec fn validator_descr_spec(o: Seq<(String, Json)>, p: Seq<Seq<char>>) -> Result<
    ValidatorDescrV,
    ErrV,
> {
    match get_str_spec(o, p, "public_key"@) {
        Err(e) => Err(e),
        Ok(ks) => match hex_decoded(sbytes(ks)) {
            None => Err(errv(ErrKind::ParseFailure, p, "public_key"@)),
            Some(pk) => match get_num_spec(o, p, "weight"@) {
                Err(e) => Err(e),
                Ok(w) => {
                    let adnl = match get_uint256_spec(o, p, "adnl_addr"@) {
                        Ok(h) => Some(h),
                        Err(_) => None,
                    };
                    match bls_opt_spec(o, p) {
                        Err(e) => Err(e),
                        Ok(bls) => if pk.len() == PUBKEY_LEN {
                            Ok(
                                ValidatorDescrV {
                                    public_key: pk,
                                    weight: w as u64,
                                    adnl_addr: adnl,
                                    bls_public_key: bls,
                                },
                            )
                        } else {
                            Err(errv(ErrKind::SemanticInvalid, p, "public_key"@))
                        },
                    }
                },
            },
        },
    }
}

/// Parses one validator descriptor of an ordinary validator set.
fn parse_validator_descr(m: &PathMap) -> (r: Result<ValidatorDescr, ParseError>)
    ensures
        match r {
            Ok(d) => validator_descr_spec(m.entries(), m.pathv()) == Ok::<_, ErrV>(d@),
            Err(e) => validator_descr_spec(m.entries(), m.pathv()) == Err::<ValidatorDescrV, _>(e@),
        },
{
    let ks = m.get_str("public_key")?;
    let pk = match hex_decode(ks.as_str().as_bytes()) {
        Some(v) => v,
        None => {
            return Err(ParseError::at(ErrKind::ParseFailure, &m.path, "public_key"));
        },
    };
    let w = m.get_num("weight")?;
    let adnl = match m.get_uint256("adnl_addr") {
        Ok(h) => Some(h),
        Err(_) => None,
    };
    let bls = parse_bls_opt(m)?;
    if pk.len() == PUBKEY_LEN {
        Ok(
            ValidatorDescr {
                public_key: pk,
                weight: #[verifier::truncate] (w as u64),
                adnl_addr: adnl,
                bls_public_key: bls,
            },
        )
    } else {
        Err(ParseError::at(ErrKind::SemanticInvalid, &m.path, "public_key"))
    }
}

/// A validator list, seen mathematically.
pub open spec fn valdescrs_v(s: Seq<ValidatorDescr>) -> Seq<ValidatorDescrV> {
    s.map_values(|d: ValidatorDescr| d@)
}

/// The descriptors of a validator list, decoded in order; every element
/// must be an object.
pub open spec fn valdescr_fold(
    items: Seq<Json>,
    p: Seq<Seq<char>>,
    acc: Seq<ValidatorDescrV>,
    i: int,
) -> Result<Seq<ValidatorDescrV>, ErrV>
    decreases items.len() - i,
{
    if i < 0 || i >= items.len() {
        Ok(acc)
    } else {
        match cont_spec(items[i], p, "p"@) {
            Err(e) => Err(e),
            Ok(o) => match validator_descr_spec(o, p.push("p"@)) {
                Err(e) => Err(e),
                Ok(d) => valdescr_fold(items, p, acc.push(d), i + 1),
            },
        }
    }
}

/// An ordinary validator-set parameter: a validity window, a count of main
/// validators and the ordered descriptor list, which must be consistent.
pub open spec fn validator_set_spec(o: Seq<(String, Json)>, p: Seq<Seq<char>>) -> Result<
    ValidatorSetV,
    ErrV,
> {
    match get_num_spec(o, p, "utime_since"@) {
        Err(e) => Err(e),
        Ok(us) => match get_num_spec(o, p, "utime_until"@) {
            Err(e) => Err(e),
            Ok(uu) => match get_num_spec(o, p, "main"@) {
                Err(e) => Err(e),
                Ok(mn) => match get_vec_spec(o, p, "list"@) {
                    Err(e) => Err(e),
                    Ok(items) => match valdescr_fold(items, p, Seq::empty(), 0) {
                        Err(e) => Err(e),
                        Ok(list) => {
                            let vs = ValidatorSetV {
                                utime_since: us as u32,
                                utime_until: uu as u32,
                                main: mn as u16,
                                list,
                            };
                            if vs.consistent() {
                                Ok(vs)
                            } else {
                                Err(errv(ErrKind::SemanticInvalid, p, ""@))
                            }
                        },
                    },
                },
            },
        },
    }
}

/// Parses an ordinary validator-set parameter.
#[verifier::loop_isolation(false)]
#[verifier::rlimit(60)]
pub fn parse_validator_set(config: &PathMap) -> (r: Result<ValidatorSet, ParseError>)
    ensures
        match r {
            Ok(v) => validator_set_spec(config.entries(), config.pathv()) == Ok::<_, ErrV>(v@),
            Err(e) => validator_set_spec(config.entries(), config.pathv()) == Err::<
                ValidatorSetV,
                _,
            >(e@),
        },
{
    let us = config.get_num("utime_since")?;
    let uu = config.get_num("utime_until")?;
    let mn = config.get_num("main")?;
    let items = config.get_vec("list")?;
    let mut list: Vec<ValidatorDescr> = Vec::new();
    let ghost pv = config.pathv();
    let ghost whole = valdescr_fold(items@, pv, Seq::empty(), 0);
    let mut i: usize = 0;
    proof {
        assert(valdescrs_v(list@) =~= Seq::<ValidatorDescrV>::empty());
    }
    while i < items.len()
        invariant
            i <= items@.len(),
            valdescr_fold(items@, pv, valdescrs_v(list@), i as int) == whole,
            pv == config.pathv(),
        decreases items@.len() - i,
    {
        let m = PathMap::cont(config, "p", &items[i])?;
        let d = parse_validator_descr(&m)?;
        let ghost pre = list@;
        list.push(d);
        proof {
            assert(valdescrs_v(list@) =~= valdescrs_v(pre).push(d@));
        }
        i += 1;
    }
    let vs = ValidatorSet {
        utime_since: #[verifier::truncate] (us as u32),
        utime_until: #[verifier::truncate] (uu as u32),
        main: #[verifier::truncate] (mn as u16),
        list,
    };
    if vs.list.len() > 0 && 1 <= vs.main && vs.main as usize <= vs.list.len() {
        proof {
            assert(vs@.consistent());
        }
        Ok(vs)
    } else {
        proof {
            assert(!vs@.consistent());
        }
        Err(ParseError::at(ErrKind::SemanticInvalid, &config.path, ""))
    }
}

/// One descriptor of the current-validator parameter: the optional
/// alternate key is read first, and the descriptor carries no network
/// address.
pub open spec fn cur_validator_descr_spec(o: Seq<(String, Json)>, p: Seq<Seq<char>>) -> Result<
    ValidatorDescrV,
    ErrV,
> {
    match bls_opt_spec(o, p) {
        Err(e) => Err(e),
        Ok(bls) => match get_str_spec(o, p, "public_key"@) {
            Err(e) => Err(e),
            Ok(ks) => match hex_decoded(sbytes(ks)) {
                None => Err(errv(ErrKind::ParseFailure, p, "public_key"@)),
                Some(pk) => if pk.len() != PUBKEY_LEN {
                    Err(errv(ErrKind::SemanticInvalid, p, "public_key"@))
                } else {
                    match get_num_spec(o, p, "weight"@) {
                        Err(e) => Err(e),
                        Ok(w) => Ok(
                            ValidatorDescrV {
                                public_key: pk,
                                weight: w as u64,
                                adnl_addr: None,
                                bls_public_key: bls,
                            },
                        ),
                    }
                },
            },
        },
    }
}

/// The descriptors of the current-validator list, decoded in order.
pub open spec fn cur_valdescr_fold(
    items: Seq<Json>,
    p: Seq<Seq<char>>,
    acc: Seq<ValidatorDescrV>,
    i: int,
) -> Result<Seq<ValidatorDescrV>, ErrV>
    decreases items.len() - i,
{
    if i < 0 || i >= items.len() {
        Ok(acc)
    } else {
        match cont_spec(items[i], p, "p34"@) {
            Err(e) => Err(e),
            Ok(o) => match cur_validator_descr_spec(o, p.push("p34"@)) {
                Err(e) => Err(e),
                Ok(d) => cur_valdescr_fold(items, p, acc.push(d), i + 1),
            },
        }
    }
}

/// The current-validator parameter: its list is read before the validity
/// window, and the assembled set must be consistent.
pub open spec fn cur_validator_set_spec(o: Seq<(String, Json)>, p: Seq<Seq<char>>) -> Result<
    ValidatorSetV,
    ErrV,
> {
    match get_vec_spec(o, p, "list"@) {
        Err(e) => Err(e),
        Ok(items) => match cur_valdescr_fold(items, p, Seq::empty(), 0) {
            Err(e) => Err(e),
            Ok(list) => match get_num_spec(o, p, "utime_since"@) {
                Err(e) => Err(e),
                Ok(us) => match get_num_spec(o, p, "utime_until"@) {
                    Err(e) => Err(e),
                    Ok(uu) => match get_num_spec(o, p, "main"@) {
                        Err(e) => Err(e),
                        Ok(mn) => {
                            let vs = ValidatorSetV {
                                utime_since: us as u32,
                                utime_until: uu as u32,
                                main: mn as u16,
                                list,
                            };
                            if vs.consistent() {
                                Ok(vs)
                            } else {
                                Err(errv(ErrKind::SemanticInvalid, p, ""@))
                            }
                        },
                    },
                },
            },
        },
    }
}

/// Parses the current-validator parameter.
#[verifier::loop_isolation(false)]
#[verifier::rlimit(60)]
pub fn parse_cur_validator_set(config: &PathMap) -> (r: Result<ValidatorSet, ParseError>)
    ensures
        match r {
            Ok(v) => cur_validator_set_spec(config.entries(), config.pathv()) == Ok::<_, ErrV>(v@),
            Err(e) => cur_validator_set_spec(config.entries(), config.pathv()) == Err::<
                ValidatorSetV,
                _,
            >(e@),
        },
{
    let items = config.get_vec("list")?;
    let mut list: Vec<ValidatorDescr> = Vec::new();
    let ghost pv = config.pathv();
    let ghost whole = cur_valdescr_fold(items@, pv, Seq::empty(), 0);
    let mut i: usize = 0;
    proof {
        assert(valdescrs_v(list@) =~= Seq::<ValidatorDescrV>::empty());
    }
    while i < items.len()
        invariant
            i <= items@.len(),
            cur_valdescr_fold(items@, pv, valdescrs_v(list@), i as int) == whole,
            pv == config.pathv(),
        decreases items@.len() - i,
    {
        let m = PathMap::cont(config, "p34", &items[i])?;
        let bls = parse_bls_opt(&m)?;
        let ks = m.get_str("public_key")?;
        let pk = match hex_decode(ks.as_str().as_bytes()) {
            Some(v) => v,
            None => {
                return Err(ParseError::at(ErrKind::ParseFailure, &m.path, "public_key"));
            },
        };
        if pk.len() != PUBKEY_LEN {
            return Err(ParseError::at(ErrKind::SemanticInvalid, &m.path, "public_key"));
        }
        let w = m.get_num("weight")?;
        let d = ValidatorDescr {
            public_key: pk,
            weight: #[verifier::truncate] (w as u64),
            adnl_addr: None,
            bls_public_key: bls,
        };
        let ghost pre = list@;
        list.push(d);
        proof {
            assert(valdescrs_v(list@) =~= valdescrs_v(pre).push(d@));
        }
        i += 1;
    }
    let us = config.get_num("utime_since")?;
    let uu = config.get_num("utime_until")?;
    let mn = config.get_num("main")?;
    let vs = ValidatorSet {
        utime_since: #[verifier::truncate] (us as u32),
        utime_until: #[verifier::truncate] (uu as u32),
        main: #[verifier::truncate] (mn as u16),
        list,
    };
    if vs.list.len() > 0 && 1 <= vs.main && vs.main as usize <= vs.list.len() {
        proof {
            assert(vs@.consistent());
        }
        Ok(vs)
    } else {
        proof {
            assert(!vs@.consistent());
        }
        Err(ParseError::at(ErrKind::SemanticInvalid, &config.path, ""))
    }
}

/// One signed temporary key entry: the map key, the temporary key fields,
/// and the signature assembled from its two hex halves.
pub open spec fn temp_key_entry_spec(o: Seq<(String, Json)>, p: Seq<Seq<char>>) -> Result<
    (Seq<u8>, ValidatorSignedTempKeyV),
    ErrV,
> {
    match get_uint256_spec(o, p, "map_key"@) {
        Err(e) => Err(e),
        Ok(key) => match get_uint256_spec(o, p, "adnl_addr"@) {
            Err(e) => Err(e),
            Ok(adnl) => match get_str_spec(o, p, "temp_public_key"@) {
                Err(e) => Err(e),
                Ok(ts) => match hex_decoded(sbytes(ts)) {
                    None => Err(errv(ErrKind::ParseFailure, p, "temp_public_key"@)),
                    Some(tpk) => match get_num_spec(o, p, "seqno"@) {
                        Err(e) => Err(e),
                        Ok(seqno) => match get_num_spec(o, p, "valid_until"@) {
                            Err(e) => Err(e),
                            Ok(vu) => match get_str_spec(o, p, "signature_r"@) {
                                Err(e) => Err(e),
                                Ok(rs) => match get_str_spec(o, p, "signature_s"@) {
                                    Err(e) => Err(e),
                                    Ok(ss) => if tpk.len() != PUBKEY_LEN {
                                        Err(errv(ErrKind::SemanticInvalid, p, "temp_public_key"@))
                                    } else {
                                        match hex_decoded(sbytes(rs)) {
                                            None => Err(
                                                errv(ErrKind::ParseFailure, p, "signature_r"@),
                                            ),
                                            Some(rb) => match hex_decoded(sbytes(ss)) {
                                                None => Err(
                                                    errv(ErrKind::ParseFailure, p, "signature_s"@),
                                                ),
                                                Some(sb) => if rb.len() != 32 {
                                                    Err(
                                                        errv(
                                                            ErrKind::SemanticInvalid,
                                                            p,
                                                            "signature_r"@,
                                                        ),
                                                    )
                                                } else if sb.len() != 32 {
                                                    Err(
                                                        errv(
                                                            ErrKind::SemanticInvalid,
                                                            p,
                                                            "signature_s"@,
                                                        ),
                                                    )
                                                } else {
                                                    Ok(
                                                        (
                                                            key,
                                                            ValidatorSignedTempKeyV {
                                                                key: ValidatorTempKeyV {
                                                                    adnl_addr: adnl,
                                                                    temp_public_key: tpk,
                                                                    seqno: seqno as u32,
                                                                    valid_until: vu as u32,
                                                                },
                                                                signature: rb + sb,
                                                            },
                                                        ),
                                                    )
                                                },
                                            },
                                        }
                                    },
                                },
                            },
                        },
                    },
                },
            },
        },
    }
}

/// Parses one signed temporary key entry.
fn parse_temp_key_entry(m: &PathMap) -> (r: Result<(Hash256, ValidatorSignedTempKey), ParseError>)
    ensures
        match r {
            Ok(e) => temp_key_entry_spec(m.entries(), m.pathv()) == Ok::<_, ErrV>((e.0@, e.1@)),
            Err(e) => temp_key_entry_spec(m.entries(), m.pathv()) == Err::<
                (Seq<u8>, ValidatorSignedTempKeyV),
                _,
            >(e@),
        },
{
    let key = m.get_uint256("map_key")?;
    let adnl = m.get_uint256("adnl_addr")?;
    let ts = m.get_str("temp_public_key")?;
    let tpk = match hex_decode(ts.as_str().as_bytes()) {
        Some(v) => v,
        None => {
            return Err(ParseError::at(ErrKind::ParseFailure, &m.path, "temp_public_key"));
        },
    };
    let seqno = m.get_num("seqno")?;
    let vu = m.get_num("valid_until")?;
    let rs = m.get_str("signature_r")?;
    let ss = m.get_str("signature_s")?;
    if tpk.len() != PUBKEY_LEN {
        return Err(ParseError::at(ErrKind::SemanticInvalid, &m.path, "temp_public_key"));
    }
    let mut rb = match hex_decode(rs.as_str().as_bytes()) {
        Some(v) => v,
        None => {
            return Err(ParseError::at(ErrKind::ParseFailure, &m.path, "signature_r"));
        },
    };
    let mut sb = match hex_decode(ss.as_str().as_bytes()) {
        Some(v) => v,
        None => {
            return Err(ParseError::at(ErrKind::ParseFailure, &m.path, "signature_s"));
        },
    };
    if rb.len() != 32 {
        return Err(ParseError::at(ErrKind::SemanticInvalid, &m.path, "signature_r"));
    }
    if sb.len() != 32 {
        return Err(ParseError::at(ErrKind::SemanticInvalid, &m.path, "signature_s"));
    }
    rb.append(&mut sb);
    Ok(
        (
            key,
            ValidatorSignedTempKey {
                key: ValidatorTempKey {
                    adnl_addr: adnl,
                    temp_public_key: tpk,
                    seqno: #[verifier::truncate] (seqno as u32),
                    valid_until: #[verifier::truncate] (vu as u32),
                },
                signature: rb,
            },
        ),
    )
}

/// The signed temporary keys, keyed by hash with later entries replacing
/// earlier ones of the same key.
pub open spec fn temp_keys_fold(
    items: Seq<Json>,
    p: Seq<Seq<char>>,
    acc: Seq<(Seq<u8>, ValidatorSignedTempKeyV)>,
    i: int,
) -> Result<Seq<(Seq<u8>, ValidatorSignedTempKeyV)>, ErrV>
    decreases items.len() - i,
{
    if i < 0 || i >= items.len() {
        Ok(acc)
    } else {
        match cont_spec(items[i], p, "p39"@) {
            Err(e) => Err(e),
            Ok(o) => match temp_key_entry_spec(o, p.push("p39"@)) {
                Err(e) => Err(e),
                Ok(kv) => temp_keys_fold(items, p, upsert(acc, kv.0, kv.1), i + 1),
            },
        }
    }
}

/// Parses the signed temporary key list.
#[verifier::loop_isolation(false)]
#[verifier::rlimit(60)]
pub fn parse_temp_keys(config: &PathMap, items: &Vec<Json>) -> (r: Result<
    Vec<(Hash256, ValidatorSignedTempKey)>,
    ParseError,
>)
    ensures
        match r {
            Ok(v) => temp_keys_fold(items@, config.pathv(), Seq::empty(), 0) == Ok::<_, ErrV>(
                temp_keys_v(v@),
            ),
            Err(e) => temp_keys_fold(items@, config.pathv(), Seq::empty(), 0) == Err::<
                Seq<(Seq<u8>, ValidatorSignedTempKeyV)>,
                _,
            >(e@),
        },
{
    let mut out: Vec<(Hash256, ValidatorSignedTempKey)> = Vec::new();
    let ghost pv = config.pathv();
    let ghost whole = temp_keys_fold(items@, pv, Seq::empty(), 0);
    let mut i: usize = 0;
    proof {
        assert(temp_keys_v(out@) =~= Seq::<(Seq<u8>, ValidatorSignedTempKeyV)>::empty());
    }
    while i < items.len()
        invariant
            i <= items@.len(),
            temp_keys_fold(items@, pv, temp_keys_v(out@), i as int) == whole,
            pv == config.pathv(),
        decreases items@.len() - i,
    {
        let m = PathMap::cont(config, "p39", &items[i])?;
        let kv = parse_temp_key_entry(&m)?;
        upsert_temp_key(&mut out, kv.0, kv.1);
        i += 1;
    }
    Ok(out)
}

/// A present alternate-scheme public key is accepted exactly when its hex
/// decodes to the documented key length, and rejected as semantically
/// invalid at any other length. Every validator decoder reads the key
/// through this one specification, so the rule does not depend on which
/// parameter embeds the key.
pub proof fn lemma_bls_key_length(o: Seq<(String, Json)>, p: Seq<Seq<char>>, s: String)
    requires
        crate::json::obj_get(o, "bls_public_key"@) == Some(Json::Str(s)),
        hex_decoded(sbytes(s)) is Some,
    ensures
        hex_decoded(sbytes(s))->Some_0.len() == BLS_PUBKEY_LEN ==> bls_opt_spec(o, p) == Ok::<
            Option<Seq<u8>>,
            ErrV,
        >(Some(hex_decoded(sbytes(s))->Some_0)),
        hex_decoded(sbytes(s))->Some_0.len() != BLS_PUBKEY_LEN ==> bls_opt_spec(o, p) == Err::<
            Option<Seq<u8>>,
            ErrV,
        >(errv(ErrKind::SemanticInvalid, p, "bls_public_key"@)),
{
}

} // verus!
