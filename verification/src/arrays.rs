use vstd::prelude::*;
use vstd::string::StringSliceAdditionalSpecFns;
use crate::assoc::{add_key, add_key_hash, add_key_u32, add_key_addr, addrs_v, hashes_v, upsert, upsert_u32};
use crate::blockid::{parse_separated_block_id_ext, separated_block_id_spec};
use crate::codec::{hash_of_hex, hex_decoded, parse_hash256, Hash256};
use crate::decode::{parse_storage_prices_entry, storage_prices_spec};
use crate::err::{errv, ErrKind, ErrV, ParseError};
use crate::json::{json_as_u64, Json};
use crate::num::{capped_dec_of_bytes, i32_of_bytes, u32_of_bytes, MAG_CAP};
use crate::path::{cont_spec, get_bool_spec, get_num_spec, get_obj_spec, get_str_spec, get_uint256_spec, get_vec_spec, sbytes, PathMap};
use crate::types::{
    BlockIdExt, BlockIdExtV, ConnectedNwConfig, ConnectedNwConfigV, StoragePrices, WorkchainDescr,
    WorkchainDescrV, WorkchainFormat, MAX_ADDR_LEN_BOUND, MAX_SPLIT_DEPTH, MIN_ADDR_LEN_BOUND,
};

verus! {

/// A parameter number read from one array element: a native non-negative
/// 64-bit number is truncated, a string must parse as an unsigned 32-bit
/// decimal. A string that does not parse is a parse failure; a value of
/// any other shape is the wrong type.
pub open spec fn param_id_spec(v: Json, p: Seq<Seq<char>>, name: Seq<char>) -> Result<u32, ErrV> {
    match json_as_u64(v) {
        Some(u) => Ok(u as u32),
        None => match v {
            Json::Str(s) => match u32_of_bytes(sbytes(s)) {
                Some(u) => Ok(u),
                None => Err(errv(ErrKind::ParseFailure, p, name)),
            },
            _ => Err(errv(ErrKind::WrongType, p, name)),
        },
    }
}

/// Reads an array element as a parameter number.
pub fn json_to_uint(v: &Json, path: &Vec<String>, name: &str) -> (r: Result<u32, ParseError>)
    ensures
        match r {
            Ok(u) => param_id_spec(*v, path.deep_view(), name@) == Ok::<_, ErrV>(u),
            Err(e) => param_id_spec(*v, path.deep_view(), name@) == Err::<u32, _>(e@),
        },
{
    match v.as_u64() {
        Some(u) => Ok(#[verifier::truncate] (u as u32)),
        None => match v {
            Json::Str(s) => match crate::num::parse_u32_bytes(s.as_str().as_bytes()) {
                Some(u) => Ok(u),
                None => Err(ParseError::at(ErrKind::ParseFailure, path, name)),
            },
            _ => Err(ParseError::at(ErrKind::WrongType, path, name)),
        },
    }
}

/// A parameter-number set read element by element, keeping first
/// occurrences.
pub open spec fn param_ids_fold(
    items: Seq<Json>,
    p: Seq<Seq<char>>,
    name: Seq<char>,
    acc: Seq<u32>,
    i: int,
) -> Result<Seq<u32>, ErrV>
    decreases items.len() - i,
{
    if i < 0 || i >= items.len() {
        Ok(acc)
    } else {
        match param_id_spec(items[i], p, name) {
            Ok(u) => param_ids_fold(items, p, name, add_key(acc, u), i + 1),
            Err(e) => Err(e),
        }
    }
}

/// Parses an array of parameter numbers into a set.
#[verifier::loop_isolation(false)]
pub fn parse_param_ids(config: &PathMap, items: &Vec<Json>, name: &str) -> (r: Result<
    Vec<u32>,
    ParseError,
>)
    ensures
        match r {
            Ok(v) => param_ids_fold(items@, config.pathv(), name@, Seq::empty(), 0) == Ok::<
                _,
                ErrV,
            >(v@),
            Err(e) => param_ids_fold(items@, config.pathv(), name@, Seq::empty(), 0) == Err::<
                Seq<u32>,
                _,
            >(e@),
        },
{
    let mut out: Vec<u32> = Vec::new();
    let ghost pv = config.pathv();
    let ghost whole = param_ids_fold(items@, pv, name@, Seq::empty(), 0);
    let mut i: usize = 0;
    while i < items.len()
        invariant
            i <= items@.len(),
            param_ids_fold(items@, pv, name@, out@, i as int) == whole,
        decreases items@.len() - i,
    {
        let u = json_to_uint(&items[i], &config.path, name)?;
        add_key_u32(&mut out, u);
        i += 1;
    }
    Ok(out)
}

/// The storage-price schedule read element by element, in order.
pub open spec fn storage_prices_fold(
    items: Seq<Json>,
    p: Seq<Seq<char>>,
    acc: Seq<StoragePrices>,
    i: int,
) -> Result<Seq<StoragePrices>, ErrV>
    decreases items.len() - i,
{
    if i < 0 || i >= items.len() {
        Ok(acc)
    } else {
        match cont_spec(items[i], p, "p18"@) {
            Err(e) => Err(e),
            Ok(o) => match storage_prices_spec(o, p.push("p18"@)) {
                Err(e) => Err(e),
                Ok(sp) => storage_prices_fold(items, p, acc.push(sp), i + 1),
            },
        }
    }
}

/// Parses the storage-price schedule.
#[verifier::loop_isolation(false)]
pub fn parse_storage_prices_list(config: &PathMap, items: &Vec<Json>) -> (r: Result<
    Vec<StoragePrices>,
    ParseError,
>)
    ensures
        match r {
            Ok(v) => storage_prices_fold(items@, config.pathv(), Seq::empty(), 0) == Ok::<
                _,
                ErrV,
            >(v@),
            Err(e) => storage_prices_fold(items@, config.pathv(), Seq::empty(), 0) == Err::<
                Seq<StoragePrices>,
                _,
            >(e@),
        },
{
    let mut out: Vec<StoragePrices> = Vec::new();
    let ghost pv = config.pathv();
    let ghost whole = storage_prices_fold(items@, pv, Seq::empty(), 0);
    let mut i: usize = 0;
    while i < items.len()
        invariant
            i <= items@.len(),
            storage_prices_fold(items@, pv, out@, i as int) == whole,
        decreases items@.len() - i,
    {
        let m = PathMap::cont(config, "p18", &items[i])?;
        let sp = parse_storage_prices_entry(&m)?;
        out.push(sp);
        i += 1;
    }
    Ok(out)
}

/// The amount one extra-currency entry carries: a decimal string under
/// `value_dec`, else a decimal string under `value`, below the decoders'
/// numeric cap.
pub open spec fn currency_value_spec(o: Seq<(String, Json)>, p: Seq<Seq<char>>) -> Result<
    u128,
    ErrV,
> {
    match get_str_spec(o, p, "value_dec"@) {
        Ok(s) => match capped_dec_of_bytes(sbytes(s), MAG_CAP) {
            Some(v) => Ok(v),
            None => Err(errv(ErrKind::ParseFailure, p, "value_dec"@)),
        },
        Err(_) => match get_str_spec(o, p, "value"@) {
            Err(e) => Err(e),
            Ok(s) => match capped_dec_of_bytes(sbytes(s), MAG_CAP) {
                Some(v) => Ok(v),
                None => Err(errv(ErrKind::ParseFailure, p, "value"@)),
            },
        },
    }
}

/// One extra-currency entry: its amount and its currency number.
pub open spec fn currency_entry_spec(o: Seq<(String, Json)>, p: Seq<Seq<char>>) -> Result<
    (u32, u128),
    ErrV,
> {
    match currency_value_spec(o, p) {
        Err(e) => Err(e),
        Ok(v) => match get_num_spec(o, p, "currency"@) {
            Err(e) => Err(e),
            Ok(c) => Ok((c as u32, v)),
        },
    }
}

/// Parses one extra-currency entry.
fn parse_currency_entry(m: &PathMap) -> (r: Result<(u32, u128), ParseError>)
    ensures
        match r {
            Ok(e) => currency_entry_spec(m.entries(), m.pathv()) == Ok::<_, ErrV>((e.0, e.1)),
            Err(e) => currency_entry_spec(m.entries(), m.pathv()) == Err::<(u32, u128), _>(e@),
        },
{
    let v: u128 = match m.get_str("value_dec") {
        Ok(s) => match crate::num::parse_capped_dec_bytes(s.as_str().as_bytes(), MAG_CAP) {
            Some(v) => v,
            None => {
                return Err(ParseError::at(ErrKind::ParseFailure, &m.path, "value_dec"));
            },
        },
        Err(_) => {
            let s = m.get_str("value")?;
            match crate::num::parse_capped_dec_bytes(s.as_str().as_bytes(), MAG_CAP) {
                Some(v) => v,
                None => {
                    return Err(ParseError::at(ErrKind::ParseFailure, &m.path, "value"));
                },
            }
        },
    };
    let c = m.get_num("currency")?;
    Ok((#[verifier::truncate] (c as u32), v))
}

/// The extra currencies to mint, keyed by currency number with later
/// entries replacing earlier ones.
pub open spec fn currencies_fold(
    items: Seq<Json>,
    p: Seq<Seq<char>>,
    acc: Seq<(u32, u128)>,
    i: int,
) -> Result<Seq<(u32, u128)>, ErrV>
    decreases items.len() - i,
{
    if i < 0 || i >= items.len() {
        Ok(acc)
    } else {
        match cont_spec(items[i], p, "p7"@) {
            Err(e) => Err(e),
            Ok(o) => match currency_entry_spec(o, p.push("p7"@)) {
                Err(e) => Err(e),
                Ok(kv) => currencies_fold(items, p, upsert(acc, kv.0, kv.1), i + 1),
            },
        }
    }
}

/// Parses the extra-currency list.
#[verifier::loop_isolation(false)]
pub fn parse_currencies(config: &PathMap, items: &Vec<Json>) -> (r: Result<
    Vec<(u32, u128)>,
    ParseError,
>)
    ensures
        match r {
            Ok(v) => currencies_fold(items@, config.pathv(), Seq::empty(), 0) == Ok::<_, ErrV>(v@),
            Err(e) => currencies_fold(items@, config.pathv(), Seq::empty(), 0) == Err::<
                Seq<(u32, u128)>,
                _,
            >(e@),
        },
{
    let mut out: Vec<(u32, u128)> = Vec::new();
    let ghost pv = config.pathv();
    let ghost whole = currencies_fold(items@, pv, Seq::empty(), 0);
    let mut i: usize = 0;
    while i < items.len()
        invariant
            i <= items@.len(),
            currencies_fold(items@, pv, out@, i as int) == whole,
        decreases items@.len() - i,
    {
        let m = PathMap::cont(config, "p7", &items[i])?;
        let kv = parse_currency_entry(&m)?;
        upsert_u32(&mut out, kv.0, kv.1);
        i += 1;
    }
    Ok(out)
}

/// A fundamental-contract address read from one array element: the value
/// must be a hash string.
pub open spec fn as_uint256_spec(v: Json, p: Seq<Seq<char>>, name: Seq<char>) -> Result<
    Seq<u8>,
    ErrV,
> {
    match v {
        Json::Str(s) => match hash_of_hex(sbytes(s)) {
            Some(h) => Ok(h),
            None => Err(errv(ErrKind::ParseFailure, p, name)),
        },
        _ => Err(errv(ErrKind::WrongType, p, name)),
    }
}

/// Reads a JSON value as a 256-bit hash.
pub fn json_to_uint256(v: &Json, path: &Vec<String>, name: &str) -> (r: Result<
    Hash256,
    ParseError,
>)
    ensures
        match r {
            Ok(h) => as_uint256_spec(*v, path.deep_view(), name@) == Ok::<_, ErrV>(h@) && h.wf(),
            Err(e) => as_uint256_spec(*v, path.deep_view(), name@) == Err::<Seq<u8>, _>(e@),
        },
{
    match v {
        Json::Str(s) => match parse_hash256(s.as_str()) {
            Some(h) => Ok(h),
            None => Err(ParseError::at(ErrKind::ParseFailure, path, name)),
        },
        _ => Err(ParseError::at(ErrKind::WrongType, path, name)),
    }
}

/// The fundamental-contract address set, keeping first occurrences.
pub open spec fn fundamental_addrs_fold(
    items: Seq<Json>,
    p: Seq<Seq<char>>,
    acc: Seq<Seq<u8>>,
    i: int,
) -> Result<Seq<Seq<u8>>, ErrV>
    decreases items.len() - i,
{
    if i < 0 || i >= items.len() {
        Ok(acc)
    } else {
        match as_uint256_spec(items[i], p, "p31"@) {
            Err(e) => Err(e),
            Ok(h) => fundamental_addrs_fold(items, p, add_key(acc, h), i + 1),
        }
    }
}

/// Parses the fundamental-contract address list.
#[verifier::loop_isolation(false)]
pub fn parse_fundamental_addrs(config: &PathMap, items: &Vec<Json>) -> (r: Result<
    Vec<Hash256>,
    ParseError,
>)
    ensures
        match r {
            Ok(v) => fundamental_addrs_fold(items@, config.pathv(), Seq::empty(), 0) == Ok::<
                _,
                ErrV,
            >(hashes_v(v@)),
            Err(e) => fundamental_addrs_fold(items@, config.pathv(), Seq::empty(), 0) == Err::<
                Seq<Seq<u8>>,
                _,
            >(e@),
        },
{
    let mut out: Vec<Hash256> = Vec::new();
    let ghost pv = config.pathv();
    let ghost whole = fundamental_addrs_fold(items@, pv, Seq::empty(), 0);
    let mut i: usize = 0;
    proof {
        assert(hashes_v(out@) =~= Seq::<Seq<u8>>::empty());
    }
    while i < items.len()
        invariant
            i <= items@.len(),
            fundamental_addrs_fold(items@, pv, hashes_v(out@), i as int) == whole,
        decreases items@.len() - i,
    {
        let h = json_to_uint256(&items[i], &config.path, "p31")?;
        add_key_hash(&mut out, h);
        i += 1;
    }
    Ok(out)
}

/// One workchain description: split depths and address-format bounds must
/// respect the documented limits.
pub open spec fn workchain_entry_spec(o: Seq<(String, Json)>, p: Seq<Seq<char>>) -> Result<
    (u32, WorkchainDescrV),
    ErrV,
> {
    match get_num_spec(o, p, "workchain_id"@) {
        Err(e) => Err(e),
        Ok(wc) => match get_num_spec(o, p, "enabled_since"@) {
            Err(e) => Err(e),
            Ok(enabled_since) => match get_num_spec(o, p, "min_split"@) {
                Err(e) => Err(e),
                Ok(mns) => if mns as u8 > MAX_SPLIT_DEPTH {
                    Err(errv(ErrKind::SemanticInvalid, p, "min_split"@))
                } else {
                    match get_num_spec(o, p, "max_split"@) {
                        Err(e) => Err(e),
                        Ok(mxs) => if !(mns as u8 <= mxs as u8 && mxs as u8 <= MAX_SPLIT_DEPTH) {
                            Err(errv(ErrKind::SemanticInvalid, p, "max_split"@))
                        } else {
                            workchain_entry_rest(o, p, wc, enabled_since, mns as u8, mxs as u8)
                        },
                    }
                },
            },
        },
    }
}

/// The tail of the workchain decoding, split for length.
pub open spec fn workchain_entry_rest(
    o: Seq<(String, Json)>,
    p: Seq<Seq<char>>,
    wc: i64,
    enabled_since: i64,
    min_split: u8,
    max_split: u8,
) -> Result<(u32, WorkchainDescrV), ErrV> {
    match get_num_spec(o, p, "flags"@) {
        Err(e) => Err(e),
        Ok(flags) => match get_bool_spec(o, p, "active"@) {
            Err(e) => Err(e),
            Ok(active) => match get_bool_spec(o, p, "accept_msgs"@) {
                Err(e) => Err(e),
                Ok(accept_msgs) => match get_uint256_spec(o, p, "zerostate_root_hash"@) {
                    Err(e) => Err(e),
                    Ok(zrh) => match get_uint256_spec(o, p, "zerostate_file_hash"@) {
                        Err(e) => Err(e),
                        Ok(zfh) => match get_num_spec(o, p, "version"@) {
                            Err(e) => Err(e),
                            Ok(version) => match workchain_format_spec(o, p) {
                                Err(e) => Err(e),
                                Ok(format) => Ok(
                                    (
                                        wc as u32,
                                        WorkchainDescrV {
                                            enabled_since: enabled_since as u32,
                                            min_split,
                                            max_split,
                                            flags: flags as u16,
                                            active,
                                            accept_msgs,
                                            zerostate_root_hash: zrh,
                                            zerostate_file_hash: zfh,
                                            version: version as u32,
                                            format,
                                        },
                                    ),
                                ),
                            },
                        },
                    },
                },
            },
        },
    }
}

/// The address-format family of a workchain, chosen by the `basic` flag.
pub open spec fn workchain_format_spec(o: Seq<(String, Json)>, p: Seq<Seq<char>>) -> Result<
    WorkchainFormat,
    ErrV,
> {
    match get_bool_spec(o, p, "basic"@) {
        Err(e) => Err(e),
        Ok(true) => match get_num_spec(o, p, "vm_version"@) {
            Err(e) => Err(e),
            Ok(vm_version) => match get_num_spec(o, p, "vm_mode"@) {
                Err(e) => Err(e),
                Ok(vm_mode) => Ok(
                    WorkchainFormat::Basic {
                        vm_version: vm_version as i32,
                        vm_mode: vm_mode as u64,
                    },
                ),
            },
        },
        Ok(false) => match get_num_spec(o, p, "min_addr_len"@) {
            Err(e) => Err(e),
            Ok(mn) => match get_num_spec(o, p, "max_addr_len"@) {
                Err(e) => Err(e),
                Ok(mx) => match get_num_spec(o, p, "addr_len_step"@) {
                    Err(e) => Err(e),
                    Ok(st) => match get_num_spec(o, p, "workchain_type_id"@) {
                        Err(e) => Err(e),
                        Ok(ty) => if MIN_ADDR_LEN_BOUND <= mn as u16 && mn as u16 <= mx as u16 && mx
                            as u16 <= MAX_ADDR_LEN_BOUND && st as u16 <= MAX_ADDR_LEN_BOUND {
                            Ok(
                                WorkchainFormat::Extended {
                                    min_addr_len: mn as u16,
                                    max_addr_len: mx as u16,
                                    addr_len_step: st as u16,
                                    workchain_type_id: ty as u32,
                                },
                            )
                        } else {
                            Err(errv(ErrKind::SemanticInvalid, p, "min_addr_len"@))
                        },
                    },
                },
            },
        },
    }
}

/// Parses one workchain description.
fn parse_workchain_entry(m: &PathMap) -> (r: Result<(u32, WorkchainDescr), ParseError>)
    ensures
        match r {
            Ok(e) => workchain_entry_spec(m.entries(), m.pathv()) == Ok::<_, ErrV>((e.0, e.1@)),
            Err(e) => workchain_entry_spec(m.entries(), m.pathv()) == Err::<
                (u32, WorkchainDescrV),
                _,
            >(e@),
        },
{
    let wc = m.get_num("workchain_id")?;
    let enabled_since = m.get_num("enabled_since")?;
    let mns = #[verifier::truncate] (m.get_num("min_split")? as u8);
    if mns > MAX_SPLIT_DEPTH {
        return Err(ParseError::at(ErrKind::SemanticInvalid, &m.path, "min_split"));
    }
    let mxs = #[verifier::truncate] (m.get_num("max_split")? as u8);
    if !(mns <= mxs && mxs <= MAX_SPLIT_DEPTH) {
        return Err(ParseError::at(ErrKind::SemanticInvalid, &m.path, "max_split"));
    }
    let flags = m.get_num("flags")?;
    let active = m.get_bool("active")?;
    let accept_msgs = m.get_bool("accept_msgs")?;
    let zrh = m.get_uint256("zerostate_root_hash")?;
    let zfh = m.get_uint256("zerostate_file_hash")?;
    let version = m.get_num("version")?;
    let format = if m.get_bool("basic")? {
        let vm_version = m.get_num("vm_version")?;
        let vm_mode = m.get_num("vm_mode")?;
        WorkchainFormat::Basic {
            vm_version: #[verifier::truncate] (vm_version as i32),
            vm_mode: #[verifier::truncate] (vm_mode as u64),
        }
    } else {
        let mn = #[verifier::truncate] (m.get_num("min_addr_len")? as u16);
        let mx = #[verifier::truncate] (m.get_num("max_addr_len")? as u16);
        let st = #[verifier::truncate] (m.get_num("addr_len_step")? as u16);
        let ty = #[verifier::truncate] (m.get_num("workchain_type_id")? as u32);
        if MIN_ADDR_LEN_BOUND <= mn && mn <= mx && mx <= MAX_ADDR_LEN_BOUND && st
            <= MAX_ADDR_LEN_BOUND {
            WorkchainFormat::Extended {
                min_addr_len: mn,
                max_addr_len: mx,
                addr_len_step: st,
                workchain_type_id: ty,
            }
        } else {
            return Err(ParseError::at(ErrKind::SemanticInvalid, &m.path, "min_addr_len"));
        }
    };
    Ok(
        (
            #[verifier::truncate] (wc as u32),
            WorkchainDescr {
                enabled_since: #[verifier::truncate] (enabled_since as u32),
                min_split: mns,
                max_split: mxs,
                flags: #[verifier::truncate] (flags as u16),
                active,
                accept_msgs,
                zerostate_root_hash: zrh,
                zerostate_file_hash: zfh,
                version: #[verifier::truncate] (version as u32),
                format,
            },
        ),
    )
}

/// A workchain list, seen mathematically.
pub open spec fn workchains_v(s: Seq<(u32, WorkchainDescr)>) -> Seq<(u32, WorkchainDescrV)> {
    s.map_values(|e: (u32, WorkchainDescr)| (e.0, e.1@))
}

/// The workchain table, keyed by workchain number with later entries
/// replacing earlier ones.
pub open spec fn workchains_fold(
    items: Seq<Json>,
    p: Seq<Seq<char>>,
    acc: Seq<(u32, WorkchainDescrV)>,
    i: int,
) -> Result<Seq<(u32, WorkchainDescrV)>, ErrV>
    decreases items.len() - i,
{
    if i < 0 || i >= items.len() {
        Ok(acc)
    } else {
        match cont_spec(items[i], p, "p12"@) {
            Err(e) => Err(e),
            Ok(o) => match workchain_entry_spec(o, p.push("p12"@)) {
                Err(e) => Err(e),
                Ok(kv) => workchains_fold(items, p, upsert(acc, kv.0, kv.1), i + 1),
            },
        }
    }
}

/// Upserts into the workchain table.
fn upsert_workchain(list: &mut Vec<(u32, WorkchainDescr)>, k: u32, v: WorkchainDescr)
    ensures
        workchains_v(final(list)@) == upsert(workchains_v(old(list)@), k, v@),
{
    let n = list.len();
    let mut i: usize = 0;
    while i < n
        invariant
            i <= n,
            n == list@.len(),
            list@ == old(list)@,
            forall|j: int| 0 <= j < i ==> (#[trigger] workchains_v(list@)[j]).0 != k,
        decreases n - i,
    {
        if list[i].0 == k {
            proof {
                assert(workchains_v(list@)[i as int].0 == k);
            }
            list.set(i, (k, v));
            proof {
                assert(workchains_v(list@) =~= workchains_v(old(list)@).update(
                    i as int,
                    (workchains_v(list@)[i as int].0, workchains_v(list@)[i as int].1),
                ));
                crate::assoc::lemma_upsert_update(workchains_v(old(list)@), workchains_v(list@)[i as int].0, workchains_v(
                    list@,
                )[i as int].1, i as int);
            }
            return ;
        }
        proof {
            assert(workchains_v(list@)[i as int].0 == list@[i as int].0);
        }
        i += 1;
    }
    list.push((k, v));
    proof {
        assert(workchains_v(list@) =~= workchains_v(old(list)@).push((k, v@)));
        crate::assoc::lemma_upsert_push(workchains_v(old(list)@), k, v@);
    }
}

/// Parses the workchain list.
#[verifier::loop_isolation(false)]
#[verifier::rlimit(60)]
pub fn parse_workchains(config: &PathMap, items: &Vec<Json>) -> (r: Result<
    Vec<(u32, WorkchainDescr)>,
    ParseError,
>)
    ensures
        match r {
            Ok(v) => workchains_fold(items@, config.pathv(), Seq::empty(), 0) == Ok::<_, ErrV>(
                workchains_v(v@),
            ),
            Err(e) => workchains_fold(items@, config.pathv(), Seq::empty(), 0) == Err::<
                Seq<(u32, WorkchainDescrV)>,
                _,
            >(e@),
        },
{
    let mut out: Vec<(u32, WorkchainDescr)> = Vec::new();
    let ghost pv = config.pathv();
    let ghost whole = workchains_fold(items@, pv, Seq::empty(), 0);
    let mut i: usize = 0;
    proof {
        assert(workchains_v(out@) =~= Seq::<(u32, WorkchainDescrV)>::empty());
    }
    while i < items.len()
        invariant
            i <= items@.len(),
            workchains_fold(items@, pv, workchains_v(out@), i as int) == whole,
        decreases items@.len() - i,
    {
        let m = PathMap::cont(config, "p12", &items[i])?;
        let kv = parse_workchain_entry(&m)?;
        upsert_workchain(&mut out, kv.0, kv.1);
        i += 1;
    }
    Ok(out)
}

/// The position of the first occurrence of `x` in `b`.
pub open spec fn first_pos(b: Seq<u8>, x: u8) -> Option<int>
    decreases b.len(),
{
    if b.len() == 0 {
        None
    } else if b[0] == x {
        Some(0)
    } else {
        match first_pos(b.drop_first(), x) {
            Some(i) => Some(i + 1),
            None => None,
        }
    }
}

/// The workchain and account of an address string `wc:hex`, when it parses:
/// a decimal workchain number, a colon, and a 256-bit account in hex.
pub open spec fn addr_of_bytes(b: Seq<u8>) -> Option<(i32, Seq<u8>)> {
    match first_pos(b, 58) {
        None => None,
        Some(i) => match i32_of_bytes(b.take(i)) {
            None => None,
            Some(wc) => match hex_decoded(b.skip(i + 1)) {
                Some(h) => if h.len() == 32 {
                    Some((wc, h))
                } else {
                    None
                },
                None => None,
            },
        },
    }
}

/// Parses an address string into its workchain and account parts.
#[verifier::loop_isolation(false)]
fn parse_address(s: &str) -> (r: Option<(i32, Hash256)>)
    ensures
        match r {
            Some(a) => addr_of_bytes(s.spec_bytes()) == Some((a.0, a.1@)) && a.1.wf(),
            None => addr_of_bytes(s.spec_bytes()) is None,
        },
{
    let b = s.as_bytes();
    let n = b.len();
    let mut i: usize = 0;
    while i < n
        invariant
            i <= n,
            n == b@.len(),
            forall|j: int| 0 <= j < i ==> b@[j] != 58,
        decreases n - i,
    {
        if b[i] == 58 {
            proof {
                lemma_first_pos_found(b@, 58, i as int);
            }
            let wc = match crate::num::parse_i32_bytes(&b[0..i]) {
                Some(w) => w,
                None => {
                    proof {
                        assert(b@.subrange(0, i as int) =~= b@.take(i as int));
                    }
                    return None;
                },
            };
            proof {
                assert(b@.subrange(0, i as int) =~= b@.take(i as int));
                assert(b@.subrange(i + 1 as int, n as int) =~= b@.skip(i + 1 as int));
            }
            let h = match crate::codec::hex_decode(&b[i + 1..n]) {
                Some(h) => h,
                None => {
                    return None;
                },
            };
            if h.len() == 32 {
                return Some((wc, Hash256 { bytes: h }));
            } else {
                return None;
            }
        }
        i += 1;
    }
    proof {
        lemma_first_pos_absent(b@, 58);
    }
    None
}

/// When `x` first occurs at `i`, `first_pos` finds that index.
proof fn lemma_first_pos_found(b: Seq<u8>, x: u8, i: int)
    requires
        0 <= i < b.len(),
        b[i] == x,
        forall|j: int| 0 <= j < i ==> b[j] != x,
    ensures
        first_pos(b, x) == Some(i),
    decreases i,
{
    if i == 0 {
    } else {
        assert(b.drop_first()[i - 1] == x);
        assert forall|j: int| 0 <= j < i - 1 implies b.drop_first()[j] != x by {
            assert(b.drop_first()[j] == b[j + 1]);
        }
        lemma_first_pos_found(b.drop_first(), x, i - 1);
    }
}

/// When `x` does not occur, `first_pos` finds nothing.
proof fn lemma_first_pos_absent(b: Seq<u8>, x: u8)
    requires
        forall|j: int| 0 <= j < b.len() ==> b[j] != x,
    ensures
        first_pos(b, x) is None,
    decreases b.len(),
{
    if b.len() > 0 {
        assert forall|j: int| 0 <= j < b.drop_first().len() implies b.drop_first()[j] != x by {
            assert(b.drop_first()[j] == b[j + 1]);
        }
        lemma_first_pos_absent(b.drop_first(), x);
    }
}

/// One suspended-address element: a string of the form `wc:hex`.
pub open spec fn suspended_entry_spec(v: Json, p: Seq<Seq<char>>) -> Result<(i32, Seq<u8>), ErrV> {
    match v {
        Json::Str(s) => match addr_of_bytes(sbytes(s)) {
            Some(a) => Ok(a),
            None => Err(errv(ErrKind::ParseFailure, p, "p44"@)),
        },
        _ => Err(errv(ErrKind::WrongType, p, "p44"@)),
    }
}

/// The suspended-address set, keeping first occurrences.
pub open spec fn suspended_fold(
    items: Seq<Json>,
    p: Seq<Seq<char>>,
    acc: Seq<(i32, Seq<u8>)>,
    i: int,
) -> Result<Seq<(i32, Seq<u8>)>, ErrV>
    decreases items.len() - i,
{
    if i < 0 || i >= items.len() {
        Ok(acc)
    } else {
        match suspended_entry_spec(items[i], p) {
            Err(e) => Err(e),
            Ok(a) => suspended_fold(items, p, add_key(acc, a), i + 1),
        }
    }
}

/// Parses the suspended-address list.
#[verifier::loop_isolation(false)]
pub fn parse_suspended(config: &PathMap, items: &Vec<Json>) -> (r: Result<
    Vec<(i32, Hash256)>,
    ParseError,
>)
    ensures
        match r {
            Ok(v) => suspended_fold(items@, config.pathv(), Seq::empty(), 0) == Ok::<_, ErrV>(
                addrs_v(v@),
            ),
            Err(e) => suspended_fold(items@, config.pathv(), Seq::empty(), 0) == Err::<
                Seq<(i32, Seq<u8>)>,
                _,
            >(e@),
        },
{
    let mut out: Vec<(i32, Hash256)> = Vec::new();
    let ghost pv = config.pathv();
    let ghost whole = suspended_fold(items@, pv, Seq::empty(), 0);
    let mut i: usize = 0;
    proof {
        assert(addrs_v(out@) =~= Seq::<(i32, Seq<u8>)>::empty());
    }
    while i < items.len()
        invariant
            i <= items@.len(),
            suspended_fold(items@, pv, addrs_v(out@), i as int) == whole,
        decreases items@.len() - i,
    {
        match &items[i] {
            Json::Str(s) => match parse_address(s.as_str()) {
                Some(a) => {
                    add_key_addr(&mut out, a.0, a.1);
                },
                None => {
                    return Err(ParseError::at(ErrKind::ParseFailure, &config.path, "p44"));
                },
            },
            _ => {
                return Err(ParseError::at(ErrKind::WrongType, &config.path, "p44"));
            },
        }
        i += 1;
    }
    Ok(out)
}

/// The hardfork list of one connected network, decoded in order.
pub open spec fn hardforks_fold(
    items: Seq<Json>,
    p: Seq<Seq<char>>,
    acc: Seq<BlockIdExtV>,
    i: int,
) -> Result<Seq<BlockIdExtV>, ErrV>
    decreases items.len() - i,
{
    if i < 0 || i >= items.len() {
        Ok(acc)
    } else {
        match cont_spec(items[i], p, "hardforks"@) {
            Err(e) => Err(e),
            Ok(o) => match separated_block_id_spec(o, p.push("hardforks"@)) {
                Err(e) => Err(e),
                Ok(b) => hardforks_fold(items, p, acc.push(b), i + 1),
            },
        }
    }
}

/// A block-identifier list, seen mathematically.
pub open spec fn block_ids_v(s: Seq<BlockIdExt>) -> Seq<BlockIdExtV> {
    s.map_values(|b: BlockIdExt| b@)
}

/// Parses the hardfork list of one connected network.
#[verifier::loop_isolation(false)]
fn parse_hardforks(m: &PathMap, items: &Vec<Json>) -> (r: Result<Vec<BlockIdExt>, ParseError>)
    ensures
        match r {
            Ok(v) => hardforks_fold(items@, m.pathv(), Seq::empty(), 0) == Ok::<_, ErrV>(
                block_ids_v(v@),
            ),
            Err(e) => hardforks_fold(items@, m.pathv(), Seq::empty(), 0) == Err::<
                Seq<BlockIdExtV>,
                _,
            >(e@),
        },
{
    let mut out: Vec<BlockIdExt> = Vec::new();
    let ghost pv = m.pathv();
    let ghost whole = hardforks_fold(items@, pv, Seq::empty(), 0);
    let mut i: usize = 0;
    proof {
        assert(block_ids_v(out@) =~= Seq::<BlockIdExtV>::empty());
    }
    while i < items.len()
        invariant
            i <= items@.len(),
            hardforks_fold(items@, pv, block_ids_v(out@), i as int) == whole,
        decreases items@.len() - i,
    {
        let hm = PathMap::cont(m, "hardforks", &items[i])?;
        let b = parse_separated_block_id_ext(&hm)?;
        let ghost pre = out@;
        out.push(b);
        proof {
            assert(block_ids_v(out@) =~= block_ids_v(pre).push(b@));
        }
        i += 1;
    }
    Ok(out)
}

/// One connected-network entry of the mesh: its number, an optional
/// hardfork list, the zero-state and initial-block identifiers, and the
/// governance addresses.
pub open spec fn mesh_entry_spec(o: Seq<(String, Json)>, p: Seq<Seq<char>>) -> Result<
    (i32, ConnectedNwConfigV),
    ErrV,
> {
    match get_num_spec(o, p, "network_id"@) {
        Err(e) => Err(e),
        Ok(nw) => {
            let hf = match get_vec_spec(o, p, "hardforks"@) {
                Ok(items) => hardforks_fold(items, p, Seq::empty(), 0),
                Err(_) => Ok(Seq::empty()),
            };
            match hf {
                Err(e) => Err(e),
                Ok(hardforks) => match get_obj_spec(o, p, "zerostate"@) {
                    Err(e) => Err(e),
                    Ok(oz) => match separated_block_id_spec(oz, p.push("zerostate"@)) {
                        Err(e) => Err(e),
                        Ok(zerostate) => match get_bool_spec(o, p, "is_active"@) {
                            Err(e) => Err(e),
                            Ok(is_active) => match get_num_spec(o, p, "currency_id"@) {
                                Err(e) => Err(e),
                                Ok(currency_id) => match get_obj_spec(o, p, "init_block"@) {
                                    Err(e) => Err(e),
                                    Ok(oi) => match separated_block_id_spec(
                                        oi,
                                        p.push("init_block"@),
                                    ) {
                                        Err(e) => Err(e),
                                        Ok(init_block) => match get_uint256_spec(
                                            o,
                                            p,
                                            "emergency_guard_addr"@,
                                        ) {
                                            Err(e) => Err(e),
                                            Ok(guard) => match get_uint256_spec(
                                                o,
                                                p,
                                                "pull_addr"@,
                                            ) {
                                                Err(e) => Err(e),
                                                Ok(pull) => match get_uint256_spec(
                                                    o,
                                                    p,
                                                    "minter_addr"@,
                                                ) {
                                                    Err(e) => Err(e),
                                                    Ok(minter) => Ok(
                                                        (
                                                            nw as i32,
                                                            ConnectedNwConfigV {
                                                                zerostate,
                                                                is_active,
                                                                currency_id: currency_id as u32,
                                                                init_block,
                                                                emergency_guard_addr: guard,
                                                                pull_addr: pull,
                                                                minter_addr: minter,
                                                                hardforks,
                                                            },
                                                        ),
                                                    ),
                                                },
                                            },
                                        },
                                    },
                                },
                            },
                        },
                    },
                },
            }
        },
    }
}

/// Parses one connected-network entry.
#[verifier::rlimit(60)]
fn parse_mesh_entry(m: &PathMap) -> (r: Result<(i32, ConnectedNwConfig), ParseError>)
    ensures
        match r {
            Ok(e) => mesh_entry_spec(m.entries(), m.pathv()) == Ok::<_, ErrV>((e.0, e.1@)),
            Err(e) => mesh_entry_spec(m.entries(), m.pathv()) == Err::<
                (i32, ConnectedNwConfigV),
                _,
            >(e@),
        },
{
    let nw = m.get_num("network_id")?;
    let hardforks: Vec<BlockIdExt> = match m.get_vec("hardforks") {
        Ok(items) => parse_hardforks(m, items)?,
        Err(_) => Vec::new(),
    };
    proof {
        assert(block_ids_v(Seq::<BlockIdExt>::empty()) =~= Seq::<BlockIdExtV>::empty());
    }
    let oz = m.get_obj("zerostate")?;
    let zerostate = parse_separated_block_id_ext(&oz)?;
    let is_active = m.get_bool("is_active")?;
    let currency_id = m.get_num("currency_id")?;
    let oi = m.get_obj("init_block")?;
    let init_block = parse_separated_block_id_ext(&oi)?;
    let guard = m.get_uint256("emergency_guard_addr")?;
    let pull = m.get_uint256("pull_addr")?;
    let minter = m.get_uint256("minter_addr")?;
    let cfg = ConnectedNwConfig {
        zerostate,
        is_active,
        currency_id: #[verifier::truncate] (currency_id as u32),
        init_block,
        emergency_guard_addr: guard,
        pull_addr: pull,
        minter_addr: minter,
        hardforks,
    };
    proof {
        assert(cfg@.hardforks =~= block_ids_v(cfg.hardforks@));
    }
    Ok((#[verifier::truncate] (nw as i32), cfg))
}

/// A mesh table, seen mathematically.
pub open spec fn mesh_v(s: Seq<(i32, ConnectedNwConfig)>) -> Seq<(i32, ConnectedNwConfigV)> {
    s.map_values(|e: (i32, ConnectedNwConfig)| (e.0, e.1@))
}

/// The mesh table, keyed by network number with later entries replacing
/// earlier ones.
pub open spec fn mesh_fold(
    items: Seq<Json>,
    p: Seq<Seq<char>>,
    acc: Seq<(i32, ConnectedNwConfigV)>,
    i: int,
) -> Result<Seq<(i32, ConnectedNwConfigV)>, ErrV>
    decreases items.len() - i,
{
    if i < 0 || i >= items.len() {
        Ok(acc)
    } else {
        match cont_spec(items[i], p, "p58"@) {
            Err(e) => Err(e),
            Ok(o) => match mesh_entry_spec(o, p.push("p58"@)) {
                Err(e) => Err(e),
                Ok(kv) => mesh_fold(items, p, upsert(acc, kv.0, kv.1), i + 1),
            },
        }
    }
}

/// Upserts into the mesh table.
fn upsert_mesh(list: &mut Vec<(i32, ConnectedNwConfig)>, k: i32, v: ConnectedNwConfig)
    ensures
        mesh_v(final(list)@) == upsert(mesh_v(old(list)@), k, v@),
{
    let n = list.len();
    let mut i: usize = 0;
    while i < n
        invariant
            i <= n,
            n == list@.len(),
            list@ == old(list)@,
            forall|j: int| 0 <= j < i ==> (#[trigger] mesh_v(list@)[j]).0 != k,
        decreases n - i,
    {
        if list[i].0 == k {
            proof {
                assert(mesh_v(list@)[i as int].0 == k);
            }
            list.set(i, (k, v));
            proof {
                assert(mesh_v(list@) =~= mesh_v(old(list)@).update(
                    i as int,
                    (mesh_v(list@)[i as int].0, mesh_v(list@)[i as int].1),
                ));
                crate::assoc::lemma_upsert_update(mesh_v(old(list)@), mesh_v(list@)[i as int].0, mesh_v(
                    list@,
                )[i as int].1, i as int);
            }
            return ;
        }
        proof {
            assert(mesh_v(list@)[i as int].0 == list@[i as int].0);
        }
        i += 1;
    }
    list.push((k, v));
    proof {
        assert(mesh_v(list@) =~= mesh_v(old(list)@).push((k, v@)));
        crate::assoc::lemma_upsert_push(mesh_v(old(list)@), k, v@);
    }
}

/// Parses the mesh network list.
#[verifier::loop_isolation(false)]
#[verifier::rlimit(60)]
pub fn parse_mesh(config: &PathMap, items: &Vec<Json>) -> (r: Result<
    Vec<(i32, ConnectedNwConfig)>,
    ParseError,
>)
    ensures
        match r {
            Ok(v) => mesh_fold(items@, config.pathv(), Seq::empty(), 0) == Ok::<_, ErrV>(
                mesh_v(v@),
            ),
            Err(e) => mesh_fold(items@, config.pathv(), Seq::empty(), 0) == Err::<
                Seq<(i32, ConnectedNwConfigV)>,
                _,
            >(e@),
        },
{
    let mut out: Vec<(i32, ConnectedNwConfig)> = Vec::new();
    let ghost pv = config.pathv();
    let ghost whole = mesh_fold(items@, pv, Seq::empty(), 0);
    let mut i: usize = 0;
    proof {
        assert(mesh_v(out@) =~= Seq::<(i32, ConnectedNwConfigV)>::empty());
    }
    while i < items.len()
        invariant
            i <= items@.len(),
            mesh_fold(items@, pv, mesh_v(out@), i as int) == whole,
        decreases items@.len() - i,
    {
        let m = PathMap::cont(config, "p58", &items[i])?;
        let kv = parse_mesh_entry(&m)?;
        upsert_mesh(&mut out, kv.0, kv.1);
        i += 1;
    }
    Ok(out)
}

} // verus!
