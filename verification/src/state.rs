use vstd::prelude::*;
use crate::arrays::as_uint256_spec;
use crate::assoc::{add_key, add_key_hash, hashes_v, lemma_upsert_push, lemma_upsert_update, upsert};
use crate::codec::Hash256;
use crate::config::{parse_config_map, parse_config_spec};
use crate::err::{ErrKind, ErrV, ParseError};
use crate::json::{Json, JsonObj};
use crate::params::{ConfigParamV, ConfigSet};
use crate::path::{
    cont_spec, get_base64_spec, get_bool_spec, get_grams_spec, get_num_spec, get_obj_spec,
    get_uint256_spec, get_vec_spec, PathMap,
};
use crate::policy::{GENESIS_MANDATORY_MASK, mask_has_bit, is_need_under};
use crate::types::{ShardIdent, MASTERCHAIN_ID, SHARD_FULL};

verus! {

/// The all-zero 256-bit hash.
pub open spec fn zero_hash() -> Seq<u8> {
    Seq::new(32, |i: int| 0u8)
}

/// Builds the all-zero hash value.
pub fn hash_zero() -> (r: Hash256)
    ensures
        r@ == zero_hash(),
        r.wf(),
{
    let mut bytes: Vec<u8> = Vec::new();
    let mut i: usize = 0;
    while i < 32
        invariant
            i <= 32,
            bytes@ =~= Seq::new(i as nat, |j: int| 0u8),
        decreases 32 - i,
    {
        bytes.push(0);
        proof {
            assert(bytes@ =~= Seq::new((i + 1) as nat, |j: int| 0u8));
        }
        i += 1;
    }
    proof {
        assert(bytes@ =~= zero_hash());
    }
    Hash256 { bytes }
}

/// The validator bookkeeping of a masterchain state.
#[derive(Clone, Copy, Debug, PartialEq, Eq, Structural)]
pub struct ValidatorInfo {
    pub validator_list_hash_short: u32,
    pub catchain_seqno: u32,
    pub nx_cc_updated: bool,
}

/// The masterchain-only extra of a state: its configuration and validator
/// bookkeeping.
#[derive(Clone, Debug)]
pub struct McStateExtra {
    pub config_addr: Hash256,
    pub config: ConfigSet,
    pub validator_info: ValidatorInfo,
    pub global_balance: u128,
    pub after_key_block: bool,
}

/// The mathematical content of the masterchain extra.
pub ghost struct McStateExtraV {
    pub config_addr: Seq<u8>,
    pub config: Seq<(u32, ConfigParamV)>,
    pub validator_info: ValidatorInfo,
    pub global_balance: u128,
    pub after_key_block: bool,
}

impl View for McStateExtra {
    type V = McStateExtraV;

    open spec fn view(&self) -> McStateExtraV {
        McStateExtraV {
            config_addr: self.config_addr@,
            config: self.config@,
            validator_info: self.validator_info,
            global_balance: self.global_balance,
            after_key_block: self.after_key_block,
        }
    }
}

/// One published library: its code as a raw single-root blob, and the
/// accounts that publish it.
#[derive(Clone, Debug)]
pub struct LibDescr {
    pub lib: Vec<u8>,
    pub publishers: Vec<Hash256>,
}

/// The mathematical content of a library description.
pub ghost struct LibDescrV {
    pub lib: Seq<u8>,
    pub publishers: Seq<Seq<u8>>,
}

impl View for LibDescr {
    type V = LibDescrV;

    open spec fn view(&self) -> LibDescrV {
        LibDescrV { lib: self.lib@, publishers: hashes_v(self.publishers@) }
    }
}

/// A shard state assembled from a state map. Accounts are kept as the raw
/// single-root blobs their entries carry; decoding a blob into an account
/// and deriving its identifier belongs to the external cell codec.
#[derive(Clone, Debug)]
pub struct ShardState {
    pub shard: ShardIdent,
    pub global_id: i32,
    pub gen_utime: u32,
    pub min_ref_mc_seqno: u32,
    pub total_balance: u128,
    pub custom: Option<McStateExtra>,
    pub accounts: Vec<Vec<u8>>,
    pub libraries: Vec<(Hash256, LibDescr)>,
}

/// The mathematical content of a shard state.
pub ghost struct ShardStateV {
    pub shard: ShardIdent,
    pub global_id: i32,
    pub gen_utime: u32,
    pub min_ref_mc_seqno: u32,
    pub total_balance: u128,
    pub custom: Option<McStateExtraV>,
    pub accounts: Seq<Seq<u8>>,
    pub libraries: Seq<(Seq<u8>, LibDescrV)>,
}

/// A library table, seen mathematically.
pub open spec fn libs_v(s: Seq<(Hash256, LibDescr)>) -> Seq<(Seq<u8>, LibDescrV)> {
    s.map_values(|e: (Hash256, LibDescr)| (e.0@, e.1@))
}

impl View for ShardState {
    type V = ShardStateV;

    open spec fn view(&self) -> ShardStateV {
        ShardStateV {
            shard: self.shard,
            global_id: self.global_id,
            gen_utime: self.gen_utime,
            min_ref_mc_seqno: self.min_ref_mc_seqno,
            total_balance: self.total_balance,
            custom: match self.custom {
                Some(e) => Some(e@),
                None => None,
            },
            accounts: self.accounts@.map_values(|b: Vec<u8>| b@),
            libraries: libs_v(self.libraries@),
        }
    }
}

/// A field read under the tolerant rule: a failure is fatal only when the
/// mask is nonzero; otherwise the default stands.
pub open spec fn gated_num(
    o: Seq<(String, Json)>,
    p: Seq<Seq<char>>,
    name: Seq<char>,
    mask: u64,
    d: i64,
) -> Result<i64, ErrV> {
    match get_num_spec(o, p, name) {
        Ok(v) => Ok(v),
        Err(e) => if mask != 0 {
            Err(e)
        } else {
            Ok(d)
        },
    }
}

/// A currency amount read under the tolerant rule.
pub open spec fn gated_grams(
    o: Seq<(String, Json)>,
    p: Seq<Seq<char>>,
    name: Seq<char>,
    mask: u64,
    d: u128,
) -> Result<u128, ErrV> {
    match get_grams_spec(o, p, name) {
        Ok(v) => Ok(v),
        Err(e) => if mask != 0 {
            Err(e)
        } else {
            Ok(d)
        },
    }
}

/// A boolean read under the tolerant rule.
pub open spec fn gated_bool(
    o: Seq<(String, Json)>,
    p: Seq<Seq<char>>,
    name: Seq<char>,
    mask: u64,
    d: bool,
) -> Result<bool, ErrV> {
    match get_bool_spec(o, p, name) {
        Ok(v) => Ok(v),
        Err(e) => if mask != 0 {
            Err(e)
        } else {
            Ok(d)
        },
    }
}

/// A hash read under the tolerant rule, defaulting to the zero hash.
pub open spec fn gated_u256(
    o: Seq<(String, Json)>,
    p: Seq<Seq<char>>,
    name: Seq<char>,
    mask: u64,
) -> Result<Seq<u8>, ErrV> {
    match get_uint256_spec(o, p, name) {
        Ok(v) => Ok(v),
        Err(e) => if mask != 0 {
            Err(e)
        } else {
            Ok(zero_hash())
        },
    }
}

/// The masterchain extra read from a `master` object: an embedded `config`
/// object is required and parsed under the mask; the remaining fields
/// follow the tolerant rule, and the state is marked as following a key
/// block.
pub open spec fn master_extra_spec(mo: Seq<(String, Json)>, pm: Seq<Seq<char>>, mask: u64) -> Result<
    McStateExtraV,
    ErrV,
> {
    match get_obj_spec(mo, pm, "config"@) {
        Err(e) => Err(e),
        Ok(co) => match parse_config_spec(co, pm.push("config"@), mask) {
            Err(e) => Err(e),
            Ok(cs) => match gated_u256(mo, pm, "config_addr"@, mask) {
                Err(e) => Err(e),
                Ok(addr) => match gated_num(mo, pm, "validator_list_hash_short"@, mask, 0) {
                    Err(e) => Err(e),
                    Ok(vl) => match gated_num(mo, pm, "catchain_seqno"@, mask, 0) {
                        Err(e) => Err(e),
                        Ok(cc) => match gated_bool(mo, pm, "nx_cc_updated"@, mask, false) {
                            Err(e) => Err(e),
                            Ok(nx) => match gated_grams(mo, pm, "global_balance"@, mask, 0) {
                                Err(e) => Err(e),
                                Ok(gb) => Ok(
                                    McStateExtraV {
                                        config_addr: addr,
                                        config: cs,
                                        validator_info: ValidatorInfo {
                                            validator_list_hash_short: vl as u32,
                                            catchain_seqno: cc as u32,
                                            nx_cc_updated: nx,
                                        },
                                        global_balance: gb,
                                        after_key_block: true,
                                    },
                                ),
                            },
                        },
                    },
                },
            },
        },
    }
}

/// The account blobs of an `accounts` array: every element must be an
/// object carrying a base64 `boc` field.
pub open spec fn accounts_fold(
    items: Seq<Json>,
    p: Seq<Seq<char>>,
    acc: Seq<Seq<u8>>,
    i: int,
) -> Result<Seq<Seq<u8>>, ErrV>
    decreases items.len() - i,
{
    if i < 0 || i >= items.len() {
        Ok(acc)
    } else {
        match cont_spec(items[i], p, "accounts"@) {
            Err(e) => Err(e),
            Ok(o) => match get_base64_spec(o, p.push("accounts"@), "boc"@) {
                Err(e) => Err(e),
                Ok(b) => accounts_fold(items, p, acc.push(b), i + 1),
            },
        }
    }
}

/// The publisher set of one library, keeping first occurrences.
pub open spec fn publishers_fold(
    items: Seq<Json>,
    p: Seq<Seq<char>>,
    acc: Seq<Seq<u8>>,
    i: int,
) -> Result<Seq<Seq<u8>>, ErrV>
    decreases items.len() - i,
{
    if i < 0 || i >= items.len() {
        Ok(acc)
    } else {
        match as_uint256_spec(items[i], p, "publishers"@) {
            Err(e) => Err(e),
            Ok(h) => publishers_fold(items, p, add_key(acc, h), i + 1),
        }
    }
}

/// One library entry: its hash key, its code blob and its publishers.
pub open spec fn lib_entry_spec(o: Seq<(String, Json)>, p: Seq<Seq<char>>) -> Result<
    (Seq<u8>, LibDescrV),
    ErrV,
> {
    match get_uint256_spec(o, p, "hash"@) {
        Err(e) => Err(e),
        Ok(id) => match get_base64_spec(o, p, "lib"@) {
            Err(e) => Err(e),
            Ok(lib) => match get_vec_spec(o, p, "publishers"@) {
                Err(e) => Err(e),
                Ok(items) => match publishers_fold(items, p, Seq::empty(), 0) {
                    Err(e) => Err(e),
                    Ok(pubs) => Ok((id, LibDescrV { lib, publishers: pubs })),
                },
            },
        },
    }
}

/// The library table, keyed by hash with later entries replacing earlier
/// ones.
pub open spec fn libraries_fold(
    items: Seq<Json>,
    p: Seq<Seq<char>>,
    acc: Seq<(Seq<u8>, LibDescrV)>,
    i: int,
) -> Result<Seq<(Seq<u8>, LibDescrV)>, ErrV>
    decreases items.len() - i,
{
    if i < 0 || i >= items.len() {
        Ok(acc)
    } else {
        match cont_spec(items[i], p, "libraries"@) {
            Err(e) => Err(e),
            Ok(o) => match lib_entry_spec(o, p.push("libraries"@)) {
                Err(e) => Err(e),
                Ok(kv) => libraries_fold(items, p, upsert(acc, kv.0, kv.1), i + 1),
            },
        }
    }
}

/// The accounts of a state map: an absent or non-array `accounts` field is
/// tolerated and leaves no accounts.
pub open spec fn state_accounts_spec(o: Seq<(String, Json)>, p: Seq<Seq<char>>) -> Result<
    Seq<Seq<u8>>,
    ErrV,
> {
    match get_vec_spec(o, p, "accounts"@) {
        Ok(items) => accounts_fold(items, p, Seq::empty(), 0),
        Err(_) => Ok(Seq::empty()),
    }
}

/// The libraries of a state map: an absent or non-array `libraries` field
/// is tolerated and leaves no libraries.
pub open spec fn state_libraries_spec(o: Seq<(String, Json)>, p: Seq<Seq<char>>) -> Result<
    Seq<(Seq<u8>, LibDescrV)>,
    ErrV,
> {
    match get_vec_spec(o, p, "libraries"@) {
        Ok(items) => libraries_fold(items, p, Seq::empty(), 0),
        Err(_) => Ok(Seq::empty()),
    }
}

/// What parsing a state map under `mask` yields: the scalar fields under
/// the tolerant rule, the masterchain extra when a `master` object is
/// present (required when the mask is nonzero), then accounts and
/// libraries.
pub open spec fn parse_state_spec(o: Seq<(String, Json)>, mask: u64) -> Result<ShardStateV, ErrV> {
    let p = seq!["root"@];
    match gated_num(o, p, "global_id"@, mask, 0) {
        Err(e) => Err(e),
        Ok(gid) => match gated_num(o, p, "gen_utime"@, mask, 0) {
            Err(e) => Err(e),
            Ok(gu) => match gated_grams(o, p, "total_balance"@, mask, 0) {
                Err(e) => Err(e),
                Ok(tb) => {
                    let custom = match get_obj_spec(o, p, "master"@) {
                        Ok(mo) => match master_extra_spec(mo, p.push("master"@), mask) {
                            Err(e) => Err(e),
                            Ok(extra) => Ok(Some(extra)),
                        },
                        Err(e) => if mask != 0 {
                            Err(e)
                        } else {
                            Ok(None)
                        },
                    };
                    match custom {
                        Err(e) => Err(e),
                        Ok(custom) => match state_accounts_spec(o, p) {
                            Err(e) => Err(e),
                            Ok(accounts) => match state_libraries_spec(o, p) {
                                Err(e) => Err(e),
                                Ok(libraries) => Ok(
                                    ShardStateV {
                                        shard: ShardIdent {
                                            workchain_id: MASTERCHAIN_ID,
                                            shard_prefix_tagged: SHARD_FULL,
                                        },
                                        global_id: gid as i32,
                                        gen_utime: gu as u32,
                                        min_ref_mc_seqno: u32::MAX,
                                        total_balance: tb,
                                        custom,
                                        accounts,
                                        libraries,
                                    },
                                ),
                            },
                        },
                    }
                },
            },
        },
    }
}

/// Upserts into the library table.
fn upsert_library(list: &mut Vec<(Hash256, LibDescr)>, k: Hash256, v: LibDescr)
    ensures
        libs_v(final(list)@) == upsert(libs_v(old(list)@), k@, v@),
{
    let n = list.len();
    let mut i: usize = 0;
    while i < n
        invariant
            i <= n,
            n == list@.len(),
            list@ == old(list)@,
            forall|j: int| 0 <= j < i ==> (#[trigger] libs_v(list@)[j]).0 != k@,
        decreases n - i,
    {
        if crate::assoc::hash_eq(&list[i].0, &k) {
            proof {
                assert(libs_v(list@)[i as int].0 == k@);
            }
            list.set(i, (k, v));
            proof {
                assert(libs_v(list@) =~= libs_v(old(list)@).update(
                    i as int,
                    (libs_v(list@)[i as int].0, libs_v(list@)[i as int].1),
                ));
                lemma_upsert_update(libs_v(old(list)@), libs_v(list@)[i as int].0, libs_v(
                    list@,
                )[i as int].1, i as int);
            }
            return ;
        }
        proof {
            assert(libs_v(list@)[i as int].0 == list@[i as int].0@);
        }
        i += 1;
    }
    list.push((k, v));
    proof {
        assert(libs_v(list@) =~= libs_v(old(list)@).push((k@, v@)));
        lemma_upsert_push(libs_v(old(list)@), k@, v@);
    }
}

/// Parses the `accounts` array into raw account blobs.
#[verifier::loop_isolation(false)]
fn parse_accounts(root: &PathMap, items: &Vec<Json>) -> (r: Result<Vec<Vec<u8>>, ParseError>)
    ensures
        match r {
            Ok(v) => accounts_fold(items@, root.pathv(), Seq::empty(), 0) == Ok::<_, ErrV>(
                v@.map_values(|b: Vec<u8>| b@),
            ),
            Err(e) => accounts_fold(items@, root.pathv(), Seq::empty(), 0) == Err::<
                Seq<Seq<u8>>,
                _,
            >(e@),
        },
{
    let mut out: Vec<Vec<u8>> = Vec::new();
    let ghost pv = root.pathv();
    let ghost whole = accounts_fold(items@, pv, Seq::empty(), 0);
    let mut i: usize = 0;
    proof {
        assert(out@.map_values(|b: Vec<u8>| b@) =~= Seq::<Seq<u8>>::empty());
    }
    while i < items.len()
        invariant
            i <= items@.len(),
            accounts_fold(items@, pv, out@.map_values(|b: Vec<u8>| b@), i as int) == whole,
        decreases items@.len() - i,
    {
        let m = PathMap::cont(root, "accounts", &items[i])?;
        let b = m.get_base64("boc")?;
        let ghost pre = out@;
        out.push(b);
        proof {
            assert(out@.map_values(|b: Vec<u8>| b@) =~= pre.map_values(|b: Vec<u8>| b@).push(b@));
        }
        i += 1;
    }
    Ok(out)
}

/// Parses one library entry.
fn parse_lib_entry(m: &PathMap) -> (r: Result<(Hash256, LibDescr), ParseError>)
    ensures
        match r {
            Ok(kv) => lib_entry_spec(m.entries(), m.pathv()) == Ok::<_, ErrV>((kv.0@, kv.1@)),
            Err(e) => lib_entry_spec(m.entries(), m.pathv()) == Err::<(Seq<u8>, LibDescrV), _>(e@),
        },
{
    let id = m.get_uint256("hash")?;
    let lib = m.get_base64("lib")?;
    let items = m.get_vec("publishers")?;
    let mut pubs: Vec<Hash256> = Vec::new();
    let ghost pv = m.pathv();
    let ghost whole = publishers_fold(items@, pv, Seq::empty(), 0);
    let mut i: usize = 0;
    proof {
        assert(hashes_v(pubs@) =~= Seq::<Seq<u8>>::empty());
    }
    #[verifier::loop_isolation(false)]
    while i < items.len()
        invariant
            i <= items@.len(),
            publishers_fold(items@, pv, hashes_v(pubs@), i as int) == whole,
        decreases items@.len() - i,
    {
        let h = crate::arrays::json_to_uint256(&items[i], &m.path, "publishers")?;
        add_key_hash(&mut pubs, h);
        i += 1;
    }
    Ok((id, LibDescr { lib, publishers: pubs }))
}

/// Parses the `libraries` array into the library table.
#[verifier::loop_isolation(false)]
fn parse_libraries(root: &PathMap, items: &Vec<Json>) -> (r: Result<
    Vec<(Hash256, LibDescr)>,
    ParseError,
>)
    ensures
        match r {
            Ok(v) => libraries_fold(items@, root.pathv(), Seq::empty(), 0) == Ok::<_, ErrV>(
                libs_v(v@),
            ),
            Err(e) => libraries_fold(items@, root.pathv(), Seq::empty(), 0) == Err::<
                Seq<(Seq<u8>, LibDescrV)>,
                _,
            >(e@),
        },
{
    let mut out: Vec<(Hash256, LibDescr)> = Vec::new();
    let ghost pv = root.pathv();
    let ghost whole = libraries_fold(items@, pv, Seq::empty(), 0);
    let mut i: usize = 0;
    proof {
        assert(libs_v(out@) =~= Seq::<(Seq<u8>, LibDescrV)>::empty());
    }
    while i < items.len()
        invariant
            i <= items@.len(),
            libraries_fold(items@, pv, libs_v(out@), i as int) == whole,
        decreases items@.len() - i,
    {
        let m = PathMap::cont(root, "libraries", &items[i])?;
        let kv = parse_lib_entry(&m)?;
        upsert_library(&mut out, kv.0, kv.1);
        i += 1;
    }
    Ok(out)
}

/// Assembles shard states from state maps, under a mandatory-parameter
/// policy chosen at construction.
pub struct StateParser {
    pub mandatory_params: u64,
}

impl StateParser {
    /// A parser with nothing mandatory, for snapshot parsing.
    pub fn new() -> (r: StateParser)
        ensures
            r.mandatory_params == 0,
    {
        StateParser { mandatory_params: 0 }
    }

    /// A parser asserting the genesis parameter set as mandatory.
    pub fn for_zero_state() -> (r: StateParser)
        ensures
            r.mandatory_params == GENESIS_MANDATORY_MASK,
    {
        StateParser { mandatory_params: GENESIS_MANDATORY_MASK }
    }

    /// Reports whether parameter `num` is mandatory under this parser.
    pub fn is_need(&self, num: u32) -> (r: bool)
        ensures
            r == mask_has_bit(self.mandatory_params, num),
    {
        is_need_under(self.mandatory_params, num)
    }

    /// Parses a configuration map under this parser's policy.
    pub fn parse_config(&self, config: &PathMap) -> (r: Result<ConfigSet, ParseError>)
        ensures
            match r {
                Ok(cs) => parse_config_spec(config.entries(), config.pathv(), self.mandatory_params)
                    == Ok::<_, ErrV>(cs@),
                Err(e) => parse_config_spec(
                    config.entries(),
                    config.pathv(),
                    self.mandatory_params,
                ) == Err::<Seq<(u32, ConfigParamV)>, _>(e@),
            },
    {
        parse_config_map(config, self.mandatory_params)
    }

    /// Parses a state map under this parser's policy.
    pub fn parse_state_unchecked(&self, map: &JsonObj) -> (r: Result<ShardState, ParseError>)
        ensures
            match r {
                Ok(s) => parse_state_spec(map@, self.mandatory_params) == Ok::<_, ErrV>(s@),
                Err(e) => parse_state_spec(map@, self.mandatory_params) == Err::<ShardStateV, _>(
                    e@,
                ),
            },
    {
        parse_state_inner(map, self.mandatory_params)
    }
}

/// Parses a state map under `mask`.
#[verifier::rlimit(60)]
fn parse_state_inner(map: &JsonObj, mask: u64) -> (r: Result<ShardState, ParseError>)
    ensures
        match r {
            Ok(s) => parse_state_spec(map@, mask) == Ok::<_, ErrV>(s@),
            Err(e) => parse_state_spec(map@, mask) == Err::<ShardStateV, _>(e@),
        },
{
    let root = PathMap::new(map);
    proof {
        assert(root.pathv() == seq!["root"@]);
    }
    let mut global_id: i32 = 0;
    match root.get_num("global_id") {
        Ok(v) => {
            global_id = #[verifier::truncate] (v as i32);
        },
        Err(e) => {
            if mask != 0 {
                return Err(e);
            }
        },
    }
    let mut gen_utime: u32 = 0;
    match root.get_num("gen_utime") {
        Ok(v) => {
            gen_utime = #[verifier::truncate] (v as u32);
        },
        Err(e) => {
            if mask != 0 {
                return Err(e);
            }
        },
    }
    let mut total_balance: u128 = 0;
    match root.get_grams("total_balance") {
        Ok(v) => {
            total_balance = v;
        },
        Err(e) => {
            if mask != 0 {
                return Err(e);
            }
        },
    }
    let custom: Option<McStateExtra> = match root.get_obj("master") {
        Ok(master) => Some(parse_master_extra(&master, mask)?),
        Err(e) => {
            if mask != 0 {
                return Err(e);
            }
            None
        },
    };
    let accounts: Vec<Vec<u8>> = match root.get_vec("accounts") {
        Ok(items) => parse_accounts(&root, items)?,
        Err(_) => Vec::new(),
    };
    proof {
        assert(Seq::<Vec<u8>>::empty().map_values(|b: Vec<u8>| b@) =~= Seq::<Seq<u8>>::empty());
    }
    let libraries: Vec<(Hash256, LibDescr)> = match root.get_vec("libraries") {
        Ok(items) => parse_libraries(&root, items)?,
        Err(_) => Vec::new(),
    };
    proof {
        assert(libs_v(Seq::<(Hash256, LibDescr)>::empty()) =~= Seq::<(Seq<u8>, LibDescrV)>::empty());
    }
    Ok(
        ShardState {
            shard: ShardIdent::masterchain(),
            global_id,
            gen_utime,
            min_ref_mc_seqno: u32::MAX,
            total_balance,
            custom,
            accounts,
            libraries,
        },
    )
}

/// Parses the masterchain extra from a `master` object.
#[verifier::rlimit(60)]
fn parse_master_extra(master: &PathMap, mask: u64) -> (r: Result<McStateExtra, ParseError>)
    ensures
        match r {
            Ok(x) => master_extra_spec(master.entries(), master.pathv(), mask) == Ok::<_, ErrV>(
                x@,
            ),
            Err(e) => master_extra_spec(master.entries(), master.pathv(), mask) == Err::<
                McStateExtraV,
                _,
            >(e@),
        },
{
    let co = master.get_obj("config")?;
    let config = parse_config_map(&co, mask)?;
    let config_addr: Hash256 = match master.get_uint256("config_addr") {
        Ok(h) => h,
        Err(e) => {
            if mask != 0 {
                return Err(e);
            }
            hash_zero()
        },
    };
    let mut validator_list_hash_short: u32 = 0;
    match master.get_num("validator_list_hash_short") {
        Ok(v) => {
            validator_list_hash_short = #[verifier::truncate] (v as u32);
        },
        Err(e) => {
            if mask != 0 {
                return Err(e);
            }
        },
    }
    let mut catchain_seqno: u32 = 0;
    match master.get_num("catchain_seqno") {
        Ok(v) => {
            catchain_seqno = #[verifier::truncate] (v as u32);
        },
        Err(e) => {
            if mask != 0 {
                return Err(e);
            }
        },
    }
    let mut nx_cc_updated = false;
    match master.get_bool("nx_cc_updated") {
        Ok(v) => {
            nx_cc_updated = v;
        },
        Err(e) => {
            if mask != 0 {
                return Err(e);
            }
        },
    }
    let mut global_balance: u128 = 0;
    match master.get_grams("global_balance") {
        Ok(v) => {
            global_balance = v;
        },
        Err(e) => {
            if mask != 0 {
                return Err(e);
            }
        },
    }
    Ok(
        McStateExtra {
            config_addr,
            config,
            validator_info: ValidatorInfo {
                validator_list_hash_short,
                catchain_seqno,
                nx_cc_updated,
            },
            global_balance,
            after_key_block: true,
        },
    )
}

/// Parses a genesis state map: the genesis parameter set is mandatory.
pub fn parse_state(map: &JsonObj) -> (r: Result<ShardState, ParseError>)
    ensures
        match r {
            Ok(s) => parse_state_spec(map@, GENESIS_MANDATORY_MASK) == Ok::<_, ErrV>(s@),
            Err(e) => parse_state_spec(map@, GENESIS_MANDATORY_MASK) == Err::<ShardStateV, _>(e@),
        },
{
    StateParser::for_zero_state().parse_state_unchecked(map)
}

/// Parses a snapshot state map: nothing is mandatory.
pub fn parse_state_unchecked(map: &JsonObj) -> (r: Result<ShardState, ParseError>)
    ensures
        match r {
            Ok(s) => parse_state_spec(map@, 0) == Ok::<_, ErrV>(s@),
            Err(e) => parse_state_spec(map@, 0) == Err::<ShardStateV, _>(e@),
        },
{
    StateParser::new().parse_state_unchecked(map)
}

} // verus!
