use vstd::prelude::*;
use crate::arrays::{
    currencies_fold, fundamental_addrs_fold, mesh_fold, mesh_v, param_ids_fold,
    parse_currencies, parse_fundamental_addrs, parse_mesh, parse_param_ids,
    parse_storage_prices_list, parse_suspended, parse_workchains, storage_prices_fold,
    suspended_fold, workchains_fold, workchains_v,
};
use crate::assoc::{hashes_v, addrs_v, temp_keys_v, upsert, upsert_u8};
use crate::decode::{
    catchain_config_spec, consensus_config_spec, block_limits_spec, delector_params_spec,
    gas_limits_spec, msg_forward_prices_spec, num_or_u32, parse_block_limits_struct,
    parse_catchain_config, parse_consensus_config, parse_critical_params, parse_delector_params,
    parse_fast_finality_config, parse_gas_limits_struct, parse_msg_forward_prices_struct,
    parse_slashing_config, parse_smft_params, fast_finality_spec, proposal_setup_spec,
    slashing_config_spec, smft_params_spec,
};
use crate::err::{errv, res_v, ErrKind, ErrV, ParseError};
use crate::json::{Json, JsonObj};
use crate::params::{assoc_get, ConfigParam, ConfigParamV, ConfigSet};
use crate::path::{
    cont_spec, get_base64_spec, get_grams_spec, get_num_spec, get_obj_spec, get_uint256_spec,
    get_vec_spec, PathMap,
};
use crate::policy::{is_need_under, mask_has_bit, mask_of_ids, mask_from_list};
use crate::types::{
    BlockCreateFees, ConfigCopyleft, ConfigCopyleftV, ConfigProposalSetup, ConnectedNwConfig,
    ElectionParams, GlobalVersion, SlashingConfig, StakeParams, ValidatorCountParams,
    fast_finality_zero, slashing_config_zero,
};
use crate::valset::{cur_validator_set_spec, parse_cur_validator_set, parse_temp_keys, parse_validator_set, temp_keys_fold, validator_set_spec};

verus! {

/// A decode result carried to its mathematical content.
pub open spec fn opt_res_v(r: Result<Option<ConfigParam>, ParseError>) -> Result<
    Option<ConfigParamV>,
    ErrV,
> {
    match r {
        Ok(Some(v)) => Ok(Some(v@)),
        Ok(None) => Ok(None),
        Err(e) => Err(e@),
    }
}

/// The outcome of a parameter whose field could not be read: fatal when
/// the parameter is mandatory, silently omitted otherwise.
pub open spec fn miss(p: Seq<Seq<char>>, mask: u64, n: u32, name: Seq<char>) -> Result<
    Option<ConfigParamV>,
    ErrV,
> {
    if mask_has_bit(mask, n) {
        Err(errv(ErrKind::MandatoryParameterMissing(n), p, name))
    } else {
        Ok(None)
    }
}

/// Applies the mandatory gate for a parameter whose field could not be
/// read.
fn gate_missing(config: &PathMap, mask: u64, n: u32, name: &str) -> (r: Result<
    Option<ConfigParam>,
    ParseError,
>)
    ensures
        opt_res_v(r) == miss(config.pathv(), mask, n, name@),
{
    if is_need_under(mask, n) {
        Err(ParseError::at(ErrKind::MandatoryParameterMissing(n), &config.path, name))
    } else {
        Ok(None)
    }
}

/// The two minting prices.
pub open spec fn mint_prices_spec(o: Seq<(String, Json)>, p: Seq<Seq<char>>) -> Result<
    (u128, u128),
    ErrV,
> {
    match get_grams_spec(o, p, "mint_new_price"@) {
        Err(e) => Err(e),
        Ok(a) => match get_grams_spec(o, p, "mint_add_price"@) {
            Err(e) => Err(e),
            Ok(b) => Ok((a, b)),
        },
    }
}

fn parse_mint_prices(m: &PathMap) -> (r: Result<(u128, u128), ParseError>)
    ensures
        res_v(r) == mint_prices_spec(m.entries(), m.pathv()),
{
    let a = m.get_grams("mint_new_price")?;
    let b = m.get_grams("mint_add_price")?;
    Ok((a, b))
}

/// The global software version and capabilities.
pub open spec fn global_version_spec(o: Seq<(String, Json)>, p: Seq<Seq<char>>) -> Result<
    GlobalVersion,
    ErrV,
> {
    match get_num_spec(o, p, "version"@) {
        Err(e) => Err(e),
        Ok(v) => match get_num_spec(o, p, "capabilities"@) {
            Err(e) => Err(e),
            Ok(c) => Ok(GlobalVersion { version: v as u32, capabilities: c as u64 }),
        },
    }
}

fn parse_global_version(m: &PathMap) -> (r: Result<GlobalVersion, ParseError>)
    ensures
        res_v(r) == global_version_spec(m.entries(), m.pathv()),
{
    let v = m.get_num("version")?;
    let c = m.get_num("capabilities")?;
    Ok(
        GlobalVersion {
            version: #[verifier::truncate] (v as u32),
            capabilities: #[verifier::truncate] (c as u64),
        },
    )
}

/// The two proposal-voting rule sets; both must be consistent.
pub open spec fn voting_setup_spec(o: Seq<(String, Json)>, p: Seq<Seq<char>>) -> Result<
    (ConfigProposalSetup, ConfigProposalSetup),
    ErrV,
> {
    match get_obj_spec(o, p, "normal_params"@) {
        Err(e) => Err(e),
        Ok(on) => match proposal_setup_spec(on, p.push("normal_params"@)) {
            Err(e) => Err(e),
            Ok(normal) => match get_obj_spec(o, p, "critical_params"@) {
                Err(e) => Err(e),
                Ok(oc) => match proposal_setup_spec(oc, p.push("critical_params"@)) {
                    Err(e) => Err(e),
                    Ok(critical) => if normal.consistent() && critical.consistent() {
                        Ok((normal, critical))
                    } else {
                        Err(errv(ErrKind::SemanticInvalid, p, ""@))
                    },
                },
            },
        },
    }
}

fn parse_voting_setup(m: &PathMap) -> (r: Result<
    (ConfigProposalSetup, ConfigProposalSetup),
    ParseError,
>)
    ensures
        res_v(r) == voting_setup_spec(m.entries(), m.pathv()),
{
    let on = m.get_obj("normal_params")?;
    let normal = parse_critical_params(&on)?;
    let oc = m.get_obj("critical_params")?;
    let critical = parse_critical_params(&oc)?;
    if normal.min_tot_rounds <= normal.max_tot_rounds && normal.min_store_sec
        <= normal.max_store_sec && critical.min_tot_rounds <= critical.max_tot_rounds
        && critical.min_store_sec <= critical.max_store_sec {
        Ok((normal, critical))
    } else {
        Err(ParseError::at(ErrKind::SemanticInvalid, &m.path, ""))
    }
}

/// The block-creation fees.
pub open spec fn block_fees_spec(o: Seq<(String, Json)>, p: Seq<Seq<char>>) -> Result<
    BlockCreateFees,
    ErrV,
> {
    match get_grams_spec(o, p, "masterchain_block_fee"@) {
        Err(e) => Err(e),
        Ok(a) => match get_grams_spec(o, p, "basechain_block_fee"@) {
            Err(e) => Err(e),
            Ok(b) => Ok(BlockCreateFees { masterchain_block_fee: a, basechain_block_fee: b }),
        },
    }
}

fn parse_block_fees(m: &PathMap) -> (r: Result<BlockCreateFees, ParseError>)
    ensures
        res_v(r) == block_fees_spec(m.entries(), m.pathv()),
{
    let a = m.get_grams("masterchain_block_fee")?;
    let b = m.get_grams("basechain_block_fee")?;
    Ok(BlockCreateFees { masterchain_block_fee: a, basechain_block_fee: b })
}

/// The validator election timetable.
pub open spec fn election_params_spec(o: Seq<(String, Json)>, p: Seq<Seq<char>>) -> Result<
    ElectionParams,
    ErrV,
> {
    match get_num_spec(o, p, "validators_elected_for"@) {
        Err(e) => Err(e),
        Ok(a) => match get_num_spec(o, p, "elections_start_before"@) {
            Err(e) => Err(e),
            Ok(b) => match get_num_spec(o, p, "elections_end_before"@) {
                Err(e) => Err(e),
                Ok(c) => match get_num_spec(o, p, "stake_held_for"@) {
                    Err(e) => Err(e),
                    Ok(d) => Ok(
                        ElectionParams {
                            validators_elected_for: a as u32,
                            elections_start_before: b as u32,
                            elections_end_before: c as u32,
                            stake_held_for: d as u32,
                        },
                    ),
                },
            },
        },
    }
}

fn parse_election_params(m: &PathMap) -> (r: Result<ElectionParams, ParseError>)
    ensures
        res_v(r) == election_params_spec(m.entries(), m.pathv()),
{
    Ok(
        ElectionParams {
            validators_elected_for: #[verifier::truncate] (m.get_num("validators_elected_for")?
                as u32),
            elections_start_before: #[verifier::truncate] (m.get_num("elections_start_before")?
                as u32),
            elections_end_before: #[verifier::truncate] (m.get_num("elections_end_before")? as u32),
            stake_held_for: #[verifier::truncate] (m.get_num("stake_held_for")? as u32),
        },
    )
}

/// The validator count bounds.
pub open spec fn validator_count_spec(o: Seq<(String, Json)>, p: Seq<Seq<char>>) -> Result<
    ValidatorCountParams,
    ErrV,
> {
    match get_num_spec(o, p, "min_validators"@) {
        Err(e) => Err(e),
        Ok(a) => match get_num_spec(o, p, "max_validators"@) {
            Err(e) => Err(e),
            Ok(b) => match get_num_spec(o, p, "max_main_validators"@) {
                Err(e) => Err(e),
                Ok(c) => Ok(
                    ValidatorCountParams {
                        min_validators: a as u16,
                        max_validators: b as u16,
                        max_main_validators: c as u16,
                    },
                ),
            },
        },
    }
}

fn parse_validator_count(m: &PathMap) -> (r: Result<ValidatorCountParams, ParseError>)
    ensures
        res_v(r) == validator_count_spec(m.entries(), m.pathv()),
{
    let a = m.get_num16("min_validators")?;
    let b = m.get_num16("max_validators")?;
    let c = m.get_num16("max_main_validators")?;
    Ok(ValidatorCountParams { min_validators: a, max_validators: b, max_main_validators: c })
}

/// The stake bounds.
pub open spec fn stake_params_spec(o: Seq<(String, Json)>, p: Seq<Seq<char>>) -> Result<
    StakeParams,
    ErrV,
> {
    match get_grams_spec(o, p, "min_stake"@) {
        Err(e) => Err(e),
        Ok(a) => match get_grams_spec(o, p, "max_stake"@) {
            Err(e) => Err(e),
            Ok(b) => match get_grams_spec(o, p, "min_total_stake"@) {
                Err(e) => Err(e),
                Ok(c) => match get_num_spec(o, p, "max_stake_factor"@) {
                    Err(e) => Err(e),
                    Ok(d) => Ok(
                        StakeParams {
                            min_stake: a,
                            max_stake: b,
                            min_total_stake: c,
                            max_stake_factor: d as u32,
                        },
                    ),
                },
            },
        },
    }
}

fn parse_stake_params(m: &PathMap) -> (r: Result<StakeParams, ParseError>)
    ensures
        res_v(r) == stake_params_spec(m.entries(), m.pathv()),
{
    let a = m.get_grams("min_stake")?;
    let b = m.get_grams("max_stake")?;
    let c = m.get_grams("min_total_stake")?;
    let d = m.get_num("max_stake_factor")?;
    Ok(
        StakeParams {
            min_stake: a,
            max_stake: b,
            min_total_stake: c,
            max_stake_factor: #[verifier::truncate] (d as u32),
        },
    )
}

/// One copyleft payout entry, read best-effort: an unreadable field keeps
/// zero.
pub open spec fn payout_entry_spec(o: Seq<(String, Json)>, p: Seq<Seq<char>>) -> (u8, u8) {
    (
        num_or_u32(o, p, "license_type"@, 0) as u8,
        num_or_u32(o, p, "payout_percent"@, 0) as u8,
    )
}

/// The copyleft payout table, keyed by license type with later entries
/// replacing earlier ones.
pub open spec fn payouts_fold(
    items: Seq<Json>,
    p: Seq<Seq<char>>,
    acc: Seq<(u8, u8)>,
    i: int,
) -> Result<Seq<(u8, u8)>, ErrV>
    decreases items.len() - i,
{
    if i < 0 || i >= items.len() {
        Ok(acc)
    } else {
        match cont_spec(items[i], p, "p42"@) {
            Err(e) => Err(e),
            Ok(o) => {
                let kv = payout_entry_spec(o, p.push("p42"@));
                payouts_fold(items, p, upsert(acc, kv.0, kv.1), i + 1)
            },
        }
    }
}

/// Parses the copyleft payout table.
#[verifier::loop_isolation(false)]
fn parse_payouts(config: &PathMap, items: &Vec<Json>) -> (r: Result<Vec<(u8, u8)>, ParseError>)
    ensures
        match r {
            Ok(v) => payouts_fold(items@, config.pathv(), Seq::empty(), 0) == Ok::<_, ErrV>(v@),
            Err(e) => payouts_fold(items@, config.pathv(), Seq::empty(), 0) == Err::<
                Seq<(u8, u8)>,
                _,
            >(e@),
        },
{
    let mut out: Vec<(u8, u8)> = Vec::new();
    let ghost pv = config.pathv();
    let ghost whole = payouts_fold(items@, pv, Seq::empty(), 0);
    let mut i: usize = 0;
    while i < items.len()
        invariant
            i <= items@.len(),
            payouts_fold(items@, pv, out@, i as int) == whole,
        decreases items@.len() - i,
    {
        let m = PathMap::cont(config, "p42", &items[i])?;
        let mut lt: u32 = 0;
        m.get_u32("license_type", &mut lt);
        let mut pct: u32 = 0;
        m.get_u32("payout_percent", &mut pct);
        upsert_u8(&mut out, #[verifier::truncate] (lt as u8), #[verifier::truncate] (pct as u8));
        i += 1;
    }
    Ok(out)
}

/// Decoding the parameters numbered up to 13.
pub open spec fn decode_low_spec(
    o: Seq<(String, Json)>,
    p: Seq<Seq<char>>,
    mask: u64,
    n: u32,
    name: Seq<char>,
) -> Result<Option<ConfigParamV>, ErrV> {
    if n == 0 {
        match get_uint256_spec(o, p, name) {
                Ok(h) => Ok(Some(ConfigParamV::P0(h))),
                Err(_) => miss(p, mask, n, name),
            }
    } else
    if n == 1 {
        match get_uint256_spec(o, p, name) {
                Ok(h) => Ok(Some(ConfigParamV::P1(h))),
                Err(_) => miss(p, mask, n, name),
            }
    } else
    if n == 2 {
        match get_uint256_spec(o, p, name) {
                Ok(h) => Ok(Some(ConfigParamV::P2(h))),
                Err(_) => miss(p, mask, n, name),
            }
    } else
    if n == 3 {
        match get_uint256_spec(o, p, name) {
                Ok(h) => Ok(Some(ConfigParamV::P3(h))),
                Err(_) => miss(p, mask, n, name),
            }
    } else
    if n == 4 {
        match get_uint256_spec(o, p, name) {
                Ok(h) => Ok(Some(ConfigParamV::P4(h))),
                Err(_) => miss(p, mask, n, name),
            }
    } else
    if n == 5 {
        match get_uint256_spec(o, p, name) {
                Ok(h) => Ok(Some(ConfigParamV::P5(h))),
                Err(_) => miss(p, mask, n, name),
            }
    } else
    if n == 6 {
        match get_obj_spec(o, p, name) {
                Err(_) => miss(p, mask, n, name),
                Ok(ob) => match mint_prices_spec(ob, p.push(name)) {
                    Err(e) => Err(e),
                    Ok(v) => Ok(Some(ConfigParamV::P6 { mint_new_price: v.0, mint_add_price: v.1 })),
                },
            }
    } else
    if n == 7 {
        match get_vec_spec(o, p, name) {
                Err(_) => miss(p, mask, n, name),
                Ok(items) => match currencies_fold(items, p, Seq::empty(), 0) {
                    Err(e) => Err(e),
                    Ok(v) => Ok(Some(ConfigParamV::P7(v))),
                },
            }
    } else
    if n == 8 {
        match get_obj_spec(o, p, name) {
                Err(_) => miss(p, mask, n, name),
                Ok(ob) => match global_version_spec(ob, p.push(name)) {
                    Err(e) => Err(e),
                    Ok(v) => Ok(Some(ConfigParamV::P8(v))),
                },
            }
    } else
    if n == 9 {
        match get_vec_spec(o, p, name) {
                Err(_) => miss(p, mask, n, name),
                Ok(items) => match param_ids_fold(items, p, name, Seq::empty(), 0) {
                    Err(e) => Err(e),
                    Ok(v) => Ok(Some(ConfigParamV::P9(v))),
                },
            }
    } else
    if n == 10 {
        match get_vec_spec(o, p, name) {
                Err(_) => miss(p, mask, n, name),
                Ok(items) => match param_ids_fold(items, p, name, Seq::empty(), 0) {
                    Err(e) => Err(e),
                    Ok(v) => Ok(Some(ConfigParamV::P10(v))),
                },
            }
    } else
    if n == 11 {
        match get_obj_spec(o, p, name) {
                Err(_) => miss(p, mask, n, name),
                Ok(ob) => match voting_setup_spec(ob, p.push(name)) {
                    Err(e) => Err(e),
                    Ok(v) => Ok(Some(ConfigParamV::P11 { normal_params: v.0, critical_params: v.1 })),
                },
            }
    } else
    if n == 12 {
        match get_vec_spec(o, p, name) {
                Err(_) => miss(p, mask, n, name),
                Ok(items) => match workchains_fold(items, p, Seq::empty(), 0) {
                    Err(e) => Err(e),
                    Ok(v) => Ok(Some(ConfigParamV::P12(v))),
                },
            }
    } else
    if n == 13 {
        match get_obj_spec(o, p, name) {
                Err(_) => miss(p, mask, n, name),
                Ok(ob) => match get_base64_spec(ob, p.push(name), "boc"@) {
                    Err(e) => Err(e),
                    Ok(v) => Ok(Some(ConfigParamV::P13(v))),
                },
            }
    } else {
        Ok(None)
    }
}

/// Decoding the parameters numbered 14 to 31.
pub open spec fn decode_mid_spec(
    o: Seq<(String, Json)>,
    p: Seq<Seq<char>>,
    mask: u64,
    n: u32,
    name: Seq<char>,
) -> Result<Option<ConfigParamV>, ErrV> {
    if n == 14 {
        match get_obj_spec(o, p, name) {
                Err(_) => miss(p, mask, n, name),
                Ok(ob) => match block_fees_spec(ob, p.push(name)) {
                    Err(e) => Err(e),
                    Ok(v) => Ok(Some(ConfigParamV::P14(v))),
                },
            }
    } else
    if n == 15 {
        match get_obj_spec(o, p, name) {
                Err(_) => miss(p, mask, n, name),
                Ok(ob) => match election_params_spec(ob, p.push(name)) {
                    Err(e) => Err(e),
                    Ok(v) => Ok(Some(ConfigParamV::P15(v))),
                },
            }
    } else
    if n == 16 {
        match get_obj_spec(o, p, name) {
                Err(_) => miss(p, mask, n, name),
                Ok(ob) => match validator_count_spec(ob, p.push(name)) {
                    Err(e) => Err(e),
                    Ok(v) => Ok(Some(ConfigParamV::P16(v))),
                },
            }
    } else
    if n == 17 {
        match get_obj_spec(o, p, name) {
                Err(_) => miss(p, mask, n, name),
                Ok(ob) => match stake_params_spec(ob, p.push(name)) {
                    Err(e) => Err(e),
                    Ok(v) => Ok(Some(ConfigParamV::P17(v))),
                },
            }
    } else
    if n == 18 {
        match get_vec_spec(o, p, name) {
                Err(_) => miss(p, mask, n, name),
                Ok(items) => match storage_prices_fold(items, p, Seq::empty(), 0) {
                    Err(e) => Err(e),
                    Ok(v) => Ok(Some(ConfigParamV::P18(v))),
                },
            }
    } else
    if n == 20 {
        match get_obj_spec(o, p, name) {
                Err(_) => miss(p, mask, n, name),
                Ok(ob) => match gas_limits_spec(ob, p.push(name)) {
                    Err(e) => Err(e),
                    Ok(v) => Ok(Some(ConfigParamV::P20(v))),
                },
            }
    } else
    if n == 21 {
        match get_obj_spec(o, p, name) {
                Err(_) => miss(p, mask, n, name),
                Ok(ob) => match gas_limits_spec(ob, p.push(name)) {
                    Err(e) => Err(e),
                    Ok(v) => Ok(Some(ConfigParamV::P21(v))),
                },
            }
    } else
    if n == 22 {
        match get_obj_spec(o, p, name) {
                Err(_) => miss(p, mask, n, name),
                Ok(ob) => match block_limits_spec(ob, p.push(name)) {
                    Err(e) => Err(e),
                    Ok(v) => Ok(Some(ConfigParamV::P22(v))),
                },
            }
    } else
    if n == 23 {
        match get_obj_spec(o, p, name) {
                Err(_) => miss(p, mask, n, name),
                Ok(ob) => match block_limits_spec(ob, p.push(name)) {
                    Err(e) => Err(e),
                    Ok(v) => Ok(Some(ConfigParamV::P23(v))),
                },
            }
    } else
    if n == 24 {
        match get_obj_spec(o, p, name) {
                Err(_) => miss(p, mask, n, name),
                Ok(ob) => match msg_forward_prices_spec(ob, p.push(name)) {
                    Err(e) => Err(e),
                    Ok(v) => Ok(Some(ConfigParamV::P24(v))),
                },
            }
    } else
    if n == 25 {
        match get_obj_spec(o, p, name) {
                Err(_) => miss(p, mask, n, name),
                Ok(ob) => match msg_forward_prices_spec(ob, p.push(name)) {
                    Err(e) => Err(e),
                    Ok(v) => Ok(Some(ConfigParamV::P25(v))),
                },
            }
    } else
    if n == 28 {
        match get_obj_spec(o, p, name) {
                Err(_) => miss(p, mask, n, name),
                Ok(ob) => match catchain_config_spec(ob, p.push(name)) {
                    Err(e) => Err(e),
                    Ok(v) => Ok(Some(ConfigParamV::P28(v))),
                },
            }
    } else
    if n == 29 {
        match get_obj_spec(o, p, name) {
                Err(_) => miss(p, mask, n, name),
                Ok(ob) => match consensus_config_spec(ob, p.push(name)) {
                    Err(e) => Err(e),
                    Ok(v) => Ok(Some(ConfigParamV::P29(v))),
                },
            }
    } else
    if n == 30 {
        match get_obj_spec(o, p, name) {
                Err(_) => miss(p, mask, n, name),
                Ok(ob) => match delector_params_spec(ob, p.push(name)) {
                    Err(e) => Err(e),
                    Ok(v) => Ok(Some(ConfigParamV::P30(v))),
                },
            }
    } else
    if n == 31 {
        match get_vec_spec(o, p, name) {
                Err(_) => miss(p, mask, n, name),
                Ok(items) => match fundamental_addrs_fold(items, p, Seq::empty(), 0) {
                    Err(e) => Err(e),
                    Ok(v) => Ok(Some(ConfigParamV::P31(v))),
                },
            }
    } else {
        Ok(None)
    }
}

/// Decoding the parameters numbered 32 and above.
pub open spec fn decode_high_spec(
    o: Seq<(String, Json)>,
    p: Seq<Seq<char>>,
    mask: u64,
    n: u32,
    name: Seq<char>,
) -> Result<Option<ConfigParamV>, ErrV> {
    if n == 32 {
        match get_obj_spec(o, p, name) {
                Err(_) => miss(p, mask, n, name),
                Ok(ob) => match validator_set_spec(ob, p.push(name)) {
                    Err(e) => Err(e),
                    Ok(v) => Ok(Some(ConfigParamV::P32(v))),
                },
            }
    } else
    if n == 33 {
        match get_obj_spec(o, p, name) {
                Err(_) => miss(p, mask, n, name),
                Ok(ob) => match validator_set_spec(ob, p.push(name)) {
                    Err(e) => Err(e),
                    Ok(v) => Ok(Some(ConfigParamV::P33(v))),
                },
            }
    } else
    if n == 34 {
        match get_obj_spec(o, p, name) {
                Err(_) => miss(p, mask, n, name),
                Ok(ob) => match cur_validator_set_spec(ob, p.push(name)) {
                    Err(e) => Err(e),
                    Ok(v) => Ok(Some(ConfigParamV::P34(v))),
                },
            }
    } else
    if n == 35 {
        match get_obj_spec(o, p, name) {
                Err(_) => miss(p, mask, n, name),
                Ok(ob) => match validator_set_spec(ob, p.push(name)) {
                    Err(e) => Err(e),
                    Ok(v) => Ok(Some(ConfigParamV::P35(v))),
                },
            }
    } else
    if n == 36 {
        match get_obj_spec(o, p, name) {
                Err(_) => miss(p, mask, n, name),
                Ok(ob) => match validator_set_spec(ob, p.push(name)) {
                    Err(e) => Err(e),
                    Ok(v) => Ok(Some(ConfigParamV::P36(v))),
                },
            }
    } else
    if n == 37 {
        match get_obj_spec(o, p, name) {
                Err(_) => miss(p, mask, n, name),
                Ok(ob) => match validator_set_spec(ob, p.push(name)) {
                    Err(e) => Err(e),
                    Ok(v) => Ok(Some(ConfigParamV::P37(v))),
                },
            }
    } else
    if n == 39 {
        match get_vec_spec(o, p, name) {
                Err(_) => miss(p, mask, n, name),
                Ok(items) => match temp_keys_fold(items, p, Seq::empty(), 0) {
                    Err(e) => Err(e),
                    Ok(v) => Ok(Some(ConfigParamV::P39(v))),
                },
            }
    } else
    if n == 40 {
        match get_obj_spec(o, p, name) {
                Ok(ob) => Ok(Some(ConfigParamV::P40(slashing_config_spec(ob, p.push(name))))),
                Err(_) => Ok(Some(ConfigParamV::P40(slashing_config_zero()))),
            }
    } else
    if n == 42 {
        match get_obj_spec(o, p, name) {
                Err(_) => miss(p, mask, n, name),
                Ok(ob) => match get_grams_spec(ob, p.push(name), "threshold"@) {
                    Err(e) => Err(e),
                    Ok(threshold) => match get_vec_spec(ob, p.push(name), "payouts"@) {
                        Err(e) => Err(e),
                        Ok(items) => match payouts_fold(items, p, Seq::empty(), 0) {
                            Err(e) => Err(e),
                            Ok(rates) => Ok(
                                Some(
                                    ConfigParamV::P42(
                                        ConfigCopyleftV {
                                            copyleft_reward_threshold: threshold,
                                            license_rates: rates,
                                        },
                                    ),
                                ),
                            ),
                        },
                    },
                },
            }
    } else
    if n == 44 {
        match get_vec_spec(o, p, name) {
                Err(_) => miss(p, mask, n, name),
                Ok(items) => match suspended_fold(items, p, Seq::empty(), 0) {
                    Err(e) => Err(e),
                    Ok(v) => Ok(Some(ConfigParamV::P44(v))),
                },
            }
    } else
    if n == 58 {
        match get_vec_spec(o, p, name) {
                Err(_) => miss(p, mask, n, name),
                Ok(items) => match mesh_fold(items, p, Seq::empty(), 0) {
                    Err(e) => Err(e),
                    Ok(v) => Ok(Some(ConfigParamV::P58(v))),
                },
            }
    } else
    if n == 61 {
        match get_obj_spec(o, p, name) {
                Ok(ob) => Ok(Some(ConfigParamV::P61(fast_finality_spec(ob, p.push(name))))),
                Err(_) => Ok(None),
            }
    } else
    if n == 62 {
        match get_obj_spec(o, p, name) {
                Err(_) => miss(p, mask, n, name),
                Ok(ob) => match smft_params_spec(ob, p.push(name)) {
                    Err(e) => Err(e),
                    Ok(v) => Ok(Some(ConfigParamV::P62(v))),
                },
            }
    } else {
        Ok(None)
    }
}

/// Decoding one configuration parameter: the field under `name` is looked
/// up with the shape the parameter requires; an unreadable field is fatal
/// only when the parameter is mandatory under `mask`, except for the two
/// best-effort parameters, and inner decoding failures always surface.
pub open spec fn decode_param_spec(
    o: Seq<(String, Json)>,
    p: Seq<Seq<char>>,
    mask: u64,
    n: u32,
    name: Seq<char>,
) -> Result<Option<ConfigParamV>, ErrV> {
    if n <= 13 {
        decode_low_spec(o, p, mask, n, name)
    } else if n <= 31 {
        decode_mid_spec(o, p, mask, n, name)
    } else {
        decode_high_spec(o, p, mask, n, name)
    }
}

/// Dispatches the parameters numbered up to 13 over two helpers.
fn decode_param_low(config: &PathMap, mask: u64, n: u32, name: &str) -> (r: Result<
    Option<ConfigParam>,
    ParseError,
>)
    ensures
        opt_res_v(r) == decode_low_spec(config.entries(), config.pathv(), mask, n, name@),
{
    if n <= 8 {
        decode_param_low_a(config, mask, n, name)
    } else {
        decode_param_low_b(config, mask, n, name)
    }
}

/// Decodes the parameters numbered up to 8.
#[verifier::rlimit(100)]
fn decode_param_low_a(config: &PathMap, mask: u64, n: u32, name: &str) -> (r: Result<
    Option<ConfigParam>,
    ParseError,
>)
    requires
        n <= 8,
    ensures
        opt_res_v(r) == decode_low_spec(config.entries(), config.pathv(), mask, n, name@),
{
    if n == 0 {
        match config.get_uint256(name) {
                Ok(h) => Ok(Some(ConfigParam::P0(h))),
                Err(_) => gate_missing(config, mask, n, name),
            }
    } else
    if n == 1 {
        match config.get_uint256(name) {
                Ok(h) => Ok(Some(ConfigParam::P1(h))),
                Err(_) => gate_missing(config, mask, n, name),
            }
    } else
    if n == 2 {
        match config.get_uint256(name) {
                Ok(h) => Ok(Some(ConfigParam::P2(h))),
                Err(_) => gate_missing(config, mask, n, name),
            }
    } else
    if n == 3 {
        match config.get_uint256(name) {
                Ok(h) => Ok(Some(ConfigParam::P3(h))),
                Err(_) => gate_missing(config, mask, n, name),
            }
    } else
    if n == 4 {
        match config.get_uint256(name) {
                Ok(h) => Ok(Some(ConfigParam::P4(h))),
                Err(_) => gate_missing(config, mask, n, name),
            }
    } else
    if n == 5 {
        match config.get_uint256(name) {
                Ok(h) => Ok(Some(ConfigParam::P5(h))),
                Err(_) => gate_missing(config, mask, n, name),
            }
    } else
    if n == 6 {
        match config.get_obj(name) {
                Err(_) => gate_missing(config, mask, n, name),
                Ok(m) => {
                    let v = parse_mint_prices(&m)?;
                    Ok(Some(ConfigParam::P6 { mint_new_price: v.0, mint_add_price: v.1 }))
                },
            }
    } else
    if n == 7 {
        match config.get_vec(name) {
                Err(_) => gate_missing(config, mask, n, name),
                Ok(items) => {
                    let v = parse_currencies(config, items)?;
                    Ok(Some(ConfigParam::P7(v)))
                },
            }
    } else
    if n == 8 {
        match config.get_obj(name) {
                Err(_) => gate_missing(config, mask, n, name),
                Ok(m) => {
                    let v = parse_global_version(&m)?;
                    Ok(Some(ConfigParam::P8(v)))
                },
            }
    } else {
        Ok(None)
    }
}

/// Decodes the parameters numbered 9 to 13.
#[verifier::rlimit(100)]
fn decode_param_low_b(config: &PathMap, mask: u64, n: u32, name: &str) -> (r: Result<
    Option<ConfigParam>,
    ParseError,
>)
    requires
        n >= 9,
    ensures
        opt_res_v(r) == decode_low_spec(config.entries(), config.pathv(), mask, n, name@),
{
    if n == 9 {
        match config.get_vec(name) {
                Err(_) => gate_missing(config, mask, n, name),
                Ok(items) => {
                    let v = parse_param_ids(config, items, name)?;
                    Ok(Some(ConfigParam::P9(v)))
                },
            }
    } else
    if n == 10 {
        match config.get_vec(name) {
                Err(_) => gate_missing(config, mask, n, name),
                Ok(items) => {
                    let v = parse_param_ids(config, items, name)?;
                    Ok(Some(ConfigParam::P10(v)))
                },
            }
    } else
    if n == 11 {
        match config.get_obj(name) {
                Err(_) => gate_missing(config, mask, n, name),
                Ok(m) => {
                    let v = parse_voting_setup(&m)?;
                    Ok(Some(ConfigParam::P11 { normal_params: v.0, critical_params: v.1 }))
                },
            }
    } else
    if n == 12 {
        match config.get_vec(name) {
                Err(_) => gate_missing(config, mask, n, name),
                Ok(items) => {
                    let v = parse_workchains(config, items)?;
                    proof {
                        assert(v@.map_values(
                            |e: (u32, crate::types::WorkchainDescr)| (e.0, e.1@),
                        ) =~= workchains_v(v@));
                    }
                    Ok(Some(ConfigParam::P12(v)))
                },
            }
    } else
    if n == 13 {
        match config.get_obj(name) {
                Err(_) => gate_missing(config, mask, n, name),
                Ok(m) => {
                    let v = m.get_base64("boc")?;
                    Ok(Some(ConfigParam::P13(v)))
                },
            }
    } else {
        Ok(None)
    }
}

/// Dispatches the parameters numbered 14 to 31 over two helpers.
fn decode_param_mid(config: &PathMap, mask: u64, n: u32, name: &str) -> (r: Result<
    Option<ConfigParam>,
    ParseError,
>)
    ensures
        opt_res_v(r) == decode_mid_spec(config.entries(), config.pathv(), mask, n, name@),
{
    if n <= 23 {
        decode_param_mid_a(config, mask, n, name)
    } else {
        decode_param_mid_b(config, mask, n, name)
    }
}

/// Decodes the parameters numbered 14 to 23.
#[verifier::rlimit(100)]
fn decode_param_mid_a(config: &PathMap, mask: u64, n: u32, name: &str) -> (r: Result<
    Option<ConfigParam>,
    ParseError,
>)
    requires
        n <= 23,
    ensures
        opt_res_v(r) == decode_mid_spec(config.entries(), config.pathv(), mask, n, name@),
{
    if n == 14 {
        match config.get_obj(name) {
                Err(_) => gate_missing(config, mask, n, name),
                Ok(m) => {
                    let v = parse_block_fees(&m)?;
                    Ok(Some(ConfigParam::P14(v)))
                },
            }
    } else
    if n == 15 {
        match config.get_obj(name) {
                Err(_) => gate_missing(config, mask, n, name),
                Ok(m) => {
                    let v = parse_election_params(&m)?;
                    Ok(Some(ConfigParam::P15(v)))
                },
            }
    } else
    if n == 16 {
        match config.get_obj(name) {
                Err(_) => gate_missing(config, mask, n, name),
                Ok(m) => {
                    let v = parse_validator_count(&m)?;
                    Ok(Some(ConfigParam::P16(v)))
                },
            }
    } else
    if n == 17 {
        match config.get_obj(name) {
                Err(_) => gate_missing(config, mask, n, name),
                Ok(m) => {
                    let v = parse_stake_params(&m)?;
                    Ok(Some(ConfigParam::P17(v)))
                },
            }
    } else
    if n == 18 {
        match config.get_vec(name) {
                Err(_) => gate_missing(config, mask, n, name),
                Ok(items) => {
                    let v = parse_storage_prices_list(config, items)?;
                    Ok(Some(ConfigParam::P18(v)))
                },
            }
    } else
    if n == 20 {
        match config.get_obj(name) {
                Err(_) => gate_missing(config, mask, n, name),
                Ok(m) => {
                    let v = parse_gas_limits_struct(&m)?;
                    Ok(Some(ConfigParam::P20(v)))
                },
            }
    } else
    if n == 21 {
        match config.get_obj(name) {
                Err(_) => gate_missing(config, mask, n, name),
                Ok(m) => {
                    let v = parse_gas_limits_struct(&m)?;
                    Ok(Some(ConfigParam::P21(v)))
                },
            }
    } else
    if n == 22 {
        match config.get_obj(name) {
                Err(_) => gate_missing(config, mask, n, name),
                Ok(m) => {
                    let v = parse_block_limits_struct(&m)?;
                    Ok(Some(ConfigParam::P22(v)))
                },
            }
    } else
    if n == 23 {
        match config.get_obj(name) {
                Err(_) => gate_missing(config, mask, n, name),
                Ok(m) => {
                    let v = parse_block_limits_struct(&m)?;
                    Ok(Some(ConfigParam::P23(v)))
                },
            }
    } else {
        Ok(None)
    }
}

/// Decodes the parameters numbered 24 to 31.
#[verifier::rlimit(100)]
fn decode_param_mid_b(config: &PathMap, mask: u64, n: u32, name: &str) -> (r: Result<
    Option<ConfigParam>,
    ParseError,
>)
    requires
        n >= 24,
    ensures
        opt_res_v(r) == decode_mid_spec(config.entries(), config.pathv(), mask, n, name@),
{
    if n == 24 {
        match config.get_obj(name) {
                Err(_) => gate_missing(config, mask, n, name),
                Ok(m) => {
                    let v = parse_msg_forward_prices_struct(&m)?;
                    Ok(Some(ConfigParam::P24(v)))
                },
            }
    } else
    if n == 25 {
        match config.get_obj(name) {
                Err(_) => gate_missing(config, mask, n, name),
                Ok(m) => {
                    let v = parse_msg_forward_prices_struct(&m)?;
                    Ok(Some(ConfigParam::P25(v)))
                },
            }
    } else
    if n == 28 {
        match config.get_obj(name) {
                Err(_) => gate_missing(config, mask, n, name),
                Ok(m) => {
                    let v = parse_catchain_config(&m)?;
                    Ok(Some(ConfigParam::P28(v)))
                },
            }
    } else
    if n == 29 {
        match config.get_obj(name) {
                Err(_) => gate_missing(config, mask, n, name),
                Ok(m) => {
                    let v = parse_consensus_config(&m)?;
                    Ok(Some(ConfigParam::P29(v)))
                },
            }
    } else
    if n == 30 {
        match config.get_obj(name) {
                Err(_) => gate_missing(config, mask, n, name),
                Ok(m) => {
                    let v = parse_delector_params(&m)?;
                    Ok(Some(ConfigParam::P30(v)))
                },
            }
    } else
    if n == 31 {
        match config.get_vec(name) {
                Err(_) => gate_missing(config, mask, n, name),
                Ok(items) => {
                    let v = parse_fundamental_addrs(config, items)?;
                    proof {
                        assert(v@.map_values(|h: crate::codec::Hash256| h@) =~= hashes_v(v@));
                    }
                    Ok(Some(ConfigParam::P31(v)))
                },
            }
    } else {
        Ok(None)
    }
}


/// Dispatches the parameters numbered 32 and above over two helpers.
fn decode_param_high(config: &PathMap, mask: u64, n: u32, name: &str) -> (r: Result<
    Option<ConfigParam>,
    ParseError,
>)
    ensures
        opt_res_v(r) == decode_high_spec(config.entries(), config.pathv(), mask, n, name@),
{
    if n <= 39 {
        decode_param_high_a(config, mask, n, name)
    } else if n <= 44 {
        decode_param_high_b(config, mask, n, name)
    } else if n <= 58 {
        decode_param_high_c(config, mask, n, name)
    } else {
        decode_param_high_d(config, mask, n, name)
    }
}

/// Decodes the validator-set parameters.
#[verifier::rlimit(100)]
fn decode_param_high_a(config: &PathMap, mask: u64, n: u32, name: &str) -> (r: Result<
    Option<ConfigParam>,
    ParseError,
>)
    requires
        n <= 39,
    ensures
        opt_res_v(r) == decode_high_spec(config.entries(), config.pathv(), mask, n, name@),
{
    if n == 32 {
        match config.get_obj(name) {
                Err(_) => gate_missing(config, mask, n, name),
                Ok(m) => {
                    let v = parse_validator_set(&m)?;
                    Ok(Some(ConfigParam::P32(v)))
                },
            }
    } else
    if n == 33 {
        match config.get_obj(name) {
                Err(_) => gate_missing(config, mask, n, name),
                Ok(m) => {
                    let v = parse_validator_set(&m)?;
                    Ok(Some(ConfigParam::P33(v)))
                },
            }
    } else
    if n == 34 {
        match config.get_obj(name) {
                Err(_) => gate_missing(config, mask, n, name),
                Ok(m) => {
                    let v = parse_cur_validator_set(&m)?;
                    Ok(Some(ConfigParam::P34(v)))
                },
            }
    } else
    if n == 35 {
        match config.get_obj(name) {
                Err(_) => gate_missing(config, mask, n, name),
                Ok(m) => {
                    let v = parse_validator_set(&m)?;
                    Ok(Some(ConfigParam::P35(v)))
                },
            }
    } else
    if n == 36 {
        match config.get_obj(name) {
                Err(_) => gate_missing(config, mask, n, name),
                Ok(m) => {
                    let v = parse_validator_set(&m)?;
                    Ok(Some(ConfigParam::P36(v)))
                },
            }
    } else
    if n == 37 {
        match config.get_obj(name) {
                Err(_) => gate_missing(config, mask, n, name),
                Ok(m) => {
                    let v = parse_validator_set(&m)?;
                    Ok(Some(ConfigParam::P37(v)))
                },
            }
    } else
    if n == 39 {
        match config.get_vec(name) {
                Err(_) => gate_missing(config, mask, n, name),
                Ok(items) => {
                    let v = parse_temp_keys(config, items)?;
                    proof {
                        assert(v@.map_values(
                            |e: (
                                crate::codec::Hash256,
                                crate::types::ValidatorSignedTempKey,
                            )| (e.0@, e.1@),
                        ) =~= temp_keys_v(v@));
                    }
                    Ok(Some(ConfigParam::P39(v)))
                },
            }
    } else {
        Ok(None)
    }
}

/// Decodes the parameters numbered 40 to 44.
#[verifier::rlimit(100)]
fn decode_param_high_b(config: &PathMap, mask: u64, n: u32, name: &str) -> (r: Result<
    Option<ConfigParam>,
    ParseError,
>)
    requires
        40 <= n <= 44,
    ensures
        opt_res_v(r) == decode_high_spec(config.entries(), config.pathv(), mask, n, name@),
{
    if n == 40 {
        match config.get_obj(name) {
                Ok(m) => {
                    let c = parse_slashing_config(&m);
                    Ok(Some(ConfigParam::P40(c)))
                },
                Err(_) => {
                    let c = SlashingConfig {
                        slashing_period_mc_blocks_count: 0,
                        resend_mc_blocks_count: 0,
                        min_samples_count: 0,
                        collations_score_weight: 0,
                        signing_score_weight: 0,
                        min_slashing_protection_score: 0,
                        z_param_numerator: 0,
                        z_param_denominator: 0,
                    };
                    proof {
                        assert(c == slashing_config_zero());
                    }
                    Ok(Some(ConfigParam::P40(c)))
                },
            }
    } else
    if n == 42 {
        match config.get_obj(name) {
                Err(_) => gate_missing(config, mask, n, name),
                Ok(m) => {
                    let threshold = m.get_grams("threshold")?;
                    let items = m.get_vec("payouts")?;
                    let rates = parse_payouts(config, items)?;
                    Ok(
                        Some(
                            ConfigParam::P42(
                                ConfigCopyleft {
                                    copyleft_reward_threshold: threshold,
                                    license_rates: rates,
                                },
                            ),
                        ),
                    )
                },
            }
    } else
    if n == 44 {
        match config.get_vec(name) {
                Err(_) => gate_missing(config, mask, n, name),
                Ok(items) => {
                    let v = parse_suspended(config, items)?;
                    proof {
                        assert(v@.map_values(
                            |e: (i32, crate::codec::Hash256)| (e.0, e.1@),
                        ) =~= addrs_v(v@));
                    }
                    Ok(Some(ConfigParam::P44(v)))
                },
            }
    } else {
        Ok(None)
    }
}

/// The mesh parameter's decode, written out on its own: the field must be
/// an array, folded into the mesh table, under the mandatory gate.
pub open spec fn p58_decode_spec(
    o: Seq<(String, Json)>,
    p: Seq<Seq<char>>,
    mask: u64,
    name: Seq<char>,
) -> Result<Option<ConfigParamV>, ErrV> {
    match get_vec_spec(o, p, name) {
        Err(_) => miss(p, mask, 58, name),
        Ok(items) => match mesh_fold(items, p, Seq::empty(), 0) {
            Err(e) => Err(e),
            Ok(v) => Ok(Some(ConfigParamV::P58(v))),
        },
    }
}

/// At parameter number 58 the general decode is the mesh decode.
proof fn lemma_high_spec_58(o: Seq<(String, Json)>, p: Seq<Seq<char>>, mask: u64, name: Seq<char>)
    ensures
        decode_high_spec(o, p, mask, 58, name) == p58_decode_spec(o, p, mask, name),
{
}

/// Decodes the mesh parameter against its own specification.
fn decode_p58(config: &PathMap, mask: u64, name: &str) -> (r: Result<
    Option<ConfigParam>,
    ParseError,
>)
    ensures
        opt_res_v(r) == p58_decode_spec(config.entries(), config.pathv(), mask, name@),
{
    match config.get_vec(name) {
        Err(_) => gate_missing(config, mask, 58, name),
        Ok(items) => match parse_mesh(config, items) {
            Err(e) => Err(e),
            Ok(v) => {
                proof {
                    assert(v@.map_values(|e: (i32, ConnectedNwConfig)| (e.0, e.1@)) =~= mesh_v(
                        v@,
                    ));
                }
                Ok(Some(ConfigParam::P58(v)))
            },
        },
    }
}

/// Decodes the mesh-network parameter.
#[verifier::rlimit(100)]
fn decode_param_high_c(config: &PathMap, mask: u64, n: u32, name: &str) -> (r: Result<
    Option<ConfigParam>,
    ParseError,
>)
    requires
        45 <= n <= 58,
    ensures
        opt_res_v(r) == decode_high_spec(config.entries(), config.pathv(), mask, n, name@),
{
    if n == 58 {
        let r = decode_p58(config, mask, name);
        proof {
            lemma_high_spec_58(config.entries(), config.pathv(), mask, name@);
        }
        r
    } else {
        Ok(None)
    }
}

/// Decodes the parameters numbered 61 and above.
#[verifier::rlimit(100)]
fn decode_param_high_d(config: &PathMap, mask: u64, n: u32, name: &str) -> (r: Result<
    Option<ConfigParam>,
    ParseError,
>)
    requires
        n >= 59,
    ensures
        opt_res_v(r) == decode_high_spec(config.entries(), config.pathv(), mask, n, name@),
{
    if n == 61 {
        match config.get_obj(name) {
                Ok(m) => {
                    let c = parse_fast_finality_config(&m);
                    Ok(Some(ConfigParam::P61(c)))
                },
                Err(_) => Ok(None),
            }
    } else
    if n == 62 {
        match config.get_obj(name) {
                Err(_) => gate_missing(config, mask, n, name),
                Ok(m) => {
                    let v = parse_smft_params(&m)?;
                    Ok(Some(ConfigParam::P62(v)))
                },
            }
    } else {
        Ok(None)
    }
}

/// Decodes one configuration parameter from the map in scope.
pub fn decode_param(config: &PathMap, mask: u64, n: u32, name: &str) -> (r: Result<
    Option<ConfigParam>,
    ParseError,
>)
    ensures
        opt_res_v(r) == decode_param_spec(config.entries(), config.pathv(), mask, n, name@),
{
    if n <= 13 {
        decode_param_low(config, mask, n, name)
    } else if n <= 31 {
        decode_param_mid(config, mask, n, name)
    } else {
        decode_param_high(config, mask, n, name)
    }
}

/// The parameters the configuration parser attempts, in decode order.
pub open spec fn param_table() -> Seq<(u32, Seq<char>)> {
    seq![(0u32, "p0"@), (1u32, "p1"@), (2u32, "p2"@), (3u32, "p3"@), (4u32, "p4"@), (5u32, "p5"@), (6u32, "p6"@), (7u32, "p7"@), (8u32, "p8"@), (9u32, "p9"@), (10u32, "p10"@), (11u32, "p11"@), (12u32, "p12"@), (13u32, "p13"@), (14u32, "p14"@), (15u32, "p15"@), (16u32, "p16"@), (17u32, "p17"@), (18u32, "p18"@), (20u32, "p20"@), (21u32, "p21"@), (22u32, "p22"@), (23u32, "p23"@), (24u32, "p24"@), (25u32, "p25"@), (28u32, "p28"@), (29u32, "p29"@), (30u32, "p30"@), (31u32, "p31"@), (32u32, "p32"@), (33u32, "p33"@), (34u32, "p34"@), (35u32, "p35"@), (36u32, "p36"@), (37u32, "p37"@), (39u32, "p39"@), (40u32, "p40"@), (42u32, "p42"@), (44u32, "p44"@), (58u32, "p58"@), (61u32, "p61"@), (62u32, "p62"@)]
}

/// A parameter table, seen mathematically.
pub open spec fn tablev(t: Seq<(u32, &str)>) -> Seq<(u32, Seq<char>)> {
    t.map_values(|e: (u32, &str)| (e.0, e.1@))
}

/// Builds the decode-order parameter table.
#[verifier::rlimit(100)]
fn make_param_table() -> (r: Vec<(u32, &'static str)>)
    ensures
        tablev(r@) == param_table(),
{
    let mut t: Vec<(u32, &'static str)> = Vec::new();
    t.push((0, "p0"));
    t.push((1, "p1"));
    t.push((2, "p2"));
    t.push((3, "p3"));
    t.push((4, "p4"));
    t.push((5, "p5"));
    t.push((6, "p6"));
    t.push((7, "p7"));
    t.push((8, "p8"));
    t.push((9, "p9"));
    t.push((10, "p10"));
    t.push((11, "p11"));
    t.push((12, "p12"));
    t.push((13, "p13"));
    t.push((14, "p14"));
    t.push((15, "p15"));
    t.push((16, "p16"));
    t.push((17, "p17"));
    t.push((18, "p18"));
    t.push((20, "p20"));
    t.push((21, "p21"));
    t.push((22, "p22"));
    t.push((23, "p23"));
    t.push((24, "p24"));
    t.push((25, "p25"));
    t.push((28, "p28"));
    t.push((29, "p29"));
    t.push((30, "p30"));
    t.push((31, "p31"));
    t.push((32, "p32"));
    t.push((33, "p33"));
    t.push((34, "p34"));
    t.push((35, "p35"));
    t.push((36, "p36"));
    t.push((37, "p37"));
    t.push((39, "p39"));
    t.push((40, "p40"));
    t.push((42, "p42"));
    t.push((44, "p44"));
    t.push((58, "p58"));
    t.push((61, "p61"));
    t.push((62, "p62"));
    proof {
        assert(tablev(t@) =~= param_table());
    }
    t
}

/// Folding the parameter table from entry `i` on into the accumulated
/// configuration set: a decoded parameter is appended under its number,
/// a number set twice is refused, and the first failure aborts.
pub open spec fn parse_config_from(
    o: Seq<(String, Json)>,
    p: Seq<Seq<char>>,
    mask: u64,
    acc: Seq<(u32, ConfigParamV)>,
    i: int,
) -> Result<Seq<(u32, ConfigParamV)>, ErrV>
    decreases param_table().len() - i,
{
    if i < 0 || i >= param_table().len() {
        Ok(acc)
    } else {
        let n = param_table()[i].0;
        let name = param_table()[i].1;
        match decode_param_spec(o, p, mask, n, name) {
            Err(e) => Err(e),
            Ok(None) => parse_config_from(o, p, mask, acc, i + 1),
            Ok(Some(v)) => if assoc_get(acc, n) is Some {
                Err(errv(ErrKind::DuplicateParameter(n), p, name))
            } else {
                parse_config_from(o, p, mask, acc.push((n, v)), i + 1)
            },
        }
    }
}

/// What parsing a configuration map under `mask` yields: the parameters of
/// the table, decoded in order into one configuration set.
pub open spec fn parse_config_spec(o: Seq<(String, Json)>, p: Seq<Seq<char>>, mask: u64) -> Result<
    Seq<(u32, ConfigParamV)>,
    ErrV,
> {
    parse_config_from(o, p, mask, Seq::empty(), 0)
}

/// Parses every known configuration parameter from the map in scope.
#[verifier::loop_isolation(false)]
#[verifier::rlimit(60)]
pub fn parse_config_map(config: &PathMap, mask: u64) -> (r: Result<ConfigSet, ParseError>)
    ensures
        match r {
            Ok(cs) => parse_config_spec(config.entries(), config.pathv(), mask) == Ok::<_, ErrV>(
                cs@,
            ),
            Err(e) => parse_config_spec(config.entries(), config.pathv(), mask) == Err::<
                Seq<(u32, ConfigParamV)>,
                _,
            >(e@),
        },
{
    let table = make_param_table();
    let mut cs = ConfigSet::new();
    let ghost whole = parse_config_spec(config.entries(), config.pathv(), mask);
    let mut k: usize = 0;
    proof {
        assert(cs@ =~= Seq::<(u32, ConfigParamV)>::empty());
    }
    while k < table.len()
        invariant
            k <= table@.len(),
            tablev(table@) == param_table(),
            parse_config_from(config.entries(), config.pathv(), mask, cs@, k as int) == whole,
        decreases table@.len() - k,
    {
        let n = table[k].0;
        let name = table[k].1;
        proof {
            assert(param_table()[k as int] == (n, name@));
        }
        match decode_param(config, mask, n, name)? {
            None => {},
            Some(param) => {
                if !cs.set_config(n, param) {
                    return Err(ParseError::at(ErrKind::DuplicateParameter(n), &config.path, name));
                }
            },
        }
        k += 1;
    }
    Ok(cs)
}

/// Parses a configuration map, treating the numbers in `mandatories` as
/// the parameters that must be present.
pub fn parse_config_with_mandatory_params(config: &JsonObj, mandatories: &[u32]) -> (r: Result<
    ConfigSet,
    ParseError,
>)
    requires
        forall|i: int| 0 <= i < mandatories@.len() ==> mandatories@[i] < 64,
    ensures
        match r {
            Ok(cs) => parse_config_spec(config@, seq!["root"@], mask_of_ids(mandatories@)) == Ok::<
                _,
                ErrV,
            >(cs@),
            Err(e) => parse_config_spec(config@, seq!["root"@], mask_of_ids(mandatories@)) == Err::<
                Seq<(u32, ConfigParamV)>,
                _,
            >(e@),
        },
{
    let ctx = PathMap::new(config);
    let mask = mask_from_list(mandatories);
    parse_config_map(&ctx, mask)
}

/// Parses a configuration map with nothing mandatory.
pub fn parse_config(config: &JsonObj) -> (r: Result<ConfigSet, ParseError>)
    ensures
        match r {
            Ok(cs) => parse_config_spec(config@, seq!["root"@], 0) == Ok::<_, ErrV>(cs@),
            Err(e) => parse_config_spec(config@, seq!["root"@], 0) == Err::<
                Seq<(u32, ConfigParamV)>,
                _,
            >(e@),
        },
{
    let empty: [u32; 0] = [];
    proof {
        assert(empty@.len() == 0);
        assert(mask_of_ids(empty@) == 0);
    }
    parse_config_with_mandatory_params(config, &empty)
}

} // verus!
