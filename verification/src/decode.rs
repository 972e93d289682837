use vstd::prelude::*;
use crate::err::{errv, res_v, ErrKind, ErrV, ParseError};
use crate::json::Json;
use crate::path::{
    get_bool_spec, get_num_spec, get_obj_spec, get_str_spec, get_uint256_spec, get_vec_spec,
    get_grams_spec, PathMap,
};
use crate::types::{
    BlockLimits, CatchainConfig, ConfigProposalSetup, ConsensusConfig, DelectorParams,
    DelectorParamsV, FastFinalityConfig, GasLimitsPrices, MsgForwardPrices, ParamLimits,
    SlashingConfig, SmftParams, StoragePrices, fast_finality_zero, slashing_config_zero,
};

verus! {

/// The field's number as a 32-bit value when it resolves, else `d`.
pub open spec fn num_or_u32(o: Seq<(String, Json)>, p: Seq<Seq<char>>, name: Seq<char>, d: u32) -> u32 {
    match get_num_spec(o, p, name) {
        Ok(v) => v as u32,
        Err(_) => d,
    }
}

/// The field's number as a 16-bit value when it resolves, else `d`.
pub open spec fn num_or_u16(o: Seq<(String, Json)>, p: Seq<Seq<char>>, name: Seq<char>, d: u16) -> u16 {
    match get_num_spec(o, p, name) {
        Ok(v) => v as u16,
        Err(_) => d,
    }
}

/// The field's number as an 8-bit value when it resolves, else `d`.
pub open spec fn num_or_u8(o: Seq<(String, Json)>, p: Seq<Seq<char>>, name: Seq<char>, d: u8) -> u8 {
    match get_num_spec(o, p, name) {
        Ok(v) => v as u8,
        Err(_) => d,
    }
}

/// One block-limit triple; the three marks must not decrease.
pub open spec fn param_limits_spec(o: Seq<(String, Json)>, p: Seq<Seq<char>>) -> Result<
    ParamLimits,
    ErrV,
> {
    match get_num_spec(o, p, "underload"@) {
        Err(e) => Err(e),
        Ok(underload) => match get_num_spec(o, p, "soft_limit"@) {
            Err(e) => Err(e),
            Ok(soft_limit) => match get_num_spec(o, p, "hard_limit"@) {
                Err(e) => Err(e),
                Ok(hard_limit) => {
                    let lim = ParamLimits {
                        underload: underload as u32,
                        soft_limit: soft_limit as u32,
                        hard_limit: hard_limit as u32,
                    };
                    if lim.consistent() {
                        Ok(lim)
                    } else {
                        Err(errv(ErrKind::SemanticInvalid, p, ""@))
                    }
                },
            },
        },
    }
}

/// Parses one block-limit triple.
pub fn parse_param_limits(param: &PathMap) -> (r: Result<ParamLimits, ParseError>)
    ensures
        res_v(r) == param_limits_spec(param.entries(), param.pathv()),
{
    let underload = param.get_num("underload")?;
    let soft_limit = param.get_num("soft_limit")?;
    let hard_limit = param.get_num("hard_limit")?;
    let lim = ParamLimits {
        underload: #[verifier::truncate] (underload as u32),
        soft_limit: #[verifier::truncate] (soft_limit as u32),
        hard_limit: #[verifier::truncate] (hard_limit as u32),
    };
    if lim.underload <= lim.soft_limit && lim.soft_limit <= lim.hard_limit {
        Ok(lim)
    } else {
        Err(ParseError::at(ErrKind::SemanticInvalid, &param.path, ""))
    }
}

/// The three block-limit triples of one block-limits parameter.
pub open spec fn block_limits_spec(o: Seq<(String, Json)>, p: Seq<Seq<char>>) -> Result<
    BlockLimits,
    ErrV,
> {
    match get_obj_spec(o, p, "bytes"@) {
        Err(e) => Err(e),
        Ok(ob) => match param_limits_spec(ob, p.push("bytes"@)) {
            Err(e) => Err(e),
            Ok(bytes) => match get_obj_spec(o, p, "gas"@) {
                Err(e) => Err(e),
                Ok(og) => match param_limits_spec(og, p.push("gas"@)) {
                    Err(e) => Err(e),
                    Ok(gas) => match get_obj_spec(o, p, "lt_delta"@) {
                        Err(e) => Err(e),
                        Ok(ol) => match param_limits_spec(ol, p.push("lt_delta"@)) {
                            Err(e) => Err(e),
                            Ok(lt_delta) => Ok(BlockLimits { bytes, gas, lt_delta }),
                        },
                    },
                },
            },
        },
    }
}

/// Parses one block-limits parameter.
pub fn parse_block_limits_struct(param: &PathMap) -> (r: Result<BlockLimits, ParseError>)
    ensures
        res_v(r) == block_limits_spec(param.entries(), param.pathv()),
{
    let ob = param.get_obj("bytes")?;
    let bytes = parse_param_limits(&ob)?;
    let og = param.get_obj("gas")?;
    let gas = parse_param_limits(&og)?;
    let ol = param.get_obj("lt_delta")?;
    let lt_delta = parse_param_limits(&ol)?;
    Ok(BlockLimits { bytes, gas, lt_delta })
}

/// Message forwarding prices.
pub open spec fn msg_forward_prices_spec(o: Seq<(String, Json)>, p: Seq<Seq<char>>) -> Result<
    MsgForwardPrices,
    ErrV,
> {
    match get_num_spec(o, p, "lump_price"@) {
        Err(e) => Err(e),
        Ok(lump_price) => match get_num_spec(o, p, "bit_price"@) {
            Err(e) => Err(e),
            Ok(bit_price) => match get_num_spec(o, p, "cell_price"@) {
                Err(e) => Err(e),
                Ok(cell_price) => match get_num_spec(o, p, "ihr_price_factor"@) {
                    Err(e) => Err(e),
                    Ok(ihr_price_factor) => match get_num_spec(o, p, "first_frac"@) {
                        Err(e) => Err(e),
                        Ok(first_frac) => match get_num_spec(o, p, "next_frac"@) {
                            Err(e) => Err(e),
                            Ok(next_frac) => Ok(
                                MsgForwardPrices {
                                    lump_price: lump_price as u64,
                                    bit_price: bit_price as u64,
                                    cell_price: cell_price as u64,
                                    ihr_price_factor: ihr_price_factor as u32,
                                    first_frac: first_frac as u16,
                                    next_frac: next_frac as u16,
                                },
                            ),
                        },
                    },
                },
            },
        },
    }
}

/// Parses one message-forwarding price table.
pub fn parse_msg_forward_prices_struct(param: &PathMap) -> (r: Result<MsgForwardPrices, ParseError>)
    ensures
        res_v(r) == msg_forward_prices_spec(param.entries(), param.pathv()),
{
    Ok(
        MsgForwardPrices {
            lump_price: #[verifier::truncate] (param.get_num("lump_price")? as u64),
            bit_price: #[verifier::truncate] (param.get_num("bit_price")? as u64),
            cell_price: #[verifier::truncate] (param.get_num("cell_price")? as u64),
            ihr_price_factor: #[verifier::truncate] (param.get_num("ihr_price_factor")? as u32),
            first_frac: #[verifier::truncate] (param.get_num("first_frac")? as u16),
            next_frac: #[verifier::truncate] (param.get_num("next_frac")? as u16),
        },
    )
}

/// Gas pricing and limits; the threshold field is always zero here.
pub open spec fn gas_limits_spec(o: Seq<(String, Json)>, p: Seq<Seq<char>>) -> Result<
    GasLimitsPrices,
    ErrV,
> {
    match get_num_spec(o, p, "gas_price"@) {
        Err(e) => Err(e),
        Ok(gas_price) => match get_num_spec(o, p, "gas_limit"@) {
            Err(e) => Err(e),
            Ok(gas_limit) => match get_num_spec(o, p, "special_gas_limit"@) {
                Err(e) => Err(e),
                Ok(special_gas_limit) => match get_num_spec(o, p, "gas_credit"@) {
                    Err(e) => Err(e),
                    Ok(gas_credit) => match get_num_spec(o, p, "block_gas_limit"@) {
                        Err(e) => Err(e),
                        Ok(block_gas_limit) => match get_num_spec(o, p, "freeze_due_limit"@) {
                            Err(e) => Err(e),
                            Ok(freeze_due_limit) => match get_num_spec(o, p, "delete_due_limit"@) {
                                Err(e) => Err(e),
                                Ok(delete_due_limit) => match get_num_spec(o, p, "flat_gas_limit"@) {
                                    Err(e) => Err(e),
                                    Ok(flat_gas_limit) => match get_num_spec(
                                        o,
                                        p,
                                        "flat_gas_price"@,
                                    ) {
                                        Err(e) => Err(e),
                                        Ok(flat_gas_price) => Ok(
                                            GasLimitsPrices {
                                                gas_price: gas_price as u64,
                                                gas_limit: gas_limit as u64,
                                                special_gas_limit: special_gas_limit as u64,
                                                gas_credit: gas_credit as u64,
                                                block_gas_limit: block_gas_limit as u64,
                                                freeze_due_limit: freeze_due_limit as u64,
                                                delete_due_limit: delete_due_limit as u64,
                                                flat_gas_limit: flat_gas_limit as u64,
                                                flat_gas_price: flat_gas_price as u64,
                                                max_gas_threshold: 0,
                                            },
                                        ),
                                    },
                                },
                            },
                        },
                    },
                },
            },
        },
    }
}

/// Parses one gas-limit table.
pub fn parse_gas_limits_struct(param: &PathMap) -> (r: Result<GasLimitsPrices, ParseError>)
    ensures
        res_v(r) == gas_limits_spec(param.entries(), param.pathv()),
{
    Ok(
        GasLimitsPrices {
            gas_price: #[verifier::truncate] (param.get_num("gas_price")? as u64),
            gas_limit: #[verifier::truncate] (param.get_num("gas_limit")? as u64),
            special_gas_limit: #[verifier::truncate] (param.get_num("special_gas_limit")? as u64),
            gas_credit: #[verifier::truncate] (param.get_num("gas_credit")? as u64),
            block_gas_limit: #[verifier::truncate] (param.get_num("block_gas_limit")? as u64),
            freeze_due_limit: #[verifier::truncate] (param.get_num("freeze_due_limit")? as u64),
            delete_due_limit: #[verifier::truncate] (param.get_num("delete_due_limit")? as u64),
            flat_gas_limit: #[verifier::truncate] (param.get_num("flat_gas_limit")? as u64),
            flat_gas_price: #[verifier::truncate] (param.get_num("flat_gas_price")? as u64),
            max_gas_threshold: 0,
        },
    )
}

/// One storage-price schedule entry.
pub open spec fn storage_prices_spec(o: Seq<(String, Json)>, p: Seq<Seq<char>>) -> Result<
    StoragePrices,
    ErrV,
> {
    match get_num_spec(o, p, "utime_since"@) {
        Err(e) => Err(e),
        Ok(utime_since) => match get_num_spec(o, p, "bit_price_ps"@) {
            Err(e) => Err(e),
            Ok(bit_price_ps) => match get_num_spec(o, p, "cell_price_ps"@) {
                Err(e) => Err(e),
                Ok(cell_price_ps) => match get_num_spec(o, p, "mc_bit_price_ps"@) {
                    Err(e) => Err(e),
                    Ok(mc_bit_price_ps) => match get_num_spec(o, p, "mc_cell_price_ps"@) {
                        Err(e) => Err(e),
                        Ok(mc_cell_price_ps) => Ok(
                            StoragePrices {
                                utime_since: utime_since as u32,
                                bit_price_ps: bit_price_ps as u64,
                                cell_price_ps: cell_price_ps as u64,
                                mc_bit_price_ps: mc_bit_price_ps as u64,
                                mc_cell_price_ps: mc_cell_price_ps as u64,
                            },
                        ),
                    },
                },
            },
        },
    }
}

/// Parses one storage-price schedule entry.
pub fn parse_storage_prices_entry(param: &PathMap) -> (r: Result<StoragePrices, ParseError>)
    ensures
        res_v(r) == storage_prices_spec(param.entries(), param.pathv()),
{
    Ok(
        StoragePrices {
            utime_since: #[verifier::truncate] (param.get_num("utime_since")? as u32),
            bit_price_ps: #[verifier::truncate] (param.get_num("bit_price_ps")? as u64),
            cell_price_ps: #[verifier::truncate] (param.get_num("cell_price_ps")? as u64),
            mc_bit_price_ps: #[verifier::truncate] (param.get_num("mc_bit_price_ps")? as u64),
            mc_cell_price_ps: #[verifier::truncate] (param.get_num("mc_cell_price_ps")? as u64),
        },
    )
}

/// Voting rules for one class of configuration proposals.
pub open spec fn proposal_setup_spec(o: Seq<(String, Json)>, p: Seq<Seq<char>>) -> Result<
    ConfigProposalSetup,
    ErrV,
> {
    match get_num_spec(o, p, "min_tot_rounds"@) {
        Err(e) => Err(e),
        Ok(min_tot_rounds) => match get_num_spec(o, p, "max_tot_rounds"@) {
            Err(e) => Err(e),
            Ok(max_tot_rounds) => match get_num_spec(o, p, "min_wins"@) {
                Err(e) => Err(e),
                Ok(min_wins) => match get_num_spec(o, p, "max_losses"@) {
                    Err(e) => Err(e),
                    Ok(max_losses) => match get_num_spec(o, p, "min_store_sec"@) {
                        Err(e) => Err(e),
                        Ok(min_store_sec) => match get_num_spec(o, p, "max_store_sec"@) {
                            Err(e) => Err(e),
                            Ok(max_store_sec) => match get_num_spec(o, p, "bit_price"@) {
                                Err(e) => Err(e),
                                Ok(bit_price) => match get_num_spec(o, p, "cell_price"@) {
                                    Err(e) => Err(e),
                                    Ok(cell_price) => Ok(
                                        ConfigProposalSetup {
                                            min_tot_rounds: min_tot_rounds as u8,
                                            max_tot_rounds: max_tot_rounds as u8,
                                            min_wins: min_wins as u8,
                                            max_losses: max_losses as u8,
                                            min_store_sec: min_store_sec as u32,
                                            max_store_sec: max_store_sec as u32,
                                            bit_price: bit_price as u32,
                                            cell_price: cell_price as u32,
                                        },
                                    ),
                                },
                            },
                        },
                    },
                },
            },
        },
    }
}

/// Parses the voting rules for one class of configuration proposals.
pub fn parse_critical_params(params: &PathMap) -> (r: Result<ConfigProposalSetup, ParseError>)
    ensures
        res_v(r) == proposal_setup_spec(params.entries(), params.pathv()),
{
    Ok(
        ConfigProposalSetup {
            min_tot_rounds: #[verifier::truncate] (params.get_num("min_tot_rounds")? as u8),
            max_tot_rounds: #[verifier::truncate] (params.get_num("max_tot_rounds")? as u8),
            min_wins: #[verifier::truncate] (params.get_num("min_wins")? as u8),
            max_losses: #[verifier::truncate] (params.get_num("max_losses")? as u8),
            min_store_sec: #[verifier::truncate] (params.get_num("min_store_sec")? as u32),
            max_store_sec: #[verifier::truncate] (params.get_num("max_store_sec")? as u32),
            bit_price: #[verifier::truncate] (params.get_num("bit_price")? as u32),
            cell_price: #[verifier::truncate] (params.get_num("cell_price")? as u32),
        },
    )
}

/// Catchain configuration; the isolation flag defaults to false.
pub open spec fn catchain_config_spec(o: Seq<(String, Json)>, p: Seq<Seq<char>>) -> Result<
    CatchainConfig,
    ErrV,
> {
    match get_bool_spec(o, p, "shuffle_mc_validators"@) {
        Err(e) => Err(e),
        Ok(shuffle_mc_validators) => {
            let isolate_mc_validators = match get_bool_spec(o, p, "isolate_mc_validators"@) {
                Ok(b) => b,
                Err(_) => false,
            };
            match get_num_spec(o, p, "mc_catchain_lifetime"@) {
                Err(e) => Err(e),
                Ok(mc_catchain_lifetime) => match get_num_spec(o, p, "shard_catchain_lifetime"@) {
                    Err(e) => Err(e),
                    Ok(shard_catchain_lifetime) => match get_num_spec(
                        o,
                        p,
                        "shard_validators_lifetime"@,
                    ) {
                        Err(e) => Err(e),
                        Ok(shard_validators_lifetime) => match get_num_spec(
                            o,
                            p,
                            "shard_validators_num"@,
                        ) {
                            Err(e) => Err(e),
                            Ok(shard_validators_num) => Ok(
                                CatchainConfig {
                                    shuffle_mc_validators,
                                    isolate_mc_validators,
                                    mc_catchain_lifetime: mc_catchain_lifetime as u32,
                                    shard_catchain_lifetime: shard_catchain_lifetime as u32,
                                    shard_validators_lifetime: shard_validators_lifetime as u32,
                                    shard_validators_num: shard_validators_num as u32,
                                },
                            ),
                        },
                    },
                },
            }
        },
    }
}

/// Parses the catchain configuration.
pub fn parse_catchain_config(p28: &PathMap) -> (r: Result<CatchainConfig, ParseError>)
    ensures
        res_v(r) == catchain_config_spec(p28.entries(), p28.pathv()),
{
    let shuffle_mc_validators = p28.get_bool("shuffle_mc_validators")?;
    let isolate_mc_validators = match p28.get_bool("isolate_mc_validators") {
        Ok(b) => b,
        Err(_) => false,
    };
    Ok(
        CatchainConfig {
            shuffle_mc_validators,
            isolate_mc_validators,
            mc_catchain_lifetime: #[verifier::truncate] (p28.get_num("mc_catchain_lifetime")?
                as u32),
            shard_catchain_lifetime: #[verifier::truncate] (p28.get_num("shard_catchain_lifetime")?
                as u32),
            shard_validators_lifetime: #[verifier::truncate] (p28.get_num(
                "shard_validators_lifetime",
            )? as u32),
            shard_validators_num: #[verifier::truncate] (p28.get_num("shard_validators_num")?
                as u32),
        },
    )
}

/// Consensus configuration.
pub open spec fn consensus_config_spec(o: Seq<(String, Json)>, p: Seq<Seq<char>>) -> Result<
    ConsensusConfig,
    ErrV,
> {
    match get_bool_spec(o, p, "new_catchain_ids"@) {
        Err(e) => Err(e),
        Ok(new_catchain_ids) => match get_num_spec(o, p, "round_candidates"@) {
            Err(e) => Err(e),
            Ok(round_candidates) => match get_num_spec(o, p, "next_candidate_delay_ms"@) {
                Err(e) => Err(e),
                Ok(next_candidate_delay_ms) => match get_num_spec(o, p, "consensus_timeout_ms"@) {
                    Err(e) => Err(e),
                    Ok(consensus_timeout_ms) => match get_num_spec(o, p, "fast_attempts"@) {
                        Err(e) => Err(e),
                        Ok(fast_attempts) => match get_num_spec(o, p, "attempt_duration"@) {
                            Err(e) => Err(e),
                            Ok(attempt_duration) => match get_num_spec(o, p, "catchain_max_deps"@) {
                                Err(e) => Err(e),
                                Ok(catchain_max_deps) => match get_num_spec(
                                    o,
                                    p,
                                    "max_block_bytes"@,
                                ) {
                                    Err(e) => Err(e),
                                    Ok(max_block_bytes) => match get_num_spec(
                                        o,
                                        p,
                                        "max_collated_bytes"@,
                                    ) {
                                        Err(e) => Err(e),
                                        Ok(max_collated_bytes) => Ok(
                                            ConsensusConfig {
                                                new_catchain_ids,
                                                round_candidates: round_candidates as u32,
                                                next_candidate_delay_ms: next_candidate_delay_ms
                                                    as u32,
                                                consensus_timeout_ms: consensus_timeout_ms as u32,
                                                fast_attempts: fast_attempts as u32,
                                                attempt_duration: attempt_duration as u32,
                                                catchain_max_deps: catchain_max_deps as u32,
                                                max_block_bytes: max_block_bytes as u32,
                                                max_collated_bytes: max_collated_bytes as u32,
                                            },
                                        ),
                                    },
                                },
                            },
                        },
                    },
                },
            },
        },
    }
}

/// Parses the consensus configuration.
pub fn parse_consensus_config(p29: &PathMap) -> (r: Result<ConsensusConfig, ParseError>)
    ensures
        res_v(r) == consensus_config_spec(p29.entries(), p29.pathv()),
{
    Ok(
        ConsensusConfig {
            new_catchain_ids: p29.get_bool("new_catchain_ids")?,
            round_candidates: #[verifier::truncate] (p29.get_num("round_candidates")? as u32),
            next_candidate_delay_ms: #[verifier::truncate] (p29.get_num("next_candidate_delay_ms")?
                as u32),
            consensus_timeout_ms: #[verifier::truncate] (p29.get_num("consensus_timeout_ms")?
                as u32),
            fast_attempts: #[verifier::truncate] (p29.get_num("fast_attempts")? as u32),
            attempt_duration: #[verifier::truncate] (p29.get_num("attempt_duration")? as u32),
            catchain_max_deps: #[verifier::truncate] (p29.get_num("catchain_max_deps")? as u32),
            max_block_bytes: #[verifier::truncate] (p29.get_num("max_block_bytes")? as u32),
            max_collated_bytes: #[verifier::truncate] (p29.get_num("max_collated_bytes")? as u32),
        },
    )
}

/// Delection parameters.
pub open spec fn delector_params_spec(o: Seq<(String, Json)>, p: Seq<Seq<char>>) -> Result<
    DelectorParamsV,
    ErrV,
> {
    match get_num_spec(o, p, "delections_step"@) {
        Err(e) => Err(e),
        Ok(delections_step) => match get_uint256_spec(o, p, "validator_init_code_hash"@) {
            Err(e) => Err(e),
            Ok(validator_init_code_hash) => match get_uint256_spec(o, p, "staker_init_code_hash"@) {
                Err(e) => Err(e),
                Ok(staker_init_code_hash) => Ok(
                    DelectorParamsV {
                        delections_step: delections_step as u32,
                        validator_init_code_hash,
                        staker_init_code_hash,
                    },
                ),
            },
        },
    }
}

/// Parses the delection parameters.
pub fn parse_delector_params(p30: &PathMap) -> (r: Result<DelectorParams, ParseError>)
    ensures
        match r {
            Ok(d) => delector_params_spec(p30.entries(), p30.pathv()) == Ok::<_, ErrV>(d@),
            Err(e) => delector_params_spec(p30.entries(), p30.pathv()) == Err::<
                DelectorParamsV,
                _,
            >(e@),
        },
{
    Ok(
        DelectorParams {
            delections_step: #[verifier::truncate] (p30.get_num("delections_step")? as u32),
            validator_init_code_hash: p30.get_uint256("validator_init_code_hash")?,
            staker_init_code_hash: p30.get_uint256("staker_init_code_hash")?,
        },
    )
}

/// Messaging fault-tolerance parameters.
pub open spec fn smft_params_spec(o: Seq<(String, Json)>, p: Seq<Seq<char>>) -> Result<
    SmftParams,
    ErrV,
> {
    match get_num_spec(o, p, "min_forwarding_neighbours_count"@) {
        Err(e) => Err(e),
        Ok(v0) => match get_num_spec(o, p, "max_forwarding_neighbours_count"@) {
            Err(e) => Err(e),
            Ok(v1) => match get_num_spec(o, p, "min_far_neighbours_count"@) {
                Err(e) => Err(e),
                Ok(v2) => match get_num_spec(o, p, "max_far_neighbours_count"@) {
                    Err(e) => Err(e),
                    Ok(v3) => match get_num_spec(o, p, "min_block_sync_period_ms"@) {
                        Err(e) => Err(e),
                        Ok(v4) => match get_num_spec(o, p, "max_block_sync_period_ms"@) {
                            Err(e) => Err(e),
                            Ok(v5) => match get_num_spec(o, p, "min_far_neighbours_sync_period_ms"@) {
                                Err(e) => Err(e),
                                Ok(v6) => match get_num_spec(
                                    o,
                                    p,
                                    "max_far_neighbours_sync_period_ms"@,
                                ) {
                                    Err(e) => Err(e),
                                    Ok(v7) => match get_num_spec(
                                        o,
                                        p,
                                        "far_neighbours_resync_period_ms"@,
                                    ) {
                                        Err(e) => Err(e),
                                        Ok(v8) => match get_num_spec(
                                            o,
                                            p,
                                            "block_sync_lifetime_period_ms"@,
                                        ) {
                                            Err(e) => Err(e),
                                            Ok(v9) => match get_num_spec(
                                                o,
                                                p,
                                                "block_lifetime_period_ms"@,
                                            ) {
                                                Err(e) => Err(e),
                                                Ok(v10) => smft_params_spec_rest(o, p, v0, v1, v2, v3, v4, v5, v6, v7, v8, v9, v10),
                                            },
                                        },
                                    },
                                },
                            },
                        },
                    },
                },
            },
        },
    }
}

/// The tail of the fault-tolerance parameter decoding, split for length.
pub open spec fn smft_params_spec_rest(
    o: Seq<(String, Json)>,
    p: Seq<Seq<char>>,
    v0: i64,
    v1: i64,
    v2: i64,
    v3: i64,
    v4: i64,
    v5: i64,
    v6: i64,
    v7: i64,
    v8: i64,
    v9: i64,
    v10: i64,
) -> Result<SmftParams, ErrV> {
    match get_num_spec(o, p, "verification_obligation_cutoff_numerator"@) {
        Err(e) => Err(e),
        Ok(v11) => match get_num_spec(o, p, "verification_obligation_cutoff_denominator"@) {
            Err(e) => Err(e),
            Ok(v12) => match get_num_spec(o, p, "delivery_cutoff_numerator"@) {
                Err(e) => Err(e),
                Ok(v13) => match get_num_spec(o, p, "delivery_cutoff_denominator"@) {
                    Err(e) => Err(e),
                    Ok(v14) => match get_num_spec(o, p, "manual_candidate_loading_delay_ms"@) {
                        Err(e) => Err(e),
                        Ok(v15) => match get_num_spec(o, p, "mc_allowed_force_delivery_delay_ms"@) {
                            Err(e) => Err(e),
                            Ok(v16) => match get_num_spec(
                                o,
                                p,
                                "mc_force_delivery_duplication_factor_numerator"@,
                            ) {
                                Err(e) => Err(e),
                                Ok(v17) => match get_num_spec(
                                    o,
                                    p,
                                    "mc_force_delivery_duplication_factor_denominator"@,
                                ) {
                                    Err(e) => Err(e),
                                    Ok(v18) => match get_num_spec(
                                        o,
                                        p,
                                        "mc_max_delivery_waiting_timeout_ms"@,
                                    ) {
                                        Err(e) => Err(e),
                                        Ok(v19) => match get_bool_spec(
                                            o,
                                            p,
                                            "use_debug_bls_keys"@,
                                        ) {
                                            Err(e) => Err(e),
                                            Ok(use_debug_bls_keys) => Ok(
                                                SmftParams {
                                                    min_forwarding_neighbours_count: v0 as u32,
                                                    max_forwarding_neighbours_count: v1 as u32,
                                                    min_far_neighbours_count: v2 as u32,
                                                    max_far_neighbours_count: v3 as u32,
                                                    min_block_sync_period_ms: v4 as u32,
                                                    max_block_sync_period_ms: v5 as u32,
                                                    min_far_neighbours_sync_period_ms: v6 as u32,
                                                    max_far_neighbours_sync_period_ms: v7 as u32,
                                                    far_neighbours_resync_period_ms: v8 as u32,
                                                    block_sync_lifetime_period_ms: v9 as u32,
                                                    block_lifetime_period_ms: v10 as u32,
                                                    verification_obligation_cutoff_numerator: v11
                                                        as u32,
                                                    verification_obligation_cutoff_denominator: v12
                                                        as u32,
                                                    delivery_cutoff_numerator: v13 as u32,
                                                    delivery_cutoff_denominator: v14 as u32,
                                                    manual_candidate_loading_delay_ms: v15 as u32,
                                                    mc_allowed_force_delivery_delay_ms: v16 as u32,
                                                    mc_force_delivery_duplication_factor_numerator:
                                                        v17 as u32,
                                                    mc_force_delivery_duplication_factor_denominator:
                                                        v18 as u32,
                                                    mc_max_delivery_waiting_timeout_ms: v19 as u32,
                                                    use_debug_bls_keys,
                                                },
                                            ),
                                        },
                                    },
                                },
                            },
                        },
                    },
                },
            },
        },
    }
}

/// Parses the messaging fault-tolerance parameters.
pub fn parse_smft_params(p62: &PathMap) -> (r: Result<SmftParams, ParseError>)
    ensures
        res_v(r) == smft_params_spec(p62.entries(), p62.pathv()),
{
    let v0 = p62.get_num("min_forwarding_neighbours_count")?;
    let v1 = p62.get_num("max_forwarding_neighbours_count")?;
    let v2 = p62.get_num("min_far_neighbours_count")?;
    let v3 = p62.get_num("max_far_neighbours_count")?;
    let v4 = p62.get_num("min_block_sync_period_ms")?;
    let v5 = p62.get_num("max_block_sync_period_ms")?;
    let v6 = p62.get_num("min_far_neighbours_sync_period_ms")?;
    let v7 = p62.get_num("max_far_neighbours_sync_period_ms")?;
    let v8 = p62.get_num("far_neighbours_resync_period_ms")?;
    let v9 = p62.get_num("block_sync_lifetime_period_ms")?;
    let v10 = p62.get_num("block_lifetime_period_ms")?;
    let v11 = p62.get_num("verification_obligation_cutoff_numerator")?;
    let v12 = p62.get_num("verification_obligation_cutoff_denominator")?;
    let v13 = p62.get_num("delivery_cutoff_numerator")?;
    let v14 = p62.get_num("delivery_cutoff_denominator")?;
    let v15 = p62.get_num("manual_candidate_loading_delay_ms")?;
    let v16 = p62.get_num("mc_allowed_force_delivery_delay_ms")?;
    let v17 = p62.get_num("mc_force_delivery_duplication_factor_numerator")?;
    let v18 = p62.get_num("mc_force_delivery_duplication_factor_denominator")?;
    let v19 = p62.get_num("mc_max_delivery_waiting_timeout_ms")?;
    let use_debug_bls_keys = p62.get_bool("use_debug_bls_keys")?;
    Ok(
        SmftParams {
            min_forwarding_neighbours_count: #[verifier::truncate] (v0 as u32),
            max_forwarding_neighbours_count: #[verifier::truncate] (v1 as u32),
            min_far_neighbours_count: #[verifier::truncate] (v2 as u32),
            max_far_neighbours_count: #[verifier::truncate] (v3 as u32),
            min_block_sync_period_ms: #[verifier::truncate] (v4 as u32),
            max_block_sync_period_ms: #[verifier::truncate] (v5 as u32),
            min_far_neighbours_sync_period_ms: #[verifier::truncate] (v6 as u32),
            max_far_neighbours_sync_period_ms: #[verifier::truncate] (v7 as u32),
            far_neighbours_resync_period_ms: #[verifier::truncate] (v8 as u32),
            block_sync_lifetime_period_ms: #[verifier::truncate] (v9 as u32),
            block_lifetime_period_ms: #[verifier::truncate] (v10 as u32),
            verification_obligation_cutoff_numerator: #[verifier::truncate] (v11 as u32),
            verification_obligation_cutoff_denominator: #[verifier::truncate] (v12 as u32),
            delivery_cutoff_numerator: #[verifier::truncate] (v13 as u32),
            delivery_cutoff_denominator: #[verifier::truncate] (v14 as u32),
            manual_candidate_loading_delay_ms: #[verifier::truncate] (v15 as u32),
            mc_allowed_force_delivery_delay_ms: #[verifier::truncate] (v16 as u32),
            mc_force_delivery_duplication_factor_numerator: #[verifier::truncate] (v17 as u32),
            mc_force_delivery_duplication_factor_denominator: #[verifier::truncate] (v18 as u32),
            mc_max_delivery_waiting_timeout_ms: #[verifier::truncate] (v19 as u32),
            use_debug_bls_keys,
        },
    )
}

/// Slashing configuration read best-effort: every absent or unreadable
/// sub-field keeps its zero default.
pub open spec fn slashing_config_spec(o: Seq<(String, Json)>, p: Seq<Seq<char>>) -> SlashingConfig {
    SlashingConfig {
        slashing_period_mc_blocks_count: num_or_u32(o, p, "slashing_period_mc_blocks_count"@, 0),
        resend_mc_blocks_count: num_or_u32(o, p, "resend_mc_blocks_count"@, 0),
        min_samples_count: num_or_u32(o, p, "min_samples_count"@, 0),
        collations_score_weight: num_or_u32(o, p, "collations_score_weight"@, 0),
        signing_score_weight: num_or_u32(o, p, "signing_score_weight"@, 0),
        min_slashing_protection_score: num_or_u32(o, p, "min_slashing_protection_score"@, 0),
        z_param_numerator: num_or_u32(o, p, "z_param_numerator"@, 0),
        z_param_denominator: num_or_u32(o, p, "z_param_denominator"@, 0),
    }
}

/// Populates the slashing configuration best-effort from its object.
pub fn parse_slashing_config(p40: &PathMap) -> (r: SlashingConfig)
    ensures
        r == slashing_config_spec(p40.entries(), p40.pathv()),
{
    let mut cfg = SlashingConfig {
        slashing_period_mc_blocks_count: 0,
        resend_mc_blocks_count: 0,
        min_samples_count: 0,
        collations_score_weight: 0,
        signing_score_weight: 0,
        min_slashing_protection_score: 0,
        z_param_numerator: 0,
        z_param_denominator: 0,
    };
    proof {
        assert(cfg == slashing_config_zero());
    }
    p40.get_u32("slashing_period_mc_blocks_count", &mut cfg.slashing_period_mc_blocks_count);
    p40.get_u32("resend_mc_blocks_count", &mut cfg.resend_mc_blocks_count);
    p40.get_u32("min_samples_count", &mut cfg.min_samples_count);
    p40.get_u32("collations_score_weight", &mut cfg.collations_score_weight);
    p40.get_u32("signing_score_weight", &mut cfg.signing_score_weight);
    p40.get_u32("min_slashing_protection_score", &mut cfg.min_slashing_protection_score);
    p40.get_u32("z_param_numerator", &mut cfg.z_param_numerator);
    p40.get_u32("z_param_denominator", &mut cfg.z_param_denominator);
    cfg
}

/// Fast-finality configuration read best-effort: every absent or unreadable
/// sub-field keeps its zero default.
pub open spec fn fast_finality_spec(o: Seq<(String, Json)>, p: Seq<Seq<char>>) -> FastFinalityConfig {
    FastFinalityConfig {
        split_merge_interval: num_or_u32(o, p, "split_merge_interval"@, 0),
        collator_range_len: num_or_u32(o, p, "collator_range_len"@, 0),
        lost_collator_timeout: num_or_u32(o, p, "lost_collator_timeout"@, 0),
        mempool_validators_count: num_or_u32(o, p, "mempool_validators_count"@, 0),
        mempool_rotated_count: num_or_u32(o, p, "mempool_rotated_count"@, 0),
        unreliability_fine: num_or_u16(o, p, "unreliability_fine"@, 0),
        unreliability_weak_fading: num_or_u16(o, p, "unreliability_weak_fading"@, 0),
        unreliability_strong_fading: num_or_u16(o, p, "unreliability_strong_fading"@, 0),
        unreliability_max: num_or_u16(o, p, "unreliability_max"@, 0),
        unreliability_weight: num_or_u16(o, p, "unreliability_weight"@, 0),
        familiarity_collator_fine: num_or_u16(o, p, "familiarity_collator_fine"@, 0),
        familiarity_msgpool_fine: num_or_u16(o, p, "familiarity_msgpool_fine"@, 0),
        familiarity_fading: num_or_u16(o, p, "familiarity_fading"@, 0),
        familiarity_max: num_or_u16(o, p, "familiarity_max"@, 0),
        familiarity_weight: num_or_u16(o, p, "familiarity_weight"@, 0),
        busyness_collator_fine: num_or_u16(o, p, "busyness_collator_fine"@, 0),
        busyness_msgpool_fine: num_or_u16(o, p, "busyness_msgpool_fine"@, 0),
        busyness_weight: num_or_u16(o, p, "busyness_weight"@, 0),
        candidates_percentile: num_or_u8(o, p, "candidates_percentile"@, 0),
    }
}

/// Populates the fast-finality configuration best-effort from its object.
pub fn parse_fast_finality_config(p61: &PathMap) -> (r: FastFinalityConfig)
    ensures
        r == fast_finality_spec(p61.entries(), p61.pathv()),
{
    let mut cfg = FastFinalityConfig {
        split_merge_interval: 0,
        collator_range_len: 0,
        lost_collator_timeout: 0,
        mempool_validators_count: 0,
        mempool_rotated_count: 0,
        unreliability_fine: 0,
        unreliability_weak_fading: 0,
        unreliability_strong_fading: 0,
        unreliability_max: 0,
        unreliability_weight: 0,
        familiarity_collator_fine: 0,
        familiarity_msgpool_fine: 0,
        familiarity_fading: 0,
        familiarity_max: 0,
        familiarity_weight: 0,
        busyness_collator_fine: 0,
        busyness_msgpool_fine: 0,
        busyness_weight: 0,
        candidates_percentile: 0,
    };
    proof {
        assert(cfg == fast_finality_zero());
    }
    p61.get_u32("split_merge_interval", &mut cfg.split_merge_interval);
    p61.get_u32("collator_range_len", &mut cfg.collator_range_len);
    p61.get_u32("lost_collator_timeout", &mut cfg.lost_collator_timeout);
    p61.get_u32("mempool_validators_count", &mut cfg.mempool_validators_count);
    p61.get_u32("mempool_rotated_count", &mut cfg.mempool_rotated_count);
    p61.get_u16("unreliability_fine", &mut cfg.unreliability_fine);
    p61.get_u16("unreliability_weak_fading", &mut cfg.unreliability_weak_fading);
    p61.get_u16("unreliability_strong_fading", &mut cfg.unreliability_strong_fading);
    p61.get_u16("unreliability_max", &mut cfg.unreliability_max);
    p61.get_u16("unreliability_weight", &mut cfg.unreliability_weight);
    p61.get_u16("familiarity_collator_fine", &mut cfg.familiarity_collator_fine);
    p61.get_u16("familiarity_msgpool_fine", &mut cfg.familiarity_msgpool_fine);
    p61.get_u16("familiarity_fading", &mut cfg.familiarity_fading);
    p61.get_u16("familiarity_max", &mut cfg.familiarity_max);
    p61.get_u16("familiarity_weight", &mut cfg.familiarity_weight);
    p61.get_u16("busyness_collator_fine", &mut cfg.busyness_collator_fine);
    p61.get_u16("busyness_msgpool_fine", &mut cfg.busyness_msgpool_fine);
    p61.get_u16("busyness_weight", &mut cfg.busyness_weight);
    p61.get_u8("candidates_percentile", &mut cfg.candidates_percentile);
    cfg
}

} // verus!
