use vstd::prelude::*;
use crate::codec::Hash256;

verus! {

/// The version and capability flags of the global software release.
#[derive(Clone, Copy, Debug, PartialEq, Eq, Structural)]
pub struct GlobalVersion {
    pub version: u32,
    pub capabilities: u64,
}

/// Voting rules for one class of configuration proposals.
#[derive(Clone, Copy, Debug, PartialEq, Eq, Structural)]
pub struct ConfigProposalSetup {
    pub min_tot_rounds: u8,
    pub max_tot_rounds: u8,
    pub min_wins: u8,
    pub max_losses: u8,
    pub min_store_sec: u32,
    pub max_store_sec: u32,
    pub bit_price: u32,
    pub cell_price: u32,
}

impl ConfigProposalSetup {
    /// The rounds and storage windows must be ordered sensibly.
    pub open spec fn consistent(&self) -> bool {
        self.min_tot_rounds <= self.max_tot_rounds && self.min_store_sec <= self.max_store_sec
    }
}

/// The address-format family of a workchain.
#[derive(Clone, Copy, Debug, PartialEq, Eq, Structural)]
pub enum WorkchainFormat {
    Basic { vm_version: i32, vm_mode: u64 },
    Extended { min_addr_len: u16, max_addr_len: u16, addr_len_step: u16, workchain_type_id: u32 },
}

/// The deepest split a workchain may be configured with.
pub const MAX_SPLIT_DEPTH: u8 = 60;

/// Shortest address an extended workchain format may allow.
pub const MIN_ADDR_LEN_BOUND: u16 = 64;

/// Longest address an extended workchain format may allow.
pub const MAX_ADDR_LEN_BOUND: u16 = 1023;

/// A workchain description.
#[derive(Clone, Debug)]
pub struct WorkchainDescr {
    pub enabled_since: u32,
    pub min_split: u8,
    pub max_split: u8,
    pub flags: u16,
    pub active: bool,
    pub accept_msgs: bool,
    pub zerostate_root_hash: Hash256,
    pub zerostate_file_hash: Hash256,
    pub version: u32,
    pub format: WorkchainFormat,
}

/// The mathematical content of a workchain description.
pub ghost struct WorkchainDescrV {
    pub enabled_since: u32,
    pub min_split: u8,
    pub max_split: u8,
    pub flags: u16,
    pub active: bool,
    pub accept_msgs: bool,
    pub zerostate_root_hash: Seq<u8>,
    pub zerostate_file_hash: Seq<u8>,
    pub version: u32,
    pub format: WorkchainFormat,
}

impl View for WorkchainDescr {
    type V = WorkchainDescrV;

    open spec fn view(&self) -> WorkchainDescrV {
        WorkchainDescrV {
            enabled_since: self.enabled_since,
            min_split: self.min_split,
            max_split: self.max_split,
            flags: self.flags,
            active: self.active,
            accept_msgs: self.accept_msgs,
            zerostate_root_hash: self.zerostate_root_hash@,
            zerostate_file_hash: self.zerostate_file_hash@,
            version: self.version,
            format: self.format,
        }
    }
}

/// Block-creation fees for the two chain families.
#[derive(Clone, Copy, Debug, PartialEq, Eq, Structural)]
pub struct BlockCreateFees {
    pub masterchain_block_fee: u128,
    pub basechain_block_fee: u128,
}

/// The validator election timetable.
#[derive(Clone, Copy, Debug, PartialEq, Eq, Structural)]
pub struct ElectionParams {
    pub validators_elected_for: u32,
    pub elections_start_before: u32,
    pub elections_end_before: u32,
    pub stake_held_for: u32,
}

/// Bounds on the number of validators.
#[derive(Clone, Copy, Debug, PartialEq, Eq, Structural)]
pub struct ValidatorCountParams {
    pub min_validators: u16,
    pub max_validators: u16,
    pub max_main_validators: u16,
}

/// Bounds on validator stakes.
#[derive(Clone, Copy, Debug, PartialEq, Eq, Structural)]
pub struct StakeParams {
    pub min_stake: u128,
    pub max_stake: u128,
    pub min_total_stake: u128,
    pub max_stake_factor: u32,
}

/// One entry of the storage price schedule.
#[derive(Clone, Copy, Debug, PartialEq, Eq, Structural)]
pub struct StoragePrices {
    pub utime_since: u32,
    pub bit_price_ps: u64,
    pub cell_price_ps: u64,
    pub mc_bit_price_ps: u64,
    pub mc_cell_price_ps: u64,
}

/// Gas pricing and limits.
#[derive(Clone, Copy, Debug, PartialEq, Eq, Structural)]
pub struct GasLimitsPrices {
    pub gas_price: u64,
    pub gas_limit: u64,
    pub special_gas_limit: u64,
    pub gas_credit: u64,
    pub block_gas_limit: u64,
    pub freeze_due_limit: u64,
    pub delete_due_limit: u64,
    pub flat_gas_limit: u64,
    pub flat_gas_price: u64,
    pub max_gas_threshold: u64,
}

/// One block-limit triple: an underload mark, a soft limit and a hard one.
#[derive(Clone, Copy, Debug, PartialEq, Eq, Structural)]
pub struct ParamLimits {
    pub underload: u32,
    pub soft_limit: u32,
    pub hard_limit: u32,
}

impl ParamLimits {
    /// The marks must not decrease.
    pub open spec fn consistent(&self) -> bool {
        self.underload <= self.soft_limit && self.soft_limit <= self.hard_limit
    }
}

/// Per-block limits for bytes, gas and logical-time delta.
#[derive(Clone, Copy, Debug, PartialEq, Eq, Structural)]
pub struct BlockLimits {
    pub bytes: ParamLimits,
    pub gas: ParamLimits,
    pub lt_delta: ParamLimits,
}

/// Message forwarding prices.
#[derive(Clone, Copy, Debug, PartialEq, Eq, Structural)]
pub struct MsgForwardPrices {
    pub lump_price: u64,
    pub bit_price: u64,
    pub cell_price: u64,
    pub ihr_price_factor: u32,
    pub first_frac: u16,
    pub next_frac: u16,
}

/// Catchain session configuration.
#[derive(Clone, Copy, Debug, PartialEq, Eq, Structural)]
pub struct CatchainConfig {
    pub shuffle_mc_validators: bool,
    pub isolate_mc_validators: bool,
    pub mc_catchain_lifetime: u32,
    pub shard_catchain_lifetime: u32,
    pub shard_validators_lifetime: u32,
    pub shard_validators_num: u32,
}

/// Consensus protocol configuration.
#[derive(Clone, Copy, Debug, PartialEq, Eq, Structural)]
pub struct ConsensusConfig {
    pub new_catchain_ids: bool,
    pub round_candidates: u32,
    pub next_candidate_delay_ms: u32,
    pub consensus_timeout_ms: u32,
    pub fast_attempts: u32,
    pub attempt_duration: u32,
    pub catchain_max_deps: u32,
    pub max_block_bytes: u32,
    pub max_collated_bytes: u32,
}

/// Delection (validator rotation) parameters.
#[derive(Clone, Debug)]
pub struct DelectorParams {
    pub delections_step: u32,
    pub validator_init_code_hash: Hash256,
    pub staker_init_code_hash: Hash256,
}

/// The mathematical content of the delection parameters.
pub ghost struct DelectorParamsV {
    pub delections_step: u32,
    pub validator_init_code_hash: Seq<u8>,
    pub staker_init_code_hash: Seq<u8>,
}

impl View for DelectorParams {
    type V = DelectorParamsV;

    open spec fn view(&self) -> DelectorParamsV {
        DelectorParamsV {
            delections_step: self.delections_step,
            validator_init_code_hash: self.validator_init_code_hash@,
            staker_init_code_hash: self.staker_init_code_hash@,
        }
    }
}

/// Slashing configuration; absent sub-fields keep these zero defaults.
#[derive(Clone, Copy, Debug, PartialEq, Eq, Structural)]
pub struct SlashingConfig {
    pub slashing_period_mc_blocks_count: u32,
    pub resend_mc_blocks_count: u32,
    pub min_samples_count: u32,
    pub collations_score_weight: u32,
    pub signing_score_weight: u32,
    pub min_slashing_protection_score: u32,
    pub z_param_numerator: u32,
    pub z_param_denominator: u32,
}

/// The all-zero slashing configuration.
pub open spec fn slashing_config_zero() -> SlashingConfig {
    SlashingConfig {
        slashing_period_mc_blocks_count: 0,
        resend_mc_blocks_count: 0,
        min_samples_count: 0,
        collations_score_weight: 0,
        signing_score_weight: 0,
        min_slashing_protection_score: 0,
        z_param_numerator: 0,
        z_param_denominator: 0,
    }
}

/// Fast-finality configuration; absent sub-fields keep these zero defaults.
#[derive(Clone, Copy, Debug, PartialEq, Eq, Structural)]
pub struct FastFinalityConfig {
    pub split_merge_interval: u32,
    pub collator_range_len: u32,
    pub lost_collator_timeout: u32,
    pub mempool_validators_count: u32,
    pub mempool_rotated_count: u32,
    pub unreliability_fine: u16,
    pub unreliability_weak_fading: u16,
    pub unreliability_strong_fading: u16,
    pub unreliability_max: u16,
    pub unreliability_weight: u16,
    pub familiarity_collator_fine: u16,
    pub familiarity_msgpool_fine: u16,
    pub familiarity_fading: u16,
    pub familiarity_max: u16,
    pub familiarity_weight: u16,
    pub busyness_collator_fine: u16,
    pub busyness_msgpool_fine: u16,
    pub busyness_weight: u16,
    pub candidates_percentile: u8,
}

/// The all-zero fast-finality configuration.
pub open spec fn fast_finality_zero() -> FastFinalityConfig {
    FastFinalityConfig {
        split_merge_interval: 0,
        collator_range_len: 0,
        lost_collator_timeout: 0,
        mempool_validators_count: 0,
        mempool_rotated_count: 0,
        unreliability_fine: 0,
        unreliability_weak_fading: 0,
        unreliability_strong_fading: 0,
        unreliability_max: 0,
        unreliability_weight: 0,
        familiarity_collator_fine: 0,
        familiarity_msgpool_fine: 0,
        familiarity_fading: 0,
        familiarity_max: 0,
        familiarity_weight: 0,
        busyness_collator_fine: 0,
        busyness_msgpool_fine: 0,
        busyness_weight: 0,
        candidates_percentile: 0,
    }
}

/// Messaging fault-tolerance parameters.
#[derive(Clone, Copy, Debug, PartialEq, Eq, Structural)]
pub struct SmftParams {
    pub min_forwarding_neighbours_count: u32,
    pub max_forwarding_neighbours_count: u32,
    pub min_far_neighbours_count: u32,
    pub max_far_neighbours_count: u32,
    pub min_block_sync_period_ms: u32,
    pub max_block_sync_period_ms: u32,
    pub min_far_neighbours_sync_period_ms: u32,
    pub max_far_neighbours_sync_period_ms: u32,
    pub far_neighbours_resync_period_ms: u32,
    pub block_sync_lifetime_period_ms: u32,
    pub block_lifetime_period_ms: u32,
    pub verification_obligation_cutoff_numerator: u32,
    pub verification_obligation_cutoff_denominator: u32,
    pub delivery_cutoff_numerator: u32,
    pub delivery_cutoff_denominator: u32,
    pub manual_candidate_loading_delay_ms: u32,
    pub mc_allowed_force_delivery_delay_ms: u32,
    pub mc_force_delivery_duplication_factor_numerator: u32,
    pub mc_force_delivery_duplication_factor_denominator: u32,
    pub mc_max_delivery_waiting_timeout_ms: u32,
    pub use_debug_bls_keys: bool,
}

/// A chain partition identifier: a workchain and a tagged shard prefix.
#[derive(Clone, Copy, Debug, PartialEq, Eq, Structural)]
pub struct ShardIdent {
    pub workchain_id: i32,
    pub shard_prefix_tagged: u64,
}

/// The masterchain's workchain identifier.
pub const MASTERCHAIN_ID: i32 = -1;

/// The tagged prefix of an unsplit (full) shard.
pub const SHARD_FULL: u64 = 0x8000_0000_0000_0000;

impl ShardIdent {
    /// A tagged prefix is valid when it is nonzero: its lowest set bit is
    /// the tag that marks where the prefix ends.
    pub open spec fn prefix_valid(prefix: u64) -> bool {
        prefix != 0
    }

    /// The masterchain's identifier.
    pub fn masterchain() -> (r: ShardIdent)
        ensures
            r == (ShardIdent { workchain_id: MASTERCHAIN_ID, shard_prefix_tagged: SHARD_FULL }),
    {
        ShardIdent { workchain_id: MASTERCHAIN_ID, shard_prefix_tagged: SHARD_FULL }
    }

    /// Builds an identifier from a workchain and a tagged prefix, rejecting
    /// an invalid prefix.
    pub fn with_tagged_prefix(workchain_id: i32, prefix: u64) -> (r: Option<ShardIdent>)
        ensures
            r == (if ShardIdent::prefix_valid(prefix) {
                Some(ShardIdent { workchain_id, shard_prefix_tagged: prefix })
            } else {
                None::<ShardIdent>
            }),
    {
        if prefix != 0 {
            Some(ShardIdent { workchain_id, shard_prefix_tagged: prefix })
        } else {
            None
        }
    }
}

/// A full block identifier: shard, sequence number and the two hashes.
#[derive(Clone, Debug)]
pub struct BlockIdExt {
    pub shard: ShardIdent,
    pub seq_no: u32,
    pub root_hash: Hash256,
    pub file_hash: Hash256,
}

/// The mathematical content of a block identifier.
pub ghost struct BlockIdExtV {
    pub shard: ShardIdent,
    pub seq_no: u32,
    pub root_hash: Seq<u8>,
    pub file_hash: Seq<u8>,
}

impl View for BlockIdExt {
    type V = BlockIdExtV;

    open spec fn view(&self) -> BlockIdExtV {
        BlockIdExtV {
            shard: self.shard,
            seq_no: self.seq_no,
            root_hash: self.root_hash@,
            file_hash: self.file_hash@,
        }
    }
}

/// Configuration of one connected network in the mesh.
#[derive(Clone, Debug)]
pub struct ConnectedNwConfig {
    pub zerostate: BlockIdExt,
    pub is_active: bool,
    pub currency_id: u32,
    pub init_block: BlockIdExt,
    pub emergency_guard_addr: Hash256,
    pub pull_addr: Hash256,
    pub minter_addr: Hash256,
    pub hardforks: Vec<BlockIdExt>,
}

/// The mathematical content of a connected-network configuration.
pub ghost struct ConnectedNwConfigV {
    pub zerostate: BlockIdExtV,
    pub is_active: bool,
    pub currency_id: u32,
    pub init_block: BlockIdExtV,
    pub emergency_guard_addr: Seq<u8>,
    pub pull_addr: Seq<u8>,
    pub minter_addr: Seq<u8>,
    pub hardforks: Seq<BlockIdExtV>,
}

impl View for ConnectedNwConfig {
    type V = ConnectedNwConfigV;

    open spec fn view(&self) -> ConnectedNwConfigV {
        ConnectedNwConfigV {
            zerostate: self.zerostate@,
            is_active: self.is_active,
            currency_id: self.currency_id,
            init_block: self.init_block@,
            emergency_guard_addr: self.emergency_guard_addr@,
            pull_addr: self.pull_addr@,
            minter_addr: self.minter_addr@,
            hardforks: self.hardforks@.map_values(|b: BlockIdExt| b@),
        }
    }
}

/// Length in bytes of an ordinary validator public key.
pub const PUBKEY_LEN: usize = 32;

/// Length in bytes of an alternate-scheme (BLS) validator public key.
pub const BLS_PUBKEY_LEN: usize = 96;

/// One validator: its key, weight and optional addressing data.
#[derive(Clone, Debug)]
pub struct ValidatorDescr {
    pub public_key: Vec<u8>,
    pub weight: u64,
    pub adnl_addr: Option<Hash256>,
    pub bls_public_key: Option<Vec<u8>>,
}

/// The mathematical content of a validator description.
pub ghost struct ValidatorDescrV {
    pub public_key: Seq<u8>,
    pub weight: u64,
    pub adnl_addr: Option<Seq<u8>>,
    pub bls_public_key: Option<Seq<u8>>,
}

impl View for ValidatorDescr {
    type V = ValidatorDescrV;

    open spec fn view(&self) -> ValidatorDescrV {
        ValidatorDescrV {
            public_key: self.public_key@,
            weight: self.weight,
            adnl_addr: match self.adnl_addr {
                Some(a) => Some(a@),
                None => None,
            },
            bls_public_key: match self.bls_public_key {
                Some(b) => Some(b@),
                None => None,
            },
        }
    }
}

/// An ordered validator set with its validity window; the order of the
/// list is significant and is preserved from the input.
#[derive(Clone, Debug)]
pub struct ValidatorSet {
    pub utime_since: u32,
    pub utime_until: u32,
    pub main: u16,
    pub list: Vec<ValidatorDescr>,
}

/// The mathematical content of a validator set.
pub ghost struct ValidatorSetV {
    pub utime_since: u32,
    pub utime_until: u32,
    pub main: u16,
    pub list: Seq<ValidatorDescrV>,
}

impl View for ValidatorSet {
    type V = ValidatorSetV;

    open spec fn view(&self) -> ValidatorSetV {
        ValidatorSetV {
            utime_since: self.utime_since,
            utime_until: self.utime_until,
            main: self.main,
            list: self.list@.map_values(|d: ValidatorDescr| d@),
        }
    }
}

impl ValidatorSetV {
    /// A validator set must not be empty, and its count of main validators
    /// must name at least one and at most all of its members.
    pub open spec fn consistent(&self) -> bool {
        self.list.len() > 0 && 1 <= self.main <= self.list.len()
    }
}

/// A temporary validator key awaiting rotation.
#[derive(Clone, Debug)]
pub struct ValidatorTempKey {
    pub adnl_addr: Hash256,
    pub temp_public_key: Vec<u8>,
    pub seqno: u32,
    pub valid_until: u32,
}

/// The mathematical content of a temporary key.
pub ghost struct ValidatorTempKeyV {
    pub adnl_addr: Seq<u8>,
    pub temp_public_key: Seq<u8>,
    pub seqno: u32,
    pub valid_until: u32,
}

impl View for ValidatorTempKey {
    type V = ValidatorTempKeyV;

    open spec fn view(&self) -> ValidatorTempKeyV {
        ValidatorTempKeyV {
            adnl_addr: self.adnl_addr@,
            temp_public_key: self.temp_public_key@,
            seqno: self.seqno,
            valid_until: self.valid_until,
        }
    }
}

/// A temporary key together with the signature that vouches for it.
#[derive(Clone, Debug)]
pub struct ValidatorSignedTempKey {
    pub key: ValidatorTempKey,
    pub signature: Vec<u8>,
}

/// The mathematical content of a signed temporary key.
pub ghost struct ValidatorSignedTempKeyV {
    pub key: ValidatorTempKeyV,
    pub signature: Seq<u8>,
}

impl View for ValidatorSignedTempKey {
    type V = ValidatorSignedTempKeyV;

    open spec fn view(&self) -> ValidatorSignedTempKeyV {
        ValidatorSignedTempKeyV { key: self.key@, signature: self.signature@ }
    }
}

/// Copyleft licensing configuration.
#[derive(Clone, Debug)]
pub struct ConfigCopyleft {
    pub copyleft_reward_threshold: u128,
    pub license_rates: Vec<(u8, u8)>,
}

/// The mathematical content of the copyleft configuration.
pub ghost struct ConfigCopyleftV {
    pub copyleft_reward_threshold: u128,
    pub license_rates: Seq<(u8, u8)>,
}

impl View for ConfigCopyleft {
    type V = ConfigCopyleftV;

    open spec fn view(&self) -> ConfigCopyleftV {
        ConfigCopyleftV {
            copyleft_reward_threshold: self.copyleft_reward_threshold,
            license_rates: self.license_rates@,
        }
    }
}

} // verus!
