use vstd::prelude::*;
use crate::codec::Hash256;
use crate::types::{
    BlockCreateFees, BlockLimits, CatchainConfig, ConfigCopyleft, ConfigCopyleftV, ConfigProposalSetup,
    ConnectedNwConfig, ConnectedNwConfigV, ConsensusConfig, DelectorParams, DelectorParamsV,
    ElectionParams, FastFinalityConfig, GasLimitsPrices, GlobalVersion, MsgForwardPrices,
    SlashingConfig, SmftParams, StakeParams, StoragePrices, ValidatorCountParams, ValidatorSet,
    ValidatorSetV, ValidatorSignedTempKey, ValidatorSignedTempKeyV, WorkchainDescr, WorkchainDescrV,
};

verus! {

/// One configuration parameter, tagged by its number.
#[derive(Clone, Debug)]
pub enum ConfigParam {
    P0(Hash256),
    P1(Hash256),
    P2(Hash256),
    P3(Hash256),
    P4(Hash256),
    P5(Hash256),
    P6 { mint_new_price: u128, mint_add_price: u128 },
    P7(Vec<(u32, u128)>),
    P8(GlobalVersion),
    P9(Vec<u32>),
    P10(Vec<u32>),
    P11 { normal_params: ConfigProposalSetup, critical_params: ConfigProposalSetup },
    P12(Vec<(u32, WorkchainDescr)>),
    P13(Vec<u8>),
    P14(BlockCreateFees),
    P15(ElectionParams),
    P16(ValidatorCountParams),
    P17(StakeParams),
    P18(Vec<StoragePrices>),
    P20(GasLimitsPrices),
    P21(GasLimitsPrices),
    P22(BlockLimits),
    P23(BlockLimits),
    P24(MsgForwardPrices),
    P25(MsgForwardPrices),
    P28(CatchainConfig),
    P29(ConsensusConfig),
    P30(DelectorParams),
    P31(Vec<Hash256>),
    P32(ValidatorSet),
    P33(ValidatorSet),
    P34(ValidatorSet),
    P35(ValidatorSet),
    P36(ValidatorSet),
    P37(ValidatorSet),
    P39(Vec<(Hash256, ValidatorSignedTempKey)>),
    P40(SlashingConfig),
    P42(ConfigCopyleft),
    P44(Vec<(i32, Hash256)>),
    P58(Vec<(i32, ConnectedNwConfig)>),
    P61(FastFinalityConfig),
    P62(SmftParams),
}

/// The mathematical content of a configuration parameter.
pub ghost enum ConfigParamV {
    P0(Seq<u8>),
    P1(Seq<u8>),
    P2(Seq<u8>),
    P3(Seq<u8>),
    P4(Seq<u8>),
    P5(Seq<u8>),
    P6 { mint_new_price: u128, mint_add_price: u128 },
    P7(Seq<(u32, u128)>),
    P8(GlobalVersion),
    P9(Seq<u32>),
    P10(Seq<u32>),
    P11 { normal_params: ConfigProposalSetup, critical_params: ConfigProposalSetup },
    P12(Seq<(u32, WorkchainDescrV)>),
    P13(Seq<u8>),
    P14(BlockCreateFees),
    P15(ElectionParams),
    P16(ValidatorCountParams),
    P17(StakeParams),
    P18(Seq<StoragePrices>),
    P20(GasLimitsPrices),
    P21(GasLimitsPrices),
    P22(BlockLimits),
    P23(BlockLimits),
    P24(MsgForwardPrices),
    P25(MsgForwardPrices),
    P28(CatchainConfig),
    P29(ConsensusConfig),
    P30(DelectorParamsV),
    P31(Seq<Seq<u8>>),
    P32(ValidatorSetV),
    P33(ValidatorSetV),
    P34(ValidatorSetV),
    P35(ValidatorSetV),
    P36(ValidatorSetV),
    P37(ValidatorSetV),
    P39(Seq<(Seq<u8>, ValidatorSignedTempKeyV)>),
    P40(SlashingConfig),
    P42(ConfigCopyleftV),
    P44(Seq<(i32, Seq<u8>)>),
    P58(Seq<(i32, ConnectedNwConfigV)>),
    P61(FastFinalityConfig),
    P62(SmftParams),
}

impl View for ConfigParam {
    type V = ConfigParamV;

    open spec fn view(&self) -> ConfigParamV {
        match self {
            ConfigParam::P0(h) => ConfigParamV::P0(h@),
            ConfigParam::P1(h) => ConfigParamV::P1(h@),
            ConfigParam::P2(h) => ConfigParamV::P2(h@),
            ConfigParam::P3(h) => ConfigParamV::P3(h@),
            ConfigParam::P4(h) => ConfigParamV::P4(h@),
            ConfigParam::P5(h) => ConfigParamV::P5(h@),
            ConfigParam::P6 { mint_new_price, mint_add_price } => ConfigParamV::P6 {
                mint_new_price: *mint_new_price,
                mint_add_price: *mint_add_price,
            },
            ConfigParam::P7(v) => ConfigParamV::P7(v@),
            ConfigParam::P8(g) => ConfigParamV::P8(*g),
            ConfigParam::P9(v) => ConfigParamV::P9(v@),
            ConfigParam::P10(v) => ConfigParamV::P10(v@),
            ConfigParam::P11 { normal_params, critical_params } => ConfigParamV::P11 {
                normal_params: *normal_params,
                critical_params: *critical_params,
            },
            ConfigParam::P12(v) => ConfigParamV::P12(
                v@.map_values(|e: (u32, WorkchainDescr)| (e.0, e.1@)),
            ),
            ConfigParam::P13(v) => ConfigParamV::P13(v@),
            ConfigParam::P14(f) => ConfigParamV::P14(*f),
            ConfigParam::P15(e) => ConfigParamV::P15(*e),
            ConfigParam::P16(c) => ConfigParamV::P16(*c),
            ConfigParam::P17(s) => ConfigParamV::P17(*s),
            ConfigParam::P18(v) => ConfigParamV::P18(v@),
            ConfigParam::P20(g) => ConfigParamV::P20(*g),
            ConfigParam::P21(g) => ConfigParamV::P21(*g),
            ConfigParam::P22(b) => ConfigParamV::P22(*b),
            ConfigParam::P23(b) => ConfigParamV::P23(*b),
            ConfigParam::P24(m) => ConfigParamV::P24(*m),
            ConfigParam::P25(m) => ConfigParamV::P25(*m),
            ConfigParam::P28(c) => ConfigParamV::P28(*c),
            ConfigParam::P29(c) => ConfigParamV::P29(*c),
            ConfigParam::P30(d) => ConfigParamV::P30(d@),
            ConfigParam::P31(v) => ConfigParamV::P31(v@.map_values(|h: Hash256| h@)),
            ConfigParam::P32(v) => ConfigParamV::P32(v@),
            ConfigParam::P33(v) => ConfigParamV::P33(v@),
            ConfigParam::P34(v) => ConfigParamV::P34(v@),
            ConfigParam::P35(v) => ConfigParamV::P35(v@),
            ConfigParam::P36(v) => ConfigParamV::P36(v@),
            ConfigParam::P37(v) => ConfigParamV::P37(v@),
            ConfigParam::P39(v) => ConfigParamV::P39(
                v@.map_values(|e: (Hash256, ValidatorSignedTempKey)| (e.0@, e.1@)),
            ),
            ConfigParam::P40(s) => ConfigParamV::P40(*s),
            ConfigParam::P42(c) => ConfigParamV::P42(c@),
            ConfigParam::P44(v) => ConfigParamV::P44(
                v@.map_values(|e: (i32, Hash256)| (e.0, e.1@)),
            ),
            ConfigParam::P58(v) => ConfigParamV::P58(
                v@.map_values(|e: (i32, ConnectedNwConfig)| (e.0, e.1@)),
            ),
            ConfigParam::P61(f) => ConfigParamV::P61(*f),
            ConfigParam::P62(s) => ConfigParamV::P62(*s),
        }
    }
}

/// The value under `key` in an association list, taking the first match.
pub open spec fn assoc_get<V>(s: Seq<(u32, V)>, key: u32) -> Option<V>
    decreases s.len(),
{
    if s.len() == 0 {
        None
    } else if s[0].0 == key {
        Some(s[0].1)
    } else {
        assoc_get(s.drop_first(), key)
    }
}

/// A configuration set: parameters keyed by their numbers, each at most
/// once, in the order they were set.
#[derive(Clone, Debug)]
pub struct ConfigSet {
    pub params: Vec<(u32, ConfigParam)>,
}

impl View for ConfigSet {
    type V = Seq<(u32, ConfigParamV)>;

    open spec fn view(&self) -> Seq<(u32, ConfigParamV)> {
        self.params@.map_values(|e: (u32, ConfigParam)| (e.0, e.1@))
    }
}

impl ConfigSet {
    /// The empty configuration set.
    pub fn new() -> (r: ConfigSet)
        ensures
            r@ =~= Seq::<(u32, ConfigParamV)>::empty(),
    {
        ConfigSet { params: Vec::new() }
    }

    /// Whether a parameter with this number has been set.
    pub fn contains(&self, num: u32) -> (r: bool)
        ensures
            r == (assoc_get(self@, num) is Some),
    {
        let n = self.params.len();
        let mut i: usize = 0;
        proof {
            assert(self@.skip(0) =~= self@);
        }
        while i < n
            invariant
                i <= n,
                n == self.params@.len(),
                self@.len() == n,
                assoc_get(self@, num) == assoc_get(self@.skip(i as int), num),
                forall|j: int| 0 <= j < n ==> #[trigger] self@[j].0 == self.params@[j].0,
            decreases n - i,
        {
            proof {
                assert(self@.skip(i as int)[0] == self@[i as int]);
                assert(self@.skip(i as int).drop_first() =~= self@.skip(i + 1 as int));
            }
            if self.params[i].0 == num {
                return true;
            }
            i += 1;
        }
        false
    }

    /// The parameter set under this number, when one was set.
    pub fn get(&self, num: u32) -> (r: Option<&ConfigParam>)
        ensures
            match r {
                Some(p) => assoc_get(self@, num) == Some(p@),
                None => assoc_get(self@, num) is None,
            },
    {
        let n = self.params.len();
        let mut i: usize = 0;
        proof {
            assert(self@.skip(0) =~= self@);
        }
        while i < n
            invariant
                i <= n,
                n == self.params@.len(),
                self@.len() == n,
                assoc_get(self@, num) == assoc_get(self@.skip(i as int), num),
                forall|j: int| 0 <= j < n ==> #[trigger] self@[j].0 == self.params@[j].0
                    && self@[j].1 == self.params@[j].1@,
            decreases n - i,
        {
            proof {
                assert(self@.skip(i as int)[0] == self@[i as int]);
                assert(self@.skip(i as int).drop_first() =~= self@.skip(i + 1 as int));
            }
            if self.params[i].0 == num {
                return Some(&self.params[i].1);
            }
            i += 1;
        }
        None
    }

    /// The number of parameters set.
    pub fn len(&self) -> (r: usize)
        ensures
            r == self@.len(),
    {
        self.params.len()
    }

    /// Sets the parameter under `num`; refuses a number already present.
    pub fn set_config(&mut self, num: u32, param: ConfigParam) -> (r: bool)
        ensures
            r == (assoc_get(old(self)@, num) is None),
            r ==> final(self)@ == old(self)@.push((num, param@)),
            !r ==> final(self)@ == old(self)@,
    {
        if self.contains(num) {
            false
        } else {
            self.params.push((num, param));
            proof {
                assert(self@ =~= old(self)@.push((num, param@)));
            }
            true
        }
    }
}

} // verus!
