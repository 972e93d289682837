use vstd::prelude::*;
use crate::config::{decode_param_spec, miss, param_table, parse_config_from, parse_config_spec};
use crate::err::{errv, ErrKind, ErrV};
use crate::json::{obj_get, Json};
use crate::params::{assoc_get, ConfigParamV};
use crate::policy::mask_has_bit;

verus! {

/// Adjacent parameter-table entries carry strictly increasing numbers.
proof fn lemma_table_adjacent(i: int)
    requires
        0 <= i < param_table().len() - 1,
    ensures
        param_table()[i].0 < param_table()[i + 1].0,
{
    if i == 0 {
        assert(param_table()[0].0 < param_table()[1].0);
    } else if i == 1 {
        assert(param_table()[1].0 < param_table()[2].0);
    } else if i == 2 {
        assert(param_table()[2].0 < param_table()[3].0);
    } else if i == 3 {
        assert(param_table()[3].0 < param_table()[4].0);
    } else if i == 4 {
        assert(param_table()[4].0 < param_table()[5].0);
    } else if i == 5 {
        assert(param_table()[5].0 < param_table()[6].0);
    } else if i == 6 {
        assert(param_table()[6].0 < param_table()[7].0);
    } else if i == 7 {
        assert(param_table()[7].0 < param_table()[8].0);
    } else if i == 8 {
        assert(param_table()[8].0 < param_table()[9].0);
    } else if i == 9 {
        assert(param_table()[9].0 < param_table()[10].0);
    } else if i == 10 {
        assert(param_table()[10].0 < param_table()[11].0);
    } else if i == 11 {
        assert(param_table()[11].0 < param_table()[12].0);
    } else if i == 12 {
        assert(param_table()[12].0 < param_table()[13].0);
    } else if i == 13 {
        assert(param_table()[13].0 < param_table()[14].0);
    } else if i == 14 {
        assert(param_table()[14].0 < param_table()[15].0);
    } else if i == 15 {
        assert(param_table()[15].0 < param_table()[16].0);
    } else if i == 16 {
        assert(param_table()[16].0 < param_table()[17].0);
    } else if i == 17 {
        assert(param_table()[17].0 < param_table()[18].0);
    } else if i == 18 {
        assert(param_table()[18].0 < param_table()[19].0);
    } else if i == 19 {
        assert(param_table()[19].0 < param_table()[20].0);
    } else if i == 20 {
        assert(param_table()[20].0 < param_table()[21].0);
    } else if i == 21 {
        assert(param_table()[21].0 < param_table()[22].0);
    } else if i == 22 {
        assert(param_table()[22].0 < param_table()[23].0);
    } else if i == 23 {
        assert(param_table()[23].0 < param_table()[24].0);
    } else if i == 24 {
        assert(param_table()[24].0 < param_table()[25].0);
    } else if i == 25 {
        assert(param_table()[25].0 < param_table()[26].0);
    } else if i == 26 {
        assert(param_table()[26].0 < param_table()[27].0);
    } else if i == 27 {
        assert(param_table()[27].0 < param_table()[28].0);
    } else if i == 28 {
        assert(param_table()[28].0 < param_table()[29].0);
    } else if i == 29 {
        assert(param_table()[29].0 < param_table()[30].0);
    } else if i == 30 {
        assert(param_table()[30].0 < param_table()[31].0);
    } else if i == 31 {
        assert(param_table()[31].0 < param_table()[32].0);
    } else if i == 32 {
        assert(param_table()[32].0 < param_table()[33].0);
    } else if i == 33 {
        assert(param_table()[33].0 < param_table()[34].0);
    } else if i == 34 {
        assert(param_table()[34].0 < param_table()[35].0);
    } else if i == 35 {
        assert(param_table()[35].0 < param_table()[36].0);
    } else if i == 36 {
        assert(param_table()[36].0 < param_table()[37].0);
    } else if i == 37 {
        assert(param_table()[37].0 < param_table()[38].0);
    } else if i == 38 {
        assert(param_table()[38].0 < param_table()[39].0);
    } else if i == 39 {
        assert(param_table()[39].0 < param_table()[40].0);
    } else if i == 40 {
        assert(param_table()[40].0 < param_table()[41].0);
    }
}

/// Parameter-table numbers are strictly increasing, so no number occurs
/// twice.
proof fn lemma_table_sorted(a: int, b: int)
    requires
        0 <= a < b < param_table().len(),
    ensures
        param_table()[a].0 < param_table()[b].0,
    decreases b - a,
{
    if b == a + 1 {
        lemma_table_adjacent(a);
    } else {
        lemma_table_sorted(a, b - 1);
        lemma_table_adjacent(b - 1);
    }
}

/// Looking a fresh key up after appending a pair keeps its absence, and
/// appending the key itself makes it found.
proof fn lemma_assoc_get_push<V>(s: Seq<(u32, V)>, k: u32, v: V, n: u32)
    requires
        assoc_get(s, n) is None,
    ensures
        k == n ==> assoc_get(s.push((k, v)), n) == Some(v),
        k != n ==> assoc_get(s.push((k, v)), n) is None,
    decreases s.len(),
{
    if s.len() == 0 {
        assert(s.push((k, v)).drop_first() =~= Seq::<(u32, V)>::empty());
        assert(s.push((k, v))[0] == (k, v));
        assert(assoc_get(Seq::<(u32, V)>::empty(), n) is None);
    } else {
        assert(s.push((k, v)).drop_first() =~= s.drop_first().push((k, v)));
        lemma_assoc_get_push(s.drop_first(), k, v, n);
    }
}

/// A parameter whose field is absent while its mandatory bit is set
/// decodes to exactly the mandatory-parameter error; the two best-effort
/// parameters are exempt.
pub proof fn lemma_decode_absent_mandatory(
    o: Seq<(String, Json)>,
    p: Seq<Seq<char>>,
    mask: u64,
    i: int,
)
    requires
        0 <= i < param_table().len(),
        obj_get(o, param_table()[i].1) is None,
        mask_has_bit(mask, param_table()[i].0),
        param_table()[i].0 != 40,
        param_table()[i].0 != 61,
    ensures
        decode_param_spec(o, p, mask, param_table()[i].0, param_table()[i].1) == Err::<
            Option<ConfigParamV>,
            ErrV,
        >(errv(ErrKind::MandatoryParameterMissing(param_table()[i].0), p, param_table()[i].1)),
{
    if i == 0 {
        assert(param_table()[0] == (0u32, "p0"@));
    } else if i == 1 {
        assert(param_table()[1] == (1u32, "p1"@));
    } else if i == 2 {
        assert(param_table()[2] == (2u32, "p2"@));
    } else if i == 3 {
        assert(param_table()[3] == (3u32, "p3"@));
    } else if i == 4 {
        assert(param_table()[4] == (4u32, "p4"@));
    } else if i == 5 {
        assert(param_table()[5] == (5u32, "p5"@));
    } else if i == 6 {
        assert(param_table()[6] == (6u32, "p6"@));
    } else if i == 7 {
        assert(param_table()[7] == (7u32, "p7"@));
    } else if i == 8 {
        assert(param_table()[8] == (8u32, "p8"@));
    } else if i == 9 {
        assert(param_table()[9] == (9u32, "p9"@));
    } else if i == 10 {
        assert(param_table()[10] == (10u32, "p10"@));
    } else if i == 11 {
        assert(param_table()[11] == (11u32, "p11"@));
    } else if i == 12 {
        assert(param_table()[12] == (12u32, "p12"@));
    } else if i == 13 {
        assert(param_table()[13] == (13u32, "p13"@));
    } else if i == 14 {
        assert(param_table()[14] == (14u32, "p14"@));
    } else if i == 15 {
        assert(param_table()[15] == (15u32, "p15"@));
    } else if i == 16 {
        assert(param_table()[16] == (16u32, "p16"@));
    } else if i == 17 {
        assert(param_table()[17] == (17u32, "p17"@));
    } else if i == 18 {
        assert(param_table()[18] == (18u32, "p18"@));
    } else if i == 19 {
        assert(param_table()[19] == (20u32, "p20"@));
    } else if i == 20 {
        assert(param_table()[20] == (21u32, "p21"@));
    } else if i == 21 {
        assert(param_table()[21] == (22u32, "p22"@));
    } else if i == 22 {
        assert(param_table()[22] == (23u32, "p23"@));
    } else if i == 23 {
        assert(param_table()[23] == (24u32, "p24"@));
    } else if i == 24 {
        assert(param_table()[24] == (25u32, "p25"@));
    } else if i == 25 {
        assert(param_table()[25] == (28u32, "p28"@));
    } else if i == 26 {
        assert(param_table()[26] == (29u32, "p29"@));
    } else if i == 27 {
        assert(param_table()[27] == (30u32, "p30"@));
    } else if i == 28 {
        assert(param_table()[28] == (31u32, "p31"@));
    } else if i == 29 {
        assert(param_table()[29] == (32u32, "p32"@));
    } else if i == 30 {
        assert(param_table()[30] == (33u32, "p33"@));
    } else if i == 31 {
        assert(param_table()[31] == (34u32, "p34"@));
    } else if i == 32 {
        assert(param_table()[32] == (35u32, "p35"@));
    } else if i == 33 {
        assert(param_table()[33] == (36u32, "p36"@));
    } else if i == 34 {
        assert(param_table()[34] == (37u32, "p37"@));
    } else if i == 35 {
        assert(param_table()[35] == (39u32, "p39"@));
    } else if i == 36 {
        assert(param_table()[36] == (40u32, "p40"@));
    } else if i == 37 {
        assert(param_table()[37] == (42u32, "p42"@));
    } else if i == 38 {
        assert(param_table()[38] == (44u32, "p44"@));
    } else if i == 39 {
        assert(param_table()[39] == (58u32, "p58"@));
    } else if i == 40 {
        assert(param_table()[40] == (61u32, "p61"@));
    } else if i == 41 {
        assert(param_table()[41] == (62u32, "p62"@));
    }
}

/// A parameter whose field is absent while its mandatory bit is clear is
/// skipped without error; the always-present parameter is exempt.
#[verifier::rlimit(100)]
pub proof fn lemma_decode_absent_optional(
    o: Seq<(String, Json)>,
    p: Seq<Seq<char>>,
    mask: u64,
    i: int,
)
    requires
        0 <= i < param_table().len(),
        obj_get(o, param_table()[i].1) is None,
        !mask_has_bit(mask, param_table()[i].0),
        param_table()[i].0 != 40,
    ensures
        decode_param_spec(o, p, mask, param_table()[i].0, param_table()[i].1) == Ok::<
            Option<ConfigParamV>,
            ErrV,
        >(None),
{
    if i == 0 {
        assert(param_table()[0] == (0u32, "p0"@));
    } else if i == 1 {
        assert(param_table()[1] == (1u32, "p1"@));
    } else if i == 2 {
        assert(param_table()[2] == (2u32, "p2"@));
    } else if i == 3 {
        assert(param_table()[3] == (3u32, "p3"@));
    } else if i == 4 {
        assert(param_table()[4] == (4u32, "p4"@));
    } else if i == 5 {
        assert(param_table()[5] == (5u32, "p5"@));
    } else if i == 6 {
        assert(param_table()[6] == (6u32, "p6"@));
    } else if i == 7 {
        assert(param_table()[7] == (7u32, "p7"@));
    } else if i == 8 {
        assert(param_table()[8] == (8u32, "p8"@));
    } else if i == 9 {
        assert(param_table()[9] == (9u32, "p9"@));
    } else if i == 10 {
        assert(param_table()[10] == (10u32, "p10"@));
    } else if i == 11 {
        assert(param_table()[11] == (11u32, "p11"@));
    } else if i == 12 {
        assert(param_table()[12] == (12u32, "p12"@));
    } else if i == 13 {
        assert(param_table()[13] == (13u32, "p13"@));
    } else if i == 14 {
        assert(param_table()[14] == (14u32, "p14"@));
    } else if i == 15 {
        assert(param_table()[15] == (15u32, "p15"@));
    } else if i == 16 {
        assert(param_table()[16] == (16u32, "p16"@));
    } else if i == 17 {
        assert(param_table()[17] == (17u32, "p17"@));
    } else if i == 18 {
        assert(param_table()[18] == (18u32, "p18"@));
    } else if i == 19 {
        assert(param_table()[19] == (20u32, "p20"@));
    } else if i == 20 {
        assert(param_table()[20] == (21u32, "p21"@));
    } else if i == 21 {
        assert(param_table()[21] == (22u32, "p22"@));
    } else if i == 22 {
        assert(param_table()[22] == (23u32, "p23"@));
    } else if i == 23 {
        assert(param_table()[23] == (24u32, "p24"@));
    } else if i == 24 {
        assert(param_table()[24] == (25u32, "p25"@));
    } else if i == 25 {
        assert(param_table()[25] == (28u32, "p28"@));
    } else if i == 26 {
        assert(param_table()[26] == (29u32, "p29"@));
    } else if i == 27 {
        assert(param_table()[27] == (30u32, "p30"@));
    } else if i == 28 {
        assert(param_table()[28] == (31u32, "p31"@));
    } else if i == 29 {
        assert(param_table()[29] == (32u32, "p32"@));
    } else if i == 30 {
        assert(param_table()[30] == (33u32, "p33"@));
    } else if i == 31 {
        assert(param_table()[31] == (34u32, "p34"@));
    } else if i == 32 {
        assert(param_table()[32] == (35u32, "p35"@));
    } else if i == 33 {
        assert(param_table()[33] == (36u32, "p36"@));
    } else if i == 34 {
        assert(param_table()[34] == (37u32, "p37"@));
    } else if i == 35 {
        assert(param_table()[35] == (39u32, "p39"@));
    } else if i == 36 {
        assert(param_table()[36] == (40u32, "p40"@));
    } else if i == 37 {
        assert(param_table()[37] == (42u32, "p42"@));
    } else if i == 38 {
        assert(param_table()[38] == (44u32, "p44"@));
    } else if i == 39 {
        assert(param_table()[39] == (58u32, "p58"@));
    } else if i == 40 {
        assert(param_table()[40] == (61u32, "p61"@));
    } else if i == 41 {
        assert(param_table()[41] == (62u32, "p62"@));
    }
}

/// When some table entry decodes to an error, the fold from any earlier
/// entry fails.
proof fn lemma_fold_err_at(
    o: Seq<(String, Json)>,
    p: Seq<Seq<char>>,
    mask: u64,
    acc: Seq<(u32, ConfigParamV)>,
    j: int,
    i: int,
)
    requires
        0 <= j <= i < param_table().len(),
        decode_param_spec(o, p, mask, param_table()[i].0, param_table()[i].1) is Err,
    ensures
        parse_config_from(o, p, mask, acc, j) is Err,
    decreases i - j,
{
    if j == i {
    } else {
        match decode_param_spec(o, p, mask, param_table()[j].0, param_table()[j].1) {
            Err(_) => {},
            Ok(None) => {
                lemma_fold_err_at(o, p, mask, acc, j + 1, i);
            },
            Ok(Some(v)) => {
                if assoc_get(acc, param_table()[j].0) is Some {
                } else {
                    lemma_fold_err_at(o, p, mask, acc.push((param_table()[j].0, v)), j + 1, i);
                }
            },
        }
    }
}

/// When the entries before `i` decode without error and entry `i` fails,
/// the fold reports exactly that failure.
proof fn lemma_fold_first_err(
    o: Seq<(String, Json)>,
    p: Seq<Seq<char>>,
    mask: u64,
    acc: Seq<(u32, ConfigParamV)>,
    j: int,
    i: int,
    e: ErrV,
)
    requires
        0 <= j <= i < param_table().len(),
        decode_param_spec(o, p, mask, param_table()[i].0, param_table()[i].1) == Err::<
            Option<ConfigParamV>,
            ErrV,
        >(e),
        forall|k: int|
            j <= k < i ==> decode_param_spec(
                o,
                p,
                mask,
                (#[trigger] param_table()[k]).0,
                param_table()[k].1,
            ) is Ok,
        forall|k: int| j <= k <= i ==> assoc_get(acc, (#[trigger] param_table()[k]).0) is None,
    ensures
        parse_config_from(o, p, mask, acc, j) == Err::<Seq<(u32, ConfigParamV)>, ErrV>(e),
    decreases i - j,
{
    if j == i {
    } else {
        match decode_param_spec(o, p, mask, param_table()[j].0, param_table()[j].1) {
            Err(_) => {
                assert(false);
            },
            Ok(None) => {
                lemma_fold_first_err(o, p, mask, acc, j + 1, i, e);
            },
            Ok(Some(v)) => {
                let acc2 = acc.push((param_table()[j].0, v));
                assert forall|k: int| j + 1 <= k <= i implies assoc_get(
                    acc2,
                    (#[trigger] param_table()[k]).0,
                ) is None by {
                    lemma_table_sorted(j, k);
                    lemma_assoc_get_push(acc, param_table()[j].0, v, param_table()[k].0);
                }
                lemma_fold_first_err(o, p, mask, acc2, j + 1, i, e);
            },
        }
    }
}

/// When no table entry from `j` on ever yields a parameter numbered `n`,
/// and the accumulator lacks `n`, the fold's result lacks `n`.
proof fn lemma_fold_no_key(
    o: Seq<(String, Json)>,
    p: Seq<Seq<char>>,
    mask: u64,
    acc: Seq<(u32, ConfigParamV)>,
    j: int,
    n: u32,
    cs: Seq<(u32, ConfigParamV)>,
)
    requires
        0 <= j,
        forall|k: int|
            j <= k < param_table().len() && (#[trigger] param_table()[k]).0 == n
                ==> decode_param_spec(o, p, mask, param_table()[k].0, param_table()[k].1) == Ok::<
                Option<ConfigParamV>,
                ErrV,
            >(None),
        assoc_get(acc, n) is None,
        parse_config_from(o, p, mask, acc, j) == Ok::<Seq<(u32, ConfigParamV)>, ErrV>(cs),
    ensures
        assoc_get(cs, n) is None,
    decreases param_table().len() - j,
{
    if j >= param_table().len() {
    } else {
        match decode_param_spec(o, p, mask, param_table()[j].0, param_table()[j].1) {
            Err(_) => {
                assert(false);
            },
            Ok(None) => {
                lemma_fold_no_key(o, p, mask, acc, j + 1, n, cs);
            },
            Ok(Some(v)) => {
                assert(param_table()[j].0 != n);
                let acc2 = acc.push((param_table()[j].0, v));
                lemma_assoc_get_push(acc, param_table()[j].0, v, n);
                lemma_fold_no_key(o, p, mask, acc2, j + 1, n, cs);
            },
        }
    }
}

/// For every JSON object that lacks the field of a parameter whose
/// mandatory bit is set, configuration parsing fails; the two best-effort
/// parameters, which never consult the mask, are exempt.
pub proof fn lemma_mandatory_missing_fails(
    o: Seq<(String, Json)>,
    p: Seq<Seq<char>>,
    mask: u64,
    i: int,
)
    requires
        0 <= i < param_table().len(),
        mask_has_bit(mask, param_table()[i].0),
        obj_get(o, param_table()[i].1) is None,
        param_table()[i].0 != 40,
        param_table()[i].0 != 61,
    ensures
        parse_config_spec(o, p, mask) is Err,
{
    lemma_decode_absent_mandatory(o, p, mask, i);
    lemma_fold_err_at(o, p, mask, Seq::empty(), 0, i);
}

/// When moreover every earlier parameter decodes without error, the
/// failure is the mandatory-parameter error naming exactly the absent
/// parameter.
pub proof fn lemma_mandatory_missing_named(
    o: Seq<(String, Json)>,
    p: Seq<Seq<char>>,
    mask: u64,
    i: int,
)
    requires
        0 <= i < param_table().len(),
        mask_has_bit(mask, param_table()[i].0),
        obj_get(o, param_table()[i].1) is None,
        param_table()[i].0 != 40,
        param_table()[i].0 != 61,
        forall|k: int|
            0 <= k < i ==> decode_param_spec(
                o,
                p,
                mask,
                (#[trigger] param_table()[k]).0,
                param_table()[k].1,
            ) is Ok,
    ensures
        parse_config_spec(o, p, mask) == Err::<Seq<(u32, ConfigParamV)>, ErrV>(
            errv(ErrKind::MandatoryParameterMissing(param_table()[i].0), p, param_table()[i].1),
        ),
{
    lemma_decode_absent_mandatory(o, p, mask, i);
    lemma_fold_first_err(
        o,
        p,
        mask,
        Seq::empty(),
        0,
        i,
        errv(ErrKind::MandatoryParameterMissing(param_table()[i].0), p, param_table()[i].1),
    );
}

/// For every JSON object that lacks the field of a parameter whose
/// mandatory bit is clear, a successful parse omits that parameter from
/// the resulting configuration set; the always-present parameter is
/// exempt.
pub proof fn lemma_optional_absent_omitted(
    o: Seq<(String, Json)>,
    p: Seq<Seq<char>>,
    mask: u64,
    i: int,
    cs: Seq<(u32, ConfigParamV)>,
)
    requires
        0 <= i < param_table().len(),
        !mask_has_bit(mask, param_table()[i].0),
        obj_get(o, param_table()[i].1) is None,
        param_table()[i].0 != 40,
        parse_config_spec(o, p, mask) == Ok::<Seq<(u32, ConfigParamV)>, ErrV>(cs),
    ensures
        assoc_get(cs, param_table()[i].0) is None,
{
    lemma_decode_absent_optional(o, p, mask, i);
    let n = param_table()[i].0;
    assert forall|k: int|
        0 <= k < param_table().len() && (#[trigger] param_table()[k]).0 == n implies decode_param_spec(
        o,
        p,
        mask,
        param_table()[k].0,
        param_table()[k].1,
    ) == Ok::<Option<ConfigParamV>, ErrV>(None) by {
        if k < i {
            lemma_table_sorted(k, i);
        } else if k > i {
            lemma_table_sorted(i, k);
        }
    }
    lemma_fold_no_key(o, p, mask, Seq::empty(), 0, n, cs);
}

} // verus!
