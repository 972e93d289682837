use vstd::prelude::*;

verus! {

/// The mask asserting the parameters a genesis state must carry.
pub const GENESIS_MANDATORY_MASK: u64 = 0x0000_0004_B3F7_DF87;

/// True when bit `n` of `mask` is set: parameter `n` is mandatory under
/// the policy that `mask` encodes.
pub open spec fn mask_has_bit(mask: u64, n: u32) -> bool {
    n < 64 && (mask >> n as u64) & 1 == 1
}

/// Reports whether parameter number `n` is mandatory under `mask`.
pub fn is_need_under(mask: u64, n: u32) -> (r: bool)
    ensures
        r == mask_has_bit(mask, n),
{
    if n >= 64 {
        return false;
    }
    let nn = n as u64;
    proof {
        assert(((mask >> nn) & 1 == 1) <==> ((mask >> nn) & 1 != 0)) by (bit_vector);
    }
    ((mask >> nn) & 1) != 0
}

/// The mask that makes exactly the numbers in `ids` mandatory.
pub open spec fn mask_of_ids(ids: Seq<u32>) -> u64
    decreases ids.len(),
{
    if ids.len() == 0 {
        0
    } else {
        mask_of_ids(ids.drop_last()) | (1u64 << ids.last() as u64)
    }
}

/// Folds a list of parameter numbers into a mandatory mask.
pub fn mask_from_list(ids: &[u32]) -> (r: u64)
    requires
        forall|i: int| 0 <= i < ids@.len() ==> ids@[i] < 64,
    ensures
        r == mask_of_ids(ids@),
{
    let mut mask: u64 = 0;
    let mut i: usize = 0;
    proof {
        assert(ids@.take(0) =~= Seq::<u32>::empty());
    }
    while i < ids.len()
        invariant
            i <= ids@.len(),
            forall|j: int| 0 <= j < ids@.len() ==> ids@[j] < 64,
            mask == mask_of_ids(ids@.take(i as int)),
        decreases ids@.len() - i,
    {
        proof {
            assert(ids@.take(i + 1 as int).drop_last() =~= ids@.take(i as int));
            assert(ids@.take(i + 1 as int).last() == ids@[i as int]);
        }
        mask = mask | (1u64 << (ids[i] as u64));
        i += 1;
    }
    proof {
        assert(ids@.take(ids@.len() as int) =~= ids@);
    }
    mask
}

/// The set of parameter numbers the genesis mask asserts as mandatory.
pub open spec fn genesis_mandatory_numbers(n: u32) -> bool {
    n == 0 || n == 1 || n == 2 || n == 7 || n == 8 || n == 9 || n == 10 || n == 11 || n == 12
        || n == 14 || n == 15 || n == 16 || n == 17 || n == 18 || n == 20 || n == 21 || n == 22
        || n == 23 || n == 24 || n == 25 || n == 28 || n == 29 || n == 31 || n == 34
}

/// The genesis mask asserts exactly the documented parameter numbers: for
/// every bit position, `mask_has_bit` holds on the genesis mask precisely
/// for the numbers in the documented set.
pub proof fn lemma_genesis_mask_bits(n: u32)
    requires
        n < 64,
    ensures
        mask_has_bit(GENESIS_MANDATORY_MASK, n) <==> genesis_mandatory_numbers(n),
{
    let nn = n as u64;
    assert(((0x0000_0004_B3F7_DF87u64 >> nn) & 1 == 1) <==> (nn == 0 || nn == 1 || nn == 2 || nn
        == 7 || nn == 8 || nn == 9 || nn == 10 || nn == 11 || nn == 12 || nn == 14 || nn == 15
        || nn == 16 || nn == 17 || nn == 18 || nn == 20 || nn == 21 || nn == 22 || nn == 23
        || nn == 24 || nn == 25 || nn == 28 || nn == 29 || nn == 31 || nn == 34)) by (bit_vector)
        requires
            nn < 64,
    ;
}

} // verus!
