use vstd::prelude::*;
use crate::codec::Hash256;
use crate::types::ValidatorSignedTempKey;

verus! {

/// Replaces the value under `k` in an association list, or appends the
/// pair when the key is absent; the order of existing entries is kept.
pub open spec fn upsert<K, V>(s: Seq<(K, V)>, k: K, v: V) -> Seq<(K, V)>
    decreases s.len(),
{
    if s.len() == 0 {
        seq![(k, v)]
    } else if s[0].0 == k {
        seq![(k, v)] + s.drop_first()
    } else {
        seq![s[0]] + upsert(s.drop_first(), k, v)
    }
}

/// When `k` first occurs at `i`, upserting updates that entry in place.
pub proof fn lemma_upsert_update<K, V>(s: Seq<(K, V)>, k: K, v: V, i: int)
    requires
        0 <= i < s.len(),
        s[i].0 == k,
        forall|j: int| 0 <= j < i ==> (#[trigger] s[j]).0 != k,
    ensures
        upsert(s, k, v) =~= s.update(i, (k, v)),
    decreases i,
{
    if i == 0 {
        assert(upsert(s, k, v) =~= s.update(0, (k, v)));
    } else {
        assert(s.drop_first()[i - 1].0 == k);
        assert forall|j: int| 0 <= j < i - 1 implies (#[trigger] s.drop_first()[j]).0 != k by {
            assert(s.drop_first()[j] == s[j + 1]);
        }
        lemma_upsert_update(s.drop_first(), k, v, i - 1);
        assert(upsert(s, k, v) =~= seq![s[0]] + s.drop_first().update(i - 1, (k, v)));
        assert(seq![s[0]] + s.drop_first().update(i - 1, (k, v)) =~= s.update(i, (k, v)));
    }
}

/// When `k` is absent, upserting appends the pair.
pub proof fn lemma_upsert_push<K, V>(s: Seq<(K, V)>, k: K, v: V)
    requires
        forall|j: int| 0 <= j < s.len() ==> (#[trigger] s[j]).0 != k,
    ensures
        upsert(s, k, v) =~= s.push((k, v)),
    decreases s.len(),
{
    if s.len() == 0 {
        assert(upsert(s, k, v) =~= s.push((k, v)));
    } else {
        assert forall|j: int| 0 <= j < s.drop_first().len() implies (#[trigger] s.drop_first()[j]).0
            != k by {
            assert(s.drop_first()[j] == s[j + 1]);
        }
        lemma_upsert_push(s.drop_first(), k, v);
        assert(upsert(s, k, v) =~= seq![s[0]] + s.drop_first().push((k, v)));
        assert(seq![s[0]] + s.drop_first().push((k, v)) =~= s.push((k, v)));
    }
}

/// Appends `k` unless the sequence already holds it.
pub open spec fn add_key<K>(s: Seq<K>, k: K) -> Seq<K> {
    if s.contains(k) {
        s
    } else {
        s.push(k)
    }
}

/// Compares two byte strings.
pub fn bytes_eq(a: &[u8], b: &[u8]) -> (r: bool)
    ensures
        r == (a@ == b@),
{
    if a.len() != b.len() {
        proof {
            assert(a@.len() != b@.len());
        }
        return false;
    }
    let n = a.len();
    let mut i: usize = 0;
    while i < n
        invariant
            i <= n,
            n == a@.len(),
            n == b@.len(),
            forall|j: int| 0 <= j < i ==> a@[j] == b@[j],
        decreases n - i,
    {
        if a[i] != b[i] {
            return false;
        }
        i += 1;
    }
    proof {
        assert(a@ =~= b@);
    }
    true
}

/// Compares two hashes by value.
pub fn hash_eq(a: &Hash256, b: &Hash256) -> (r: bool)
    ensures
        r == (a@ == b@),
{
    bytes_eq(a.bytes.as_slice(), b.bytes.as_slice())
}

/// Upserts into a list keyed by 32-bit numbers.
pub fn upsert_u32<V>(list: &mut Vec<(u32, V)>, k: u32, v: V)
    ensures
        final(list)@ == upsert(old(list)@, k, v),
{
    let n = list.len();
    let mut i: usize = 0;
    while i < n
        invariant
            i <= n,
            n == list@.len(),
            list@ == old(list)@,
            forall|j: int| 0 <= j < i ==> (#[trigger] list@[j]).0 != k,
        decreases n - i,
    {
        if list[i].0 == k {
            list.set(i, (k, v));
            proof {
                lemma_upsert_update(old(list)@, k, v, i as int);
            }
            return ;
        }
        i += 1;
    }
    list.push((k, v));
    proof {
        lemma_upsert_push(old(list)@, k, v);
    }
}

/// Upserts into a list keyed by 8-bit numbers.
pub fn upsert_u8(list: &mut Vec<(u8, u8)>, k: u8, v: u8)
    ensures
        final(list)@ == upsert(old(list)@, k, v),
{
    let n = list.len();
    let mut i: usize = 0;
    while i < n
        invariant
            i <= n,
            n == list@.len(),
            list@ == old(list)@,
            forall|j: int| 0 <= j < i ==> (#[trigger] list@[j]).0 != k,
        decreases n - i,
    {
        if list[i].0 == k {
            list.set(i, (k, v));
            proof {
                lemma_upsert_update(old(list)@, k, v, i as int);
            }
            return ;
        }
        i += 1;
    }
    list.push((k, v));
    proof {
        lemma_upsert_push(old(list)@, k, v);
    }
}

/// A hash-keyed association list, seen mathematically.
pub open spec fn temp_keys_v(s: Seq<(Hash256, ValidatorSignedTempKey)>) -> Seq<
    (Seq<u8>, crate::types::ValidatorSignedTempKeyV),
> {
    s.map_values(|e: (Hash256, ValidatorSignedTempKey)| (e.0@, e.1@))
}

/// Upserts into a list of signed temporary keys, keyed by hash.
pub fn upsert_temp_key(
    list: &mut Vec<(Hash256, ValidatorSignedTempKey)>,
    k: Hash256,
    v: ValidatorSignedTempKey,
)
    ensures
        temp_keys_v(final(list)@) == upsert(temp_keys_v(old(list)@), k@, v@),
{
    let n = list.len();
    let mut i: usize = 0;
    while i < n
        invariant
            i <= n,
            n == list@.len(),
            list@ == old(list)@,
            forall|j: int| 0 <= j < i ==> (#[trigger] temp_keys_v(list@)[j]).0 != k@,
        decreases n - i,
    {
        if hash_eq(&list[i].0, &k) {
            proof {
                assert(temp_keys_v(list@)[i as int].0 == k@);
            }
            list.set(i, (k, v));
            proof {
                assert(temp_keys_v(list@) =~= temp_keys_v(old(list)@).update(
                    i as int,
                    (temp_keys_v(list@)[i as int].0, temp_keys_v(list@)[i as int].1),
                ));
                lemma_upsert_update(temp_keys_v(old(list)@), temp_keys_v(list@)[i as int].0, temp_keys_v(
                    list@,
                )[i as int].1, i as int);
            }
            return ;
        }
        proof {
            assert(temp_keys_v(list@)[i as int].0 == list@[i as int].0@);
        }
        i += 1;
    }
    list.push((k, v));
    proof {
        assert(temp_keys_v(list@) =~= temp_keys_v(old(list)@).push((k@, v@)));
        lemma_upsert_push(temp_keys_v(old(list)@), k@, v@);
    }
}

/// A hash list, seen mathematically.
pub open spec fn hashes_v(s: Seq<Hash256>) -> Seq<Seq<u8>> {
    s.map_values(|h: Hash256| h@)
}

/// Adds a hash to a key set unless an equal one is already present.
pub fn add_key_hash(list: &mut Vec<Hash256>, k: Hash256)
    ensures
        hashes_v(final(list)@) == add_key(hashes_v(old(list)@), k@),
{
    let n = list.len();
    let mut i: usize = 0;
    while i < n
        invariant
            i <= n,
            n == list@.len(),
            list@ == old(list)@,
            forall|j: int| 0 <= j < i ==> #[trigger] hashes_v(list@)[j] != k@,
        decreases n - i,
    {
        if hash_eq(&list[i], &k) {
            proof {
                assert(hashes_v(list@)[i as int] == k@);
                assert(hashes_v(list@).contains(k@));
            }
            return ;
        }
        proof {
            assert(hashes_v(list@)[i as int] == list@[i as int]@);
        }
        i += 1;
    }
    proof {
        assert(!hashes_v(old(list)@).contains(k@)) by {
            if hashes_v(old(list)@).contains(k@) {
                let j = choose|j: int|
                    0 <= j < hashes_v(old(list)@).len() && hashes_v(old(list)@)[j] == k@;
                assert(hashes_v(old(list)@)[j] != k@);
            }
        }
    }
    list.push(k);
    proof {
        assert(hashes_v(list@) =~= hashes_v(old(list)@).push(k@));
    }
}

/// A suspended-address list, seen mathematically.
pub open spec fn addrs_v(s: Seq<(i32, Hash256)>) -> Seq<(i32, Seq<u8>)> {
    s.map_values(|e: (i32, Hash256)| (e.0, e.1@))
}

/// Adds a workchain-address pair to a key set unless it is present.
pub fn add_key_addr(list: &mut Vec<(i32, Hash256)>, wc: i32, addr: Hash256)
    ensures
        addrs_v(final(list)@) == add_key(addrs_v(old(list)@), (wc, addr@)),
{
    let n = list.len();
    let mut i: usize = 0;
    while i < n
        invariant
            i <= n,
            n == list@.len(),
            list@ == old(list)@,
            forall|j: int| 0 <= j < i ==> #[trigger] addrs_v(list@)[j] != (wc, addr@),
        decreases n - i,
    {
        if list[i].0 == wc && hash_eq(&list[i].1, &addr) {
            proof {
                assert(addrs_v(list@)[i as int] == (wc, addr@));
                assert(addrs_v(list@).contains((wc, addr@)));
            }
            return ;
        }
        proof {
            assert(addrs_v(list@)[i as int] == (list@[i as int].0, list@[i as int].1@));
        }
        i += 1;
    }
    proof {
        assert(!addrs_v(old(list)@).contains((wc, addr@))) by {
            if addrs_v(old(list)@).contains((wc, addr@)) {
                let j = choose|j: int|
                    0 <= j < addrs_v(old(list)@).len() && addrs_v(old(list)@)[j] == (wc, addr@);
                assert(addrs_v(old(list)@)[j] != (wc, addr@));
            }
        }
    }
    list.push((wc, addr));
    proof {
        assert(addrs_v(list@) =~= addrs_v(old(list)@).push((wc, addr@)));
    }
}

/// Adds a 32-bit key to a key set unless it is already present.
pub fn add_key_u32(list: &mut Vec<u32>, k: u32)
    ensures
        final(list)@ == add_key(old(list)@, k),
{
    let n = list.len();
    let mut i: usize = 0;
    while i < n
        invariant
            i <= n,
            n == list@.len(),
            list@ == old(list)@,
            forall|j: int| 0 <= j < i ==> list@[j] != k,
        decreases n - i,
    {
        if list[i] == k {
            proof {
                assert(list@.contains(k));
            }
            return ;
        }
        i += 1;
    }
    proof {
        assert(!old(list)@.contains(k));
    }
    list.push(k);
}

} // verus!
