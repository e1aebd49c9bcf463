//! Batches: one call of the engine that creates, changes or destroys many
//! resources of a registry.
use crate::error::Error;
use crate::keys::KeyBits;
use crate::laws::lemma_removed_keys_are_gone;
use crate::registry::{History, Registry, MAX_ENTRIES};
use vstd::prelude::*;

verus! {

/// The number of resources that a batch of two slices covers: the length of
/// the shorter one.
pub open spec fn spec_batch_count(a: nat, b: nat) -> nat {
    if a <= b {
        a
    } else {
        b
    }
}

/// The number of resources that a batch of two slices covers: the length of
/// the shorter one.
pub fn batch_count(a: usize, b: usize) -> (n: usize)
    ensures
        n == spec_batch_count(a as nat, b as nat),
{
    if a <= b {
        a
    } else {
        b
    }
}

/// The 64-bit forms of a sequence of keys.
pub open spec fn key_bits<K: KeyBits>(keys: Seq<K>) -> Seq<u64> {
    Seq::new(keys.len(), |i: int| keys[i].bits())
}

/// Whether every one of `keys` is alive in `m`.
pub open spec fn all_live(m: Map<u64, u64>, keys: Seq<u64>) -> bool {
    forall|i: int| 0 <= i < keys.len() ==> m.contains_key(#[trigger] keys[i])
}

/// The native ids that `m` holds for `keys`, in their order.
pub open spec fn ids_of(m: Map<u64, u64>, keys: Seq<u64>) -> Seq<u64> {
    Seq::new(keys.len(), |i: int| m[keys[i]])
}

/// Whether `after` is `before` with `ids` added under `keys`, one id under
/// one key, every key new and no two the same, and nothing else changed.
pub open spec fn registered(
    before: Map<u64, u64>,
    after: Map<u64, u64>,
    keys: Seq<u64>,
    ids: Seq<u64>,
) -> bool {
    &&& keys.len() == ids.len()
    &&& keys.no_duplicates()
    &&& forall|i: int|
        0 <= i < keys.len() ==> !before.contains_key(#[trigger] keys[i]) && after.contains_key(
            keys[i],
        ) && after[keys[i]] == ids[i]
    &&& forall|k: u64| #[trigger]
        before.contains_key(k) ==> after.contains_key(k) && after[k] == before[k]
    &&& forall|k: u64| #[trigger] after.contains_key(k) ==> before.contains_key(k) || keys.contains(k)
}

/// What is left of `m`, and which native ids come out, when `keys` are removed
/// one after the other: a key that is not alive when its turn comes, because
/// it never was or because it stands twice in `keys`, gives no id.
pub open spec fn removed(m: Map<u64, u64>, keys: Seq<u64>) -> (Map<u64, u64>, Seq<u64>)
    decreases keys.len(),
{
    if keys.len() == 0 {
        (m, Seq::<u64>::empty())
    } else {
        let (rest, ids) = removed(m, keys.drop_last());
        let k = keys.last();
        if rest.contains_key(k) {
            (rest.remove(k), ids.push(rest[k]))
        } else {
            (rest, ids)
        }
    }
}

/// The keys of a batch that are alive in `m`, which are those that its removal
/// takes out.
pub open spec fn retired_by(m: Map<u64, u64>, keys: Seq<u64>) -> Set<u64> {
    Set::new(|k: u64| keys.contains(k) && m.contains_key(k))
}

/// What a registry remembers after `keys` were removed from `m`: what it
/// remembered, and the keys that were taken out.
pub open spec fn history_after(history: History, m: Map<u64, u64>, keys: Seq<u64>) -> History {
    History { retired: history.retired.union(retired_by(m, keys)) }
}

/// Looks up the first `count` of `keys`. Fails with `InvalidKey` exactly when
/// one of them is not alive.
pub fn resolve_all<K: KeyBits>(reg: &Registry<u64>, keys: &[K], count: usize) -> (r: Result<
    Vec<u64>,
    Error,
>)
    requires
        reg.wf(),
        count <= keys@.len(),
    ensures
        match r {
            Ok(ids) => all_live(reg@, key_bits(keys@.take(count as int))) && ids@ == ids_of(
                reg@,
                key_bits(keys@.take(count as int)),
            ),
            Err(e) => e == Error::InvalidKey && !all_live(
                reg@,
                key_bits(keys@.take(count as int)),
            ),
        },
{
    let ghost bits = key_bits(keys@.take(count as int));
    let mut ids: Vec<u64> = Vec::new();
    let mut i: usize = 0;
    while i < count
        invariant
            reg.wf(),
            i <= count <= keys@.len(),
            bits == key_bits(keys@.take(count as int)),
            ids@.len() == i,
            forall|j: int|
                0 <= j < i ==> reg@.contains_key(#[trigger] bits[j]) && ids@[j] == reg@[bits[j]],
        decreases count - i,
    {
        assert(bits[i as int] == keys@[i as int].bits());
        match reg.get(keys[i].as_ffi()) {
            Some(id) => {
                ids.push(*id);
            },
            None => {
                return Err(Error::InvalidKey);
            },
        }
        i += 1;
    }
    assert(ids@ =~= ids_of(reg@, bits));
    Ok(ids)
}

/// Stores the first `count` of `ids`, each under a key of its own, and gives
/// the keys in the order of the ids. While the registry is young, none of the
/// keys was ever handed out before.
pub fn register_all<K: KeyBits>(reg: &mut Registry<u64>, ids: &[u64], count: usize) -> (keys: Vec<
    K,
>)
    requires
        old(reg).wf(),
        count <= ids@.len(),
        old(reg)@.len() + count <= MAX_ENTRIES,
    ensures
        final(reg).wf(),
        registered(old(reg)@, final(reg)@, key_bits(keys@), ids@.take(count as int)),
        final(reg).history() == old(reg).history(),
        old(reg).history().is_young() ==> forall|i: int|
            0 <= i < keys@.len() ==> !old(reg).history().retired.contains(
                #[trigger] key_bits(keys@)[i],
            ),
{
    let ghost before = reg@;
    let mut keys: Vec<K> = Vec::new();
    let mut i: usize = 0;
    proof {
        reg.lemma_wf();
    }
    while i < count
        invariant
            reg.wf(),
            before.dom().finite(),
            i <= count <= ids@.len(),
            before.len() + count <= MAX_ENTRIES,
            reg@.len() == before.len() + i,
            keys@.len() == i,
            registered(before, reg@, key_bits(keys@), ids@.take(i as int)),
            reg.history() == old(reg).history(),
            old(reg).history().is_young() ==> forall|j: int|
                0 <= j < keys@.len() ==> !old(reg).history().retired.contains(
                    #[trigger] key_bits(keys@)[j],
                ),
        decreases count - i,
    {
        let ghost prev = reg@;
        let ghost prev_bits = key_bits(keys@);
        proof {
            reg.lemma_wf();
        }
        let bits = reg.insert(ids[i]);
        keys.push(K::from_ffi(bits));
        proof {
            let now_bits = key_bits(keys@);
            assert(now_bits =~= prev_bits.push(bits));
            assert(ids@.take(i as int + 1) =~= ids@.take(i as int).push(ids@[i as int]));
            assert(!prev_bits.contains(bits)) by {
                if prev_bits.contains(bits) {
                    let j = choose|j: int| 0 <= j < prev_bits.len() && prev_bits[j] == bits;
                    assert(prev.contains_key(prev_bits[j]));
                }
            }
            assert(now_bits.no_duplicates());
            assert forall|k: u64| #[trigger] reg@.contains_key(k) implies before.contains_key(k)
                || now_bits.contains(k) by {
                if k == bits {
                    assert(now_bits[i as int] == bits);
                } else {
                    assert(prev.contains_key(k));
                    if !before.contains_key(k) {
                        let j = choose|j: int| 0 <= j < prev_bits.len() && prev_bits[j] == k;
                        assert(now_bits[j] == k);
                    }
                }
            }
            assert(reg@.dom() =~= prev.dom().insert(bits));
        }
        i += 1;
    }
    assert(ids@.take(count as int) == ids@.take(i as int));
    keys
}

/// Takes `keys` out one after the other and gives the native ids of those that
/// were alive when their turn came.
pub fn remove_all<K: KeyBits>(reg: &mut Registry<u64>, keys: &[K]) -> (ids: Vec<u64>)
    requires
        old(reg).wf(),
    ensures
        final(reg).wf(),
        (final(reg)@, ids@) == removed(old(reg)@, key_bits(keys@)),
        final(reg).history() == history_after(old(reg).history(), old(reg)@, key_bits(keys@)),
{
    let ghost before = reg@;
    let ghost bits = key_bits(keys@);
    let mut ids: Vec<u64> = Vec::new();
    let mut i: usize = 0;
    proof {
        assert(retired_by(before, bits.take(0)) =~= Set::<u64>::empty());
        assert(reg.history().retired.union(Set::<u64>::empty()) =~= reg.history().retired);
    }
    while i < keys.len()
        invariant
            reg.wf(),
            i <= keys@.len(),
            bits == key_bits(keys@),
            (reg@, ids@) == removed(before, bits.take(i as int)),
            reg.history() == history_after(old(reg).history(), before, bits.take(i as int)),
        decreases keys@.len() - i,
    {
        let ghost done = bits.take(i as int);
        let ghost next = bits.take(i as int + 1);
        let ghost k = keys@[i as int].bits();
        proof {
            assert(next.drop_last() =~= done);
            assert(next.last() == k);
            lemma_removed_keys_are_gone(before, done);
            assert forall|x: u64| next.contains(x) <==> done.contains(x) || x == k by {
                if done.contains(x) {
                    let j = choose|j: int| 0 <= j < done.len() && done[j] == x;
                    assert(next[j] == x);
                }
                if x == k {
                    assert(next[i as int] == x);
                }
                if next.contains(x) && x != k {
                    let j = choose|j: int| 0 <= j < next.len() && next[j] == x;
                    assert(done[j] == x);
                }
            }
            if reg@.contains_key(k) {
                assert(retired_by(before, next) =~= retired_by(before, done).insert(k));
            } else {
                assert(before.contains_key(k) ==> done.contains(k)) by {
                    if before.contains_key(k) && !done.contains(k) {
                        assert(removed(before, done).0.get(k) == before.get(k));
                    }
                }
                assert(retired_by(before, next) =~= retired_by(before, done));
            }
            assert(old(reg).history().retired.union(retired_by(before, done)).insert(k)
                =~= old(reg).history().retired.union(retired_by(before, done).insert(k)));
        }
        match reg.remove(keys[i].as_ffi()) {
            Some(id) => {
                ids.push(id);
            },
            None => {
                assert(reg@ =~= removed(before, done).0);
            },
        }
        i += 1;
    }
    assert(bits.take(i as int) =~= bits);
    ids
}

} // verus!
