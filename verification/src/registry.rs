//! Registries: key-indexed collections whose keys carry a generation, so that
//! a key that has been removed is found out instead of resolved.
//!
//! The keys are handed out by a slot map; the values are stored under the
//! key's 64-bit form.
use slotmap::Key;
use std::collections::hash_map::Entry;
use std::collections::HashMap;
use vstd::prelude::*;

verus! {

broadcast use vstd::std_specs::hash::group_hash_axioms;

/// A slot map that is kept for its keys alone.
#[verifier::external_body]
pub struct KeySlots {
    inner: slotmap::SlotMap<slotmap::DefaultKey, ()>,
}

/// The most keys a registry holds at a time.
pub const MAX_ENTRIES: usize = 0xFFFF_FFFE;

/// The keys that are live in a slot map, each by its 64-bit form: the slot's
/// index in the low half, the slot's version in the high half.
pub uninterp spec fn slot_keys(m: KeySlots) -> Set<u64>;

/// The keys that were ever removed from a slot map, each by its 64-bit form.
pub uninterp spec fn slot_retired(m: KeySlots) -> Set<u64>;

/// The number of removed keys below which a slot map hands no key out a
/// second time: the version of a slot comes round after as many removals from
/// it, each of another key.
pub const MAX_RETIRED: u64 = 0x8000_0000;

/// What a registry remembers of the keys that it took out.
pub struct History {
    pub retired: Set<u64>,
}

impl History {
    /// The history of a registry that took no key out yet.
    pub open spec fn empty() -> History {
        History { retired: Set::empty() }
    }

    /// The history after `key` was taken out.
    pub open spec fn with(self, key: u64) -> History {
        History { retired: self.retired.insert(key) }
    }

    /// Whether so few keys were taken out that none is handed out a second
    /// time yet.
    pub open spec fn is_young(self) -> bool {
        self.retired.finite() && self.retired.len() < MAX_RETIRED
    }
}

/// Whether `bits` is the 64-bit form of a key: the version of an occupied slot
/// is odd.
pub open spec fn is_key(bits: u64) -> bool {
    bits & 0x1_0000_0000 != 0
}

/// The index of the slot that a key names.
pub open spec fn slot_index(bits: u64) -> u64 {
    bits & 0xFFFF_FFFF
}

/// `SlotMap::new`: a slot map without keys, from which none was removed.
#[verifier::external_body]
fn slots_new() -> (m: KeySlots)
    ensures
        slot_keys(m) == Set::<u64>::empty(),
        slot_retired(m) == Set::<u64>::empty(),
{
    KeySlots { inner: slotmap::SlotMap::new() }
}

/// `SlotMap::len`: the number of live keys.
#[verifier::external_body]
fn slots_len(m: &KeySlots) -> (n: usize)
    ensures
        n == slot_keys(*m).len(),
{
    m.inner.len()
}

/// `SlotMap::insert`, with `KeyData::as_ffi` on the key it returns: the key
/// was not live before and is live afterwards, and no other key is touched.
/// The slot map panics when it is full, which it is with `MAX_ENTRIES` live
/// keys. A key that was removed is not handed out again before the version of
/// its slot has come round, which takes the removal of `MAX_RETIRED` keys from
/// that slot.
#[verifier::external_body]
fn slots_insert(m: &mut KeySlots) -> (key: u64)
    requires
        slot_keys(*old(m)).finite(),
        slot_keys(*old(m)).len() < MAX_ENTRIES,
    ensures
        is_key(key),
        !slot_keys(*old(m)).contains(key),
        slot_keys(*final(m)) == slot_keys(*old(m)).insert(key),
        slot_retired(*old(m)).finite() && slot_retired(*old(m)).len() < MAX_RETIRED
            ==> !slot_retired(*old(m)).contains(key),
        slot_retired(*final(m)) == slot_retired(*old(m)),
{
    m.inner.insert(()).data().as_ffi()
}

/// `SlotMap::remove`, with `KeyData::from_ffi` on the key: tells whether the
/// key was live, and it is not live afterwards. A key that was live is
/// remembered.
#[verifier::external_body]
fn slots_remove(m: &mut KeySlots, key: u64) -> (was_live: bool)
    requires
        is_key(key),
    ensures
        was_live == slot_keys(*old(m)).contains(key),
        slot_keys(*final(m)) == slot_keys(*old(m)).remove(key),
        slot_retired(*final(m)) == (if was_live {
            slot_retired(*old(m)).insert(key)
        } else {
            slot_retired(*old(m))
        }),
{
    m.inner.remove(slotmap::KeyData::from_ffi(key).into()).is_some()
}

/// `SlotMap::keys`, with `KeyData::as_ffi` on each key: the live keys, by
/// rising slot index.
#[verifier::external_body]
fn slots_keys(m: &KeySlots) -> (keys: Vec<u64>)
    ensures
        keys@.to_set() == slot_keys(*m),
        forall|i: int, j: int|
            0 <= i < j < keys@.len() ==> slot_index(#[trigger] keys@[i]) < slot_index(
                #[trigger] keys@[j],
            ),
{
    m.inner.keys().map(|k| k.data().as_ffi()).collect()
}

/// A registry of values of type `V`.
pub struct Registry<V> {
    slots: KeySlots,
    items: HashMap<u64, V>,
}

impl<V> Registry<V> {
    /// The registry as a map from the 64-bit form of each live key to its value.
    pub closed spec fn view(&self) -> Map<u64, V> {
        self.items@
    }

    /// What the registry remembers of the keys that it took out.
    pub closed spec fn history(&self) -> History {
        History { retired: slot_retired(self.slots) }
    }

    /// The slot map and the store agree on which keys are live, and no key
    /// that was taken out is alive while the registry is young.
    pub closed spec fn wf(&self) -> bool {
        &&& slot_keys(self.slots) == self.items@.dom()
        &&& self.items@.dom().finite()
        &&& forall|k: u64| #[trigger] self.items@.contains_key(k) ==> is_key(k)
        &&& self.history().retired.finite()
        &&& self.history().is_young() ==> self.history().retired.disjoint(self.items@.dom())
    }

    /// A registry holds finitely many keys, and while it is young, a key that
    /// it took out names nothing.
    pub proof fn lemma_wf(&self)
        requires
            self.wf(),
        ensures
            self@.dom().finite(),
            self.history().retired.finite(),
            self.history().is_young() ==> forall|k: u64| #[trigger]
                self.history().retired.contains(k) ==> !self@.contains_key(k),
    {
    }

    /// A registry without keys.
    pub fn new() -> (r: Self)
        ensures
            r.wf(),
            r@ == Map::<u64, V>::empty(),
            r.history() == History::empty(),
    {
        let r = Registry { slots: slots_new(), items: HashMap::new() };
        assert(r.items@.dom() =~= Set::<u64>::empty());
        r
    }

    /// The number of keys that are alive.
    pub fn len(&self) -> (n: usize)
        requires
            self.wf(),
        ensures
            n == self@.len(),
    {
        slots_len(&self.slots)
    }

    /// Tells whether `key` names a value that is alive here.
    pub fn contains_key(&self, key: u64) -> (live: bool)
        requires
            self.wf(),
        ensures
            live == self@.contains_key(key),
    {
        self.items.contains_key(&key)
    }

    /// Stores a value under a key that names nothing before the call, and
    /// that was never handed out before while the registry is young.
    pub fn insert(&mut self, value: V) -> (key: u64)
        requires
            old(self).wf(),
            old(self)@.len() < MAX_ENTRIES,
        ensures
            final(self).wf(),
            !old(self)@.contains_key(key),
            final(self)@ == old(self)@.insert(key, value),
            old(self).history().is_young() ==> !old(self).history().retired.contains(key),
            final(self).history() == old(self).history(),
    {
        let key = slots_insert(&mut self.slots);
        self.items.insert(key, value);
        key
    }

    /// Takes the value of `key` out, if it is alive. The key names nothing
    /// afterwards.
    pub fn remove(&mut self, key: u64) -> (value: Option<V>)
        requires
            old(self).wf(),
        ensures
            final(self).wf(),
            value == old(self)@.get(key),
            final(self)@ == old(self)@.remove(key),
            final(self).history() == (if old(self)@.contains_key(key) {
                old(self).history().with(key)
            } else {
                old(self).history()
            }),
    {
        match self.items.remove(&key) {
            Some(value) => {
                let _ = slots_remove(&mut self.slots, key);
                Some(value)
            },
            None => {
                assert(self.items@ =~= old(self).items@);
                None
            },
        }
    }

    /// The value of `key`, if it is alive.
    pub fn get(&self, key: u64) -> (value: Option<&V>)
        requires
            self.wf(),
        ensures
            match value {
                Some(v) => self@.contains_key(key) && *v == self@[key],
                None => !self@.contains_key(key),
            },
    {
        self.items.get(&key)
    }

    /// The value of `key`, if it is alive, to be changed in place. No key is
    /// added or removed by that.
    pub fn get_mut(&mut self, key: u64) -> (value: Option<&mut V>)
        requires
            old(self).wf(),
        ensures
            final(self).wf(),
            final(self).history() == old(self).history(),
            match value {
                Some(v) => old(self)@.contains_key(key) && *v == old(self)@[key] && final(self)@
                    == old(self)@.insert(key, *final(v)),
                None => !old(self)@.contains_key(key) && final(self)@ == old(self)@,
            },
    {
        let ghost before = self.items@;
        proof {
            assert(before.remove(key).dom() =~= before.dom().remove(key));
            assert forall|x: V| before.contains_key(key) implies (#[trigger] before.insert(
                key,
                x,
            )).dom() =~= before.dom() by {}
            if !before.contains_key(key) {
                assert(before.remove(key) =~= before);
            }
        }
        match self.items.entry(key) {
            Entry::Occupied(e) => Some(e.into_mut()),
            Entry::Vacant(_) => None,
        }
    }

    /// The keys that are alive, each once, by rising slot index.
    pub fn keys(&self) -> (keys: Vec<u64>)
        requires
            self.wf(),
        ensures
            keys@.no_duplicates(),
            keys@.to_set() == self@.dom(),
            forall|i: int, j: int|
                0 <= i < j < keys@.len() ==> slot_index(#[trigger] keys@[i]) < slot_index(
                    #[trigger] keys@[j],
                ),
    {
        slots_keys(&self.slots)
    }
}

} // verus!
