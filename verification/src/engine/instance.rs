//! The registry of engine instances. It issues the handles, one after the
//! other from zero, and finds the engine that a handle stands for. An engine
//! stays in the registry for good: disconnecting changes its state, not its
//! handle.
//!
//! The engines stand in a vector that only grows. An integer map takes a
//! handle to the place of its engine there.

use crate::engine::state::{Engine, EngineModel};
use intmap::IntMap;
use vstd::prelude::*;

verus! {

/// `intmap::IntMap`, a hash map with integers for keys. Nothing is known of
/// what is inside but what the functions below say.
#[verifier::external_type_specification]
#[verifier::external_body]
#[verifier::reject_recursive_types(V)]
pub struct ExIntMap<V>(IntMap<V>);

/// What an `IntMap` holds: the value under each key that is in it.
pub uninterp spec fn index_entries(index: IntMap<usize>) -> Map<u64, usize>;

/// `IntMap::new`: a map without entries.
#[verifier::external_body]
fn index_new() -> (index: IntMap<usize>)
    ensures
        index_entries(index).dom() == Set::<u64>::empty(),
{
    IntMap::new()
}

/// `IntMap::insert`: afterwards the map holds `value` under `key` and is
/// otherwise as before; the value that was under `key` is handed back.
///
/// The map works out its load as a thousand times the number of its entries,
/// which therefore has to fit the machine word.
#[verifier::external_body]
fn index_insert(index: &mut IntMap<usize>, key: u64, value: usize) -> (previous: Option<usize>)
    requires
        index_entries(*old(index)).dom().finite(),
        (index_entries(*old(index)).dom().len() + 1) * 1000 <= usize::MAX,
    ensures
        index_entries(*final(index)) == index_entries(*old(index)).insert(key, value),
        previous == if index_entries(*old(index)).dom().contains(key) {
            Some(index_entries(*old(index))[key])
        } else {
            None
        },
{
    index.insert(key, value)
}

/// `IntMap::get`: the value under `key`, if the map holds one.
#[verifier::external_body]
fn index_get(index: &IntMap<usize>, key: u64) -> (value: Option<usize>)
    ensures
        value == if index_entries(*index).dom().contains(key) {
            Some(index_entries(*index)[key])
        } else {
            None
        },
{
    index.get(key).copied()
}

/// The number of engines that a registry takes.
pub open spec fn spec_capacity() -> int {
    usize::MAX as int / 1000
}

/// The number of engines that a registry takes.
pub fn capacity() -> (limit: usize)
    ensures
        limit == spec_capacity(),
{
    usize::MAX / 1000
}

/// The engines of one process, each under the handle issued for it.
pub struct Registry<S, Q, X> {
    /// For each handle issued, the slot of its engine.
    index: IntMap<usize>,
    /// The engines, in the order in which they were inserted.
    engines: Vec<Engine<S, Q, X>>,
    /// The handle to issue next.
    next_id: i64,
}

impl<S, Q, X> View for Registry<S, Q, X> {
    type V = Seq<EngineModel<S, Q, X>>;

    /// The states of the engines, each at the position that is its handle.
    closed spec fn view(&self) -> Seq<EngineModel<S, Q, X>> {
        Seq::new(self.engines@.len(), |i: int| self.engines@[i]@)
    }
}

impl<S, Q, X> Registry<S, Q, X> {
    /// Whether the index and the engines agree: the handles issued are the
    /// positions of the engines. It holds of every registry that `new` made
    /// and that went through the functions of this module since.
    pub closed spec fn wf(&self) -> bool {
        &&& self.next_id == self.engines@.len()
        &&& self.engines@.len() <= spec_capacity()
        &&& index_entries(self.index).dom().finite()
        &&& index_entries(self.index).dom().len() == self.engines@.len()
        &&& forall|key: u64|
            index_entries(self.index).dom().contains(key) <==> key < self.engines@.len()
        &&& forall|key: u64|
            key < self.engines@.len() ==> #[trigger] index_entries(self.index)[key] == key
    }

    /// Whether `handle` was issued by this registry.
    pub open spec fn contains(&self, handle: i64) -> bool {
        0 <= handle < self@.len()
    }

    /// A registry without engines.
    pub fn new() -> (registry: Self)
        ensures
            registry.wf(),
            registry@.len() == 0,
    {
        Registry { index: index_new(), engines: Vec::new(), next_id: 0 }
    }

    /// The number of engines in the registry.
    pub fn len(&self) -> (len: usize)
        requires
            self.wf(),
        ensures
            len == self@.len(),
            len <= spec_capacity(),
    {
        self.engines.len()
    }

    /// Whether the registry has taken as many engines as it can.
    pub fn is_full(&self) -> (full: bool)
        ensures
            full == (self@.len() >= spec_capacity()),
    {
        self.engines.len() >= capacity()
    }

    /// The engine that `handle` stands for, if it was issued.
    pub fn get(&self, handle: i64) -> (found: Option<&Engine<S, Q, X>>)
        requires
            self.wf(),
        ensures
            match found {
                Some(engine) => self.contains(handle) && engine@ == self@[handle as int],
                None => !self.contains(handle),
            },
    {
        if handle < 0 {
            return None;
        }
        match index_get(&self.index, handle as u64) {
            Some(slot) => Some(&self.engines[slot]),
            None => None,
        }
    }

    /// The engine that `handle` stands for, if it was issued, to work on in
    /// place. The other engines stay as they are.
    pub fn get_mut(&mut self, handle: i64) -> (found: Option<&mut Engine<S, Q, X>>)
        requires
            old(self).wf(),
        ensures
            final(self).wf(),
            old(self).contains(handle) ==> found.is_some() && found.unwrap()@ == old(self)@[handle as int]
                && final(self)@ == old(self)@.update(handle as int, final(found.unwrap())@),
            !old(self).contains(handle) ==> found.is_none() && final(self)@ == old(self)@,
    {
        if handle < 0 {
            return None;
        }
        match index_get(&self.index, handle as u64) {
            Some(slot) => Some(&mut self.engines[slot]),
            None => None,
        }
    }
}

/// Inserts an engine into the registry and returns the handle issued for it:
/// the number of engines inserted before.
pub fn insert<S, Q, X>(registry: &mut Registry<S, Q, X>, engine: Engine<S, Q, X>) -> (id: i64)
    requires
        old(registry).wf(),
        old(registry)@.len() < spec_capacity(),
    ensures
        final(registry).wf(),
        id == old(registry)@.len(),
        final(registry)@ == old(registry)@.push(engine@),
{
    let id = registry.next_id;
    let slot = registry.engines.len();
    let ghost entries = index_entries(registry.index);
    index_insert(&mut registry.index, id as u64, slot);
    registry.engines.push(engine);
    registry.next_id = id + 1;
    proof {
        assert(index_entries(registry.index).dom() =~= entries.dom().insert(id as u64));
    }
    id
}

} // verus!
