//! The state store: a map from execution identifier to lifecycle state with a
//! single writer whose changes reach readers only when they are published.
//!
//! The map itself is an `evmap` of strings. Each key of an `evmap` holds a bag
//! of values; this module keeps every bag at exactly one state name, so that
//! the map reads as a plain map from identifier to state.

use crate::state::{names_are_distinct, ExecutionState};
use std::collections::hash_map::RandomState;
use std::hash::{BuildHasher, Hash};
use vstd::multiset::Multiset;
use vstd::prelude::*;

verus! {

#[verifier::external_type_specification]
#[verifier::external_body]
#[verifier::reject_recursive_types(K)]
#[verifier::reject_recursive_types(V)]
#[verifier::reject_recursive_types(M)]
#[verifier::reject_recursive_types(S)]
pub struct ExReadHandle<K, V, M, S>(evmap::ReadHandle<K, V, M, S>) where
    K: Eq + Hash,
    S: BuildHasher,
;

/// The writing half of an `evmap` from strings to strings. It holds the
/// `evmap::WriteHandle`, whose bound on `evmap::ShallowCopy` keeps the handle
/// itself from being declared.
#[verifier::external_body]
pub struct WriteHalf {
    handle: evmap::WriteHandle<String, String, (), RandomState>,
}

/// The bags that the map holds once every write accepted so far is applied,
/// published or not.
pub uninterp spec fn pending_bags(half: WriteHalf) -> Map<Seq<char>, Multiset<Seq<char>>>;

/// The bags that a read of the map finds: those of the last publish.
pub uninterp spec fn visible_bags(half: WriteHalf) -> Map<Seq<char>, Multiset<Seq<char>>>;

/// The map that holds no bag at all.
pub open spec fn no_bags() -> Map<Seq<char>, Multiset<Seq<char>>> {
    Map::empty()
}

/// The bag stored under `key`, empty where the key is absent.
pub open spec fn bag_at(bags: Map<Seq<char>, Multiset<Seq<char>>>, key: Seq<char>) -> Multiset<
    Seq<char>,
> {
    if bags.dom().contains(key) {
        bags[key]
    } else {
        Multiset::empty()
    }
}

/// Calls `evmap::new`. A fresh map holds nothing and shows nothing: the
/// crate's documentation has every lookup return `None` until values are
/// written and published.
#[verifier::external_body]
fn open_map() -> (halves: (evmap::ReadHandle<String, String, (), RandomState>, WriteHalf))
    ensures
        pending_bags(halves.1) == no_bags(),
        visible_bags(halves.1) == no_bags(),
{
    let (reader, writer) = evmap::new();
    (reader, WriteHalf { handle: writer })
}

/// Calls `WriteHandle::insert`, which adds the value to the bag of the key,
/// starting a bag where the key had none. Readers see nothing of it yet.
#[verifier::external_body]
fn bag_insert(half: &mut WriteHalf, key: &str, value: &str)
    ensures
        pending_bags(*final(half)) == pending_bags(*old(half)).insert(
            key@,
            bag_at(pending_bags(*old(half)), key@).insert(value@),
        ),
        visible_bags(*final(half)) == visible_bags(*old(half)),
{
    half.handle.insert(key.to_string(), value.to_string());
}

/// Calls `WriteHandle::empty`, which removes the key together with its bag.
/// Readers see nothing of it yet.
#[verifier::external_body]
fn bag_empty(half: &mut WriteHalf, key: &str)
    ensures
        pending_bags(*final(half)) == pending_bags(*old(half)).remove(key@),
        visible_bags(*final(half)) == visible_bags(*old(half)),
{
    half.handle.empty(key.to_string());
}

/// Calls `WriteHandle::refresh`, which makes every write accepted so far
/// visible to readers at once.
#[verifier::external_body]
fn bag_refresh(half: &mut WriteHalf)
    ensures
        pending_bags(*final(half)) == pending_bags(*old(half)),
        visible_bags(*final(half)) == pending_bags(*old(half)),
{
    half.handle.refresh();
}

/// Calls `ReadHandle::get_one` through the write handle, which reads the map
/// that this handle last published. It returns one value of the key's bag, no
/// matter which, and `None` where the key is absent or its bag is empty.
#[verifier::external_body]
fn bag_get_one(half: &WriteHalf, key: &str) -> (found: Option<String>)
    ensures
        match found {
            Some(value) => visible_bags(*half).dom().contains(key@) && visible_bags(*half)[key@].count(
                value@,
            ) > 0,
            None => bag_at(visible_bags(*half), key@).len() == 0,
        },
{
    half.handle.get_one(key).map(|guard| guard.to_string())
}

/// Calls `ReadHandle::get_one` on a reader's own handle. What it finds depends
/// on what the writer has published by the time of the call, so nothing is
/// claimed of the result.
#[verifier::external_body]
fn shared_get_one(handle: &evmap::ReadHandle<String, String, (), RandomState>, key: &str) -> (found:
    Option<String>)
{
    handle.get_one(key).map(|guard| guard.to_string())
}

/// `ReadHandle::clone` registers one more reader of the same map. What the
/// copy finds depends, like every read, on what the writer has published, so
/// nothing is claimed of it.
pub assume_specification<K, V, M, S>[ <evmap::ReadHandle<K, V, M, S> as Clone>::clone ](
    handle: &evmap::ReadHandle<K, V, M, S>,
) -> (copy: evmap::ReadHandle<K, V, M, S>) where K: Eq + Hash, S: BuildHasher
;

/// The state that a bag stands for: the one whose name is its only value.
spec fn state_of_bag(bag: Multiset<Seq<char>>) -> Option<ExecutionState> {
    if bag == Multiset::singleton(ExecutionState::Queued.name()) {
        Some(ExecutionState::Queued)
    } else if bag == Multiset::singleton(ExecutionState::Running.name()) {
        Some(ExecutionState::Running)
    } else if bag == Multiset::singleton(ExecutionState::Succeeded.name()) {
        Some(ExecutionState::Succeeded)
    } else {
        None
    }
}

/// Every bag holds exactly one value, the name of a state.
spec fn well_kept(bags: Map<Seq<char>, Multiset<Seq<char>>>) -> bool {
    forall|key: Seq<char>| bags.dom().contains(key) ==> (#[trigger] state_of_bag(bags[key])) is Some
}

/// The records that well-kept bags stand for.
spec fn records_of(bags: Map<Seq<char>, Multiset<Seq<char>>>) -> Map<
    Seq<char>,
    ExecutionState,
> {
    Map::new(|key: Seq<char>| bags.dom().contains(key), |key: Seq<char>| state_of_bag(bags[key])->0)
}

/// The record of `id`, `None` standing for "no record".
pub open spec fn lookup(records: Map<Seq<char>, ExecutionState>, id: Seq<char>) -> Option<
    ExecutionState,
> {
    if records.dom().contains(id) {
        Some(records[id])
    } else {
        None
    }
}

proof fn lemma_bag_of_name(state: ExecutionState)
    ensures
        state_of_bag(Multiset::singleton(state.name())) == Some(state),
        Multiset::<Seq<char>>::empty().insert(state.name()) == Multiset::singleton(state.name()),
{
    let bag = Multiset::singleton(state.name());
    assert(Multiset::<Seq<char>>::empty().insert(state.name()) =~= bag);
    assert forall|other: ExecutionState| other != state implies bag != Multiset::singleton(
        other.name(),
    ) by {
        names_are_distinct(state, other);
        assert(bag.count(state.name()) == 1);
        assert(Multiset::singleton(other.name()).count(state.name()) == 0);
    }
}

proof fn lemma_member_is_name(bag: Multiset<Seq<char>>, value: Seq<char>)
    requires
        state_of_bag(bag) is Some,
        bag.count(value) > 0,
    ensures
        value == state_of_bag(bag)->0.name(),
{
    let state = state_of_bag(bag)->0;
    assert(bag == Multiset::singleton(state.name()));
    if value != state.name() {
        assert(Multiset::singleton(state.name()).count(value) == 0);
    }
}

/// The single writer of the store.
///
/// A write replaces the pending record of one identifier; `publish` makes all
/// pending records the published ones, which is what reads return.
pub struct StateWriter {
    half: WriteHalf,
}

/// A reader of the store, to be used while the writer runs elsewhere. A clone
/// is one more reader of the same store.
#[derive(Clone)]
pub struct StateReader {
    handle: evmap::ReadHandle<String, String, (), RandomState>,
}

/// Creates an empty store and hands out its two ends.
pub fn new_store() -> (ends: (StateReader, StateWriter))
    ensures
        ends.1.wf(),
        ends.1.pending() == Map::<Seq<char>, ExecutionState>::empty(),
        ends.1.published() == Map::<Seq<char>, ExecutionState>::empty(),
{
    let (handle, half) = open_map();
    let writer = StateWriter { half };
    assert(writer.pending() =~= Map::<Seq<char>, ExecutionState>::empty());
    assert(writer.published() =~= Map::<Seq<char>, ExecutionState>::empty());
    (StateReader { handle }, writer)
}

impl StateWriter {
    /// Every record, pending or published, is one state.
    pub closed spec fn wf(&self) -> bool {
        well_kept(pending_bags(self.half)) && well_kept(visible_bags(self.half))
    }

    /// The records as they stand with every write applied.
    pub closed spec fn pending(&self) -> Map<Seq<char>, ExecutionState> {
        records_of(pending_bags(self.half))
    }

    /// The records as of the last publish: what every read returns.
    pub closed spec fn published(&self) -> Map<Seq<char>, ExecutionState> {
        records_of(visible_bags(self.half))
    }

    /// The published record of `id`.
    pub fn read(&self, id: &str) -> (record: Option<ExecutionState>)
        requires
            self.wf(),
        ensures
            record == lookup(self.published(), id@),
    {
        match bag_get_one(&self.half, id) {
            Some(text) => {
                proof {
                    let bag = visible_bags(self.half)[id@];
                    assert(state_of_bag(bag) is Some);
                    lemma_member_is_name(bag, text@);
                    crate::state::name_round_trip(state_of_bag(bag)->0, text@);
                }
                ExecutionState::parse(text.as_str())
            },
            None => {
                proof {
                    if visible_bags(self.half).dom().contains(id@) {
                        let bag = visible_bags(self.half)[id@];
                        assert(state_of_bag(bag) is Some);
                        assert(bag.len() == 1);
                    }
                }
                None
            },
        }
    }

    /// Replaces the pending record of `id` by `state`, creating it where there
    /// was none. Reads do not see the change before the next `publish`.
    pub fn write(&mut self, id: &str, state: ExecutionState)
        requires
            old(self).wf(),
        ensures
            final(self).wf(),
            final(self).pending() == old(self).pending().insert(id@, state),
            final(self).published() == old(self).published(),
    {
        let name = state.to_name();
        bag_empty(&mut self.half, id);
        bag_insert(&mut self.half, id, name.as_str());
        proof {
            lemma_bag_of_name(state);
            let before = pending_bags(old(self).half);
            let after = pending_bags(self.half);
            assert(after == before.remove(id@).insert(id@, Multiset::singleton(state.name())));
            assert forall|key: Seq<char>| after.dom().contains(key) implies (
            #[trigger] state_of_bag(after[key])) is Some by {
                if key != id@ {
                    assert(before.dom().contains(key));
                    assert(state_of_bag(before[key]) is Some);
                }
            }
            assert(self.pending() =~= old(self).pending().insert(id@, state));
        }
    }

    /// Makes every write since the last publish visible to reads, all at once.
    pub fn publish(&mut self)
        requires
            old(self).wf(),
        ensures
            final(self).wf(),
            final(self).published() == old(self).pending(),
            final(self).pending() == old(self).pending(),
    {
        bag_refresh(&mut self.half);
    }
}

impl StateReader {
    /// The record of `id` that the writer had published when the read took
    /// place. A text in the map that names no state reads as no record.
    pub fn read(&self, id: &str) -> (record: Option<ExecutionState>) {
        record_from(shared_get_one(&self.handle, id))
    }
}

/// The record that a value found in the map stands for: the state that it
/// names, and no record where nothing was found or the text names no state.
pub open spec fn record_for(found: Option<Seq<char>>) -> Option<ExecutionState> {
    match found {
        Some(text) => ExecutionState::from_name(text),
        None => None,
    }
}

/// Turns what a lookup in the map found into a record.
pub fn record_from(found: Option<String>) -> (record: Option<ExecutionState>)
    ensures
        record == record_for(
            match found {
                Some(text) => Some(text@),
                None => None,
            },
        ),
{
    match found {
        Some(text) => ExecutionState::parse(text.as_str()),
        None => None,
    }
}

} // verus!
