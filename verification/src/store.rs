//! The named widget store: a mapping from user-chosen names to widgets.

use crate::handle::Handle;
use vstd::hash_map::StringHashMap;
use vstd::prelude::*;

verus! {

/// What is stored under `name` in `entries`, if anything.
pub open spec fn lookup(entries: Map<Seq<char>, Handle>, name: Seq<char>) -> Option<Handle> {
    if entries.contains_key(name) {
        Some(entries[name])
    } else {
        None
    }
}

/// A mapping from names to widgets.
///
/// Each name holds at most one widget; storing under a name that is in use
/// replaces what was there. Nothing is ever evicted: an entry stays until it
/// is replaced or the whole store is cleared. The view of a store is the
/// mapping itself.
pub struct WidgetStore {
    entries: StringHashMap<Handle>,
}

impl View for WidgetStore {
    type V = Map<Seq<char>, Handle>;

    closed spec fn view(&self) -> Map<Seq<char>, Handle> {
        self.entries@
    }
}

impl WidgetStore {
    /// A store that holds nothing.
    pub fn new() -> (store: WidgetStore)
        ensures
            store@ == Map::<Seq<char>, Handle>::empty(),
    {
        WidgetStore { entries: StringHashMap::new() }
    }

    /// Stores `widget` under `name` and returns what was stored there before,
    /// if anything. Every other name keeps what it had.
    pub fn store(&mut self, name: String, widget: Handle) -> (previous: Option<Handle>)
        ensures
            final(self)@ == old(self)@.insert(name@, widget),
            previous == lookup(old(self)@, name@),
    {
        let previous = self.load(name.as_str());
        self.entries.insert(name, widget);
        previous
    }

    /// The widget stored under `name`, if there is one.
    pub fn load(&self, name: &str) -> (found: Option<Handle>)
        ensures
            found == lookup(self@, name@),
    {
        match self.entries.get(name) {
            Some(widget) => Some(*widget),
            None => None,
        }
    }

    /// Forgets every entry.
    pub fn clear(&mut self)
        ensures
            final(self)@ == Map::<Seq<char>, Handle>::empty(),
    {
        self.entries.clear();
    }
}

/// A widget stored under a name is what a later lookup of that name finds.
pub proof fn lemma_store_then_load(entries: Map<Seq<char>, Handle>, name: Seq<char>, widget: Handle)
    ensures
        lookup(entries.insert(name, widget), name) == Some(widget),
{
}

/// Storing a second widget under a name that is in use hands back the first
/// one and puts the second in its place.
pub proof fn lemma_store_replaces(
    entries: Map<Seq<char>, Handle>,
    name: Seq<char>,
    first: Handle,
    second: Handle,
)
    ensures
        lookup(entries.insert(name, first), name) == Some(first),
        lookup(entries.insert(name, first).insert(name, second), name) == Some(second),
        entries.insert(name, first).insert(name, second) == entries.insert(name, second),
{
    assert(entries.insert(name, first).insert(name, second) =~= entries.insert(name, second));
}

/// Storing under one name leaves every other name as it was.
pub proof fn lemma_store_keeps_others(
    entries: Map<Seq<char>, Handle>,
    name: Seq<char>,
    widget: Handle,
    other: Seq<char>,
)
    requires
        other != name,
    ensures
        lookup(entries.insert(name, widget), other) == lookup(entries, other),
{
}

/// An empty store finds nothing under any name.
pub proof fn lemma_empty_finds_nothing(name: Seq<char>)
    ensures
        lookup(Map::<Seq<char>, Handle>::empty(), name) is None,
{
}

} // verus!
