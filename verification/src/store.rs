//! Load states of remotely fetched issues, keyed by issue number.
//! Entries appear when a fetch is dispatched and are overwritten, never
//! merged, on every completion: last write wins. Nothing is evicted
//! within a session.

use vstd::prelude::*;

use crate::github::{Issue, IssueNumber};

verus! {

/// Load state of one remotely fetched value: still pending, arrived, or
/// failed with a display message.
#[derive(Clone, Debug, PartialEq, Eq)]
pub enum FutureValue<T> {
    Pending,
    Ready(T),
    Error(String),
}

#[verifier::external_type_specification]
#[verifier::external_body]
#[verifier::reject_recursive_types(K)]
#[verifier::reject_recursive_types(V)]
#[verifier::reject_recursive_types(S)]
pub struct ExImHashMap<K, V, S>(im::HashMap<K, V, S>);

/// Relies on im::HashMap::clone: a persistent map, so a clone is the same
/// value.
pub assume_specification<K, V, S>[ <im::HashMap<K, V, S> as Clone>::clone ](m: &im::HashMap<
    K,
    V,
    S,
>) -> (r: im::HashMap<K, V, S>) where K: Clone, V: Clone
    ensures
        r == *m,
;

/// The persistent map the store is backed by.
pub type IssueMap = im::HashMap<u64, FutureValue<Issue>>;

/// The key-value contents of an issue map.
pub uninterp spec fn issue_map(m: IssueMap) -> Map<u64, FutureValue<Issue>>;

/// Relies on im::HashMap::new: an empty map.
#[verifier::external_body]
pub(crate) fn issue_map_new() -> (r: IssueMap)
    ensures
        (issue_map(r) == Map::<u64, FutureValue<Issue>>::empty()),
{
    im::HashMap::new()
}

/// Relies on im::HashMap::insert: maps the key to the value, replacing any
/// earlier entry for that key and leaving all others unchanged.
#[verifier::external_body]
pub(crate) fn issue_map_insert(m: &mut IssueMap, k: u64, v: FutureValue<Issue>)
    ensures
        issue_map(*final(m)) == issue_map(*old(m)).insert(k, v),
{
    m.insert(k, v);
}

/// Relies on im::HashMap::get: the value stored at the key, if present.
#[verifier::external_body]
pub(crate) fn issue_map_get<'a>(m: &'a IssueMap, k: u64) -> (r: Option<&'a FutureValue<Issue>>)
    ensures
        match r {
            Some(v) => issue_map(*m).contains_key(k) && *v == issue_map(*m)[k],
            None => !issue_map(*m).contains_key(k),
        },
{
    m.get(&k)
}

/// Mapping from issue number to load state. Grows only; a completion for
/// an already known key overwrites the old entry.
#[derive(Clone, Debug)]
pub struct IssueStore {
    map: IssueMap,
}

impl View for IssueStore {
    type V = Map<u64, FutureValue<Issue>>;

    closed spec fn view(&self) -> Map<u64, FutureValue<Issue>> {
        issue_map(self.map)
    }
}

impl IssueStore {
    /// An empty store.
    pub fn new() -> (r: IssueStore)
        ensures
            r@ == Map::<u64, FutureValue<Issue>>::empty(),
    {
        IssueStore { map: issue_map_new() }
    }

    /// Stores a load state for an issue, overwriting any earlier one.
    pub fn set(&mut self, number: IssueNumber, value: FutureValue<Issue>)
        ensures
            final(self)@ == old(self)@.insert(number.0, value),
    {
        issue_map_insert(&mut self.map, number.0, value);
    }

    /// The load state recorded for an issue, if any.
    pub fn get(&self, number: IssueNumber) -> (r: Option<&FutureValue<Issue>>)
        ensures
            match r {
                Some(v) => self@.contains_key(number.0) && *v == self@[number.0],
                None => !self@.contains_key(number.0),
            },
    {
        issue_map_get(&self.map, number.0)
    }
}

/// Last write wins: a completion stored after another for the same issue
/// replaces it, and the store looks exactly as if only the later one had
/// arrived.
pub proof fn lemma_last_write_wins(
    m: Map<u64, FutureValue<Issue>>,
    n: u64,
    first: FutureValue<Issue>,
    second: FutureValue<Issue>,
)
    ensures
        m.insert(n, first).insert(n, second) == m.insert(n, second),
{
    assert(m.insert(n, first).insert(n, second) =~= m.insert(n, second));
}

} // verus!
