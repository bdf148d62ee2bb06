//! The last search results of each user in each guild, kept so that a later
//! command can pick one of them.

use vstd::prelude::*;
use dashmap::DashMap;
use crate::adapters::youtube::{result_views, YtSearchResult, YtSearchResultView};

verus! {

/// dashmap's `DashMap`, which Verus sees as an opaque type.
#[verifier::external_type_specification]
#[verifier::external_body]
#[verifier::reject_recursive_types(K)]
#[verifier::reject_recursive_types(V)]
#[verifier::reject_recursive_types(S)]
pub struct ExDashMap<K, V, S>(DashMap<K, V, S>);

/// The map from (guild id, user id) to the results stored for them.
pub type ResultsMap = DashMap<(u64, u64), Vec<YtSearchResult>>;

/// What a results map holds: for each (guild id, user id), the views of the
/// stored results.
pub uninterp spec fn stored_results(m: ResultsMap) -> Map<(u64, u64), Seq<YtSearchResultView>>;

/// The contents of a store with no results.
pub open spec fn no_results() -> Map<(u64, u64), Seq<YtSearchResultView>> {
    Map::empty()
}

/// `DashMap::new`: a map with no entry.
#[verifier::external_body]
fn results_map_new() -> (m: ResultsMap)
    ensures
        stored_results(m) == no_results(),
{
    DashMap::new()
}

/// `DashMap::insert`: the key now maps to `value`, replacing what it held;
/// other keys are untouched. `DashMap::insert` takes `&self`; the wrapper
/// takes `&mut` so that the change is part of what Verus sees.
#[verifier::external_body]
fn results_map_insert(m: &mut ResultsMap, key: (u64, u64), value: Vec<YtSearchResult>)
    ensures
        stored_results(*final(m)) == stored_results(*old(m)).insert(key, result_views(value@)),
{
    m.insert(key, value);
}

/// `DashMap::get`, followed by a clone of the entry's value: the results
/// stored under the key, if any. The clone is the one `derive(Clone)` writes
/// for `YtSearchResult`, field by field, so each clone has the fields of the
/// stored hit; that is assumed here, not proved.
#[verifier::external_body]
fn results_map_get(m: &ResultsMap, key: (u64, u64)) -> (r: Option<Vec<YtSearchResult>>)
    ensures
        match r {
            Some(v) => stored_results(*m).contains_key(key) && result_views(v@) == stored_results(*m)[key],
            None => !stored_results(*m).contains_key(key),
        },
{
    m.get(&key).map(|entry| entry.value().clone())
}

/// The stored search results.
pub struct SearchState {
    results: ResultsMap,
}

impl View for SearchState {
    type V = Map<(u64, u64), Seq<YtSearchResultView>>;

    closed spec fn view(&self) -> Map<(u64, u64), Seq<YtSearchResultView>> {
        stored_results(self.results)
    }
}

impl SearchState {
    /// A store with no results.
    pub fn new() -> (s: Self)
        ensures
            s@ == Map::<(u64, u64), Seq<YtSearchResultView>>::empty(),
    {
        SearchState { results: results_map_new() }
    }

    /// Keeps `results` as the last results of `user` in `guild`, replacing
    /// the previous ones; other users' results stay.
    pub fn store_results(&mut self, guild: u64, user: u64, results: Vec<YtSearchResult>)
        ensures
            final(self)@ == old(self)@.insert((guild, user), result_views(results@)),
    {
        results_map_insert(&mut self.results, (guild, user), results);
    }

    /// The last results of `user` in `guild`, if any were stored.
    pub fn get_results(&self, guild: u64, user: u64) -> (r: Option<Vec<YtSearchResult>>)
        ensures
            match r {
                Some(v) => self@.contains_key((guild, user)) && result_views(v@) == self@[(guild, user)],
                None => !self@.contains_key((guild, user)),
            },
    {
        results_map_get(&self.results, (guild, user))
    }
}

/// Reading the results of a user right after storing them gives them back;
/// storing never changes what other users (or the same user in other
/// guilds) read.
pub proof fn law_read_after_store(
    stored: Map<(u64, u64), Seq<YtSearchResultView>>,
    guild: u64,
    user: u64,
    results: Seq<YtSearchResultView>,
)
    ensures
        stored.insert((guild, user), results).contains_key((guild, user)),
        stored.insert((guild, user), results)[(guild, user)] == results,
        forall|key: (u64, u64)| key != (guild, user) ==> (
            #[trigger] stored.insert((guild, user), results).contains_key(key) == stored.contains_key(key)),
        forall|key: (u64, u64)| key != (guild, user) && stored.contains_key(key) ==>
            #[trigger] stored.insert((guild, user), results)[key] == stored[key],
{
}

} // verus!
