//! What the cache of recent tracks holds.

use vstd::hash_map::StringHashMap;
use vstd::prelude::*;

verus! {

/// One answer of the service, with the second at which it was fetched.
pub struct LastFmApiHit {
    pub hit_at: u64,
    pub data: String,
}

/// The key for the service and the latest answer for each user asked about.
pub struct LastFMAPI {
    pub key: String,
    pub user_cache: StringHashMap<LastFmApiHit>,
}

impl LastFMAPI {
    /// The cache as a map from user name to the second of the fetch and the
    /// text that was fetched.
    pub open spec fn hits(&self) -> Map<Seq<char>, (u64, Seq<char>)> {
        self.user_cache@.map_values(|hit: LastFmApiHit| (hit.hit_at, hit.data@))
    }

    /// A state with the given key and nothing cached.
    pub fn new(key: String) -> (state: Self)
        ensures
            state.key@ == key@,
            state.hits() == Map::<Seq<char>, (u64, Seq<char>)>::empty(),
    {
        let state = LastFMAPI { key, user_cache: StringHashMap::new() };
        assert(state.hits() =~= Map::<Seq<char>, (u64, Seq<char>)>::empty());
        state
    }
}

} // verus!
