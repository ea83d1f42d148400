//! The decisions behind the recent-tracks endpoints: answer from the cache
//! while an entry is fresh, otherwise name the address to fetch and take in
//! what the fetch brought.

use crate::clock::fresh;
use crate::clock::is_fresh;
use crate::lastfm::model::LastFMAPI;
use crate::lastfm::model::LastFmApiHit;
use crate::text::join;
use crate::text::option_text;
use vstd::prelude::*;

verus! {

/// Seconds for which a fetched answer is served again.
pub const CACHE_SECONDS: u64 = 5;

/// What to do about a request for a user's recent tracks.
#[derive(Debug, PartialEq, Eq)]
pub enum Lookup {
    /// Answer with this text; it was fetched less than `CACHE_SECONDS` ago.
    Hit(String),
    /// Fetch this address, then call `LastFMAPI::settle` with the outcome.
    Miss(String),
}

/// The user that is asked about where a request names none.
pub open spec fn default_user() -> Seq<char> {
    "I4ROVI"@
}

/// The address of the service's list of recent tracks of `user`, read with `key`.
pub open spec fn tracks_url(user: Seq<char>, key: Seq<char>) -> Seq<char> {
    "http://ws.audioscrobbler.com/2.0/?method=user.getrecenttracks&user="@ + user + "&api_key="@
        + key + "&format=json"@
}

/// The text that the cache `hits` still answers with for `user` at second `now`.
pub open spec fn cached_answer(
    hits: Map<Seq<char>, (u64, Seq<char>)>,
    user: Seq<char>,
    now: u64,
) -> Option<Seq<char>> {
    if hits.contains_key(user) && fresh(hits[user].0, now, CACHE_SECONDS) {
        Some(hits[user].1)
    } else {
        None
    }
}

/// The cache after a fetch for `user` at second `now`: a fetch that brought a
/// text replaces the user's entry, one that failed changes nothing.
pub open spec fn settled(
    hits: Map<Seq<char>, (u64, Seq<char>)>,
    user: Seq<char>,
    now: u64,
    fetched: Option<Seq<char>>,
) -> Map<Seq<char>, (u64, Seq<char>)> {
    match fetched {
        Some(text) => hits.insert(user, (now, text)),
        None => hits,
    }
}

/// What a request is answered with once its fetch is over: the text that was
/// fetched, or the empty text where the fetch failed.
pub open spec fn answer(fetched: Option<Seq<char>>) -> Seq<char> {
    match fetched {
        Some(text) => text,
        None => Seq::empty(),
    }
}

/// A text that was fetched is served to the same user for the next
/// `CACHE_SECONDS` seconds, and no longer.
pub proof fn lemma_fetched_is_served(
    hits: Map<Seq<char>, (u64, Seq<char>)>,
    user: Seq<char>,
    now: u64,
    text: Seq<char>,
    later: u64,
)
    ensures
        cached_answer(settled(hits, user, now, Some(text)), user, later) == if now <= later < now
            + CACHE_SECONDS {
            Some(text)
        } else {
            None
        },
{
}

/// A fetch for one user changes what no other user is answered with.
pub proof fn lemma_settle_keeps_others(
    hits: Map<Seq<char>, (u64, Seq<char>)>,
    user: Seq<char>,
    now: u64,
    fetched: Option<Seq<char>>,
    other: Seq<char>,
    later: u64,
)
    requires
        other != user,
    ensures
        cached_answer(settled(hits, user, now, fetched), other, later) == cached_answer(
            hits,
            other,
            later,
        ),
{
}

/// The name of the user that is asked about where a request names none.
pub fn default_username() -> (user: String)
    ensures
        user@ == default_user(),
{
    String::from_str("I4ROVI")
}

/// Builds the address to fetch the recent tracks of `username` from.
pub fn recent_tracks_url(username: &str, key: &str) -> (url: String)
    ensures
        url@ == tracks_url(username@, key@),
{
    let url = join("http://ws.audioscrobbler.com/2.0/?method=user.getrecenttracks&user=", username);
    let url = url.concat("&api_key=");
    let url = url.concat(key);
    url.concat("&format=json")
}

impl LastFMAPI {
    /// Looks `username` up at second `now`: a hit with the cached text while
    /// the user's entry is fresh, else a miss with the address to fetch.
    pub fn lookup(&self, username: &str, now: u64) -> (found: Lookup)
        ensures
            match cached_answer(self.hits(), username@, now) {
                Some(text) => found matches Lookup::Hit(data) && data@ == text,
                None => found matches Lookup::Miss(url) && url@ == tracks_url(
                    username@,
                    self.key@,
                ),
            },
    {
        match self.user_cache.get(username) {
            Some(last_hit) => {
                if is_fresh(last_hit.hit_at, now, CACHE_SECONDS) {
                    return Lookup::Hit(last_hit.data.clone());
                }
            },
            None => {},
        }
        Lookup::Miss(recent_tracks_url(username, self.key.as_str()))
    }

    /// Takes in the outcome of the fetch that a miss at second `now` asked
    /// for, and gives the text to answer the request with.
    pub fn settle(&mut self, username: String, now: u64, fetched: Option<String>) -> (body: String)
        ensures
            final(self).key == old(self).key,
            final(self).hits() == settled(
                old(self).hits(),
                username@,
                now,
                option_text(fetched),
            ),
            body@ == answer(option_text(fetched)),
    {
        match fetched {
            Some(text) => {
                let body = text.clone();
                self.user_cache.insert(username, LastFmApiHit { hit_at: now, data: text });
                assert(self.hits() =~= old(self).hits().insert(username@, (now, text@)));
                body
            },
            None => String::new(),
        }
    }
}

} // verus!
