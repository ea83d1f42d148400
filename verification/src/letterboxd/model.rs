//! The films of the diary and the cache that holds them.

use vstd::prelude::*;

verus! {

/// The latest scrape of the diary and the second at which it was made.
pub struct LetterboxdScrape {
    pub last_hit_at: u64,
    pub last_response: Vec<FilmData>,
}

/// One entry of the diary.
#[derive(Debug, PartialEq, Eq)]
pub struct FilmData {
    pub name: String,
    pub poster_url: String,
    pub rating: u32,
    pub watched_at: String,
}

/// What the poster service answers for one film.
#[derive(Debug, PartialEq, Eq)]
pub struct LetterboxdPoster {
    pub url: String,
}

/// A film as plain values.
pub struct FilmView {
    pub name: Seq<char>,
    pub poster_url: Seq<char>,
    pub rating: u32,
    pub watched_at: Seq<char>,
}

impl View for FilmData {
    type V = FilmView;

    open spec fn view(&self) -> FilmView {
        FilmView {
            name: self.name@,
            poster_url: self.poster_url@,
            rating: self.rating,
            watched_at: self.watched_at@,
        }
    }
}

impl Clone for FilmData {
    fn clone(&self) -> (copy: Self)
        ensures
            copy@ == self@,
    {
        FilmData {
            name: self.name.clone(),
            poster_url: self.poster_url.clone(),
            rating: self.rating,
            watched_at: self.watched_at.clone(),
        }
    }
}

impl Clone for LetterboxdPoster {
    fn clone(&self) -> (copy: Self)
        ensures
            copy.url@ == self.url@,
    {
        LetterboxdPoster { url: self.url.clone() }
    }
}

/// A list of films as plain values.
pub open spec fn films_view(films: Seq<FilmData>) -> Seq<FilmView> {
    films.map_values(|film: FilmData| film@)
}

/// A copy of `films`.
pub fn clone_films(films: &Vec<FilmData>) -> (copy: Vec<FilmData>)
    ensures
        films_view(copy@) == films_view(films@),
{
    let mut copy: Vec<FilmData> = Vec::new();
    let mut i: usize = 0;
    while i < films.len()
        invariant
            0 <= i <= films.len(),
            copy@.len() == i,
            forall|j: int| 0 <= j < i ==> (#[trigger] copy@[j])@ == films@[j]@,
        decreases films.len() - i,
    {
        copy.push(films[i].clone());
        i += 1;
    }
    assert(films_view(copy@) =~= films_view(films@));
    copy
}

impl LetterboxdScrape {
    /// The films of the latest scrape as plain values.
    pub open spec fn films(&self) -> Seq<FilmView> {
        films_view(self.last_response@)
    }

    /// A cache that holds no films yet, made at second 0.
    pub fn new() -> (state: Self)
        ensures
            state.last_hit_at == 0,
            state.films() == Seq::<FilmView>::empty(),
    {
        let state = LetterboxdScrape { last_hit_at: 0, last_response: Vec::new() };
        assert(state.films() =~= Seq::<FilmView>::empty());
        state
    }
}

} // verus!
