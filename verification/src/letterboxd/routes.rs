//! The decisions behind the film endpoint: serve the cached diary while it is
//! fresh, otherwise read the films off the diary's page and give each the
//! address of its poster.

use crate::clock::fresh;
use crate::clock::is_fresh;
use crate::http::Method;
use crate::http::Route;
use crate::letterboxd::html::attribute;
use crate::letterboxd::html::first_below;
use crate::letterboxd::html::found_in;
use crate::letterboxd::html::parsed_nodes;
use crate::letterboxd::html::HtmlNode;
use crate::letterboxd::html::Page;
use crate::letterboxd::html::Selector;
use crate::letterboxd::model::clone_films;
use crate::letterboxd::model::films_view;
use crate::letterboxd::model::FilmData;
use crate::letterboxd::model::FilmView;
use crate::letterboxd::model::LetterboxdPoster;
use crate::letterboxd::model::LetterboxdScrape;
use crate::text::is_digit;
use crate::text::join;
use crate::text::last_segment;
use crate::text::last_segment_of;
use crate::text::lemma_segment_behind_separator;
use crate::text::option_text;
use crate::text::parse_u32;
use crate::text::parsed_u32;
use crate::text::unsigned_part;
use vstd::prelude::*;

verus! {

/// Seconds for which a scrape of the diary is served again.
pub const CACHE_SECONDS: u64 = 300;

/// The address of the diary's page.
pub const FILMS_URL: &'static str = "https://letterboxd.com/14rovi/films/by/date/size/large/";

/// The rating that the class of a rating element gives: the number behind
/// the last hyphen of the class.
pub open spec fn rating_of(class: Seq<char>) -> Option<u32> {
    parsed_u32(last_segment_of(class, '-'))
}

/// The film that four attributes of a diary entry make: the picture's
/// caption, the class of the rating, the time of watching and the link to the
/// poster. There is no film where one of them is missing or the class gives
/// no rating.
pub open spec fn film_of(
    caption: Option<Seq<char>>,
    rating_class: Option<Seq<char>>,
    watched: Option<Seq<char>>,
    link: Option<Seq<char>>,
) -> Option<FilmView> {
    if caption is Some && rating_class is Some && rating_of(rating_class->0) is Some
        && watched is Some && link is Some {
        Some(
            FilmView {
                name: caption->0,
                poster_url: link->0,
                rating: rating_of(rating_class->0)->0,
                watched_at: watched->0,
            },
        )
    } else {
        None
    }
}

/// The attribute `name` of the node that a search found, if it found one.
pub open spec fn attribute_of_found(nodes: Seq<HtmlNode>, found: Option<usize>, name: Seq<char>)
    -> Option<Seq<char>> {
    match found {
        Some(at) => attribute(nodes, at, name),
        None => None,
    }
}

/// The film that the diary entry at `item` shows: its name is the `alt` of the
/// first `img`, its rating stands in the `class` of the first `span` of class
/// `rating`, its time of watching is the `datetime` of the first `time`, and
/// its poster link is the `data-item-link` of the first element whose
/// `data-component-class` is `LazyPoster`.
pub open spec fn entry_film(nodes: Seq<HtmlNode>, item: usize) -> Option<FilmView> {
    film_of(
        attribute_of_found(nodes, first_below(nodes, item, Selector::Named("img"@)), "alt"@),
        attribute_of_found(
            nodes,
            first_below(nodes, item, Selector::NamedOfClass("span"@, "rating"@)),
            "class"@,
        ),
        attribute_of_found(
            nodes,
            first_below(nodes, item, Selector::Named("time"@)),
            "datetime"@,
        ),
        attribute_of_found(
            nodes,
            first_below(
                nodes,
                item,
                Selector::WithAttribute("data-component-class"@, "LazyPoster"@),
            ),
            "data-item-link"@,
        ),
    )
}

/// The films that the entries at `items` show, in order, entries that show no
/// film left out.
pub open spec fn entry_films(nodes: Seq<HtmlNode>, items: Seq<usize>) -> Seq<FilmView>
    decreases items.len(),
{
    if items.len() == 0 {
        Seq::empty()
    } else {
        let before = entry_films(nodes, items.drop_last());
        match entry_film(nodes, items.last()) {
            Some(film) => before.push(film),
            None => before,
        }
    }
}

/// The films on a diary page: one for each `li` below a `div` of class
/// `poster-grid` that shows a film, in document order.
pub open spec fn scraped_films(html: Seq<char>) -> Seq<FilmView> {
    let nodes = parsed_nodes(html);
    entry_films(
        nodes,
        found_in(
            nodes,
            Selector::NamedBelow { outer: "div"@, class: "poster-grid"@, inner: "li"@ },
        ),
    )
}

/// The address that a film's poster is asked for at, given the film's link.
pub open spec fn poster_address(link: Seq<char>) -> Seq<char> {
    "https://letterboxd.com"@ + link + "poster/std/150"@
}

/// A film once the poster service was asked: its poster link is replaced by
/// the address that the service gave, and stays where the request failed.
pub open spec fn with_poster(film: FilmView, fetched: Option<Seq<char>>) -> FilmView {
    match fetched {
        Some(url) => FilmView { poster_url: url, ..film },
        None => film,
    }
}

/// A film that may be missing, as plain values.
pub open spec fn film_view(film: Option<FilmData>) -> Option<FilmView> {
    match film {
        Some(f) => Some(f@),
        None => None,
    }
}

/// The address in an answer of the poster service that may be missing.
pub open spec fn poster_view(poster: Option<LetterboxdPoster>) -> Option<Seq<char>> {
    match poster {
        Some(p) => Some(p.url@),
        None => None,
    }
}

/// A list of films that may be missing, as plain values.
pub open spec fn films_or_none(films: Option<Vec<FilmData>>) -> Option<Seq<FilmView>> {
    match films {
        Some(f) => Some(films_view(f@)),
        None => None,
    }
}

/// The films that the cache still answers with at second `now`.
pub open spec fn cached_films(last_hit_at: u64, films: Seq<FilmView>, now: u64) -> Option<
    Seq<FilmView>,
> {
    if fresh(last_hit_at, now, CACHE_SECONDS) {
        Some(films)
    } else {
        None
    }
}

/// The films that a scrape counts as: those it brought, or none at all where
/// it failed.
pub open spec fn scrape_result(fetched: Option<Seq<FilmView>>) -> Seq<FilmView> {
    match fetched {
        Some(films) => films,
        None => Seq::empty(),
    }
}

/// A scrape is served for the next `CACHE_SECONDS` seconds, and no longer.
pub proof fn lemma_scrape_is_served(now: u64, films: Seq<FilmView>, later: u64)
    ensures
        cached_films(now, films, later) == if now <= later < now + CACHE_SECONDS {
            Some(films)
        } else {
            None
        },
{
}

/// A class that ends in a hyphen and a number gives that number as the
/// rating, whatever stands before the hyphen.
pub proof fn lemma_rating_behind_hyphen(front: Seq<char>, number: Seq<char>)
    requires
        parsed_u32(number) is Some,
    ensures
        rating_of(front.push('-') + number) == parsed_u32(number),
{
    let digits = unsigned_part(number);
    assert forall|i: int| 0 <= i < number.len() implies number[i] != '-' by {
        if number[0] == '+' {
            if i > 0 {
                assert(digits[i - 1] == number[i]);
                assert(is_digit(digits[i - 1]));
            }
        } else {
            assert(is_digit(digits[i]));
        }
    }
    lemma_segment_behind_separator(front, '-', number);
}

/// Reads the rating out of the class of a rating element.
pub fn parse_rating(class: &str) -> (rating: Option<u32>)
    ensures
        rating == rating_of(class@),
{
    parse_u32(last_segment(class, '-'))
}

/// Makes a film of the four attributes that a diary entry gives.
pub fn film_from_attributes(
    caption: Option<String>,
    rating_class: Option<String>,
    watched: Option<String>,
    link: Option<String>,
) -> (film: Option<FilmData>)
    ensures
        film_view(film) == film_of(
            option_text(caption),
            option_text(rating_class),
            option_text(watched),
            option_text(link),
        ),
{
    let name = match caption {
        Some(name) => name,
        None => { return None; },
    };
    let rating = match rating_class {
        Some(class) => match parse_rating(class.as_str()) {
            Some(rating) => rating,
            None => { return None; },
        },
        None => { return None; },
    };
    let watched_at = match watched {
        Some(watched_at) => watched_at,
        None => { return None; },
    };
    let poster_url = match link {
        Some(poster_url) => poster_url,
        None => { return None; },
    };
    Some(FilmData { name, poster_url, rating, watched_at })
}

/// Reads the film off the diary entry at `item` of a page.
pub fn parse_letterboxd_poster(page: &Page, item: usize) -> (film: Option<FilmData>)
    ensures
        film_view(film) == entry_film(page@, item),
{
    let caption = match page.first_named(item, "img") {
        Some(at) => page.attribute(at, "alt"),
        None => None,
    };
    let rating_class = match page.first_named_of_class(item, "span", "rating") {
        Some(at) => page.attribute(at, "class"),
        None => None,
    };
    let watched = match page.first_named(item, "time") {
        Some(at) => page.attribute(at, "datetime"),
        None => None,
    };
    let link = match page.first_with_attribute(item, "data-component-class", "LazyPoster") {
        Some(at) => page.attribute(at, "data-item-link"),
        None => None,
    };
    film_from_attributes(caption, rating_class, watched, link)
}

/// Reads the films off a diary page.
pub fn scrape_films(html: &str) -> (films: Vec<FilmData>)
    ensures
        films_view(films@) == scraped_films(html@),
{
    let page = Page::parse(html);
    let items = page.nested("div", "poster-grid", "li");
    let mut films: Vec<FilmData> = Vec::new();
    let mut i: usize = 0;
    assert(films_view(films@) =~= entry_films(page@, items@.take(0)));
    while i < items.len()
        invariant
            0 <= i <= items.len(),
            films_view(films@) == entry_films(page@, items@.take(i as int)),
        decreases items.len() - i,
    {
        proof {
            assert(items@.take(i + 1).drop_last() =~= items@.take(i as int));
        }
        let ghost before = films@;
        match parse_letterboxd_poster(&page, items[i]) {
            Some(film) => {
                films.push(film);
                assert(films_view(films@) =~= films_view(before).push(film@));
            },
            None => {},
        }
        i += 1;
    }
    assert(items@.take(i as int) =~= items@);
    films
}

/// Builds the address to ask for a film's poster at.
pub fn poster_request_url(link: &str) -> (url: String)
    ensures
        url@ == poster_address(link@),
{
    join("https://letterboxd.com", link).concat("poster/std/150")
}

/// Takes in what the poster service answered for a film.
pub fn set_poster_url(film: &mut FilmData, fetched: Option<LetterboxdPoster>)
    ensures
        final(film)@ == with_poster(old(film)@, poster_view(fetched)),
{
    match fetched {
        Some(poster) => {
            film.poster_url = poster.url;
        },
        None => {},
    }
}

/// What the poster service answered for the film at `at`, where `fetched`
/// holds the answers in the order of the films; a film without an answer
/// counts as one whose request failed.
pub open spec fn answer_at(fetched: Seq<Option<LetterboxdPoster>>, at: int) -> Option<Seq<char>> {
    if 0 <= at < fetched.len() {
        poster_view(fetched[at])
    } else {
        None
    }
}

/// The addresses to ask for the posters of `films` at, in the order of the films.
pub fn poster_requests(films: &Vec<FilmData>) -> (urls: Vec<String>)
    ensures
        urls@.len() == films@.len(),
        forall|i: int|
            0 <= i < films@.len() ==> (#[trigger] urls@[i])@ == poster_address(
                films@[i].poster_url@,
            ),
{
    let mut urls: Vec<String> = Vec::new();
    let mut i: usize = 0;
    while i < films.len()
        invariant
            0 <= i <= films.len(),
            urls@.len() == i,
            forall|j: int|
                0 <= j < i ==> (#[trigger] urls@[j])@ == poster_address(films@[j].poster_url@),
        decreases films.len() - i,
    {
        urls.push(poster_request_url(films[i].poster_url.as_str()));
        i += 1;
    }
    urls
}

/// Takes in what the poster service answered for each of `films`, the
/// answers standing in the order of the films.
pub fn set_poster_urls(films: &mut Vec<FilmData>, fetched: &Vec<Option<LetterboxdPoster>>)
    ensures
        final(films)@.len() == old(films)@.len(),
        forall|i: int|
            0 <= i < old(films)@.len() ==> (#[trigger] final(films)@[i])@ == with_poster(
                old(films)@[i]@,
                answer_at(fetched@, i),
            ),
{
    let mut i: usize = 0;
    while i < films.len() && i < fetched.len()
        invariant
            films@.len() == old(films)@.len(),
            0 <= i <= films@.len(),
            i <= fetched@.len(),
            forall|j: int|
                0 <= j < i ==> (#[trigger] films@[j])@ == with_poster(
                    old(films)@[j]@,
                    answer_at(fetched@, j),
                ),
            forall|j: int| i <= j < films@.len() ==> films@[j] == old(films)@[j],
        decreases films@.len() - i,
    {
        match &fetched[i] {
            Some(poster) => {
                let url = poster.url.clone();
                films[i].poster_url = url;
            },
            None => {},
        }
        i += 1;
    }
}

impl LetterboxdScrape {
    /// The cached films while the latest scrape is younger than
    /// `CACHE_SECONDS` at second `now`, else nothing: scrape again and call
    /// `settle`.
    pub fn lookup(&self, now: u64) -> (found: Option<Vec<FilmData>>)
        ensures
            films_or_none(found) == cached_films(self.last_hit_at, self.films(), now),
    {
        if is_fresh(self.last_hit_at, now, CACHE_SECONDS) {
            Some(clone_films(&self.last_response))
        } else {
            None
        }
    }

    /// Takes in the outcome of a scrape made at second `now` and gives the
    /// films to answer with. A failed scrape is cached as an empty diary.
    pub fn settle(&mut self, now: u64, fetched: Option<Vec<FilmData>>) -> (films: Vec<FilmData>)
        ensures
            final(self).last_hit_at == now,
            final(self).films() == scrape_result(films_or_none(fetched)),
            films_view(films@) == scrape_result(films_or_none(fetched)),
    {
        let films = match fetched {
            Some(films) => films,
            None => Vec::new(),
        };
        assert(fetched is None ==> films_view(films@) =~= Seq::<FilmView>::empty());
        self.last_hit_at = now;
        self.last_response = clone_films(&films);
        films
    }
}

/// The endpoints of the film diary: the list of films, on `GET /`.
pub fn routes() -> (table: Vec<Route>)
    ensures
        table@.len() == 1,
        table@[0].method == Method::Get,
        table@[0].path@ == "/"@,
{
    let mut table: Vec<Route> = Vec::new();
    table.push(Route { method: Method::Get, path: String::from_str("/") });
    table
}

} // verus!
