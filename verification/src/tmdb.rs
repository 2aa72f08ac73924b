//! What the TMDB catalogue answers, brought into the common shape of a
//! search hit.

use vstd::prelude::*;
use vstd::string::StringSliceAdditionalSpecFns;
use vstd::utf8::{decode_utf8, encode_utf8, encode_utf8_decode_utf8, is_char_boundary};
use crate::models::MediaItemType;
use crate::progress::Progress;
use crate::score::{encode, encoded};
use crate::search::{SearchResult, SearchResultView};
use crate::status::WatchStatus;
use crate::text::{join2, opt_text};

verus! {

/// The catalogue's name, as the source of a record.
pub const SOURCE: &'static str = "tmdb";

/// Where the catalogue keeps its posters.
pub const POSTER_BASE: &'static str = "https://image.tmdb.org/t/p/w500";

/// How many hits of an answer are taken.
pub const MAX_HITS: usize = 10;

/// One film or show as the catalogue describes it.
#[derive(Debug, Clone, PartialEq, Eq)]
pub struct TmdbEntry {
    pub id: u32,
    /// The title of a film, or the name of a show.
    pub title: String,
    /// The average vote, in thousandths of a point out of ten.
    pub vote_average: Option<i64>,
    pub poster_path: Option<String>,
    /// When the film came out, or the show was first aired: year first.
    pub date: Option<String>,
}

/// An entry as plain values.
pub struct TmdbEntryView {
    pub id: u32,
    pub title: Seq<char>,
    pub vote_average: Option<i64>,
    pub poster_path: Option<Seq<char>>,
    pub date: Option<Seq<char>>,
}

impl View for TmdbEntry {
    type V = TmdbEntryView;

    open spec fn view(&self) -> TmdbEntryView {
        TmdbEntryView {
            id: self.id,
            title: self.title@,
            vote_average: self.vote_average,
            poster_path: opt_text(self.poster_path),
            date: opt_text(self.date),
        }
    }
}

/// The stored score of an average vote. A vote of zero or less means that
/// nobody voted, and gives no score.
pub open spec fn score_of_vote(vote: Option<i64>) -> Option<u8> {
    match vote {
        Some(v) if v > 0 => Some(encoded(v as int) as u8),
        _ => None,
    }
}

/// The year of a date: its first four bytes, where it has four and no
/// character straddles the fourth; `?` for any other date and where there
/// is no date.
pub open spec fn year_of(date: Option<Seq<char>>) -> Seq<char> {
    match date {
        Some(d) => if encode_utf8(d).len() >= 4 && is_char_boundary(encode_utf8(d), 4) {
            decode_utf8(encode_utf8(d).subrange(0, 4))
        } else {
            "?"@
        },
        None => "?"@,
    }
}

/// The address of a poster.
pub open spec fn poster_of(path: Option<Seq<char>>) -> Option<Seq<char>> {
    match path {
        Some(p) => Some("https://image.tmdb.org/t/p/w500"@ + p),
        None => None,
    }
}

/// The hit that a film makes.
pub open spec fn movie_hit(m: TmdbEntryView) -> SearchResultView {
    SearchResultView {
        title: m.title,
        media_type: MediaItemType::Movie(WatchStatus::PlanToWatch),
        global_score: score_of_vote(m.vote_average),
        external_id: Some(m.id),
        poster_url: poster_of(m.poster_path),
        source: "tmdb"@,
        format_label: "Movie ("@ + year_of(m.date) + ")"@,
    }
}

/// The hit that a show makes. The catalogue does not say how many episodes
/// there are.
pub open spec fn tv_hit(t: TmdbEntryView) -> SearchResultView {
    SearchResultView {
        title: t.title,
        media_type: MediaItemType::Series(
            Progress { current: 0, total: None },
            WatchStatus::PlanToWatch,
        ),
        global_score: score_of_vote(t.vote_average),
        external_id: Some(t.id),
        poster_url: poster_of(t.poster_path),
        source: "tmdb"@,
        format_label: "TV Series ("@ + year_of(t.date) + ")"@,
    }
}

/// The stored score of an average vote, in thousandths of a point. A vote
/// of zero or less gives no score.
pub fn vote_to_score(vote: Option<i64>) -> (r: Option<u8>)
    ensures
        r == score_of_vote(vote),
        r matches Some(s) ==> s <= 100,
{
    match vote {
        Some(v) => if v > 0 {
            Some(encode(v))
        } else {
            None
        },
        None => None,
    }
}

/// The year of a date, or `?`.
pub fn year(date: &Option<String>) -> (r: String)
    ensures
        r@ == year_of(opt_text(*date)),
{
    match date {
        Some(d) => {
            let s = d.as_str();
            if s.as_bytes().len() >= 4 && s.is_char_boundary(4) {
                let (head, _) = s.split_at(4);
                proof {
                    encode_utf8_decode_utf8(head@);
                }
                head.to_owned()
            } else {
                "?".to_owned()
            }
        },
        None => "?".to_owned(),
    }
}

/// The address of a poster, where the catalogue names one.
fn poster(path: &Option<String>) -> (r: Option<String>)
    ensures
        opt_text(r) == poster_of(opt_text(*path)),
{
    match path {
        Some(p) => Some(join2(POSTER_BASE, p.as_str())),
        None => None,
    }
}

/// A label and a year in brackets behind it.
fn label_with_year(label: &str, date: &Option<String>) -> (r: String)
    ensures
        r@ == label@ + year_of(opt_text(*date)) + ")"@,
{
    let mut r = label.to_owned();
    let y = year(date);
    r.append(y.as_str());
    r.append(")");
    r
}

/// The hit that a film makes.
pub fn movie_result(m: &TmdbEntry) -> (r: SearchResult)
    ensures
        r@ == movie_hit(m@),
{
    SearchResult {
        title: m.title.clone(),
        media_type: MediaItemType::Movie(WatchStatus::PlanToWatch),
        global_score: vote_to_score(m.vote_average),
        external_id: Some(m.id),
        poster_url: poster(&m.poster_path),
        source: SOURCE,
        format_label: label_with_year("Movie (", &m.date),
    }
}

/// The hit that a show makes.
pub fn tv_result(t: &TmdbEntry) -> (r: SearchResult)
    ensures
        r@ == tv_hit(t@),
{
    SearchResult {
        title: t.title.clone(),
        media_type: MediaItemType::Series(
            Progress { current: 0, total: None },
            WatchStatus::PlanToWatch,
        ),
        global_score: vote_to_score(t.vote_average),
        external_id: Some(t.id),
        poster_url: poster(&t.poster_path),
        source: SOURCE,
        format_label: label_with_year("TV Series (", &t.date),
    }
}

/// The hits of an answer: those of its first ten entries, in their order,
/// read as films or as shows.
pub fn results_of_page(entries: &Vec<TmdbEntry>, films: bool) -> (r: Vec<SearchResult>)
    ensures
        r@.len() == if entries@.len() < MAX_HITS {
            entries@.len()
        } else {
            MAX_HITS as nat
        },
        forall|i: int|
            0 <= i < r@.len() ==> (#[trigger] r@[i])@ == if films {
                movie_hit(entries@[i]@)
            } else {
                tv_hit(entries@[i]@)
            },
{
    let mut r: Vec<SearchResult> = Vec::new();
    let mut i: usize = 0;
    while i < entries.len() && i < MAX_HITS
        invariant
            i <= entries.len(),
            i <= MAX_HITS,
            r@.len() == i,
            forall|k: int|
                0 <= k < i ==> (#[trigger] r@[k])@ == if films {
                    movie_hit(entries@[k]@)
                } else {
                    tv_hit(entries@[k]@)
                },
        decreases entries.len() - i,
    {
        let hit = if films {
            movie_result(&entries[i])
        } else {
            tv_result(&entries[i])
        };
        r.push(hit);
        i += 1;
    }
    r
}

} // verus!
