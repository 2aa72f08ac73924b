//! What a search in an outside catalogue gives, in one shape for all
//! catalogues.

use vstd::prelude::*;
use vstd::string::StringSliceAdditionalSpecFns;
use crate::ident::{is_random_id, ItemId};
use crate::models::{MediaItem, MediaItemType, MediaItemView};
use crate::tags::TagSet;
use crate::text::{clone_opt, decimal, decimal_string, join2, opt_text, same_text};

verus! {

/// Why a search failed.
#[derive(Debug, Clone, PartialEq, Eq)]
pub enum SearchError {
    /// The catalogue could not be reached.
    Network(String),
    /// The catalogue answered with an error.
    Api(String),
    /// The catalogue's answer could not be read.
    Parse(String),
}

impl SearchError {
    /// The error in words: what sort it is, then its detail.
    pub fn message(&self) -> (r: String)
        ensures
            r@ == match *self {
                SearchError::Network(d) => "Network error: "@ + d@,
                SearchError::Api(d) => "API error: "@ + d@,
                SearchError::Parse(d) => "Parse error: "@ + d@,
            },
    {
        match self {
            SearchError::Network(d) => join2("Network error: ", d.as_str()),
            SearchError::Api(d) => join2("API error: ", d.as_str()),
            SearchError::Parse(d) => join2("Parse error: ", d.as_str()),
        }
    }
}

/// What one can search for.
#[derive(Debug, Clone, Copy, PartialEq, Eq, Structural)]
pub enum MediaSearchType {
    Anime,
    Manga,
    LightNovel,
    Movie,
    Series,
    Book,
}

/// The category that a query parameter asks for; `Anime` where it names
/// none.
pub open spec fn search_type_named(word: Option<Seq<char>>) -> MediaSearchType {
    match word {
        Some(w) => if w == "anime"@ {
            MediaSearchType::Anime
        } else if w == "movie"@ {
            MediaSearchType::Movie
        } else if w == "series"@ {
            MediaSearchType::Series
        } else if w == "manga"@ {
            MediaSearchType::Manga
        } else if w == "book"@ {
            MediaSearchType::Book
        } else if w == "light_novel"@ {
            MediaSearchType::LightNovel
        } else {
            MediaSearchType::Anime
        },
        None => MediaSearchType::Anime,
    }
}

impl MediaSearchType {
    /// Reads the category from a query parameter. An absent or unknown one
    /// stands for `Anime`.
    pub fn from_query(word: Option<&str>) -> (r: MediaSearchType)
        ensures
            r == search_type_named(
                match word {
                    Some(w) => Some(w@),
                    None => None,
                },
            ),
    {
        match word {
            Some(w) => {
                if same_text(w, "anime") {
                    MediaSearchType::Anime
                } else if same_text(w, "movie") {
                    MediaSearchType::Movie
                } else if same_text(w, "series") {
                    MediaSearchType::Series
                } else if same_text(w, "manga") {
                    MediaSearchType::Manga
                } else if same_text(w, "book") {
                    MediaSearchType::Book
                } else if same_text(w, "light_novel") {
                    MediaSearchType::LightNovel
                } else {
                    MediaSearchType::Anime
                }
            },
            None => MediaSearchType::Anime,
        }
    }

    /// Whether this category is among the given ones.
    pub fn is_among(&self, types: &[MediaSearchType]) -> (r: bool)
        ensures
            r == types@.contains(*self),
    {
        let mut i: usize = 0;
        while i < types.len()
            invariant
                i <= types.len(),
                forall|k: int| 0 <= k < i ==> types@[k] != *self,
            decreases types.len() - i,
        {
            if types[i] == *self {
                return true;
            }
            i += 1;
        }
        false
    }
}

/// The least length, in bytes, of a query that the catalogues are asked.
pub const MIN_QUERY_LEN: usize = 2;

/// Whether a query is long enough for the catalogues to be asked: two bytes
/// at the least.
pub fn worth_asking(query: &str) -> (r: bool)
    ensures
        r == (query.spec_bytes().len() >= MIN_QUERY_LEN),
{
    query.as_bytes().len() >= MIN_QUERY_LEN
}

/// One hit of a search, whichever catalogue it came from.
#[derive(Debug, Clone, PartialEq)]
pub struct SearchResult {
    pub title: String,
    /// The kind, in its plan state and with nothing followed yet.
    pub media_type: MediaItemType,
    /// The catalogue's score, in tenths of a point: 0 to 100.
    pub global_score: Option<u8>,
    /// The catalogue's number for the work, where it has one.
    pub external_id: Option<u32>,
    pub poster_url: Option<String>,
    /// The catalogue's name.
    pub source: &'static str,
    /// What the work is, for display.
    pub format_label: String,
}

/// A hit as plain values.
pub struct SearchResultView {
    pub title: Seq<char>,
    pub media_type: MediaItemType,
    pub global_score: Option<u8>,
    pub external_id: Option<u32>,
    pub poster_url: Option<Seq<char>>,
    pub source: Seq<char>,
    pub format_label: Seq<char>,
}

impl View for SearchResult {
    type V = SearchResultView;

    open spec fn view(&self) -> SearchResultView {
        SearchResultView {
            title: self.title@,
            media_type: self.media_type,
            global_score: self.global_score,
            external_id: self.external_id,
            poster_url: opt_text(self.poster_url),
            source: self.source@,
            format_label: self.format_label@,
        }
    }
}

/// The record that a hit becomes under a given identifier: title, kind,
/// global score, external number and poster as the catalogue gave them, the
/// catalogue as the source, no score of the user's and no tags.
pub open spec fn item_of_hit(hit: SearchResultView, id: ItemId) -> MediaItemView {
    MediaItemView {
        id,
        title: hit.title,
        media_type: hit.media_type,
        score: None,
        global_score: hit.global_score,
        external_id: hit.external_id,
        poster_url: hit.poster_url,
        source: Some(hit.source),
        tags: Seq::empty(),
    }
}

/// How many episodes or chapters a kind has in all, as shown in a list:
/// ` [12 ep]` for a series, ` [12 ch]` for a readable work, nothing for a
/// film or where the total is unknown.
pub open spec fn count_note(kind: MediaItemType) -> Seq<char> {
    match kind {
        MediaItemType::Series(p, _) => match p.total {
            Some(t) => " ["@ + decimal(t as nat) + " ep]"@,
            None => Seq::empty(),
        },
        MediaItemType::Readable(_, p, _) => match p.total {
            Some(t) => " ["@ + decimal(t as nat) + " ch]"@,
            None => Seq::empty(),
        },
        MediaItemType::Movie(_) => Seq::empty(),
    }
}

/// A stored score with one decimal: `72` is written `7.2`.
pub open spec fn one_decimal(score: u8) -> Seq<char> {
    decimal((score / 10) as nat) + "."@ + decimal((score % 10) as nat)
}

/// The score as shown in a list: a star and the score with one decimal, or
/// nothing where there is no score.
pub open spec fn score_note(score: Option<u8>) -> Seq<char> {
    match score {
        Some(s) => " \u{2605} "@ + one_decimal(s),
        None => Seq::empty(),
    }
}

/// The line under which a hit is listed as number `idx`.
pub open spec fn line_of(hit: SearchResultView, idx: nat) -> Seq<char> {
    "  "@ + decimal(idx) + ". "@ + hit.title + count_note(hit.media_type) + score_note(
        hit.global_score,
    ) + " \u{2014} "@ + hit.format_label
}

/// Writes a stored score with one decimal.
pub fn one_decimal_string(score: u8) -> (r: String)
    ensures
        r@ == one_decimal(score),
{
    let mut r = decimal_string((score / 10) as u64);
    r.append(".");
    let tenths = decimal_string((score % 10) as u64);
    r.append(tenths.as_str());
    r
}

impl SearchResult {
    /// The record that the hit becomes, under a fresh identifier.
    pub fn into_media_item(self) -> (r: MediaItem)
        ensures
            r@ == item_of_hit(self@, r.id),
            is_random_id(r.id.bits),
    {
        self.into_media_item_with_id(ItemId::generate())
    }

    /// The record that the hit becomes under a given identifier.
    pub fn into_media_item_with_id(self, id: ItemId) -> (r: MediaItem)
        ensures
            r@ == item_of_hit(self@, id),
    {
        let SearchResult {
            title,
            media_type,
            global_score,
            external_id,
            poster_url,
            source,
            format_label: _,
        } = self;
        MediaItem {
            id,
            title,
            media_type,
            score: None,
            global_score,
            external_id,
            poster_url,
            source: Some(source.to_owned()),
            tags: TagSet::new(),
        }
    }

    /// The line under which the hit is listed as number `idx`: the number,
    /// the title, the count of episodes or chapters where it is known, the
    /// catalogue's score where there is one, and the format label.
    pub fn display_line(&self, idx: usize) -> (r: String)
        ensures
            r@ == line_of(self@, idx as nat),
    {
        let mut r = "  ".to_owned();
        let number = decimal_string(idx as u64);
        r.append(number.as_str());
        r.append(". ");
        r.append(self.title.as_str());
        let ghost head = r@;
        match &self.media_type {
            MediaItemType::Series(p, _) => {
                if let Some(t) = p.total {
                    let count = decimal_string(t as u64);
                    r.append(" [");
                    r.append(count.as_str());
                    r.append(" ep]");
                    assert(r@ =~= head + (" ["@ + decimal(t as nat) + " ep]"@));
                } else {
                    assert(r@ =~= head + Seq::<char>::empty());
                }
            },
            MediaItemType::Readable(_, p, _) => {
                if let Some(t) = p.total {
                    let count = decimal_string(t as u64);
                    r.append(" [");
                    r.append(count.as_str());
                    r.append(" ch]");
                    assert(r@ =~= head + (" ["@ + decimal(t as nat) + " ch]"@));
                } else {
                    assert(r@ =~= head + Seq::<char>::empty());
                }
            },
            MediaItemType::Movie(_) => {
                assert(r@ =~= head + Seq::<char>::empty());
            },
        }
        assert(r@ == head + count_note(self.media_type));
        let ghost counted = r@;
        match self.global_score {
            Some(s) => {
                let score = one_decimal_string(s);
                r.append(" \u{2605} ");
                r.append(score.as_str());
                assert(r@ =~= counted + (" \u{2605} "@ + one_decimal(s)));
            },
            None => {
                assert(r@ =~= counted + Seq::<char>::empty());
            },
        }
        r.append(" \u{2014} ");
        r.append(self.format_label.as_str());
        r
    }
}

/// A catalogue that can be searched.
pub trait SearchProvider: Send + Sync {
    /// The catalogue's name, for display.
    fn name(&self) -> &str;

    /// The categories that the catalogue can be searched for.
    fn supported_types(&self) -> &[MediaSearchType];

    /// Searches the catalogue. A category that the catalogue does not
    /// support gives no hits.
    fn search(&self, query: &str, media_type: MediaSearchType) -> Result<
        Vec<SearchResult>,
        SearchError,
    >;
}

} // verus!
