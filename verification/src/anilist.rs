//! What the AniList catalogue answers, brought into the common shape of a
//! search hit.

use vstd::prelude::*;
use crate::models::{MediaItemType, ReadableKind};
use crate::progress::Progress;
use crate::search::{MediaSearchType, SearchError, SearchResult, SearchResultView};
use crate::status::{ReadStatus, WatchStatus};
use crate::text::{clone_opt, opt_text, same_text, texts};

verus! {

/// The catalogue's name, as the source of a record.
pub const SOURCE: &'static str = "anilist";

/// One work as the catalogue describes it.
#[derive(Debug, Clone, PartialEq, Eq)]
pub struct AniListMedia {
    pub id: u32,
    pub title_romaji: Option<String>,
    pub title_english: Option<String>,
    pub episodes: Option<u32>,
    pub chapters: Option<u32>,
    /// The mean score, out of 100.
    pub mean_score: Option<u32>,
    pub cover_large: Option<String>,
    /// `TV`, `MOVIE`, `NOVEL` and the like.
    pub format: Option<String>,
    /// A two-letter country code.
    pub country_of_origin: Option<String>,
}

/// A work as plain values.
pub struct AniListMediaView {
    pub id: u32,
    pub title_romaji: Option<Seq<char>>,
    pub title_english: Option<Seq<char>>,
    pub episodes: Option<u32>,
    pub chapters: Option<u32>,
    pub mean_score: Option<u32>,
    pub cover_large: Option<Seq<char>>,
    pub format: Option<Seq<char>>,
    pub country_of_origin: Option<Seq<char>>,
}

impl View for AniListMedia {
    type V = AniListMediaView;

    open spec fn view(&self) -> AniListMediaView {
        AniListMediaView {
            id: self.id,
            title_romaji: opt_text(self.title_romaji),
            title_english: opt_text(self.title_english),
            episodes: self.episodes,
            chapters: self.chapters,
            mean_score: self.mean_score,
            cover_large: opt_text(self.cover_large),
            format: opt_text(self.format),
            country_of_origin: opt_text(self.country_of_origin),
        }
    }
}

/// The title to show: the English one where there is one and it is not
/// empty, else the romanised one, else `Unknown`.
pub open spec fn shown_title(m: AniListMediaView) -> Seq<char> {
    match m.title_english {
        Some(e) if e.len() > 0 => e,
        _ => match m.title_romaji {
            Some(r) => r,
            None => "Unknown"@,
        },
    }
}

/// The format of a work; `UNKNOWN` where the catalogue names none.
pub open spec fn format_of(m: AniListMediaView) -> Seq<char> {
    match m.format {
        Some(f) => f,
        None => "UNKNOWN"@,
    }
}

/// The label under which a format of animation is shown. A format that is
/// none of the known ones is shown as it is.
pub open spec fn anime_label(format: Seq<char>) -> Seq<char> {
    if format == "TV"@ {
        "TV"@
    } else if format == "TV_SHORT"@ {
        "TV Short"@
    } else if format == "OVA"@ {
        "OVA"@
    } else if format == "ONA"@ {
        "ONA"@
    } else if format == "SPECIAL"@ {
        "Special"@
    } else if format == "MUSIC"@ {
        "Music"@
    } else {
        format
    }
}

/// The kind and the label of a work that was found in a search for a given
/// category; `None` for a category that the catalogue is not searched for.
///
/// In a search for animation a work of format `MOVIE` is a film and any
/// other a series with its episodes. In a search for manga or light novels
/// a work of format `NOVEL` is a light novel, one from Korea a manhwa and
/// any other a manga, each with its chapters. Nothing is followed yet, and
/// the status is the plan state.
pub open spec fn kind_and_label(m: AniListMediaView, t: MediaSearchType) -> Option<
    (MediaItemType, Seq<char>),
> {
    match t {
        MediaSearchType::Anime => if format_of(m) == "MOVIE"@ {
            Some((MediaItemType::Movie(WatchStatus::PlanToWatch), "Movie"@))
        } else {
            Some(
                (
                    MediaItemType::Series(
                        Progress { current: 0, total: m.episodes },
                        WatchStatus::PlanToWatch,
                    ),
                    anime_label(format_of(m)),
                ),
            )
        },
        MediaSearchType::Manga | MediaSearchType::LightNovel => {
            let p = Progress { current: 0, total: m.chapters };
            if format_of(m) == "NOVEL"@ {
                Some(
                    (
                        MediaItemType::Readable(ReadableKind::LightNovel, p, ReadStatus::PlanToRead),
                        "Light Novel"@,
                    ),
                )
            } else if m.country_of_origin == Some("KR"@) {
                Some(
                    (
                        MediaItemType::Readable(ReadableKind::Manhwa, p, ReadStatus::PlanToRead),
                        "Manhwa"@,
                    ),
                )
            } else {
                Some(
                    (
                        MediaItemType::Readable(ReadableKind::Manga, p, ReadStatus::PlanToRead),
                        "Manga"@,
                    ),
                )
            }
        },
        _ => None,
    }
}

/// The catalogue's mean score as a stored score: capped at 100.
pub open spec fn capped_score(mean: Option<u32>) -> Option<u8> {
    match mean {
        Some(s) => Some(if s > 100 { 100u8 } else { s as u8 }),
        None => None,
    }
}

/// The hit that a work makes in a search for a given category.
pub open spec fn hit_of(m: AniListMediaView, t: MediaSearchType) -> Option<SearchResultView> {
    match kind_and_label(m, t) {
        Some((kind, label)) => Some(
            SearchResultView {
                title: shown_title(m),
                media_type: kind,
                global_score: capped_score(m.mean_score),
                external_id: Some(m.id),
                poster_url: m.cover_large,
                source: "anilist"@,
                format_label: label,
            },
        ),
        None => None,
    }
}

/// The hits that the works of an answer make, in their order.
pub open spec fn hits_of(media: Seq<AniListMediaView>, t: MediaSearchType) -> Seq<
    SearchResultView,
>
    decreases media.len(),
{
    if media.len() == 0 {
        Seq::empty()
    } else {
        match hit_of(media.last(), t) {
            Some(h) => hits_of(media.drop_last(), t).push(h),
            None => hits_of(media.drop_last(), t),
        }
    }
}

/// The works of a list, as plain values.
pub open spec fn media_views(media: Seq<AniListMedia>) -> Seq<AniListMediaView> {
    Seq::new(media.len(), |i: int| media[i]@)
}

/// The hits of a list, as plain values.
pub open spec fn hit_views(hits: Seq<SearchResult>) -> Seq<SearchResultView> {
    Seq::new(hits.len(), |i: int| hits[i]@)
}

/// What the catalogue is asked for: the type of the query, and the format
/// that the query is narrowed to.
pub open spec fn query_of(t: MediaSearchType) -> Option<(Seq<char>, Option<Seq<char>>)> {
    match t {
        MediaSearchType::Anime => Some(("ANIME"@, None)),
        MediaSearchType::Manga => Some(("MANGA"@, None)),
        MediaSearchType::LightNovel => Some(("MANGA"@, Some("NOVEL"@))),
        _ => None,
    }
}

/// The texts of a list, with `, ` between them.
pub open spec fn comma_joined(parts: Seq<Seq<char>>) -> Seq<char>
    decreases parts.len(),
{
    if parts.len() == 0 {
        Seq::empty()
    } else if parts.len() == 1 {
        parts[0]
    } else {
        comma_joined(parts.drop_last()) + ", "@ + parts.last()
    }
}

/// What the catalogue is asked for in a search for a category: the type of
/// the query, and the format that the query is narrowed to. `None` for a
/// category that the catalogue does not hold.
pub fn query_type(t: MediaSearchType) -> (r: Option<(&'static str, Option<&'static str>)>)
    ensures
        match r {
            Some((kind, format)) => query_of(t) == Some(
                (
                    kind@,
                    match format {
                        Some(f) => Some(f@),
                        None => None,
                    },
                ),
            ),
            None => query_of(t) is None,
        },
{
    match t {
        MediaSearchType::Anime => Some(("ANIME", None)),
        MediaSearchType::Manga => Some(("MANGA", None)),
        MediaSearchType::LightNovel => Some(("MANGA", Some("NOVEL"))),
        _ => None,
    }
}

/// The hit that a work makes in a search for a given category; `None` for a
/// category that the catalogue is not searched for.
pub fn map_media(media: &AniListMedia, search_type: MediaSearchType) -> (r: Option<SearchResult>)
    ensures
        match r {
            Some(hit) => hit_of(media@, search_type) == Some(hit@),
            None => hit_of(media@, search_type) is None,
        },
{
    let title = match &media.title_english {
        Some(e) if !e.as_str().is_empty() => e.clone(),
        _ => match &media.title_romaji {
            Some(r) => r.clone(),
            None => "Unknown".to_owned(),
        },
    };
    let format_str: &str = match &media.format {
        Some(f) => f.as_str(),
        None => "UNKNOWN",
    };
    let (media_type, format_label) = match search_type {
        MediaSearchType::Anime => {
            if same_text(format_str, "MOVIE") {
                (MediaItemType::Movie(WatchStatus::PlanToWatch), "Movie".to_owned())
            } else {
                let label: &str = if same_text(format_str, "TV") {
                    "TV"
                } else if same_text(format_str, "TV_SHORT") {
                    "TV Short"
                } else if same_text(format_str, "OVA") {
                    "OVA"
                } else if same_text(format_str, "ONA") {
                    "ONA"
                } else if same_text(format_str, "SPECIAL") {
                    "Special"
                } else if same_text(format_str, "MUSIC") {
                    "Music"
                } else {
                    format_str
                };
                (
                    MediaItemType::Series(
                        Progress { current: 0, total: media.episodes },
                        WatchStatus::PlanToWatch,
                    ),
                    label.to_owned(),
                )
            }
        },
        MediaSearchType::Manga | MediaSearchType::LightNovel => {
            let from_korea = match &media.country_of_origin {
                Some(c) => same_text(c.as_str(), "KR"),
                None => false,
            };
            let (kind, label) = if same_text(format_str, "NOVEL") {
                (ReadableKind::LightNovel, "Light Novel")
            } else if from_korea {
                (ReadableKind::Manhwa, "Manhwa")
            } else {
                (ReadableKind::Manga, "Manga")
            };
            (
                MediaItemType::Readable(
                    kind,
                    Progress { current: 0, total: media.chapters },
                    ReadStatus::PlanToRead,
                ),
                label.to_owned(),
            )
        },
        _ => {
            return None;
        },
    };
    let global_score = match media.mean_score {
        Some(s) => Some(if s > 100 { 100u8 } else { s as u8 }),
        None => None,
    };
    Some(
        SearchResult {
            title,
            media_type,
            global_score,
            external_id: Some(media.id),
            poster_url: clone_opt(&media.cover_large),
            source: SOURCE,
            format_label,
        },
    )
}

/// The messages of a list, with `, ` between them.
pub fn join_messages(messages: &Vec<String>) -> (r: String)
    ensures
        r@ == comma_joined(texts(messages@)),
{
    let ghost all = texts(messages@);
    let mut r = String::new();
    let mut i: usize = 0;
    assert(all.subrange(0, 0) =~= Seq::<Seq<char>>::empty());
    while i < messages.len()
        invariant
            i <= messages.len(),
            all == texts(messages@),
            r@ == comma_joined(all.subrange(0, i as int)),
        decreases messages.len() - i,
    {
        let ghost seen = all.subrange(0, i as int);
        let ghost next = all.subrange(0, i as int + 1);
        assert(next.drop_last() =~= seen);
        assert(next.last() == messages@[i as int]@);
        if i > 0 {
            r.append(", ");
        } else {
            assert(next[0] == messages@[0]@);
            assert(r@ + messages@[0]@ =~= messages@[0]@);
        }
        r.append(messages[i].as_str());
        i += 1;
    }
    assert(all.subrange(0, i as int) =~= all);
    r
}

/// The outcome of a search, from what the catalogue answered: the errors it
/// reports, where it reports any, and the works it found, where it sent any.
///
/// An answer that reports errors fails with `Api` and the messages, `, `
/// between them; that holds too where the list of errors is empty. An answer
/// without errors and without works fails with `Api` too. Any other gives
/// the hits of its works.
pub fn results_of_answer(
    errors: Option<Vec<String>>,
    media: Option<Vec<AniListMedia>>,
    media_type: MediaSearchType,
) -> (r: Result<Vec<SearchResult>, SearchError>)
    ensures
        match errors {
            Some(messages) => r matches Err(SearchError::Api(m)) && m@ == comma_joined(
                texts(messages@),
            ),
            None => match media {
                None => r matches Err(SearchError::Api(m)) && m@ == "No data in response"@,
                Some(found) => r matches Ok(hits) && hit_views(hits@) == hits_of(
                    media_views(found@),
                    media_type,
                ),
            },
        },
{
    if let Some(messages) = errors {
        return Err(SearchError::Api(join_messages(&messages)));
    }
    let found = match media {
        Some(found) => found,
        None => {
            return Err(SearchError::Api("No data in response".to_owned()));
        },
    };
    let ghost all = media_views(found@);
    let mut hits: Vec<SearchResult> = Vec::new();
    let mut i: usize = 0;
    assert(all.subrange(0, 0) =~= Seq::<AniListMediaView>::empty());
    assert(hit_views(hits@) =~= Seq::<SearchResultView>::empty());
    while i < found.len()
        invariant
            i <= found.len(),
            all == media_views(found@),
            hit_views(hits@) == hits_of(all.subrange(0, i as int), media_type),
        decreases found.len() - i,
    {
        let ghost seen = all.subrange(0, i as int);
        let ghost next = all.subrange(0, i as int + 1);
        assert(next.drop_last() =~= seen);
        assert(next.last() == found@[i as int]@);
        let ghost before = hit_views(hits@);
        if let Some(hit) = map_media(&found[i], media_type) {
            hits.push(hit);
            assert(hit_views(hits@) =~= before.push(hit@));
        }
        i += 1;
    }
    assert(all.subrange(0, i as int) =~= all);
    Ok(hits)
}

} // verus!
