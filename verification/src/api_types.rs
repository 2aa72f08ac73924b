//! The flat shape in which records cross the wire, and the mapping between
//! that shape and a record.

use vstd::prelude::*;
use crate::ident::{hyphenated, is_random_id, parsed_id, ItemId};
use crate::models::{
    lemma_kind_words_differ, readable_named, readable_word, MediaItem, MediaItemType,
    MediaItemView, ReadableKind,
};
use crate::progress::Progress;
use crate::search::{SearchResult, SearchResultView};
use crate::score::{decoded, encode, encoded, law_stored_round_trip, score_display};
use crate::status::{
    lemma_status_words_differ, read_equivalent, read_named, read_word, watch_equivalent,
    watch_named, watch_word, ReadStatus, WatchStatus,
};
use crate::tags::{distinct, lemma_distinct, with_tag, TagSet};
use crate::text::{
    clone_all, clone_opt, decimal, decimal_string, join2, lemma_decimal_reads_back, opt_text,
    parse_u32, parsed_u32, same_text, texts,
};

verus! {

/// A record in its flat wire shape.
///
/// Scores are display scores, in thousandths of a point. An optional field
/// that is absent is left out of the written form altogether.
#[derive(Debug, Clone, PartialEq)]
pub struct ApiMediaItem {
    /// The identifier as text; empty on a request that asks for a new one.
    pub id: String,
    pub title: String,
    pub media_type: String,
    pub status: String,
    pub score: Option<i64>,
    pub global_score: Option<i64>,
    pub progress: u32,
    pub total_episodes: Option<u32>,
    pub poster_url: Option<String>,
    pub source: Option<String>,
    pub external_id: Option<String>,
    pub tags: Vec<String>,
    pub favorite: bool,
}

/// A wire shape as plain values.
pub struct ApiMediaItemView {
    pub id: Seq<char>,
    pub title: Seq<char>,
    pub media_type: Seq<char>,
    pub status: Seq<char>,
    pub score: Option<i64>,
    pub global_score: Option<i64>,
    pub progress: u32,
    pub total_episodes: Option<u32>,
    pub poster_url: Option<Seq<char>>,
    pub source: Option<Seq<char>>,
    pub external_id: Option<Seq<char>>,
    pub tags: Seq<Seq<char>>,
    pub favorite: bool,
}

impl View for ApiMediaItem {
    type V = ApiMediaItemView;

    open spec fn view(&self) -> ApiMediaItemView {
        ApiMediaItemView {
            id: self.id@,
            title: self.title@,
            media_type: self.media_type@,
            status: self.status@,
            score: self.score,
            global_score: self.global_score,
            progress: self.progress,
            total_episodes: self.total_episodes,
            poster_url: opt_text(self.poster_url),
            source: opt_text(self.source),
            external_id: opt_text(self.external_id),
            tags: texts(self.tags@),
            favorite: self.favorite,
        }
    }
}

/// Why a wire shape was refused.
#[derive(Debug, Clone, PartialEq, Eq)]
pub enum WireError {
    /// The title is empty.
    EmptyTitle,
    /// The identifier is not empty and is no identifier. Holds the reason.
    InvalidIdentifier(String),
    /// The media type is none of the known tags. Holds the offending tag.
    UnknownMediaType(String),
}

/// What is wrong with a wire shape that makes up no record, its identifier
/// set aside.
pub enum WireFault {
    /// The title is empty.
    EmptyTitle,
    /// The media type is this, which is none of the known tags.
    UnknownMediaType(Seq<char>),
}

impl WireError {
    /// The error in words.
    pub fn message(&self) -> (r: String)
        ensures
            r@ == match *self {
                WireError::EmptyTitle => "Title cannot be empty"@,
                WireError::InvalidIdentifier(detail) => "Invalid UUID: "@ + detail@,
                WireError::UnknownMediaType(tag) => "Unknown media_type: "@ + tag@,
            },
    {
        match self {
            WireError::EmptyTitle => "Title cannot be empty".to_owned(),
            WireError::InvalidIdentifier(detail) => join2("Invalid UUID: ", detail.as_str()),
            WireError::UnknownMediaType(tag) => join2("Unknown media_type: ", tag.as_str()),
        }
    }
}

/// The watch status that a status tag stands for on the wire. Tags of either
/// vocabulary are taken; any other text stands for `PlanToWatch`.
pub open spec fn lenient_watch(word: Seq<char>) -> WatchStatus {
    match watch_named(word) {
        Some(s) => s,
        None => match read_named(word) {
            Some(s) => watch_equivalent(s),
            None => WatchStatus::PlanToWatch,
        },
    }
}

/// The read status that a status tag stands for on the wire. Tags of either
/// vocabulary are taken; any other text stands for `PlanToRead`.
pub open spec fn lenient_read(word: Seq<char>) -> ReadStatus {
    match read_named(word) {
        Some(s) => s,
        None => match watch_named(word) {
            Some(s) => read_equivalent(s),
            None => ReadStatus::PlanToRead,
        },
    }
}

/// The media type tag of a kind. A series is written `anime` where the record
/// came from the catalogue `anilist`, and `series` otherwise.
pub open spec fn kind_word(kind: MediaItemType, source: Option<Seq<char>>) -> Seq<char> {
    match kind {
        MediaItemType::Movie(_) => "movie"@,
        MediaItemType::Series(_, _) => if source == Some("anilist"@) {
            "anime"@
        } else {
            "series"@
        },
        MediaItemType::Readable(k, _, _) => readable_word(k),
    }
}

/// The status tag of a kind.
pub open spec fn status_word(kind: MediaItemType) -> Seq<char> {
    match kind {
        MediaItemType::Movie(s) => watch_word(s),
        MediaItemType::Series(_, s) => watch_word(s),
        MediaItemType::Readable(_, _, s) => read_word(s),
    }
}

/// The counters of a kind; those of a film are zero and unknown.
pub open spec fn kind_progress(kind: MediaItemType) -> Progress {
    match kind {
        MediaItemType::Movie(_) => Progress { current: 0, total: None },
        MediaItemType::Series(p, _) => p,
        MediaItemType::Readable(_, p, _) => p,
    }
}

/// The kind that a media type tag, a status tag and counters make up; `None`
/// where the media type tag is unknown. `series` and `anime` both give a
/// series; a film drops the counters.
pub open spec fn wire_kind(media_type: Seq<char>, status: Seq<char>, p: Progress) -> Option<
    MediaItemType,
> {
    if media_type == "movie"@ {
        Some(MediaItemType::Movie(lenient_watch(status)))
    } else if media_type == "series"@ || media_type == "anime"@ {
        Some(MediaItemType::Series(p, lenient_watch(status)))
    } else {
        match readable_named(media_type) {
            Some(k) => Some(MediaItemType::Readable(k, p, lenient_read(status))),
            None => None,
        }
    }
}

/// The display form of an optional stored score.
pub open spec fn display_of(score: Option<u8>) -> Option<i64> {
    match score {
        Some(s) => Some(decoded(s as int) as i64),
        None => None,
    }
}

/// The stored form of an optional display score.
pub open spec fn stored_of(score: Option<i64>) -> Option<u8> {
    match score {
        Some(s) => Some(encoded(s as int) as u8),
        None => None,
    }
}

/// The wire shape of a record.
pub open spec fn wire_of(item: MediaItemView) -> ApiMediaItemView {
    ApiMediaItemView {
        id: hyphenated(item.id.bits),
        title: item.title,
        media_type: kind_word(item.media_type, item.source),
        status: status_word(item.media_type),
        score: display_of(item.score),
        global_score: display_of(item.global_score),
        progress: kind_progress(item.media_type).current,
        total_episodes: kind_progress(item.media_type).total,
        poster_url: item.poster_url,
        source: item.source,
        external_id: match item.external_id {
            Some(n) => Some(decimal(n as nat)),
            None => None,
        },
        tags: item.tags,
        favorite: item.tags.contains("favorite"@),
    }
}

/// The tags of a record made from a wire shape: the listed tags, each once,
/// and `favorite` among them where the flag is set.
pub open spec fn wire_tags(tags: Seq<Seq<char>>, favorite: bool) -> Seq<Seq<char>> {
    if favorite {
        with_tag(distinct(tags), "favorite"@)
    } else {
        distinct(tags)
    }
}

/// The record that a wire shape makes up under a given identifier, or what
/// is wrong with the shape. A shape without a title is refused, then one
/// whose media type is unknown.
pub open spec fn record_of(w: ApiMediaItemView, id: ItemId) -> Result<MediaItemView, WireFault> {
    if w.title.len() == 0 {
        Err(WireFault::EmptyTitle)
    } else {
        record_with_title(w, id)
    }
}

/// The record that a wire shape with a title makes up under a given
/// identifier, or the unknown media type that it names.
pub open spec fn record_with_title(w: ApiMediaItemView, id: ItemId) -> Result<
    MediaItemView,
    WireFault,
> {
    match wire_kind(
        w.media_type,
        w.status,
        Progress { current: w.progress, total: w.total_episodes },
    ) {
        None => Err(WireFault::UnknownMediaType(w.media_type)),
        Some(kind) => Ok(
            MediaItemView {
                id,
                title: w.title,
                media_type: kind,
                score: stored_of(w.score),
                global_score: stored_of(w.global_score),
                external_id: match w.external_id {
                    Some(t) => parsed_u32(t),
                    None => None,
                },
                poster_url: w.poster_url,
                source: w.source,
                tags: wire_tags(w.tags, w.favorite),
            },
        ),
    }
}

/// The tag under which a watch status goes on the wire.
pub fn watch_status_str(s: &WatchStatus) -> (r: &'static str)
    ensures
        r@ == watch_word(*s),
{
    s.as_str()
}

/// The tag under which a read status goes on the wire.
pub fn read_status_str(s: &ReadStatus) -> (r: &'static str)
    ensures
        r@ == read_word(*s),
{
    s.as_str()
}

/// The tag under which a readable kind goes on the wire.
pub fn readable_kind_str(k: &ReadableKind) -> (r: &'static str)
    ensures
        r@ == readable_word(*k),
{
    k.as_str()
}

/// Reads a status tag as a watch status. A tag of the read vocabulary is
/// taken for its equivalent, and any other text for `PlanToWatch`: an
/// unknown status is never an error.
pub fn parse_watch_status(s: &str) -> (r: WatchStatus)
    ensures
        r == lenient_watch(s@),
{
    proof {
        lemma_status_words_differ();
    }
    if same_text(s, "watching") || same_text(s, "reading") {
        WatchStatus::Watching
    } else if same_text(s, "plan_to_watch") || same_text(s, "plan_to_read") {
        WatchStatus::PlanToWatch
    } else if same_text(s, "completed") {
        WatchStatus::Completed
    } else if same_text(s, "on_hold") {
        WatchStatus::OnHold
    } else if same_text(s, "dropped") {
        WatchStatus::Dropped
    } else {
        WatchStatus::PlanToWatch
    }
}

/// Reads a status tag as a read status. A tag of the watch vocabulary is
/// taken for its equivalent, and any other text for `PlanToRead`: an unknown
/// status is never an error.
pub fn parse_read_status(s: &str) -> (r: ReadStatus)
    ensures
        r == lenient_read(s@),
{
    proof {
        lemma_status_words_differ();
    }
    if same_text(s, "reading") || same_text(s, "watching") {
        ReadStatus::Reading
    } else if same_text(s, "plan_to_read") || same_text(s, "plan_to_watch") {
        ReadStatus::PlanToRead
    } else if same_text(s, "completed") {
        ReadStatus::Completed
    } else if same_text(s, "on_hold") {
        ReadStatus::OnHold
    } else if same_text(s, "dropped") {
        ReadStatus::Dropped
    } else {
        ReadStatus::PlanToRead
    }
}

/// The media type tag of a kind, given the catalogue that the record came
/// from.
pub fn media_type_str(kind: &MediaItemType, source: Option<&str>) -> (r: &'static str)
    ensures
        r@ == kind_word(
            *kind,
            match source {
                Some(s) => Some(s@),
                None => None,
            },
        ),
{
    match kind {
        MediaItemType::Movie(_) => "movie",
        MediaItemType::Series(_, _) => {
            let from_anilist = match source {
                Some(s) => same_text(s, "anilist"),
                None => false,
            };
            if from_anilist {
                "anime"
            } else {
                "series"
            }
        },
        MediaItemType::Readable(k, _, _) => k.as_str(),
    }
}

/// Reads the kind from a media type tag, a status tag and counters; `None`
/// where the media type tag is unknown.
pub fn parse_media_type(media_type: &str, status: &str, progress: Progress) -> (r: Option<
    MediaItemType,
>)
    ensures
        r == wire_kind(media_type@, status@, progress),
{
    proof {
        lemma_kind_words_differ();
    }
    if same_text(media_type, "movie") {
        Some(MediaItemType::Movie(parse_watch_status(status)))
    } else if same_text(media_type, "series") || same_text(media_type, "anime") {
        Some(MediaItemType::Series(progress, parse_watch_status(status)))
    } else if same_text(media_type, "manga") {
        Some(MediaItemType::Readable(ReadableKind::Manga, progress, parse_read_status(status)))
    } else if same_text(media_type, "manhwa") {
        Some(MediaItemType::Readable(ReadableKind::Manhwa, progress, parse_read_status(status)))
    } else if same_text(media_type, "webtoon") {
        Some(MediaItemType::Readable(ReadableKind::Webtoon, progress, parse_read_status(status)))
    } else if same_text(media_type, "book") {
        Some(MediaItemType::Readable(ReadableKind::Book, progress, parse_read_status(status)))
    } else if same_text(media_type, "light_novel") {
        Some(
            MediaItemType::Readable(ReadableKind::LightNovel, progress, parse_read_status(status)),
        )
    } else if same_text(media_type, "web_novel") {
        Some(MediaItemType::Readable(ReadableKind::WebNovel, progress, parse_read_status(status)))
    } else {
        None
    }
}

/// A well-formed record with a title that goes onto the wire and comes back
/// under its own identifier is the record it was: kind, status, counters,
/// scores, tags and all else. What does not come back is the label `anime`
/// or `series`, which is no part of a record.
pub proof fn law_wire_round_trip(item: MediaItemView)
    requires
        item.wf(),
        item.title.len() > 0,
    ensures
        record_of(wire_of(item), item.id) == Ok::<MediaItemView, WireFault>(item),
{
    lemma_kind_words_differ();
    lemma_status_words_differ();
    lemma_distinct(item.tags);
    if let Some(s) = item.score {
        law_stored_round_trip(s as int);
    }
    if let Some(s) = item.global_score {
        law_stored_round_trip(s as int);
    }
    if let Some(n) = item.external_id {
        lemma_decimal_reads_back(n);
    }
    let w = wire_of(item);
    assert(wire_tags(w.tags, w.favorite) == item.tags);
    assert(wire_kind(
        w.media_type,
        w.status,
        Progress { current: w.progress, total: w.total_episodes },
    ) == Some(item.media_type));
}

/// A status tag of one vocabulary, read for a kind of the other, stands for
/// the equivalent status: `watching` for `Reading`, `plan_to_read` for
/// `PlanToWatch`, and so on. A tag of a kind's own vocabulary stands for the
/// status that it names.
pub proof fn law_status_tags_cross(w: WatchStatus, r: ReadStatus)
    ensures
        lenient_read(watch_word(w)) == read_equivalent(w),
        lenient_watch(read_word(r)) == watch_equivalent(r),
        lenient_watch(watch_word(w)) == w,
        lenient_read(read_word(r)) == r,
{
    lemma_status_words_differ();
}

/// Whatever the source, a series goes out as `anime` or as `series`, and
/// either tag comes back as a series.
pub proof fn law_series_label(p: Progress, s: WatchStatus, source: Option<Seq<char>>, status: Seq<char>)
    ensures
        kind_word(MediaItemType::Series(p, s), source) == "anime"@ <==> source == Some("anilist"@),
        kind_word(MediaItemType::Series(p, s), source) == "series"@ <==> source != Some(
            "anilist"@,
        ),
        wire_kind("anime"@, status, p) == wire_kind("series"@, status, p),
        wire_kind("anime"@, status, p) == Some(MediaItemType::Series(p, lenient_watch(status))),
{
    lemma_kind_words_differ();
}

impl ApiMediaItem {
    /// The wire shape of a record.
    ///
    /// The identifier is written so that it reads back as itself, and a
    /// well-formed record with a title is recovered whole from its wire
    /// shape.
    pub fn from(item: &MediaItem) -> (r: ApiMediaItem)
        ensures
            r@ == wire_of(item@),
            parsed_id(r.id@) == Some(item.id.bits),
            item@.wf() && item.title@.len() > 0 ==> record_of(r@, item.id) == Ok::<
                MediaItemView,
                WireFault,
            >(item@),
    {
        let source: Option<&str> = match &item.source {
            Some(s) => Some(s.as_str()),
            None => None,
        };
        let media_type = media_type_str(&item.media_type, source);
        let (status, progress, total) = match &item.media_type {
            MediaItemType::Movie(ws) => (watch_status_str(ws), 0, None),
            MediaItemType::Series(p, ws) => (watch_status_str(ws), p.current, p.total),
            MediaItemType::Readable(_, p, rs) => (read_status_str(rs), p.current, p.total),
        };
        let external_id = match item.external_id {
            Some(n) => Some(decimal_string(n as u64)),
            None => None,
        };
        let r = ApiMediaItem {
            id: item.id.to_text(),
            title: item.title.clone(),
            media_type: media_type.to_owned(),
            status: status.to_owned(),
            score: item.get_score_display(),
            global_score: item.get_global_score_display(),
            progress,
            total_episodes: total,
            poster_url: clone_opt(&item.poster_url),
            source: clone_opt(&item.source),
            external_id,
            tags: clone_all(item.tags.as_vec()),
            favorite: item.tags.contains("favorite"),
        };
        proof {
            if item@.wf() && item.title@.len() > 0 {
                law_wire_round_trip(item@);
            }
        }
        r
    }

    /// The record that this wire shape makes up under a given identifier.
    ///
    /// A shape with an empty title is refused with `EmptyTitle`. After that
    /// the shape is refused exactly where its media type is none of the known
    /// tags, with the offending tag. An unknown status is no error: it falls
    /// back to the plan state of the kind. The flag `favorite` puts the tag
    /// `favorite` among the tags.
    pub fn into_media_item_with_id(self, id: ItemId) -> (r: Result<MediaItem, WireError>)
        ensures
            match r {
                Ok(item) => record_of(self@, id) == Ok::<MediaItemView, WireFault>(item@)
                    && item@.wf() && item.title@.len() > 0,
                Err(WireError::EmptyTitle) => record_of(self@, id) == Err::<
                    MediaItemView,
                    WireFault,
                >(WireFault::EmptyTitle),
                Err(WireError::UnknownMediaType(tag)) => record_of(self@, id) == Err::<
                    MediaItemView,
                    WireFault,
                >(WireFault::UnknownMediaType(tag@)),
                Err(WireError::InvalidIdentifier(_)) => false,
            },
    {
        if self.title.as_str().is_empty() {
            return Err(WireError::EmptyTitle);
        }
        let ApiMediaItem {
            id: _,
            title,
            media_type,
            status,
            score,
            global_score,
            progress,
            total_episodes,
            poster_url,
            source,
            external_id,
            tags,
            favorite,
        } = self;
        let counters = Progress { current: progress, total: total_episodes };
        let kind = match parse_media_type(media_type.as_str(), status.as_str(), counters) {
            Some(kind) => kind,
            None => {
                return Err(WireError::UnknownMediaType(media_type));
            },
        };
        let mut tag_set = TagSet::from_vec(tags);
        if favorite {
            tag_set.insert("favorite".to_owned());
        }
        let external = match external_id {
            Some(text) => parse_u32(text.as_str()),
            None => None,
        };
        let mut item = MediaItem {
            id,
            title,
            media_type: kind,
            score: None,
            global_score: None,
            external_id: external,
            poster_url,
            source,
            tags: tag_set,
        };
        if let Some(s) = score {
            item.set_score(s);
        }
        if let Some(g) = global_score {
            item.set_global_score(g);
        }
        Ok(item)
    }

    /// The record that this wire shape makes up.
    ///
    /// Three things are looked at, in this order, and the first that is
    /// amiss decides. A shape with an empty title is refused with
    /// `EmptyTitle`. An empty identifier asks for a fresh one; any other must
    /// read as an identifier, or the shape is refused with
    /// `InvalidIdentifier`. A media type that is none of the known tags is
    /// refused with `UnknownMediaType`. Every other shape makes up a record.
    pub fn into_media_item(self) -> (r: Result<MediaItem, WireError>)
        ensures
            match r {
                Ok(item) => {
                    &&& record_of(self@, item.id) == Ok::<MediaItemView, WireFault>(item@)
                    &&& item@.wf()
                    &&& self.title@.len() > 0
                    &&& if self.id@.len() == 0 {
                        is_random_id(item.id.bits)
                    } else {
                        parsed_id(self.id@) == Some(item.id.bits)
                    }
                },
                Err(WireError::EmptyTitle) => self.title@.len() == 0,
                Err(WireError::InvalidIdentifier(_)) => {
                    &&& self.title@.len() > 0
                    &&& self.id@.len() > 0
                    &&& parsed_id(self.id@) is None
                },
                Err(WireError::UnknownMediaType(tag)) => {
                    &&& self.title@.len() > 0
                    &&& self.id@.len() == 0 || parsed_id(self.id@) is Some
                    &&& tag@ == self.media_type@
                    &&& wire_kind(
                        self.media_type@,
                        self.status@,
                        Progress { current: self.progress, total: self.total_episodes },
                    ) is None
                },
            },
    {
        if self.title.as_str().is_empty() {
            return Err(WireError::EmptyTitle);
        }
        let id = if self.id.as_str().is_empty() {
            ItemId::generate()
        } else {
            match ItemId::parse(self.id.as_str()) {
                Ok(id) => id,
                Err(detail) => {
                    return Err(WireError::InvalidIdentifier(detail));
                },
            }
        };
        self.into_media_item_with_id(id)
    }
}

/// One hit of a search in an outside catalogue, in its flat wire shape.
#[derive(Debug, Clone, PartialEq)]
pub struct ApiExploreResult {
    pub title: String,
    pub media_type: String,
    /// The catalogue's score for display, in thousandths of a point.
    pub global_score: Option<i64>,
    pub external_id: Option<String>,
    pub poster_url: Option<String>,
    pub source: String,
    pub total_episodes: Option<u32>,
    pub format_label: String,
}

/// The wire shape of a hit as plain values.
pub struct ApiExploreResultView {
    pub title: Seq<char>,
    pub media_type: Seq<char>,
    pub global_score: Option<i64>,
    pub external_id: Option<Seq<char>>,
    pub poster_url: Option<Seq<char>>,
    pub source: Seq<char>,
    pub total_episodes: Option<u32>,
    pub format_label: Seq<char>,
}

impl View for ApiExploreResult {
    type V = ApiExploreResultView;

    open spec fn view(&self) -> ApiExploreResultView {
        ApiExploreResultView {
            title: self.title@,
            media_type: self.media_type@,
            global_score: self.global_score,
            external_id: opt_text(self.external_id),
            poster_url: opt_text(self.poster_url),
            source: self.source@,
            total_episodes: self.total_episodes,
            format_label: self.format_label@,
        }
    }
}

/// The wire shape of a hit. The media type is written as for a record that
/// came from the hit's catalogue.
pub open spec fn explore_of(hit: SearchResultView) -> ApiExploreResultView {
    ApiExploreResultView {
        title: hit.title,
        media_type: kind_word(hit.media_type, Some(hit.source)),
        global_score: display_of(hit.global_score),
        external_id: match hit.external_id {
            Some(n) => Some(decimal(n as nat)),
            None => None,
        },
        poster_url: hit.poster_url,
        source: hit.source,
        total_episodes: kind_progress(hit.media_type).total,
        format_label: hit.format_label,
    }
}

impl ApiExploreResult {
    /// The wire shape of a hit.
    pub fn from_search_result(r: &SearchResult) -> (api: ApiExploreResult)
        ensures
            api@ == explore_of(r@),
    {
        let media_type = media_type_str(&r.media_type, Some(r.source));
        let total = match &r.media_type {
            MediaItemType::Movie(_) => None,
            MediaItemType::Series(p, _) => p.total,
            MediaItemType::Readable(_, p, _) => p.total,
        };
        ApiExploreResult {
            title: r.title.clone(),
            media_type: media_type.to_owned(),
            global_score: score_display(r.global_score),
            external_id: match r.external_id {
                Some(n) => Some(decimal_string(n as u64)),
                None => None,
            },
            poster_url: clone_opt(&r.poster_url),
            source: r.source.to_owned(),
            total_episodes: total,
            format_label: r.format_label.clone(),
        }
    }
}

/// What a count of the statistics counts.
pub enum Tally {
    Watching,
    Completed,
    PlanToWatch,
    OnHold,
    Dropped,
    Movies,
    Series,
    Anime,
    Readable,
}

/// Whether a wire shape is counted under a tally. The status tallies go by
/// the status tag, the two vocabularies counted together; the kind tallies
/// go by the media type tag, where every tag but `movie`, `series` and
/// `anime` counts as readable.
pub open spec fn counts_under(w: ApiMediaItemView, tally: Tally) -> bool {
    match tally {
        Tally::Watching => w.status == "watching"@ || w.status == "reading"@,
        Tally::Completed => w.status == "completed"@,
        Tally::PlanToWatch => w.status == "plan_to_watch"@ || w.status == "plan_to_read"@,
        Tally::OnHold => w.status == "on_hold"@,
        Tally::Dropped => w.status == "dropped"@,
        Tally::Movies => w.media_type == "movie"@,
        Tally::Series => w.media_type == "series"@,
        Tally::Anime => w.media_type == "anime"@,
        Tally::Readable => w.media_type != "movie"@ && w.media_type != "series"@ && w.media_type
            != "anime"@,
    }
}

/// How many of the wire shapes are counted under a tally.
pub open spec fn tally_of(items: Seq<ApiMediaItemView>, tally: Tally) -> nat
    decreases items.len(),
{
    if items.len() == 0 {
        0
    } else {
        tally_of(items.drop_last(), tally) + if counts_under(items.last(), tally) {
            1nat
        } else {
            0nat
        }
    }
}

/// The wire shapes of a list, as plain values.
pub open spec fn wire_views(items: Seq<ApiMediaItem>) -> Seq<ApiMediaItemView> {
    Seq::new(items.len(), |i: int| items[i]@)
}

/// No tally counts more than there are wire shapes.
pub proof fn lemma_tally_bound(items: Seq<ApiMediaItemView>, tally: Tally)
    ensures
        tally_of(items, tally) <= items.len(),
    decreases items.len(),
{
    if items.len() > 0 {
        lemma_tally_bound(items.drop_last(), tally);
    }
}

/// Every wire shape is counted under exactly one of the four kind tallies,
/// and under at most one of the five status tallies.
pub proof fn law_tallies_partition(items: Seq<ApiMediaItemView>)
    ensures
        tally_of(items, Tally::Movies) + tally_of(items, Tally::Series) + tally_of(
            items,
            Tally::Anime,
        ) + tally_of(items, Tally::Readable) == items.len(),
        tally_of(items, Tally::Watching) + tally_of(items, Tally::Completed) + tally_of(
            items,
            Tally::PlanToWatch,
        ) + tally_of(items, Tally::OnHold) + tally_of(items, Tally::Dropped) <= items.len(),
    decreases items.len(),
{
    lemma_kind_words_differ();
    lemma_status_words_differ();
    if items.len() > 0 {
        law_tallies_partition(items.drop_last());
    }
}

/// Counts over the whole archive.
#[derive(Debug, Clone, Copy, PartialEq, Eq)]
pub struct ApiStats {
    pub total: usize,
    pub watching: usize,
    pub completed: usize,
    pub plan_to_watch: usize,
    pub on_hold: usize,
    pub dropped: usize,
    pub movies: usize,
    pub series: usize,
    pub anime: usize,
    pub readable: usize,
}

impl ApiStats {
    /// The statistics of a list of wire shapes: how many there are, how many
    /// stand under each status, and how many are of each kind.
    pub fn from_items(items: &[ApiMediaItem]) -> (stats: ApiStats)
        ensures
            stats.total == items@.len(),
            stats.watching == tally_of(wire_views(items@), Tally::Watching),
            stats.completed == tally_of(wire_views(items@), Tally::Completed),
            stats.plan_to_watch == tally_of(wire_views(items@), Tally::PlanToWatch),
            stats.on_hold == tally_of(wire_views(items@), Tally::OnHold),
            stats.dropped == tally_of(wire_views(items@), Tally::Dropped),
            stats.movies == tally_of(wire_views(items@), Tally::Movies),
            stats.series == tally_of(wire_views(items@), Tally::Series),
            stats.anime == tally_of(wire_views(items@), Tally::Anime),
            stats.readable == tally_of(wire_views(items@), Tally::Readable),
    {
        let mut stats = ApiStats {
            total: items.len(),
            watching: 0,
            completed: 0,
            plan_to_watch: 0,
            on_hold: 0,
            dropped: 0,
            movies: 0,
            series: 0,
            anime: 0,
            readable: 0,
        };
        let ghost all = wire_views(items@);
        let mut i: usize = 0;
        assert(all.subrange(0, 0) =~= Seq::<ApiMediaItemView>::empty());
        while i < items.len()
            invariant
                i <= items.len(),
                all == wire_views(items@),
                stats.total == items@.len(),
                stats.watching == tally_of(all.subrange(0, i as int), Tally::Watching),
                stats.completed == tally_of(all.subrange(0, i as int), Tally::Completed),
                stats.plan_to_watch == tally_of(all.subrange(0, i as int), Tally::PlanToWatch),
                stats.on_hold == tally_of(all.subrange(0, i as int), Tally::OnHold),
                stats.dropped == tally_of(all.subrange(0, i as int), Tally::Dropped),
                stats.movies == tally_of(all.subrange(0, i as int), Tally::Movies),
                stats.series == tally_of(all.subrange(0, i as int), Tally::Series),
                stats.anime == tally_of(all.subrange(0, i as int), Tally::Anime),
                stats.readable == tally_of(all.subrange(0, i as int), Tally::Readable),
            decreases items.len() - i,
        {
            let ghost seen = all.subrange(0, i as int);
            let ghost next = all.subrange(0, i as int + 1);
            proof {
                assert(next.drop_last() =~= seen);
                assert(next.last() == items@[i as int]@);
                lemma_tally_bound(seen, Tally::Watching);
                lemma_tally_bound(seen, Tally::Completed);
                lemma_tally_bound(seen, Tally::PlanToWatch);
                lemma_tally_bound(seen, Tally::OnHold);
                lemma_tally_bound(seen, Tally::Dropped);
                lemma_tally_bound(seen, Tally::Movies);
                lemma_tally_bound(seen, Tally::Series);
                lemma_tally_bound(seen, Tally::Anime);
                lemma_tally_bound(seen, Tally::Readable);
                lemma_status_words_differ();
                lemma_kind_words_differ();
            }
            let item = &items[i];
            let status = item.status.as_str();
            if same_text(status, "watching") || same_text(status, "reading") {
                stats.watching += 1;
            } else if same_text(status, "completed") {
                stats.completed += 1;
            } else if same_text(status, "plan_to_watch") || same_text(status, "plan_to_read") {
                stats.plan_to_watch += 1;
            } else if same_text(status, "on_hold") {
                stats.on_hold += 1;
            } else if same_text(status, "dropped") {
                stats.dropped += 1;
            }
            let media_type = item.media_type.as_str();
            if same_text(media_type, "movie") {
                stats.movies += 1;
            } else if same_text(media_type, "series") {
                stats.series += 1;
            } else if same_text(media_type, "anime") {
                stats.anime += 1;
            } else {
                stats.readable += 1;
            }
            i += 1;
        }
        assert(all.subrange(0, i as int) =~= all);
        stats
    }
}

} // verus!
