//! The media record and its kind.

use vstd::prelude::*;
use crate::ident::{is_random_id, ItemId};
use crate::progress::{completed_progress, finished, Progress};
use crate::score::{encode, encoded, score_display, decoded, MAX_STORED};
use crate::status::{ReadStatus, WatchStatus};
use crate::tags::TagSet;
use crate::text::opt_text;

verus! {

/// What sort of readable work a record is.
#[derive(Debug, Clone, Copy, PartialEq, Eq, Hash, Structural)]
pub enum ReadableKind {
    Book,
    WebNovel,
    LightNovel,
    Manga,
    Manhwa,
    Webtoon,
}

/// The tag under which a readable kind is written.
pub open spec fn readable_word(k: ReadableKind) -> Seq<char> {
    match k {
        ReadableKind::Book => "book"@,
        ReadableKind::WebNovel => "web_novel"@,
        ReadableKind::LightNovel => "light_novel"@,
        ReadableKind::Manga => "manga"@,
        ReadableKind::Manhwa => "manhwa"@,
        ReadableKind::Webtoon => "webtoon"@,
    }
}

/// The readable kind that a tag names, if it names one.
pub open spec fn readable_named(word: Seq<char>) -> Option<ReadableKind> {
    if word == "book"@ {
        Some(ReadableKind::Book)
    } else if word == "web_novel"@ {
        Some(ReadableKind::WebNovel)
    } else if word == "light_novel"@ {
        Some(ReadableKind::LightNovel)
    } else if word == "manga"@ {
        Some(ReadableKind::Manga)
    } else if word == "manhwa"@ {
        Some(ReadableKind::Manhwa)
    } else if word == "webtoon"@ {
        Some(ReadableKind::Webtoon)
    } else {
        None
    }
}

/// The tags of the kinds differ from one another: those of the six readable
/// kinds, and `movie`, `series`, `anime` and `readable`.
pub proof fn lemma_kind_words_differ()
    ensures
        "book"@ != "web_novel"@,
        "book"@ != "light_novel"@,
        "book"@ != "manga"@,
        "book"@ != "manhwa"@,
        "book"@ != "webtoon"@,
        "web_novel"@ != "light_novel"@,
        "web_novel"@ != "manga"@,
        "web_novel"@ != "manhwa"@,
        "web_novel"@ != "webtoon"@,
        "light_novel"@ != "manga"@,
        "light_novel"@ != "manhwa"@,
        "light_novel"@ != "webtoon"@,
        "manga"@ != "manhwa"@,
        "manga"@ != "webtoon"@,
        "manhwa"@ != "webtoon"@,
        "movie"@ != "series"@,
        "movie"@ != "anime"@,
        "movie"@ != "readable"@,
        "series"@ != "anime"@,
        "series"@ != "readable"@,
        "anime"@ != "readable"@,
        forall|k: ReadableKind|
            #![trigger readable_word(k)]
            readable_word(k) != "movie"@ && readable_word(k) != "series"@ && readable_word(k)
                != "anime"@,
{
    reveal_strlit("book");
    reveal_strlit("web_novel");
    reveal_strlit("light_novel");
    reveal_strlit("manga");
    reveal_strlit("manhwa");
    reveal_strlit("webtoon");
    reveal_strlit("movie");
    reveal_strlit("series");
    reveal_strlit("anime");
    reveal_strlit("readable");
    assert("book"@.len() == 4);
    assert("web_novel"@.len() == 9);
    assert("light_novel"@.len() == 11);
    assert("manga"@.len() == 5);
    assert("manhwa"@.len() == 6);
    assert("webtoon"@.len() == 7);
    assert("movie"@.len() == 5);
    assert("series"@.len() == 6);
    assert("anime"@.len() == 5);
    assert("readable"@.len() == 8);
    assert("manga"@[1] == 'a');
    assert("movie"@[1] == 'o');
    assert("anime"@[1] == 'n');
    assert("manhwa"@[0] == 'm');
    assert("series"@[0] == 's');
}

/// Each readable kind is the one that its own tag names.
pub proof fn lemma_readable_word_names(k: ReadableKind)
    ensures
        readable_named(readable_word(k)) == Some(k),
{
    lemma_kind_words_differ();
}

impl ReadableKind {
    /// The tag under which this kind is written.
    pub fn as_str(&self) -> (r: &'static str)
        ensures
            r@ == readable_word(*self),
    {
        match self {
            ReadableKind::Book => "book",
            ReadableKind::WebNovel => "web_novel",
            ReadableKind::LightNovel => "light_novel",
            ReadableKind::Manga => "manga",
            ReadableKind::Manhwa => "manhwa",
            ReadableKind::Webtoon => "webtoon",
        }
    }
}

/// The kind of a record, with the state that belongs to that kind: a film
/// has a status only; a series and a readable work have a progress too.
#[derive(Debug, Clone, Copy, PartialEq, Eq, Hash)]
pub enum MediaItemType {
    Movie(WatchStatus),
    Series(Progress, WatchStatus),
    Readable(ReadableKind, Progress, ReadStatus),
}

/// Whether a kind counts as completed: its status says so, or, for a series
/// or a readable work, its progress has reached the total.
pub open spec fn kind_completed(kind: MediaItemType) -> bool {
    match kind {
        MediaItemType::Movie(s) => s == WatchStatus::Completed,
        MediaItemType::Series(p, s) => s == WatchStatus::Completed || finished(p),
        MediaItemType::Readable(_, p, s) => s == ReadStatus::Completed || finished(p),
    }
}

/// A kind after a forced completion: the status is `Completed`, and a
/// progress, where there is one, is brought to its end.
pub open spec fn kind_forced_complete(kind: MediaItemType) -> MediaItemType {
    match kind {
        MediaItemType::Movie(_) => MediaItemType::Movie(WatchStatus::Completed),
        MediaItemType::Series(p, _) => MediaItemType::Series(
            completed_progress(p),
            WatchStatus::Completed,
        ),
        MediaItemType::Readable(k, p, _) => MediaItemType::Readable(
            k,
            completed_progress(p),
            ReadStatus::Completed,
        ),
    }
}

impl MediaItemType {
    /// Whether the kind counts as completed.
    pub fn is_completed(&self) -> (r: bool)
        ensures
            r == kind_completed(*self),
    {
        match self {
            MediaItemType::Movie(s) => matches!(s, WatchStatus::Completed),
            MediaItemType::Series(p, s) => matches!(s, WatchStatus::Completed) || p.is_finished(),
            MediaItemType::Readable(_, p, s) => matches!(s, ReadStatus::Completed)
                || p.is_finished(),
        }
    }

    /// The kind after a forced completion.
    pub fn force_complete(&self) -> (r: MediaItemType)
        ensures
            r == kind_forced_complete(*self),
    {
        match self {
            MediaItemType::Movie(_) => MediaItemType::Movie(WatchStatus::Completed),
            MediaItemType::Series(p, _) => {
                let mut q = *p;
                q.force_complete();
                MediaItemType::Series(q, WatchStatus::Completed)
            },
            MediaItemType::Readable(k, p, _) => {
                let mut q = *p;
                q.force_complete();
                MediaItemType::Readable(*k, q, ReadStatus::Completed)
            },
        }
    }
}

/// One record of the archive.
#[derive(Debug, Clone, PartialEq)]
pub struct MediaItem {
    pub id: ItemId,
    pub title: String,
    pub media_type: MediaItemType,
    /// The user's own score, in tenths of a point: 0 to 100.
    pub score: Option<u8>,
    /// The score that an outside catalogue gives, in tenths of a point.
    pub global_score: Option<u8>,
    /// The catalogue's number for the work, where it has one.
    pub external_id: Option<u32>,
    pub poster_url: Option<String>,
    /// The catalogue that the record came from.
    pub source: Option<String>,
    pub tags: TagSet,
}

/// A record as plain values: texts in place of strings.
pub struct MediaItemView {
    pub id: ItemId,
    pub title: Seq<char>,
    pub media_type: MediaItemType,
    pub score: Option<u8>,
    pub global_score: Option<u8>,
    pub external_id: Option<u32>,
    pub poster_url: Option<Seq<char>>,
    pub source: Option<Seq<char>>,
    pub tags: Seq<Seq<char>>,
}

impl View for MediaItem {
    type V = MediaItemView;

    open spec fn view(&self) -> MediaItemView {
        MediaItemView {
            id: self.id,
            title: self.title@,
            media_type: self.media_type,
            score: self.score,
            global_score: self.global_score,
            external_id: self.external_id,
            poster_url: opt_text(self.poster_url),
            source: opt_text(self.source),
            tags: self.tags@,
        }
    }
}

/// Whether an optional stored score lies within 0 and 100.
pub open spec fn score_in_range(score: Option<u8>) -> bool {
    match score {
        Some(s) => s <= MAX_STORED,
        None => true,
    }
}

impl MediaItemView {
    /// What holds of every record that the library builds from a wire shape
    /// or through its own operations: no tag twice, and both scores within 0
    /// and 100.
    pub open spec fn wf(self) -> bool {
        &&& self.tags.no_duplicates()
        &&& score_in_range(self.score)
        &&& score_in_range(self.global_score)
    }

    /// A new record: the given identifier, title and kind, and nothing else.
    pub open spec fn fresh(id: ItemId, title: Seq<char>, media_type: MediaItemType) -> MediaItemView {
        MediaItemView {
            id,
            title,
            media_type,
            score: None,
            global_score: None,
            external_id: None,
            poster_url: None,
            source: None,
            tags: Seq::empty(),
        }
    }

    /// The record after a forced completion: only the kind changes.
    pub open spec fn forced_complete(self) -> MediaItemView {
        MediaItemView { media_type: kind_forced_complete(self.media_type), ..self }
    }
}

impl MediaItem {
    /// A new record with a fresh identifier, no scores, no link to a
    /// catalogue and no tags.
    pub fn new(title: String, media_type: MediaItemType) -> (r: MediaItem)
        ensures
            r@ == MediaItemView::fresh(r.id, title@, media_type),
            is_random_id(r.id.bits),
            r@.wf(),
    {
        MediaItem::with_id(ItemId::generate(), title, media_type)
    }

    /// A new record under a given identifier.
    pub fn with_id(id: ItemId, title: String, media_type: MediaItemType) -> (r: MediaItem)
        ensures
            r@ == MediaItemView::fresh(id, title@, media_type),
            r@.wf(),
    {
        MediaItem {
            id,
            title,
            media_type,
            score: None,
            global_score: None,
            external_id: None,
            poster_url: None,
            source: None,
            tags: TagSet::new(),
        }
    }

    /// Sets the user's score from a display score, in thousandths of a point.
    /// The input is clamped to 0.0 .. 10.0, never refused.
    pub fn set_score(&mut self, input_score: i64)
        ensures
            final(self)@ == (MediaItemView {
                score: Some(encoded(input_score as int) as u8),
                ..old(self)@
            }),
            score_in_range(final(self).score),
    {
        self.score = Some(encode(input_score));
    }

    /// Sets the catalogue's score from a display score, in thousandths of a
    /// point. The input is clamped to 0.0 .. 10.0, never refused.
    pub fn set_global_score(&mut self, input_score: i64)
        ensures
            final(self)@ == (MediaItemView {
                global_score: Some(encoded(input_score as int) as u8),
                ..old(self)@
            }),
            score_in_range(final(self).global_score),
    {
        self.global_score = Some(encode(input_score));
    }

    /// The user's score for display, in thousandths of a point.
    pub fn get_score_display(&self) -> (r: Option<i64>)
        ensures
            r == match self.score {
                Some(s) => Some(decoded(s as int) as i64),
                None => None,
            },
    {
        score_display(self.score)
    }

    /// The catalogue's score for display, in thousandths of a point.
    pub fn get_global_score_display(&self) -> (r: Option<i64>)
        ensures
            r == match self.global_score {
                Some(s) => Some(decoded(s as int) as i64),
                None => None,
            },
    {
        score_display(self.global_score)
    }

    /// Whether the record counts as completed: its status says so, or, for a
    /// series or a readable work, its progress has reached the total.
    pub fn is_completed(&self) -> (r: bool)
        ensures
            r == kind_completed(self.media_type),
    {
        self.media_type.is_completed()
    }

    /// Marks the record completed: the status becomes `Completed`, and the
    /// progress of a series or a readable work is brought to its end.
    pub fn force_complete(&mut self)
        ensures
            final(self)@ == old(self)@.forced_complete(),
    {
        self.media_type = self.media_type.force_complete();
    }
}

impl MediaItem {
    /// Marks the record completed unless it counts as completed already.
    /// Says whether anything was done.
    pub fn complete(&mut self) -> (changed: bool)
        ensures
            changed == !kind_completed(old(self).media_type),
            final(self)@ == if changed {
                old(self)@.forced_complete()
            } else {
                old(self)@
            },
    {
        if self.is_completed() {
            false
        } else {
            self.force_complete();
            true
        }
    }
}

/// Marking a record completed twice gives what marking it once gives.
pub proof fn law_force_complete_idempotent(item: MediaItemView)
    ensures
        item.forced_complete().forced_complete() == item.forced_complete(),
{
}

/// A record that was marked completed counts as completed.
pub proof fn law_forced_complete_is_completed(item: MediaItemView)
    ensures
        kind_completed(item.forced_complete().media_type),
        item.wf() ==> item.forced_complete().wf(),
{
}

} // verus!
