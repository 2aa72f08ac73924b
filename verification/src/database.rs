//! The stored row of a record, and the mapping between a row and a record.
//!
//! A row is flat: the kind of a record is spread over a media type column,
//! a readable kind column and two status columns, of which the ones that do
//! not apply are null. The tags are one column, a JSON array of strings.

use vstd::prelude::*;
use crate::ident::{hyphenated, parsed_id, ItemId};
use crate::models::{
    lemma_kind_words_differ, readable_named, readable_word, MediaItem, MediaItemType,
    MediaItemView, ReadableKind,
};
use crate::progress::Progress;
use crate::status::{
    lemma_status_words_differ, read_named, read_word, watch_named, watch_word, ReadStatus,
    WatchStatus,
};
use crate::storage::StorageError;
use crate::tags::{distinct, lemma_distinct, TagSet};
use crate::text::{clone_all, clone_opt, join2, opt_text, same_text, texts};

verus! {

/// The JSON text that `serde_json::to_string` writes for a list of strings.
pub uninterp spec fn json_of_tags(tags: Seq<Seq<char>>) -> Seq<char>;

/// The list of strings that `serde_json::from_str` reads from a text, where
/// it reads one.
pub uninterp spec fn tags_of_json(text: Seq<char>) -> Option<Seq<Seq<char>>>;

/// Writes a list of strings as JSON with `serde_json::to_string`. The call
/// succeeds: the crate fails only where what is written refuses to be, or
/// where the writer fails, and a list of strings refuses nothing and is
/// written into memory. The text is the named one. The crate writes a list
/// of strings as an array of string literals, and reads such an array back
/// as the same list: so the text reads back as `tags`.
#[verifier::external_body]
fn tags_to_json(tags: &Vec<String>) -> (r: Result<String, serde_json::Error>)
    ensures
        r is Ok,
        r matches Ok(text) ==> text@ == json_of_tags(texts(tags@)) && tags_of_json(text@) == Some(
            texts(tags@),
        ),
{
    serde_json::to_string(tags)
}

/// Reads a list of strings from JSON with `serde_json::from_str`. The result
/// is the named one: the list that the crate reads, or its error.
#[verifier::external_body]
fn tags_from_json(text: &str) -> (r: Result<Vec<String>, serde_json::Error>)
    ensures
        match r {
            Ok(tags) => tags_of_json(text@) == Some(texts(tags@)),
            Err(_) => tags_of_json(text@) is None,
        },
{
    serde_json::from_str::<Vec<String>>(text)
}

/// One row of the table of records.
#[derive(Debug, Clone, PartialEq, Eq)]
pub struct MediaRow {
    pub id: String,
    pub title: String,
    /// `movie`, `series` or `readable`.
    pub media_type: String,
    /// Set for a readable work only.
    pub readable_kind: Option<String>,
    /// Set for a film and a series only.
    pub watch_status: Option<String>,
    /// Set for a readable work only.
    pub read_status: Option<String>,
    pub progress_cur: i64,
    pub progress_tot: Option<i64>,
    pub score: Option<i64>,
    pub global_score: Option<i64>,
    pub external_id: Option<i64>,
    pub poster_url: Option<String>,
    pub source: Option<String>,
    /// The tags, as a JSON array of strings.
    pub tags: String,
}

/// A row as plain values.
pub struct MediaRowView {
    pub id: Seq<char>,
    pub title: Seq<char>,
    pub media_type: Seq<char>,
    pub readable_kind: Option<Seq<char>>,
    pub watch_status: Option<Seq<char>>,
    pub read_status: Option<Seq<char>>,
    pub progress_cur: i64,
    pub progress_tot: Option<i64>,
    pub score: Option<i64>,
    pub global_score: Option<i64>,
    pub external_id: Option<i64>,
    pub poster_url: Option<Seq<char>>,
    pub source: Option<Seq<char>>,
    pub tags: Seq<char>,
}

impl View for MediaRow {
    type V = MediaRowView;

    open spec fn view(&self) -> MediaRowView {
        MediaRowView {
            id: self.id@,
            title: self.title@,
            media_type: self.media_type@,
            readable_kind: opt_text(self.readable_kind),
            watch_status: opt_text(self.watch_status),
            read_status: opt_text(self.read_status),
            progress_cur: self.progress_cur,
            progress_tot: self.progress_tot,
            score: self.score,
            global_score: self.global_score,
            external_id: self.external_id,
            poster_url: opt_text(self.poster_url),
            source: opt_text(self.source),
            tags: self.tags@,
        }
    }
}

/// The text of an optional string slice.
pub open spec fn opt_str_text(s: Option<&str>) -> Option<Seq<char>> {
    match s {
        Some(t) => Some(t@),
        None => None,
    }
}

/// The watch status that a status column stands for: the one that its tag
/// names; `PlanToWatch` where the column is null or the tag unknown.
pub open spec fn stored_watch(word: Option<Seq<char>>) -> WatchStatus {
    match word {
        Some(w) => match watch_named(w) {
            Some(s) => s,
            None => WatchStatus::PlanToWatch,
        },
        None => WatchStatus::PlanToWatch,
    }
}

/// The read status that a status column stands for: the one that its tag
/// names; `PlanToRead` where the column is null or the tag unknown.
pub open spec fn stored_read(word: Option<Seq<char>>) -> ReadStatus {
    match word {
        Some(w) => match read_named(w) {
            Some(s) => s,
            None => ReadStatus::PlanToRead,
        },
        None => ReadStatus::PlanToRead,
    }
}

/// The readable kind that a kind column stands for: the one that its tag
/// names; `Book` where the column is null or the tag unknown.
pub open spec fn stored_readable(word: Option<Seq<char>>) -> ReadableKind {
    match word {
        Some(w) => match readable_named(w) {
            Some(k) => k,
            None => ReadableKind::Book,
        },
        None => ReadableKind::Book,
    }
}

/// The columns over which a kind is spread: media type, readable kind, watch
/// status, read status, current count and total.
pub open spec fn kind_columns(kind: MediaItemType) -> (
    Seq<char>,
    Option<Seq<char>>,
    Option<Seq<char>>,
    Option<Seq<char>>,
    u32,
    Option<u32>,
) {
    match kind {
        MediaItemType::Movie(s) => ("movie"@, None, Some(watch_word(s)), None, 0u32, None),
        MediaItemType::Series(p, s) => (
            "series"@,
            None,
            Some(watch_word(s)),
            None,
            p.current,
            p.total,
        ),
        MediaItemType::Readable(k, p, s) => (
            "readable"@,
            Some(readable_word(k)),
            None,
            Some(read_word(s)),
            p.current,
            p.total,
        ),
    }
}

/// An optional 32-bit count as a 64-bit column.
pub open spec fn wide(n: Option<u32>) -> Option<i64> {
    match n {
        Some(v) => Some(v as i64),
        None => None,
    }
}

/// An optional byte as a 64-bit column.
pub open spec fn wide_byte(n: Option<u8>) -> Option<i64> {
    match n {
        Some(v) => Some(v as i64),
        None => None,
    }
}

/// The low 32 bits of an optional 64-bit column.
pub open spec fn low_word(n: Option<i64>) -> Option<u32> {
    match n {
        Some(v) => Some(v as u32),
        None => None,
    }
}

/// The low byte of an optional 64-bit column.
pub open spec fn low_byte(n: Option<i64>) -> Option<u8> {
    match n {
        Some(v) => Some(v as u8),
        None => None,
    }
}

/// The row of a record, given the JSON text of its tags.
pub open spec fn row_of(item: MediaItemView, tags_json: Seq<char>) -> MediaRowView {
    let cols = kind_columns(item.media_type);
    MediaRowView {
        id: hyphenated(item.id.bits),
        title: item.title,
        media_type: cols.0,
        readable_kind: cols.1,
        watch_status: cols.2,
        read_status: cols.3,
        progress_cur: cols.4 as i64,
        progress_tot: wide(cols.5),
        score: wide_byte(item.score),
        global_score: wide_byte(item.global_score),
        external_id: wide(item.external_id),
        poster_url: item.poster_url,
        source: item.source,
        tags: tags_json,
    }
}

/// The kind that the columns of a row make up; `None` where the media type
/// column is none of `movie`, `series` and `readable`. The counts are the low
/// 32 bits of their columns.
pub open spec fn stored_kind(row: MediaRowView) -> Option<MediaItemType> {
    let p = Progress { current: row.progress_cur as u32, total: low_word(row.progress_tot) };
    if row.media_type == "movie"@ {
        Some(MediaItemType::Movie(stored_watch(row.watch_status)))
    } else if row.media_type == "series"@ {
        Some(MediaItemType::Series(p, stored_watch(row.watch_status)))
    } else if row.media_type == "readable"@ {
        Some(
            MediaItemType::Readable(
                stored_readable(row.readable_kind),
                p,
                stored_read(row.read_status),
            ),
        )
    } else {
        None
    }
}

/// What is wrong with a row that is no record.
pub enum RowFault {
    /// The identifier column holds no identifier.
    InvalidId,
    /// The media type column holds this, which is no media type.
    UnknownMediaType(Seq<char>),
}

/// The record that a row makes up, given what its identifier column and its
/// tags column read as. A row whose identifier does not read is refused,
/// then one whose media type is unknown. Tags that do not read are no fault:
/// the record then has none.
pub open spec fn item_of_row(
    row: MediaRowView,
    id: Option<u128>,
    tags: Option<Seq<Seq<char>>>,
) -> Result<MediaItemView, RowFault> {
    match id {
        None => Err(RowFault::InvalidId),
        Some(bits) => match stored_kind(row) {
            None => Err(RowFault::UnknownMediaType(row.media_type)),
            Some(kind) => Ok(
                MediaItemView {
                    id: ItemId { bits },
                    title: row.title,
                    media_type: kind,
                    score: low_byte(row.score),
                    global_score: low_byte(row.global_score),
                    external_id: low_word(row.external_id),
                    poster_url: row.poster_url,
                    source: row.source,
                    tags: match tags {
                        Some(t) => distinct(t),
                        None => Seq::empty(),
                    },
                },
            ),
        },
    }
}

/// A record whose tags hold nothing twice is recovered whole from its row,
/// whatever its kind, where the identifier and the tags read back as they
/// were written.
pub proof fn law_row_round_trip(item: MediaItemView, tags_json: Seq<char>)
    requires
        item.tags.no_duplicates(),
    ensures
        item_of_row(row_of(item, tags_json), Some(item.id.bits), Some(item.tags)) == Ok::<
            MediaItemView,
            RowFault,
        >(item),
{
    lemma_kind_words_differ();
    lemma_status_words_differ();
    lemma_distinct(item.tags);
    let row = row_of(item, tags_json);
    assert(stored_kind(row) == Some(item.media_type));
}

/// The tag under which a watch status is stored.
pub fn watch_str(s: &WatchStatus) -> (r: &'static str)
    ensures
        r@ == watch_word(*s),
{
    s.as_str()
}

/// The tag under which a read status is stored.
pub fn read_str(s: &ReadStatus) -> (r: &'static str)
    ensures
        r@ == read_word(*s),
{
    s.as_str()
}

/// The tag under which a readable kind is stored.
pub fn readable_str(k: &ReadableKind) -> (r: &'static str)
    ensures
        r@ == readable_word(*k),
{
    k.as_str()
}

/// Reads a watch status column: the status that the tag names, and
/// `PlanToWatch` for a null column or any other text.
pub fn parse_watch_status(s: Option<&str>) -> (r: WatchStatus)
    ensures
        r == stored_watch(opt_str_text(s)),
{
    proof {
        lemma_status_words_differ();
    }
    match s {
        Some(w) => {
            if same_text(w, "watching") {
                WatchStatus::Watching
            } else if same_text(w, "plan_to_watch") {
                WatchStatus::PlanToWatch
            } else if same_text(w, "completed") {
                WatchStatus::Completed
            } else if same_text(w, "on_hold") {
                WatchStatus::OnHold
            } else if same_text(w, "dropped") {
                WatchStatus::Dropped
            } else {
                WatchStatus::PlanToWatch
            }
        },
        None => WatchStatus::PlanToWatch,
    }
}

/// Reads a read status column: the status that the tag names, and
/// `PlanToRead` for a null column or any other text.
pub fn parse_read_status(s: Option<&str>) -> (r: ReadStatus)
    ensures
        r == stored_read(opt_str_text(s)),
{
    proof {
        lemma_status_words_differ();
    }
    match s {
        Some(w) => {
            if same_text(w, "reading") {
                ReadStatus::Reading
            } else if same_text(w, "plan_to_read") {
                ReadStatus::PlanToRead
            } else if same_text(w, "completed") {
                ReadStatus::Completed
            } else if same_text(w, "on_hold") {
                ReadStatus::OnHold
            } else if same_text(w, "dropped") {
                ReadStatus::Dropped
            } else {
                ReadStatus::PlanToRead
            }
        },
        None => ReadStatus::PlanToRead,
    }
}

/// Reads a readable kind column: the kind that the tag names, and `Book` for
/// a null column or any other text.
pub fn parse_readable_kind(s: Option<&str>) -> (r: ReadableKind)
    ensures
        r == stored_readable(opt_str_text(s)),
{
    proof {
        lemma_kind_words_differ();
    }
    match s {
        Some(w) => {
            if same_text(w, "book") {
                ReadableKind::Book
            } else if same_text(w, "web_novel") {
                ReadableKind::WebNovel
            } else if same_text(w, "light_novel") {
                ReadableKind::LightNovel
            } else if same_text(w, "manga") {
                ReadableKind::Manga
            } else if same_text(w, "manhwa") {
                ReadableKind::Manhwa
            } else if same_text(w, "webtoon") {
                ReadableKind::Webtoon
            } else {
                ReadableKind::Book
            }
        },
        None => ReadableKind::Book,
    }
}

/// Spreads a kind over its columns: media type, readable kind, watch status,
/// read status, current count and total. Exactly one of the two status
/// columns is set, and the readable kind for a readable work only.
pub fn decompose_media_type(mt: &MediaItemType) -> (r: (
    &'static str,
    Option<&'static str>,
    Option<&'static str>,
    Option<&'static str>,
    u32,
    Option<u32>,
))
    ensures
        (r.0@, opt_str_text(r.1), opt_str_text(r.2), opt_str_text(r.3), r.4, r.5) == kind_columns(
            *mt,
        ),
        r.2 is Some <==> r.3 is None,
        r.1 is Some <==> mt is Readable,
{
    match mt {
        MediaItemType::Movie(ws) => ("movie", None, Some(watch_str(ws)), None, 0, None),
        MediaItemType::Series(p, ws) => (
            "series",
            None,
            Some(watch_str(ws)),
            None,
            p.current,
            p.total,
        ),
        MediaItemType::Readable(kind, p, rs) => (
            "readable",
            Some(readable_str(kind)),
            None,
            Some(read_str(rs)),
            p.current,
            p.total,
        ),
    }
}

/// An owned copy of an optional static string.
fn owned_opt(s: Option<&'static str>) -> (r: Option<String>)
    ensures
        opt_text(r) == opt_str_text(s),
{
    match s {
        Some(t) => Some(t.to_owned()),
        None => None,
    }
}

/// A borrowed view of an optional string.
fn borrowed_opt(s: &Option<String>) -> (r: Option<&str>)
    ensures
        opt_str_text(r) == opt_text(*s),
{
    match s {
        Some(t) => Some(t.as_str()),
        None => None,
    }
}

impl MediaRow {
    /// The row of a record, given the JSON text of its tags. The identifier
    /// is written so that it reads back as itself.
    pub fn assemble(item: &MediaItem, tags_json: String) -> (row: MediaRow)
        ensures
            row@ == row_of(item@, tags_json@),
            parsed_id(row.id@) == Some(item.id.bits),
    {
        let (media_type, readable_kind, watch_status, read_status, cur, tot) =
            decompose_media_type(&item.media_type);
        MediaRow {
            id: item.id.to_text(),
            title: item.title.clone(),
            media_type: media_type.to_owned(),
            readable_kind: owned_opt(readable_kind),
            watch_status: owned_opt(watch_status),
            read_status: owned_opt(read_status),
            progress_cur: cur as i64,
            progress_tot: match tot {
                Some(t) => Some(t as i64),
                None => None,
            },
            score: match item.score {
                Some(s) => Some(s as i64),
                None => None,
            },
            global_score: match item.global_score {
                Some(s) => Some(s as i64),
                None => None,
            },
            external_id: match item.external_id {
                Some(e) => Some(e as i64),
                None => None,
            },
            poster_url: clone_opt(&item.poster_url),
            source: clone_opt(&item.source),
            tags: tags_json,
        }
    }

    /// The row of a record. Every record has one: the call succeeds.
    ///
    /// A record whose tags hold nothing twice is recovered whole from the
    /// row.
    pub fn from_media_item(item: &MediaItem) -> (r: Result<MediaRow, StorageError>)
        ensures
            r matches Ok(row) && {
                &&& row@ == row_of(item@, json_of_tags(item.tags@))
                &&& parsed_id(row.id@) == Some(item.id.bits)
                &&& tags_of_json(row.tags@) == Some(item.tags@)
                &&& item.tags.wf() ==> item_of_row(
                    row@,
                    parsed_id(row.id@),
                    tags_of_json(row.tags@),
                ) == Ok::<MediaItemView, RowFault>(item@)
            },
    {
        match tags_to_json(item.tags.as_vec()) {
            Ok(tags_json) => {
                proof {
                    if item.tags.wf() {
                        law_row_round_trip(item@, tags_json@);
                    }
                }
                Ok(MediaRow::assemble(item, tags_json))
            },
            Err(e) => Err(StorageError::Serialization(e)),
        }
    }
}

/// The record that a row makes up, given what was read from its identifier
/// column (the identifier, or why it is none) and from its tags column (the
/// list, or nothing where the text is no list of strings).
///
/// A row whose identifier did not read is corrupt, and so is one whose media
/// type is none of `movie`, `series` and `readable`: the finding names the
/// offending value. Tags that did not read are no fault.
pub fn media_item_from_parts(
    row: &MediaRow,
    id: Result<ItemId, String>,
    tags: Option<Vec<String>>,
) -> (r: Result<MediaItem, StorageError>)
    ensures
        match r {
            Ok(item) => id matches Ok(i) && item_of_row(
                row@,
                Some(i.bits),
                match tags {
                    Some(t) => Some(texts(t@)),
                    None => None,
                },
            ) == Ok::<MediaItemView, RowFault>(item@) && item.tags.wf(),
            Err(StorageError::Corruption(finding)) => match id {
                Err(detail) => finding@ == "Invalid UUID: "@ + detail@,
                Ok(_) => stored_kind(row@) is None && finding@ == "Unknown media_type: "@
                    + row.media_type@,
            },
            Err(_) => false,
        },
{
    let id = match id {
        Ok(id) => id,
        Err(detail) => {
            return Err(StorageError::Corruption(join2("Invalid UUID: ", detail.as_str())));
        },
    };
    let progress = Progress {
        current: #[verifier::truncate]
        (row.progress_cur as u32),
        total: match row.progress_tot {
            Some(t) => Some(#[verifier::truncate] (t as u32)),
            None => None,
        },
    };
    proof {
        lemma_kind_words_differ();
    }
    let kind_word = row.media_type.as_str();
    let media_type = if same_text(kind_word, "movie") {
        MediaItemType::Movie(parse_watch_status(borrowed_opt(&row.watch_status)))
    } else if same_text(kind_word, "series") {
        MediaItemType::Series(progress, parse_watch_status(borrowed_opt(&row.watch_status)))
    } else if same_text(kind_word, "readable") {
        MediaItemType::Readable(
            parse_readable_kind(borrowed_opt(&row.readable_kind)),
            progress,
            parse_read_status(borrowed_opt(&row.read_status)),
        )
    } else {
        return Err(StorageError::Corruption(join2("Unknown media_type: ", kind_word)));
    };
    let tag_set = match tags {
        Some(t) => TagSet::from_vec(t),
        None => TagSet::new(),
    };
    Ok(
        MediaItem {
            id,
            title: row.title.clone(),
            media_type,
            score: match row.score {
                Some(s) => Some(#[verifier::truncate] (s as u8)),
                None => None,
            },
            global_score: match row.global_score {
                Some(s) => Some(#[verifier::truncate] (s as u8)),
                None => None,
            },
            external_id: match row.external_id {
                Some(e) => Some(#[verifier::truncate] (e as u32)),
                None => None,
            },
            poster_url: clone_opt(&row.poster_url),
            source: clone_opt(&row.source),
            tags: tag_set,
        },
    )
}

/// The record that a row makes up.
///
/// Fails, with `Corruption`, exactly where the identifier column holds no
/// identifier or, that being in order, the media type column holds none of
/// `movie`, `series` and `readable`. A tags column that is no JSON list of
/// strings gives a record without tags.
pub fn row_to_media_item(row: &MediaRow) -> (r: Result<MediaItem, StorageError>)
    ensures
        match r {
            Ok(item) => item_of_row(row@, parsed_id(row.id@), tags_of_json(row.tags@)) == Ok::<
                MediaItemView,
                RowFault,
            >(item@) && item.tags.wf(),
            Err(StorageError::Corruption(finding)) => match item_of_row(
                row@,
                parsed_id(row.id@),
                tags_of_json(row.tags@),
            ) {
                Err(RowFault::InvalidId) => "Invalid UUID: "@.is_prefix_of(finding@),
                Err(RowFault::UnknownMediaType(word)) => finding@ == "Unknown media_type: "@
                    + word,
                Ok(_) => false,
            },
            Err(_) => false,
        },
{
    let id = ItemId::parse(row.id.as_str());
    let tags = match tags_from_json(row.tags.as_str()) {
        Ok(t) => Some(t),
        Err(_) => None,
    };
    let ghost id_read = id;
    let r = media_item_from_parts(row, id, tags);
    proof {
        if let Err(StorageError::Corruption(finding)) = &r {
            if let Err(detail) = id_read {
                assert(finding@.subrange(0, "Invalid UUID: "@.len() as int) =~= "Invalid UUID: "@);
            }
        }
    }
    r
}

/// What a row reads as: the record that it makes up, or what is wrong with
/// it.
pub open spec fn read_of(row: MediaRowView) -> Result<MediaItemView, RowFault> {
    item_of_row(row, parsed_id(row.id), tags_of_json(row.tags))
}

/// The rows of a list, as plain values.
pub open spec fn row_views(rows: Seq<MediaRow>) -> Seq<MediaRowView> {
    Seq::new(rows.len(), |i: int| rows[i]@)
}

/// The records that a list of rows makes up, in the order of the rows.
///
/// One row that is no record fails the whole list, with the finding on the
/// first such row: where one row is corrupt, the others are not to be
/// trusted either.
pub fn recompose_all(rows: &Vec<MediaRow>) -> (r: Result<Vec<MediaItem>, StorageError>)
    ensures
        match r {
            Ok(items) => {
                &&& items@.len() == rows@.len()
                &&& forall|i: int|
                    0 <= i < rows@.len() ==> read_of(#[trigger] rows@[i]@) == Ok::<
                        MediaItemView,
                        RowFault,
                    >(items@[i]@)
            },
            Err(e) => {
                &&& e is Corruption
                &&& exists|i: int|
                    0 <= i < rows@.len() && read_of(#[trigger] rows@[i]@) is Err && forall|k: int|
                        0 <= k < i ==> read_of(#[trigger] rows@[k]@) is Ok
            },
        },
{
    let mut items: Vec<MediaItem> = Vec::new();
    let mut i: usize = 0;
    while i < rows.len()
        invariant
            i <= rows.len(),
            items@.len() == i,
            forall|k: int|
                0 <= k < i ==> read_of(#[trigger] rows@[k]@) == Ok::<MediaItemView, RowFault>(
                    items@[k]@,
                ),
        decreases rows.len() - i,
    {
        match row_to_media_item(&rows[i]) {
            Ok(item) => {
                items.push(item);
            },
            Err(e) => {
                assert(read_of(rows@[i as int]@) is Err);
                return Err(e);
            },
        }
        i += 1;
    }
    Ok(items)
}

/// The rows of a list of records, in the order of the records. Every list
/// has them: the call succeeds.
pub fn decompose_all(items: &[MediaItem]) -> (r: Result<Vec<MediaRow>, StorageError>)
    ensures
        r matches Ok(rows) && {
            &&& rows@.len() == items@.len()
            &&& forall|i: int|
                0 <= i < items@.len() ==> (#[trigger] rows@[i])@ == row_of(
                    items@[i]@,
                    json_of_tags(items@[i].tags@),
                )
            &&& forall|i: int|
                0 <= i < items@.len() && items@[i].tags.wf() ==> read_of(
                    (#[trigger] rows@[i])@,
                ) == Ok::<MediaItemView, RowFault>(items@[i]@)
        },
{
    let mut rows: Vec<MediaRow> = Vec::new();
    let mut i: usize = 0;
    while i < items.len()
        invariant
            i <= items.len(),
            rows@.len() == i,
            forall|k: int|
                0 <= k < i ==> (#[trigger] rows@[k])@ == row_of(
                    items@[k]@,
                    json_of_tags(items@[k].tags@),
                ),
            forall|k: int|
                0 <= k < i && items@[k].tags.wf() ==> read_of((#[trigger] rows@[k])@) == Ok::<
                    MediaItemView,
                    RowFault,
                >(items@[k]@),
        decreases items.len() - i,
    {
        let row = MediaRow::from_media_item(&items[i])?;
        rows.push(row);
        i += 1;
    }
    Ok(rows)
}

} // verus!
