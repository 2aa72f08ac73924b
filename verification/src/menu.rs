//! What the terminal front end decides: how an answer is read as a choice,
//! and how a record is shown in a list.

use vstd::prelude::*;
use crate::models::{MediaItem, MediaItemType, ReadableKind};
use crate::progress::{percent_of, Progress, Ratio};
use crate::search::MediaSearchType;
use crate::status::{ReadStatus, WatchStatus};
use crate::text::{
    decimal, decimal_string, eq_ignore_ascii_case, parse_u32, parsed_u32, same_ignoring_ascii_case,
    same_text,
};

verus! {

/// What can be chosen in the main menu.
#[derive(Debug, Clone, Copy, PartialEq, Eq, Structural)]
pub enum MenuChoice {
    SearchAndAdd,
    AddManual,
    List,
    Detail,
    Score,
    Complete,
    Progress,
    Tags,
    SaveAndExit,
}

/// The choice that an answer to the main menu makes: `1` to `9`, in the
/// order of the menu; no other answer is a choice.
pub open spec fn menu_choice_of(answer: Seq<char>) -> Option<MenuChoice> {
    if answer == "1"@ {
        Some(MenuChoice::SearchAndAdd)
    } else if answer == "2"@ {
        Some(MenuChoice::AddManual)
    } else if answer == "3"@ {
        Some(MenuChoice::List)
    } else if answer == "4"@ {
        Some(MenuChoice::Detail)
    } else if answer == "5"@ {
        Some(MenuChoice::Score)
    } else if answer == "6"@ {
        Some(MenuChoice::Complete)
    } else if answer == "7"@ {
        Some(MenuChoice::Progress)
    } else if answer == "8"@ {
        Some(MenuChoice::Tags)
    } else if answer == "9"@ {
        Some(MenuChoice::SaveAndExit)
    } else {
        None
    }
}

/// The readable kind that an answer chooses: `1` to `6` for book, web novel,
/// light novel, manga, manhwa and webtoon.
pub open spec fn readable_choice_of(answer: Seq<char>) -> Option<ReadableKind> {
    if answer == "1"@ {
        Some(ReadableKind::Book)
    } else if answer == "2"@ {
        Some(ReadableKind::WebNovel)
    } else if answer == "3"@ {
        Some(ReadableKind::LightNovel)
    } else if answer == "4"@ {
        Some(ReadableKind::Manga)
    } else if answer == "5"@ {
        Some(ReadableKind::Manhwa)
    } else if answer == "6"@ {
        Some(ReadableKind::Webtoon)
    } else {
        None
    }
}

/// The search category that an answer chooses: `1` to `6` for anime, manga,
/// light novel, film, series and book.
pub open spec fn category_choice_of(answer: Seq<char>) -> Option<MediaSearchType> {
    if answer == "1"@ {
        Some(MediaSearchType::Anime)
    } else if answer == "2"@ {
        Some(MediaSearchType::Manga)
    } else if answer == "3"@ {
        Some(MediaSearchType::LightNovel)
    } else if answer == "4"@ {
        Some(MediaSearchType::Movie)
    } else if answer == "5"@ {
        Some(MediaSearchType::Series)
    } else if answer == "6"@ {
        Some(MediaSearchType::Book)
    } else {
        None
    }
}

/// What can be done with the tags of a record.
#[derive(Debug, Clone, Copy, PartialEq, Eq, Structural)]
pub enum TagAction {
    Add,
    Remove,
}

/// What an answer asks to be done with the tags: `1` to add one, `2` to
/// remove one; any other answer leaves them alone.
pub open spec fn tag_action_of(answer: Seq<char>) -> Option<TagAction> {
    if answer == "1"@ {
        Some(TagAction::Add)
    } else if answer == "2"@ {
        Some(TagAction::Remove)
    } else {
        None
    }
}

/// What sort of record is to be added by hand.
#[derive(Debug, Clone, Copy, PartialEq, Eq, Structural)]
pub enum KindChoice {
    Movie,
    Series,
    Readable,
}

/// The sort of record that an answer chooses: `1` for a film, `2` for a
/// series and `3` for a readable work.
pub open spec fn kind_choice_of(answer: Seq<char>) -> Option<KindChoice> {
    if answer == "1"@ {
        Some(KindChoice::Movie)
    } else if answer == "2"@ {
        Some(KindChoice::Series)
    } else if answer == "3"@ {
        Some(KindChoice::Readable)
    } else {
        None
    }
}

/// The kind of a record that is added by hand: a film is planned; a series
/// is being watched and a readable work being read, at the given counters.
pub open spec fn manual_kind(choice: KindChoice, readable: ReadableKind, p: Progress) -> MediaItemType {
    match choice {
        KindChoice::Movie => MediaItemType::Movie(WatchStatus::PlanToWatch),
        KindChoice::Series => MediaItemType::Series(p, WatchStatus::Watching),
        KindChoice::Readable => MediaItemType::Readable(readable, p, ReadStatus::Reading),
    }
}

/// The place in a list of `len` entries that a number picks, the list being
/// counted from one; no place for zero or a number beyond the list.
pub open spec fn picked(number: usize, len: usize) -> Option<usize> {
    if 1 <= number <= len {
        Some((number - 1) as usize)
    } else {
        None
    }
}

/// The total that an answer gives: unknown for an empty answer, the number
/// for a number. `Err` for any other answer.
pub open spec fn total_of(answer: Seq<char>) -> Result<Option<u32>, ()> {
    if answer.len() == 0 {
        Ok(None)
    } else {
        match parsed_u32(answer) {
            Some(n) => Ok(Some(n)),
            None => Err(()),
        }
    }
}

/// Whether a title is in the archive already, the case of ASCII letters set
/// aside.
pub open spec fn duplicate_in(titles: Seq<Seq<char>>, title: Seq<char>) -> bool {
    exists|i: int| 0 <= i < titles.len() && same_ignoring_ascii_case(#[trigger] titles[i], title)
}

/// The titles of the records of an archive.
pub open spec fn titles_of(archive: Seq<MediaItem>) -> Seq<Seq<char>> {
    Seq::new(archive.len(), |i: int| archive[i].title@)
}

/// The label of a watch status.
pub open spec fn watch_label_of(s: WatchStatus) -> Seq<char> {
    match s {
        WatchStatus::Watching => "Watching"@,
        WatchStatus::PlanToWatch => "Plan to Watch"@,
        WatchStatus::Completed => "Completed"@,
        WatchStatus::OnHold => "On Hold"@,
        WatchStatus::Dropped => "Dropped"@,
    }
}

/// The label of a read status.
pub open spec fn read_label_of(s: ReadStatus) -> Seq<char> {
    match s {
        ReadStatus::Reading => "Reading"@,
        ReadStatus::PlanToRead => "Plan to Read"@,
        ReadStatus::Completed => "Completed"@,
        ReadStatus::OnHold => "On Hold"@,
        ReadStatus::Dropped => "Dropped"@,
    }
}

/// The name of a readable kind.
pub open spec fn readable_name_of(k: ReadableKind) -> Seq<char> {
    match k {
        ReadableKind::Book => "Book"@,
        ReadableKind::WebNovel => "WebNovel"@,
        ReadableKind::LightNovel => "LightNovel"@,
        ReadableKind::Manga => "Manga"@,
        ReadableKind::Manhwa => "Manhwa"@,
        ReadableKind::Webtoon => "Webtoon"@,
    }
}

/// A fraction rounded to the nearest whole number; one that lies midway
/// between two goes to the even one.
pub open spec fn rounded(q: Ratio) -> nat
    recommends
        q.den > 0,
{
    let whole = q.num as nat / q.den as nat;
    let rest = q.num as nat % q.den as nat;
    if 2 * rest > q.den || (2 * rest == q.den && whole % 2 == 1) {
        whole + 1
    } else {
        whole
    }
}

/// The counters as shown in a list: `[3/12] 25%`; `[3/?]` where the total
/// is unknown. The percentage is rounded to a whole number.
pub open spec fn progress_text(p: Progress) -> Seq<char> {
    match p.total {
        Some(t) => "["@ + decimal(p.current as nat) + "/"@ + decimal(t as nat) + "]"@ + " "@
            + decimal(rounded(percent_of(p)->0)) + "%"@,
        None => "["@ + decimal(p.current as nat) + "/?]"@,
    }
}

/// The kind, the counters and the status of a record as shown in a list.
pub open spec fn status_text(kind: MediaItemType) -> Seq<char> {
    match kind {
        MediaItemType::Movie(s) => "Movie ("@ + watch_label_of(s) + ")"@,
        MediaItemType::Series(p, s) => "Series "@ + progress_text(p) + " ("@ + watch_label_of(s)
            + ")"@,
        MediaItemType::Readable(k, p, s) => readable_name_of(k) + " "@ + progress_text(p) + " ("@
            + read_label_of(s) + ")"@,
    }
}

/// Reads an answer to the main menu.
pub fn parse_menu_choice(answer: &str) -> (r: Option<MenuChoice>)
    ensures
        r == menu_choice_of(answer@),
{
    if same_text(answer, "1") {
        Some(MenuChoice::SearchAndAdd)
    } else if same_text(answer, "2") {
        Some(MenuChoice::AddManual)
    } else if same_text(answer, "3") {
        Some(MenuChoice::List)
    } else if same_text(answer, "4") {
        Some(MenuChoice::Detail)
    } else if same_text(answer, "5") {
        Some(MenuChoice::Score)
    } else if same_text(answer, "6") {
        Some(MenuChoice::Complete)
    } else if same_text(answer, "7") {
        Some(MenuChoice::Progress)
    } else if same_text(answer, "8") {
        Some(MenuChoice::Tags)
    } else if same_text(answer, "9") {
        Some(MenuChoice::SaveAndExit)
    } else {
        None
    }
}

/// Reads the choice of a readable kind.
pub fn parse_readable_choice(answer: &str) -> (r: Option<ReadableKind>)
    ensures
        r == readable_choice_of(answer@),
{
    if same_text(answer, "1") {
        Some(ReadableKind::Book)
    } else if same_text(answer, "2") {
        Some(ReadableKind::WebNovel)
    } else if same_text(answer, "3") {
        Some(ReadableKind::LightNovel)
    } else if same_text(answer, "4") {
        Some(ReadableKind::Manga)
    } else if same_text(answer, "5") {
        Some(ReadableKind::Manhwa)
    } else if same_text(answer, "6") {
        Some(ReadableKind::Webtoon)
    } else {
        None
    }
}

/// Reads the choice of a search category.
pub fn parse_category_choice(answer: &str) -> (r: Option<MediaSearchType>)
    ensures
        r == category_choice_of(answer@),
{
    if same_text(answer, "1") {
        Some(MediaSearchType::Anime)
    } else if same_text(answer, "2") {
        Some(MediaSearchType::Manga)
    } else if same_text(answer, "3") {
        Some(MediaSearchType::LightNovel)
    } else if same_text(answer, "4") {
        Some(MediaSearchType::Movie)
    } else if same_text(answer, "5") {
        Some(MediaSearchType::Series)
    } else if same_text(answer, "6") {
        Some(MediaSearchType::Book)
    } else {
        None
    }
}

/// Reads what is to be done with the tags of a record.
pub fn parse_tag_action(answer: &str) -> (r: Option<TagAction>)
    ensures
        r == tag_action_of(answer@),
{
    if same_text(answer, "1") {
        Some(TagAction::Add)
    } else if same_text(answer, "2") {
        Some(TagAction::Remove)
    } else {
        None
    }
}

/// Reads the choice of what sort of record to add.
pub fn parse_kind_choice(answer: &str) -> (r: Option<KindChoice>)
    ensures
        r == kind_choice_of(answer@),
{
    if same_text(answer, "1") {
        Some(KindChoice::Movie)
    } else if same_text(answer, "2") {
        Some(KindChoice::Series)
    } else if same_text(answer, "3") {
        Some(KindChoice::Readable)
    } else {
        None
    }
}

/// The kind of a record that is added by hand. The readable kind counts
/// for a readable work only, and the counters for a film not at all.
pub fn manual_media_type(choice: KindChoice, readable: ReadableKind, progress: Progress) -> (r:
    MediaItemType)
    ensures
        r == manual_kind(choice, readable, progress),
{
    match choice {
        KindChoice::Movie => MediaItemType::Movie(WatchStatus::PlanToWatch),
        KindChoice::Series => MediaItemType::Series(progress, WatchStatus::Watching),
        KindChoice::Readable => MediaItemType::Readable(readable, progress, ReadStatus::Reading),
    }
}

/// The place in a list of `len` entries that a number picks.
pub fn pick(number: usize, len: usize) -> (r: Option<usize>)
    ensures
        r == picked(number, len),
{
    if number >= 1 && number <= len {
        Some(number - 1)
    } else {
        None
    }
}

/// Whether an answer confirms: `y` or `Y`, nothing else.
pub fn confirms(answer: &str) -> (r: bool)
    ensures
        r == (answer@ == "y"@ || answer@ == "Y"@),
{
    same_text(answer, "y") || same_text(answer, "Y")
}

/// Reads the answer to the question for a total: an empty answer leaves the
/// total unknown; any other must be a number.
pub fn parse_total(answer: &str) -> (r: Result<Option<u32>, ()>)
    ensures
        r == total_of(answer@),
{
    if answer.is_empty() {
        Ok(None)
    } else {
        match parse_u32(answer) {
            Some(n) => Ok(Some(n)),
            None => Err(()),
        }
    }
}

/// Whether the archive holds a record of this title already, the case of
/// ASCII letters set aside.
pub fn has_duplicate(archive: &Vec<MediaItem>, title: &str) -> (r: bool)
    ensures
        r == duplicate_in(titles_of(archive@), title@),
{
    let ghost titles = titles_of(archive@);
    let mut i: usize = 0;
    while i < archive.len()
        invariant
            i <= archive.len(),
            titles == titles_of(archive@),
            forall|k: int| 0 <= k < i ==> !same_ignoring_ascii_case(#[trigger] titles[k], title@),
        decreases archive.len() - i,
    {
        if eq_ignore_ascii_case(archive[i].title.as_str(), title) {
            assert(titles[i as int] == archive@[i as int].title@);
            return true;
        }
        i += 1;
    }
    false
}

/// The label of a watch status.
pub fn watch_label(s: &WatchStatus) -> (r: &'static str)
    ensures
        r@ == watch_label_of(*s),
{
    match s {
        WatchStatus::Watching => "Watching",
        WatchStatus::PlanToWatch => "Plan to Watch",
        WatchStatus::Completed => "Completed",
        WatchStatus::OnHold => "On Hold",
        WatchStatus::Dropped => "Dropped",
    }
}

/// The label of a read status.
pub fn read_label(s: &ReadStatus) -> (r: &'static str)
    ensures
        r@ == read_label_of(*s),
{
    match s {
        ReadStatus::Reading => "Reading",
        ReadStatus::PlanToRead => "Plan to Read",
        ReadStatus::Completed => "Completed",
        ReadStatus::OnHold => "On Hold",
        ReadStatus::Dropped => "Dropped",
    }
}

/// The name of a readable kind.
pub fn readable_name(k: &ReadableKind) -> (r: &'static str)
    ensures
        r@ == readable_name_of(*k),
{
    match k {
        ReadableKind::Book => "Book",
        ReadableKind::WebNovel => "WebNovel",
        ReadableKind::LightNovel => "LightNovel",
        ReadableKind::Manga => "Manga",
        ReadableKind::Manhwa => "Manhwa",
        ReadableKind::Webtoon => "Webtoon",
    }
}

/// A fraction rounded to the nearest whole number, a tie going to the even
/// one.
pub fn round_ratio(q: Ratio) -> (r: u64)
    requires
        q.den > 0,
        q.num / q.den < u64::MAX,
    ensures
        r == rounded(q),
{
    let whole = q.num / q.den;
    let rest = q.num % q.den;
    let gap = q.den - rest;
    if rest > gap || (rest == gap && whole % 2 == 1) {
        whole + 1
    } else {
        whole
    }
}

/// The counters as shown in a list.
pub fn format_progress(p: &Progress) -> (r: String)
    ensures
        r@ == progress_text(*p),
{
    let mut r = "[".to_owned();
    let current = decimal_string(p.current as u64);
    r.append(current.as_str());
    match p.total {
        Some(t) => {
            let total = decimal_string(t as u64);
            r.append("/");
            r.append(total.as_str());
            r.append("]");
            let q = match p.percent() {
                Some(q) => q,
                None => Ratio { num: 0, den: 1 },
            };
            assert(q.num / q.den <= q.num) by (nonlinear_arith)
                requires
                    q.den > 0,
            ;
            let percent = decimal_string(round_ratio(q));
            r.append(" ");
            r.append(percent.as_str());
            r.append("%");
        },
        None => {
            r.append("/?]");
        },
    }
    r
}

/// The kind, the counters and the status of a record as shown in a list.
pub fn format_status(media_type: &MediaItemType) -> (r: String)
    ensures
        r@ == status_text(*media_type),
{
    match media_type {
        MediaItemType::Movie(s) => {
            let mut r = "Movie (".to_owned();
            r.append(watch_label(s));
            r.append(")");
            r
        },
        MediaItemType::Series(p, s) => {
            let mut r = "Series ".to_owned();
            let progress = format_progress(p);
            r.append(progress.as_str());
            r.append(" (");
            r.append(watch_label(s));
            r.append(")");
            r
        },
        MediaItemType::Readable(kind, p, s) => {
            let mut r = readable_name(kind).to_owned();
            let progress = format_progress(p);
            r.append(" ");
            r.append(progress.as_str());
            r.append(" (");
            r.append(read_label(s));
            r.append(")");
            r
        },
    }
}

} // verus!
