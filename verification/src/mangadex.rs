//! What the MangaDex catalogue answers, brought into the common shape of a
//! search hit.

use vstd::prelude::*;
use crate::models::{MediaItemType, ReadableKind};
use crate::progress::Progress;
use crate::score::{encode, encoded};
use crate::search::{SearchResult, SearchResultView};
use crate::status::ReadStatus;
use crate::text::{
    decimal, decimal_string, eq_ignore_ascii_case, opt_text, same_ignoring_ascii_case, same_text,
};

verus! {

/// The catalogue's name, as the source of a record.
pub const SOURCE: &'static str = "mangadex";

/// Where the catalogue keeps its covers.
pub const COVER_BASE: &'static str = "https://uploads.mangadex.org/covers";

/// A title in one language. The text is absent where the catalogue holds
/// something other than a string under the language.
#[derive(Debug, Clone, PartialEq, Eq)]
pub struct TitleEntry {
    pub language: String,
    pub text: Option<String>,
}

/// Something that a work is related to: its cover, its author.
#[derive(Debug, Clone, PartialEq, Eq)]
pub struct Relationship {
    /// `cover_art`, `author` and the like.
    pub rel_type: String,
    /// The file of a cover, where the catalogue names one as a string.
    pub file_name: Option<String>,
    /// The name of a person, where the catalogue names one as a string.
    pub name: Option<String>,
}

/// One work as the catalogue describes it.
#[derive(Debug, Clone, PartialEq, Eq)]
pub struct MangaDexEntry {
    pub id: String,
    /// The titles, in the order in which the catalogue's object holds them.
    pub titles: Vec<TitleEntry>,
    pub original_language: Option<String>,
    /// The number of the last chapter, where it is known.
    pub total_chapters: Option<u32>,
    pub year: Option<u32>,
    pub status: Option<String>,
    /// The English name of each tag; absent where it is no string.
    pub tag_names: Vec<Option<String>>,
    pub relationships: Vec<Relationship>,
    /// The rating, in thousandths of a point out of ten.
    pub rating: Option<i64>,
}

/// A title as plain values.
pub struct TitleEntryView {
    pub language: Seq<char>,
    pub text: Option<Seq<char>>,
}

/// A relationship as plain values.
pub struct RelationshipView {
    pub rel_type: Seq<char>,
    pub file_name: Option<Seq<char>>,
    pub name: Option<Seq<char>>,
}

/// A work as plain values.
pub struct MangaDexEntryView {
    pub id: Seq<char>,
    pub titles: Seq<TitleEntryView>,
    pub original_language: Option<Seq<char>>,
    pub total_chapters: Option<u32>,
    pub year: Option<u32>,
    pub status: Option<Seq<char>>,
    pub tag_names: Seq<Option<Seq<char>>>,
    pub relationships: Seq<RelationshipView>,
    pub rating: Option<i64>,
}

impl View for TitleEntry {
    type V = TitleEntryView;

    open spec fn view(&self) -> TitleEntryView {
        TitleEntryView { language: self.language@, text: opt_text(self.text) }
    }
}

impl View for Relationship {
    type V = RelationshipView;

    open spec fn view(&self) -> RelationshipView {
        RelationshipView {
            rel_type: self.rel_type@,
            file_name: opt_text(self.file_name),
            name: opt_text(self.name),
        }
    }
}

/// The titles of a list, as plain values.
pub open spec fn title_views(titles: Seq<TitleEntry>) -> Seq<TitleEntryView> {
    Seq::new(titles.len(), |i: int| titles[i]@)
}

/// The relationships of a list, as plain values.
pub open spec fn relationship_views(rels: Seq<Relationship>) -> Seq<RelationshipView> {
    Seq::new(rels.len(), |i: int| rels[i]@)
}

/// The tag names of a list, as plain values.
pub open spec fn name_views(names: Seq<Option<String>>) -> Seq<Option<Seq<char>>> {
    Seq::new(names.len(), |i: int| opt_text(names[i]))
}

impl View for MangaDexEntry {
    type V = MangaDexEntryView;

    open spec fn view(&self) -> MangaDexEntryView {
        MangaDexEntryView {
            id: self.id@,
            titles: title_views(self.titles@),
            original_language: opt_text(self.original_language),
            total_chapters: self.total_chapters,
            year: self.year,
            status: opt_text(self.status),
            tag_names: name_views(self.tag_names@),
            relationships: relationship_views(self.relationships@),
            rating: self.rating,
        }
    }
}

/// The first title in a given language.
pub open spec fn title_in(titles: Seq<TitleEntryView>, language: Seq<char>) -> Option<
    TitleEntryView,
>
    decreases titles.len(),
{
    if titles.len() == 0 {
        None
    } else if titles[0].language == language {
        Some(titles[0])
    } else {
        title_in(titles.drop_first(), language)
    }
}

/// The title that is looked at first: the English one, else the romanised
/// Japanese one, else the Japanese one.
pub open spec fn preferred_title(titles: Seq<TitleEntryView>) -> Option<TitleEntryView> {
    match title_in(titles, "en"@) {
        Some(t) => Some(t),
        None => match title_in(titles, "ja-ro"@) {
            Some(t) => Some(t),
            None => title_in(titles, "ja"@),
        },
    }
}

/// The text of the preferred title, where there is one and it is a string.
pub open spec fn preferred_text(titles: Seq<TitleEntryView>) -> Option<Seq<char>> {
    match preferred_title(titles) {
        Some(t) => t.text,
        None => None,
    }
}

/// The title to show: the text of the preferred title; failing that, the
/// text of the first title of all; failing that, `Unknown`.
pub open spec fn shown_title(titles: Seq<TitleEntryView>) -> Seq<char> {
    match preferred_text(titles) {
        Some(t) => t,
        None => if titles.len() > 0 && titles[0].text is Some {
            titles[0].text->0
        } else {
            "Unknown"@
        },
    }
}

/// The first relationship of a given type.
pub open spec fn related(rels: Seq<RelationshipView>, rel_type: Seq<char>) -> Option<
    RelationshipView,
>
    decreases rels.len(),
{
    if rels.len() == 0 {
        None
    } else if rels[0].rel_type == rel_type {
        Some(rels[0])
    } else {
        related(rels.drop_first(), rel_type)
    }
}

/// The file of the cover: that of the first relationship of type
/// `cover_art`, where it names one.
pub open spec fn cover_file(rels: Seq<RelationshipView>) -> Option<Seq<char>> {
    match related(rels, "cover_art"@) {
        Some(r) => r.file_name,
        None => None,
    }
}

/// The author: the name of the first relationship of type `author`, and
/// `Unknown` where there is none or it has no name.
pub open spec fn author_of(rels: Seq<RelationshipView>) -> Seq<char> {
    match related(rels, "author"@) {
        Some(r) => match r.name {
            Some(n) => n,
            None => "Unknown"@,
        },
        None => "Unknown"@,
    }
}

/// Whether a tag name is a given tag, the case of ASCII letters set aside.
pub open spec fn names_tag(name: Option<Seq<char>>, tag: Seq<char>) -> bool {
    match name {
        Some(n) => same_ignoring_ascii_case(n, tag),
        None => false,
    }
}

/// Whether a work bears a tag, the case of ASCII letters set aside.
pub open spec fn tagged(names: Seq<Option<Seq<char>>>, tag: Seq<char>) -> bool {
    exists|i: int| 0 <= i < names.len() && names_tag(#[trigger] names[i], tag)
}

/// The kind of a work: a Korean one is a webtoon where it is tagged `Long
/// Strip` and a manhwa where not; any other is a manga.
pub open spec fn kind_of(language: Option<Seq<char>>, names: Seq<Option<Seq<char>>>) -> ReadableKind {
    if language == Some("ko"@) {
        if tagged(names, "Long Strip"@) {
            ReadableKind::Webtoon
        } else {
            ReadableKind::Manhwa
        }
    } else {
        ReadableKind::Manga
    }
}

/// The label of a kind.
pub open spec fn kind_label(kind: ReadableKind) -> Seq<char> {
    match kind {
        ReadableKind::Webtoon => "Webtoon"@,
        ReadableKind::Manhwa => "Manhwa"@,
        _ => "Manga"@,
    }
}

/// The address of the cover of a work, in the small size.
pub open spec fn cover_address(id: Seq<char>, file: Option<Seq<char>>) -> Option<Seq<char>> {
    match file {
        Some(f) => Some(
            "https://uploads.mangadex.org/covers"@ + "/"@ + id + "/"@ + f + ".256.jpg"@,
        ),
        None => None,
    }
}

/// The year for display; `?` where it is unknown.
pub open spec fn year_text(year: Option<u32>) -> Seq<char> {
    match year {
        Some(y) => decimal(y as nat),
        None => "?"@,
    }
}

/// The format label of a work: its kind, its author, and in brackets the
/// year and the state of publication.
pub open spec fn label_of(m: MangaDexEntryView) -> Seq<char> {
    kind_label(kind_of(m.original_language, m.tag_names)) + " \u{b7} "@ + author_of(
        m.relationships,
    ) + " ("@ + year_text(m.year) + ", "@ + match m.status {
        Some(s) => s,
        None => "unknown"@,
    } + ")"@
}

/// The hit that a work makes. The identifier of the catalogue is no number,
/// so the hit has no external number.
pub open spec fn hit_of(m: MangaDexEntryView) -> SearchResultView {
    SearchResultView {
        title: shown_title(m.titles),
        media_type: MediaItemType::Readable(
            kind_of(m.original_language, m.tag_names),
            Progress { current: 0, total: m.total_chapters },
            ReadStatus::PlanToRead,
        ),
        global_score: match m.rating {
            Some(r) => Some(encoded(r as int) as u8),
            None => None,
        },
        external_id: None,
        poster_url: cover_address(m.id, cover_file(m.relationships)),
        source: "mangadex"@,
        format_label: label_of(m),
    }
}

/// The first title in a given language, as its place in the list.
fn find_title(titles: &Vec<TitleEntry>, language: &str) -> (r: Option<usize>)
    ensures
        match r {
            Some(i) => i < titles@.len() && title_in(title_views(titles@), language@) == Some(
                titles@[i as int]@,
            ),
            None => title_in(title_views(titles@), language@) is None,
        },
{
    let ghost all = title_views(titles@);
    let mut i: usize = 0;
    assert(all.subrange(0, all.len() as int) =~= all);
    while i < titles.len()
        invariant
            i <= titles.len(),
            all == title_views(titles@),
            title_in(all, language@) == title_in(all.subrange(i as int, all.len() as int), language@),
        decreases titles.len() - i,
    {
        let ghost rest = all.subrange(i as int, all.len() as int);
        assert(rest[0] == titles@[i as int]@);
        assert(rest.drop_first() =~= all.subrange(i as int + 1, all.len() as int));
        if same_text(titles[i].language.as_str(), language) {
            return Some(i);
        }
        i += 1;
    }
    None
}

/// The first relationship of a given type, as its place in the list.
fn find_related(rels: &Vec<Relationship>, rel_type: &str) -> (r: Option<usize>)
    ensures
        match r {
            Some(i) => i < rels@.len() && related(relationship_views(rels@), rel_type@) == Some(
                rels@[i as int]@,
            ),
            None => related(relationship_views(rels@), rel_type@) is None,
        },
{
    let ghost all = relationship_views(rels@);
    let mut i: usize = 0;
    assert(all.subrange(0, all.len() as int) =~= all);
    while i < rels.len()
        invariant
            i <= rels.len(),
            all == relationship_views(rels@),
            related(all, rel_type@) == related(all.subrange(i as int, all.len() as int), rel_type@),
        decreases rels.len() - i,
    {
        let ghost rest = all.subrange(i as int, all.len() as int);
        assert(rest[0] == rels@[i as int]@);
        assert(rest.drop_first() =~= all.subrange(i as int + 1, all.len() as int));
        if same_text(rels[i].rel_type.as_str(), rel_type) {
            return Some(i);
        }
        i += 1;
    }
    None
}

/// The title to show.
pub fn extract_title(titles: &Vec<TitleEntry>) -> (r: String)
    ensures
        r@ == shown_title(title_views(titles@)),
{
    let preferred = match find_title(titles, "en") {
        Some(i) => Some(i),
        None => match find_title(titles, "ja-ro") {
            Some(i) => Some(i),
            None => find_title(titles, "ja"),
        },
    };
    if let Some(i) = preferred {
        if let Some(t) = &titles[i].text {
            return t.clone();
        }
    }
    if titles.len() > 0 {
        assert(title_views(titles@)[0] == titles@[0]@);
        if let Some(t) = &titles[0].text {
            return t.clone();
        }
    }
    "Unknown".to_owned()
}

/// The file of the cover, where the catalogue names one.
pub fn extract_cover_filename(relationships: &Vec<Relationship>) -> (r: Option<String>)
    ensures
        opt_text(r) == cover_file(relationship_views(relationships@)),
{
    match find_related(relationships, "cover_art") {
        Some(i) => match &relationships[i].file_name {
            Some(f) => Some(f.clone()),
            None => None,
        },
        None => None,
    }
}

/// The author's name, or `Unknown`.
pub fn extract_author(relationships: &Vec<Relationship>) -> (r: String)
    ensures
        r@ == author_of(relationship_views(relationships@)),
{
    match find_related(relationships, "author") {
        Some(i) => match &relationships[i].name {
            Some(n) => n.clone(),
            None => "Unknown".to_owned(),
        },
        None => "Unknown".to_owned(),
    }
}

/// Whether a work bears a tag, the case of ASCII letters set aside.
pub fn has_tag(tag_names: &Vec<Option<String>>, name: &str) -> (r: bool)
    ensures
        r == tagged(name_views(tag_names@), name@),
{
    let ghost all = name_views(tag_names@);
    let mut i: usize = 0;
    while i < tag_names.len()
        invariant
            i <= tag_names.len(),
            all == name_views(tag_names@),
            forall|k: int| 0 <= k < i ==> !names_tag(#[trigger] all[k], name@),
        decreases tag_names.len() - i,
    {
        if let Some(n) = &tag_names[i] {
            if eq_ignore_ascii_case(n.as_str(), name) {
                assert(all[i as int] == Some(n@));
                return true;
            }
        }
        i += 1;
    }
    false
}

/// The kind of a work and the label of that kind.
pub fn determine_kind(original_language: &Option<String>, tag_names: &Vec<Option<String>>) -> (r: (
    ReadableKind,
    &'static str,
))
    ensures
        r.0 == kind_of(opt_text(*original_language), name_views(tag_names@)),
        r.1@ == kind_label(r.0),
{
    let korean = match original_language {
        Some(l) => same_text(l.as_str(), "ko"),
        None => false,
    };
    if korean {
        if has_tag(tag_names, "Long Strip") {
            (ReadableKind::Webtoon, "Webtoon")
        } else {
            (ReadableKind::Manhwa, "Manhwa")
        }
    } else {
        (ReadableKind::Manga, "Manga")
    }
}

/// The hit that a work makes.
pub fn entry_result(manga: &MangaDexEntry) -> (r: SearchResult)
    ensures
        r@ == hit_of(manga@),
{
    let title = extract_title(&manga.titles);
    let author = extract_author(&manga.relationships);
    let (kind, label) = determine_kind(&manga.original_language, &manga.tag_names);
    let year = match manga.year {
        Some(y) => decimal_string(y as u64),
        None => "?".to_owned(),
    };
    let status: &str = match &manga.status {
        Some(s) => s.as_str(),
        None => "unknown",
    };
    let poster_url = match extract_cover_filename(&manga.relationships) {
        Some(f) => {
            let mut url = COVER_BASE.to_owned();
            url.append("/");
            url.append(manga.id.as_str());
            url.append("/");
            url.append(f.as_str());
            url.append(".256.jpg");
            Some(url)
        },
        None => None,
    };
    let global_score = match manga.rating {
        Some(r) => Some(encode(r)),
        None => None,
    };
    let mut format_label = label.to_owned();
    format_label.append(" \u{b7} ");
    format_label.append(author.as_str());
    format_label.append(" (");
    format_label.append(year.as_str());
    format_label.append(", ");
    format_label.append(status);
    format_label.append(")");
    SearchResult {
        title,
        media_type: MediaItemType::Readable(
            kind,
            Progress { current: 0, total: manga.total_chapters },
            ReadStatus::PlanToRead,
        ),
        global_score,
        external_id: None,
        poster_url,
        source: SOURCE,
        format_label,
    }
}

/// The hits of an answer: one for each work, in their order.
pub fn results_of_answer(entries: &Vec<MangaDexEntry>) -> (r: Vec<SearchResult>)
    ensures
        r@.len() == entries@.len(),
        forall|i: int| 0 <= i < r@.len() ==> (#[trigger] r@[i])@ == hit_of(entries@[i]@),
{
    let mut r: Vec<SearchResult> = Vec::new();
    let mut i: usize = 0;
    while i < entries.len()
        invariant
            i <= entries.len(),
            r@.len() == i,
            forall|k: int| 0 <= k < i ==> (#[trigger] r@[k])@ == hit_of(entries@[k]@),
        decreases entries.len() - i,
    {
        r.push(entry_result(&entries[i]));
        i += 1;
    }
    r
}

} // verus!
