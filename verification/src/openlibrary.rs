//! What the Open Library catalogue answers, brought into the common shape
//! of a search hit.

use vstd::prelude::*;
use vstd::utf8::is_ascii_chars;
use crate::models::{MediaItemType, ReadableKind};
use crate::progress::Progress;
use crate::search::{SearchResult, SearchResultView};
use crate::status::ReadStatus;
use crate::text::{
    decimal, decimal_string, is_digit, lemma_stray_character, opt_text, parse_u32, parsed_u32,
    texts, unsigned_part,
};

verus! {

/// The catalogue's name, as the source of a record.
pub const SOURCE: &'static str = "openlibrary";

/// Where the catalogue keeps its covers.
pub const COVER_BASE: &'static str = "https://covers.openlibrary.org/b/id";

/// One book as the catalogue describes it.
#[derive(Debug, Clone, PartialEq, Eq)]
pub struct BookDoc {
    /// The key of the work, such as `/works/OL27448W`.
    pub key: Option<String>,
    pub title: Option<String>,
    pub author_name: Option<Vec<String>>,
    pub first_publish_year: Option<u32>,
    /// The number of the cover.
    pub cover_i: Option<u64>,
    pub number_of_pages_median: Option<u32>,
    /// The average rating, in thousandths of a point out of five.
    pub ratings_average: Option<i64>,
}

/// A book as plain values.
pub struct BookDocView {
    pub key: Option<Seq<char>>,
    pub title: Option<Seq<char>>,
    pub author_name: Option<Seq<Seq<char>>>,
    pub first_publish_year: Option<u32>,
    pub cover_i: Option<u64>,
    pub number_of_pages_median: Option<u32>,
    pub ratings_average: Option<i64>,
}

impl View for BookDoc {
    type V = BookDocView;

    open spec fn view(&self) -> BookDocView {
        BookDocView {
            key: opt_text(self.key),
            title: opt_text(self.title),
            author_name: match self.author_name {
                Some(names) => Some(texts(names@)),
                None => None,
            },
            first_publish_year: self.first_publish_year,
            cover_i: self.cover_i,
            number_of_pages_median: self.number_of_pages_median,
            ratings_average: self.ratings_average,
        }
    }
}

/// A text without the prefix at its head, however often the prefix stands
/// there.
pub open spec fn strip_prefixes(s: Seq<char>, prefix: Seq<char>) -> Seq<char>
    decreases s.len(),
{
    if prefix.len() > 0 && prefix.is_prefix_of(s) {
        strip_prefixes(s.subrange(prefix.len() as int, s.len() as int), prefix)
    } else {
        s
    }
}

/// A text without the character at its end, however often the character
/// stands there.
pub open spec fn strip_trailing(s: Seq<char>, c: char) -> Seq<char>
    decreases s.len(),
{
    if s.len() > 0 && s.last() == c {
        strip_trailing(s.drop_last(), c)
    } else {
        s
    }
}

/// The number in the key of a work: what is left of the key without
/// `/works/OL` at its head and `W` at its end, read as a number.
pub open spec fn work_number_of(key: Seq<char>) -> Option<u32> {
    parsed_u32(strip_trailing(strip_prefixes(key, "/works/OL"@), 'W'))
}

/// The stored score of a rating out of five: the rating is held within 0
/// and 5, brought to the scale of 0 to 100 and rounded, a half going up.
pub open spec fn score_of_rating(rating: Option<i64>) -> Option<u8> {
    match rating {
        Some(r) => {
            let held: int = if r < 0 {
                0
            } else if r > 5000 {
                5000
            } else {
                r as int
            };
            Some(((held + 25) / 50) as u8)
        },
        None => None,
    }
}

/// The first of the authors, or `Unknown`.
pub open spec fn first_author(names: Option<Seq<Seq<char>>>) -> Seq<char> {
    match names {
        Some(n) => if n.len() > 0 {
            n[0]
        } else {
            "Unknown"@
        },
        None => "Unknown"@,
    }
}

/// The year for display; `?` where it is unknown.
pub open spec fn year_text(year: Option<u32>) -> Seq<char> {
    match year {
        Some(y) => decimal(y as nat),
        None => "?"@,
    }
}

/// The address of a cover, in the middle size.
pub open spec fn cover_address(cover: Option<u64>) -> Option<Seq<char>> {
    match cover {
        Some(c) => Some(
            "https://covers.openlibrary.org/b/id"@ + "/"@ + decimal(c as nat) + "-M.jpg"@,
        ),
        None => None,
    }
}

/// The hit that a book makes; a book without a title makes none. The count
/// of a book is its pages.
pub open spec fn hit_of(doc: BookDocView) -> Option<SearchResultView> {
    match doc.title {
        None => None,
        Some(title) => Some(
            SearchResultView {
                title,
                media_type: MediaItemType::Readable(
                    ReadableKind::Book,
                    Progress { current: 0, total: doc.number_of_pages_median },
                    ReadStatus::PlanToRead,
                ),
                global_score: score_of_rating(doc.ratings_average),
                external_id: match doc.key {
                    Some(k) => work_number_of(k),
                    None => None,
                },
                poster_url: cover_address(doc.cover_i),
                source: "openlibrary"@,
                format_label: first_author(doc.author_name) + " ("@ + year_text(
                    doc.first_publish_year,
                ) + ")"@,
            },
        ),
    }
}

/// The hits that the books of an answer make, in their order.
pub open spec fn hits_of(docs: Seq<BookDocView>) -> Seq<SearchResultView>
    decreases docs.len(),
{
    if docs.len() == 0 {
        Seq::empty()
    } else {
        match hit_of(docs.last()) {
            Some(h) => hits_of(docs.drop_last()).push(h),
            None => hits_of(docs.drop_last()),
        }
    }
}

/// The books of a list, as plain values.
pub open spec fn doc_views(docs: Seq<BookDoc>) -> Seq<BookDocView> {
    Seq::new(docs.len(), |i: int| docs[i]@)
}

/// The hits of a list, as plain values.
pub open spec fn hit_views(hits: Seq<SearchResult>) -> Seq<SearchResultView> {
    Seq::new(hits.len(), |i: int| hits[i]@)
}

/// Stripping a prefix keeps every character that the prefix does not hold.
proof fn lemma_strip_prefixes_keeps(s: Seq<char>, prefix: Seq<char>, x: char)
    requires
        s.contains(x),
        !prefix.contains(x),
    ensures
        strip_prefixes(s, prefix).contains(x),
    decreases s.len(),
{
    if prefix.len() > 0 && prefix.is_prefix_of(s) {
        let rest = s.subrange(prefix.len() as int, s.len() as int);
        let i = choose|i: int| 0 <= i < s.len() && s[i] == x;
        if i < prefix.len() {
            assert(prefix[i] == s.subrange(0, prefix.len() as int)[i]);
            assert(prefix.contains(x));
        }
        assert(rest[i - prefix.len()] == x);
        lemma_strip_prefixes_keeps(rest, prefix, x);
    }
}

/// Stripping a character from the end keeps every other character.
proof fn lemma_strip_trailing_keeps(s: Seq<char>, c: char, x: char)
    requires
        s.contains(x),
        x != c,
    ensures
        strip_trailing(s, c).contains(x),
    decreases s.len(),
{
    if s.len() > 0 && s.last() == c {
        let i = choose|i: int| 0 <= i < s.len() && s[i] == x;
        assert(s.drop_last()[i] == x);
        lemma_strip_trailing_keeps(s.drop_last(), c, x);
    }
}

/// A text that holds a character which is neither a digit nor `+` is no
/// number.
proof fn lemma_stray_character_is_no_number(s: Seq<char>, x: char)
    requires
        s.contains(x),
        !is_digit(x),
        x != '+',
    ensures
        parsed_u32(s) is None,
{
    let i = choose|i: int| 0 <= i < s.len() && s[i] == x;
    let d = unsigned_part(s);
    if s[0] == '+' {
        assert(d[i - 1] == x);
        lemma_stray_character(d, i - 1, u32::MAX as nat);
    } else {
        assert(d[i] == x);
        lemma_stray_character(d, i, u32::MAX as nat);
    }
}

/// Whether the bytes from `start` on begin with the bytes of `prefix`.
fn begins_at(bytes: &[u8], start: usize, prefix: &[u8]) -> (r: bool)
    requires
        start <= bytes@.len(),
    ensures
        r == (prefix@.len() <= bytes@.len() - start && forall|k: int|
            0 <= k < prefix@.len() ==> bytes@[start + k] == #[trigger] prefix@[k]),
{
    if prefix.len() > bytes.len() - start {
        return false;
    }
    assert(bytes@.len() <= usize::MAX) by {
        assert(bytes.len() == bytes@.len());
    }
    let mut k: usize = 0;
    while k < prefix.len()
        invariant
            k <= prefix.len(),
            start <= bytes@.len(),
            bytes@.len() <= usize::MAX,
            prefix@.len() <= bytes@.len() - start,
            forall|j: int| 0 <= j < k ==> bytes@[start + j] == #[trigger] prefix@[j],
        decreases prefix.len() - k,
    {
        if bytes[start + k] != prefix[k] {
            return false;
        }
        k += 1;
    }
    true
}

/// The number in the key of a work, where the key holds one.
pub fn work_number(key: &str) -> (r: Option<u32>)
    ensures
        r == work_number_of(key@),
{
    let ghost s = key@;
    let ghost p = "/works/OL"@;
    proof {
        reveal_strlit("/works/OL");
        assert(p.len() == 9);
        assert(is_ascii_chars(p));
    }
    if !key.is_ascii() {
        proof {
            let i = choose|i: int| 0 <= i < s.len() && !('\0' <= #[trigger] s[i] <= '\u{7f}');
            let x = s[i];
            assert(!p.contains(x)) by {
                if p.contains(x) {
                    let j = choose|j: int| 0 <= j < p.len() && p[j] == x;
                    assert('\0' <= p[j] <= '\u{7f}');
                }
            }
            lemma_strip_prefixes_keeps(s, p, x);
            lemma_strip_trailing_keeps(strip_prefixes(s, p), 'W', x);
            lemma_stray_character_is_no_number(strip_trailing(strip_prefixes(s, p), 'W'), x);
        }
        return None;
    }
    let prefix = "/works/OL";
    let bytes = key.as_bytes();
    let prefix_bytes = prefix.as_bytes();
    assert(bytes@.len() <= usize::MAX) by {
        assert(bytes.len() == bytes@.len());
    }
    proof {
        vstd::string::is_ascii_spec_bytes(key);
        vstd::string::is_ascii_spec_bytes(prefix);
        assert(bytes@.len() == s.len());
        assert(prefix_bytes@.len() == 9);
        assert forall|i: int| 0 <= i < s.len() implies bytes@[i] == #[trigger] s[i] as u8 by {}
        assert forall|i: int| 0 <= i < 9 implies prefix_bytes@[i] == #[trigger] p[i] as u8 by {}
    }
    let mut start: usize = 0;
    assert(s.subrange(0, s.len() as int) =~= s);
    loop
        invariant
            start <= bytes@.len(),
            bytes@.len() <= usize::MAX,
            bytes@.len() == s.len(),
            s == key@,
            p == "/works/OL"@,
            p.len() == 9,
            prefix_bytes@.len() == 9,
            is_ascii_chars(s),
            is_ascii_chars(p),
            forall|i: int| 0 <= i < s.len() ==> bytes@[i] == #[trigger] s[i] as u8,
            forall|i: int| 0 <= i < 9 ==> prefix_bytes@[i] == #[trigger] p[i] as u8,
            strip_prefixes(s, p) == strip_prefixes(s.subrange(start as int, s.len() as int), p),
        ensures
            start <= bytes@.len(),
            strip_prefixes(s, p) == s.subrange(start as int, s.len() as int),
        decreases bytes@.len() - start,
    {
        let ghost rest = s.subrange(start as int, s.len() as int);
        let found = begins_at(bytes, start, prefix_bytes);
        proof {
            if found {
                assert forall|k: int| 0 <= k < 9 implies p[k] == rest[k] by {
                    assert(bytes@[start + k] == prefix_bytes@[k]);
                    assert(bytes@[start + k] == s[start + k] as u8);
                    assert(prefix_bytes@[k] == p[k] as u8);
                    assert('\0' <= p[k] <= '\u{7f}');
                    assert('\0' <= s[start + k] <= '\u{7f}');
                }
                assert(p =~= rest.subrange(0, 9));
                assert(rest.subrange(9, rest.len() as int) =~= s.subrange(
                    start as int + 9,
                    s.len() as int,
                ));
            } else if p.is_prefix_of(rest) {
                assert forall|k: int| 0 <= k < 9 implies bytes@[start + k]
                    == #[trigger] prefix_bytes@[k] by {
                    assert(p[k] == rest.subrange(0, 9)[k]);
                    assert(rest[k] == s[start + k]);
                    assert(bytes@[start + k] == s[start + k] as u8);
                    assert(prefix_bytes@[k] == p[k] as u8);
                }
            }
        }
        if found {
            start += 9;
        } else {
            break;
        }
    }
    let ghost mid = s.subrange(start as int, s.len() as int);
    let mut end: usize = bytes.len();
    assert(mid.subrange(0, mid.len() as int) =~= mid);
    while end > start && bytes[end - 1] == 87u8
        invariant
            start <= end <= bytes@.len(),
            bytes@.len() == s.len(),
            is_ascii_chars(s),
            forall|i: int| 0 <= i < s.len() ==> bytes@[i] == #[trigger] s[i] as u8,
            mid == s.subrange(start as int, s.len() as int),
            strip_trailing(mid, 'W') == strip_trailing(mid.subrange(0, end - start), 'W'),
        decreases end,
    {
        let ghost part = mid.subrange(0, end - start);
        assert(part.last() == s[end - 1]);
        assert('\0' <= s[end - 1] <= '\u{7f}');
        assert(part.last() == 'W');
        assert(part.drop_last() =~= mid.subrange(0, end - start - 1));
        end -= 1;
    }
    proof {
        let part = mid.subrange(0, end - start);
        if part.len() > 0 {
            assert(part.last() == s[end - 1]);
            assert(bytes@[end - 1] == s[end - 1] as u8);
            assert('\0' <= s[end - 1] <= '\u{7f}');
            assert(part.last() != 'W');
        }
        assert(strip_trailing(part, 'W') == part);
        assert(part =~= s.subrange(start as int, end as int));
    }
    let number = key.substring_ascii(start, end);
    parse_u32(number)
}

/// The stored score of a rating, in thousandths of a point out of five.
pub fn rating_to_score(rating: Option<i64>) -> (r: Option<u8>)
    ensures
        r == score_of_rating(rating),
        r matches Some(s) ==> s <= 100,
{
    match rating {
        Some(v) => {
            let held: i64 = if v < 0 {
                0
            } else if v > 5000 {
                5000
            } else {
                v
            };
            Some(((held + 25) / 50) as u8)
        },
        None => None,
    }
}

/// The hit that a book makes; a book without a title makes none.
pub fn doc_result(doc: &BookDoc) -> (r: Option<SearchResult>)
    ensures
        match r {
            Some(hit) => hit_of(doc@) == Some(hit@),
            None => hit_of(doc@) is None,
        },
{
    let title = match &doc.title {
        Some(t) => t.clone(),
        None => {
            return None;
        },
    };
    let mut format_label = match &doc.author_name {
        Some(names) => {
            if names.len() > 0 {
                assert(texts(names@)[0] == names@[0]@);
                names[0].clone()
            } else {
                "Unknown".to_owned()
            }
        },
        None => "Unknown".to_owned(),
    };
    let year = match doc.first_publish_year {
        Some(y) => decimal_string(y as u64),
        None => "?".to_owned(),
    };
    format_label.append(" (");
    format_label.append(year.as_str());
    format_label.append(")");
    let poster_url = match doc.cover_i {
        Some(c) => {
            let number = decimal_string(c);
            let mut url = COVER_BASE.to_owned();
            url.append("/");
            url.append(number.as_str());
            url.append("-M.jpg");
            Some(url)
        },
        None => None,
    };
    let external_id = match &doc.key {
        Some(k) => work_number(k.as_str()),
        None => None,
    };
    Some(
        SearchResult {
            title,
            media_type: MediaItemType::Readable(
                ReadableKind::Book,
                Progress { current: 0, total: doc.number_of_pages_median },
                ReadStatus::PlanToRead,
            ),
            global_score: rating_to_score(doc.ratings_average),
            external_id,
            poster_url,
            source: SOURCE,
            format_label,
        },
    )
}

/// The hits of an answer: one for each book that has a title, in their
/// order.
pub fn results_of_answer(docs: &Vec<BookDoc>) -> (r: Vec<SearchResult>)
    ensures
        hit_views(r@) == hits_of(doc_views(docs@)),
{
    let ghost all = doc_views(docs@);
    let mut hits: Vec<SearchResult> = Vec::new();
    let mut i: usize = 0;
    assert(all.subrange(0, 0) =~= Seq::<BookDocView>::empty());
    assert(hit_views(hits@) =~= Seq::<SearchResultView>::empty());
    while i < docs.len()
        invariant
            i <= docs.len(),
            all == doc_views(docs@),
            hit_views(hits@) == hits_of(all.subrange(0, i as int)),
        decreases docs.len() - i,
    {
        let ghost seen = all.subrange(0, i as int);
        let ghost next = all.subrange(0, i as int + 1);
        assert(next.drop_last() =~= seen);
        assert(next.last() == docs@[i as int]@);
        let ghost before = hit_views(hits@);
        if let Some(hit) = doc_result(&docs[i]) {
            hits.push(hit);
            assert(hit_views(hits@) =~= before.push(hit@));
        }
        i += 1;
    }
    assert(all.subrange(0, i as int) =~= all);
    hits
}

} // verus!
