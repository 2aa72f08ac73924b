use kars::ident::ItemId;
use kars::models::MediaItemType;
use kars::progress::Progress;
use kars::search::{one_decimal_string, MediaSearchType, SearchError, SearchResult};
use kars::status::{ReadStatus, WatchStatus};
use kars::text::{decimal_string, join2, parse_u32, parse_unsigned, same_text, NumberFault};
use kars::models::ReadableKind;

#[test]
fn identifier_is_written_hyphenated_in_lower_case() {
    let id = ItemId { bits: 0xA1A2A3A4B1B2C1C2D1D2D3D4D5D6D7D8 };
    assert_eq!(id.to_text(), "a1a2a3a4-b1b2-c1c2-d1d2-d3d4d5d6d7d8");
    assert_eq!(ItemId { bits: 0 }.to_text(), "00000000-0000-0000-0000-000000000000");
    assert_eq!(ItemId { bits: 0x1f }.to_text(), "00000000-0000-0000-0000-00000000001f");
    assert_eq!(ItemId { bits: u128::MAX }.to_text(), "ffffffff-ffff-ffff-ffff-ffffffffffff");
}

#[test]
fn identifier_reads_back() {
    let id = ItemId { bits: 0x0123456789abcdef0fedcba987654321 };
    assert_eq!(ItemId::parse(&id.to_text()), Ok(id));
    assert_eq!(
        ItemId::parse("urn:uuid:01234567-89ab-cdef-0fed-cba987654321"),
        Ok(id)
    );
    assert_eq!(ItemId::parse("{01234567-89ab-cdef-0fed-cba987654321}"), Ok(id));
    assert_eq!(ItemId::parse("0123456789ABCDEF0FEDCBA987654321"), Ok(id));
}

#[test]
fn what_is_no_identifier_is_refused_with_a_reason() {
    for text in ["", "x", "01234567-89ab-cdef-0fed-cba98765432", "0123456789abcdef0fedcba98765432g"] {
        match ItemId::parse(text) {
            Err(reason) => assert!(!reason.is_empty()),
            Ok(id) => panic!("{text:?} read as {id:?}"),
        }
    }
}

#[test]
fn fresh_identifiers_are_random_and_marked() {
    let mask = 0x0000_0000_0000_f000_c000_0000_0000_0000u128;
    let a = ItemId::generate();
    let b = ItemId::generate();
    assert_ne!(a, b);
    assert_eq!(a.bits & mask, 0x0000_0000_0000_4000_8000_0000_0000_0000u128);
    assert_eq!(b.bits & mask, 0x0000_0000_0000_4000_8000_0000_0000_0000u128);
    assert_eq!(a.to_text().as_bytes()[14], b'4');
}

#[test]
fn same_text_compares_characters() {
    assert!(same_text("", ""));
    assert!(same_text("manga", "manga"));
    assert!(!same_text("manga", "manhwa"));
    assert!(!same_text("manga", "mange"));
    assert!(!same_text("manga", "Manga"));
    assert!(same_text("caf\u{e9} \u{2605}", "caf\u{e9} \u{2605}"));
    assert!(!same_text("caf\u{e9}", "cafe"));
    assert_eq!(join2("ab", "cd"), "abcd");
}

#[test]
fn numbers_are_written_in_decimal() {
    assert_eq!(decimal_string(0), "0");
    assert_eq!(decimal_string(7), "7");
    assert_eq!(decimal_string(10), "10");
    assert_eq!(decimal_string(4_294_967_295), "4294967295");
    assert_eq!(decimal_string(u64::MAX), "18446744073709551615");
    assert_eq!(one_decimal_string(0), "0.0");
    assert_eq!(one_decimal_string(72), "7.2");
    assert_eq!(one_decimal_string(100), "10.0");
    assert_eq!(one_decimal_string(255), "25.5");
}

#[test]
fn numbers_are_read_from_decimal() {
    assert_eq!(parse_u32("0"), Some(0));
    assert_eq!(parse_u32("42"), Some(42));
    assert_eq!(parse_u32("007"), Some(7));
    assert_eq!(parse_u32("+5"), Some(5));
    assert_eq!(parse_u32("4294967295"), Some(u32::MAX));
    assert_eq!(parse_u32("00000000004294967295"), Some(u32::MAX));
    assert_eq!(parse_u32("4294967296"), None);
    assert_eq!(parse_u32("99999999999999999999999999"), None);
    assert_eq!(parse_u32(""), None);
    assert_eq!(parse_u32("+"), None);
    assert_eq!(parse_u32("-1"), None);
    assert_eq!(parse_u32("++1"), None);
    assert_eq!(parse_u32(" 1"), None);
    assert_eq!(parse_u32("1 "), None);
    assert_eq!(parse_u32("1.5"), None);
    assert_eq!(parse_u32("\u{663}"), None);
    assert_eq!(parse_u32("1\u{e9}"), None);
}

#[test]
fn what_is_no_number_has_its_fault() {
    assert_eq!(parse_unsigned("", 10), Err(NumberFault::Empty));
    assert_eq!(parse_unsigned("+", 10), Err(NumberFault::InvalidDigit));
    assert_eq!(parse_unsigned("1x", 10), Err(NumberFault::InvalidDigit));
    assert_eq!(parse_unsigned("9x", 10), Err(NumberFault::InvalidDigit));
    assert_eq!(parse_unsigned("x99", 10), Err(NumberFault::InvalidDigit));
    assert_eq!(parse_unsigned("999x", 10), Err(NumberFault::TooLarge));
    assert_eq!(parse_unsigned("99999999999x", 4_294_967_295), Err(NumberFault::TooLarge));
    assert_eq!(parse_unsigned("4294967295x", 4_294_967_295), Err(NumberFault::InvalidDigit));
    assert_eq!(parse_unsigned("12\u{e9}", 100), Err(NumberFault::InvalidDigit));
    assert_eq!(parse_unsigned("123\u{e9}", 100), Err(NumberFault::TooLarge));
    assert_eq!(parse_unsigned("+12\u{e9}", 100), Err(NumberFault::InvalidDigit));
    assert_eq!(parse_unsigned("\u{e9}", 100), Err(NumberFault::InvalidDigit));
    assert_eq!(parse_unsigned("+7", 100), Ok(7));
    assert_eq!(parse_unsigned("11", 10), Err(NumberFault::TooLarge));
    assert_eq!(parse_unsigned("10", 10), Ok(10));
    assert_eq!(parse_unsigned("18446744073709551615", u64::MAX), Ok(u64::MAX));
    assert_eq!(parse_unsigned("18446744073709551616", u64::MAX), Err(NumberFault::TooLarge));
    assert_eq!(NumberFault::Empty.as_str(), "cannot parse integer from empty string");
    assert_eq!(NumberFault::InvalidDigit.as_str(), "invalid digit found in string");
    assert_eq!(NumberFault::TooLarge.as_str(), "number too large to fit in target type");
}

fn hit(kind: MediaItemType, score: Option<u8>) -> SearchResult {
    SearchResult {
        title: "Vinland Saga".to_string(),
        media_type: kind,
        global_score: score,
        external_id: Some(101348),
        poster_url: Some("https://example.org/v.jpg".to_string()),
        source: "anilist",
        format_label: "TV".to_string(),
    }
}

#[test]
fn display_line_of_a_hit() {
    let series = hit(
        MediaItemType::Series(Progress { current: 0, total: Some(24) }, WatchStatus::PlanToWatch),
        Some(88),
    );
    assert_eq!(series.display_line(1), "  1. Vinland Saga [24 ep] \u{2605} 8.8 \u{2014} TV");
    let manga = hit(
        MediaItemType::Readable(
            ReadableKind::Manga,
            Progress { current: 0, total: Some(207) },
            ReadStatus::PlanToRead,
        ),
        None,
    );
    assert_eq!(manga.display_line(12), "  12. Vinland Saga [207 ch] \u{2014} TV");
    let open = hit(
        MediaItemType::Series(Progress { current: 0, total: None }, WatchStatus::PlanToWatch),
        Some(100),
    );
    assert_eq!(open.display_line(3), "  3. Vinland Saga \u{2605} 10.0 \u{2014} TV");
    let film = hit(MediaItemType::Movie(WatchStatus::PlanToWatch), Some(5));
    assert_eq!(film.display_line(0), "  0. Vinland Saga \u{2605} 0.5 \u{2014} TV");
}

#[test]
fn a_hit_becomes_a_record() {
    let kind =
        MediaItemType::Series(Progress { current: 0, total: Some(24) }, WatchStatus::PlanToWatch);
    let item = hit(kind, Some(88)).into_media_item();
    assert_eq!(item.title, "Vinland Saga");
    assert_eq!(item.media_type, kind);
    assert_eq!(item.score, None);
    assert_eq!(item.global_score, Some(88));
    assert_eq!(item.external_id, Some(101348));
    assert_eq!(item.poster_url, Some("https://example.org/v.jpg".to_string()));
    assert_eq!(item.source, Some("anilist".to_string()));
    assert!(item.tags.is_empty());
    let other = hit(kind, Some(88)).into_media_item();
    assert_ne!(item.id, other.id);
    let fixed = hit(kind, None).into_media_item_with_id(ItemId { bits: 3 });
    assert_eq!(fixed.id, ItemId { bits: 3 });
    assert_eq!(fixed.global_score, None);
}

#[test]
fn search_category_from_a_query() {
    assert_eq!(MediaSearchType::from_query(Some("anime")), MediaSearchType::Anime);
    assert_eq!(MediaSearchType::from_query(Some("movie")), MediaSearchType::Movie);
    assert_eq!(MediaSearchType::from_query(Some("series")), MediaSearchType::Series);
    assert_eq!(MediaSearchType::from_query(Some("manga")), MediaSearchType::Manga);
    assert_eq!(MediaSearchType::from_query(Some("book")), MediaSearchType::Book);
    assert_eq!(MediaSearchType::from_query(Some("light_novel")), MediaSearchType::LightNovel);
    assert_eq!(MediaSearchType::from_query(Some("podcast")), MediaSearchType::Anime);
    assert_eq!(MediaSearchType::from_query(None), MediaSearchType::Anime);
    assert!(MediaSearchType::Manga.is_among(&[MediaSearchType::Anime, MediaSearchType::Manga]));
    assert!(!MediaSearchType::Book.is_among(&[MediaSearchType::Anime, MediaSearchType::Manga]));
    assert!(!MediaSearchType::Book.is_among(&[]));
}

#[test]
fn search_errors_in_words() {
    assert_eq!(SearchError::Network("timed out".to_string()).message(), "Network error: timed out");
    assert_eq!(SearchError::Api("limit".to_string()).message(), "API error: limit");
    assert_eq!(SearchError::Parse("eof".to_string()).message(), "Parse error: eof");
}
