use kars::ident::ItemId;
use kars::menu::{
    confirms, format_progress, format_status, has_duplicate, manual_media_type,
    parse_category_choice, parse_kind_choice, parse_menu_choice, parse_readable_choice,
    parse_tag_action, parse_total, pick, read_label, readable_name, round_ratio, watch_label,
    KindChoice, MenuChoice, TagAction,
};
use kars::mime::guess_mime;
use kars::models::{MediaItem, MediaItemType, ReadableKind};
use kars::progress::{Progress, Ratio};
use kars::search::{worth_asking, MediaSearchType};
use kars::status::{ReadStatus, WatchStatus};

#[test]
fn main_menu_choices() {
    assert_eq!(parse_menu_choice("1"), Some(MenuChoice::SearchAndAdd));
    assert_eq!(parse_menu_choice("2"), Some(MenuChoice::AddManual));
    assert_eq!(parse_menu_choice("3"), Some(MenuChoice::List));
    assert_eq!(parse_menu_choice("4"), Some(MenuChoice::Detail));
    assert_eq!(parse_menu_choice("5"), Some(MenuChoice::Score));
    assert_eq!(parse_menu_choice("6"), Some(MenuChoice::Complete));
    assert_eq!(parse_menu_choice("7"), Some(MenuChoice::Progress));
    assert_eq!(parse_menu_choice("8"), Some(MenuChoice::Tags));
    assert_eq!(parse_menu_choice("9"), Some(MenuChoice::SaveAndExit));
    assert_eq!(parse_menu_choice("0"), None);
    assert_eq!(parse_menu_choice("10"), None);
    assert_eq!(parse_menu_choice(" 1"), None);
    assert_eq!(parse_menu_choice(""), None);
}

#[test]
fn sub_menu_choices() {
    assert_eq!(parse_kind_choice("1"), Some(KindChoice::Movie));
    assert_eq!(parse_kind_choice("2"), Some(KindChoice::Series));
    assert_eq!(parse_kind_choice("3"), Some(KindChoice::Readable));
    assert_eq!(parse_kind_choice("4"), None);
    assert_eq!(parse_readable_choice("1"), Some(ReadableKind::Book));
    assert_eq!(parse_readable_choice("2"), Some(ReadableKind::WebNovel));
    assert_eq!(parse_readable_choice("3"), Some(ReadableKind::LightNovel));
    assert_eq!(parse_readable_choice("4"), Some(ReadableKind::Manga));
    assert_eq!(parse_readable_choice("5"), Some(ReadableKind::Manhwa));
    assert_eq!(parse_readable_choice("6"), Some(ReadableKind::Webtoon));
    assert_eq!(parse_readable_choice("7"), None);
    assert_eq!(parse_category_choice("1"), Some(MediaSearchType::Anime));
    assert_eq!(parse_category_choice("2"), Some(MediaSearchType::Manga));
    assert_eq!(parse_category_choice("3"), Some(MediaSearchType::LightNovel));
    assert_eq!(parse_category_choice("4"), Some(MediaSearchType::Movie));
    assert_eq!(parse_category_choice("5"), Some(MediaSearchType::Series));
    assert_eq!(parse_category_choice("6"), Some(MediaSearchType::Book));
    assert_eq!(parse_category_choice("anime"), None);
}

#[test]
fn records_added_by_hand() {
    let p = Progress { current: 2, total: Some(9) };
    assert_eq!(
        manual_media_type(KindChoice::Movie, ReadableKind::Manga, p),
        MediaItemType::Movie(WatchStatus::PlanToWatch)
    );
    assert_eq!(
        manual_media_type(KindChoice::Series, ReadableKind::Manga, p),
        MediaItemType::Series(p, WatchStatus::Watching)
    );
    assert_eq!(
        manual_media_type(KindChoice::Readable, ReadableKind::Manga, p),
        MediaItemType::Readable(ReadableKind::Manga, p, ReadStatus::Reading)
    );
}

#[test]
fn picking_from_a_list() {
    assert_eq!(pick(0, 3), None);
    assert_eq!(pick(1, 3), Some(0));
    assert_eq!(pick(3, 3), Some(2));
    assert_eq!(pick(4, 3), None);
    assert_eq!(pick(1, 0), None);
    assert_eq!(pick(usize::MAX, usize::MAX), Some(usize::MAX - 1));
}

#[test]
fn confirming_and_totals() {
    assert!(confirms("y"));
    assert!(confirms("Y"));
    assert!(!confirms("yes"));
    assert!(!confirms(""));
    assert!(!confirms("n"));
    assert_eq!(parse_total(""), Ok(None));
    assert_eq!(parse_total("24"), Ok(Some(24)));
    assert_eq!(parse_total("0"), Ok(Some(0)));
    assert_eq!(parse_total("many"), Err(()));
    assert_eq!(parse_total("-1"), Err(()));
    assert_eq!(parse_total("4294967296"), Err(()));
}

#[test]
fn duplicates_ignore_ascii_case() {
    let archive = vec![
        MediaItem::with_id(
            ItemId { bits: 1 },
            "Attack on Titan".to_string(),
            MediaItemType::Movie(WatchStatus::Watching),
        ),
        MediaItem::with_id(
            ItemId { bits: 2 },
            "Am\u{e9}lie".to_string(),
            MediaItemType::Movie(WatchStatus::Watching),
        ),
    ];
    assert!(has_duplicate(&archive, "Attack on Titan"));
    assert!(has_duplicate(&archive, "ATTACK ON TITAN"));
    assert!(has_duplicate(&archive, "attack on titan"));
    assert!(has_duplicate(&archive, "AM\u{e9}LIE"));
    assert!(!has_duplicate(&archive, "AM\u{c9}LIE"));
    assert!(!has_duplicate(&archive, "Attack on Titan "));
    assert!(!has_duplicate(&archive, "Attack"));
    assert!(!has_duplicate(&Vec::new(), "Attack on Titan"));
}

#[test]
fn labels() {
    assert_eq!(watch_label(&WatchStatus::Watching), "Watching");
    assert_eq!(watch_label(&WatchStatus::PlanToWatch), "Plan to Watch");
    assert_eq!(watch_label(&WatchStatus::Completed), "Completed");
    assert_eq!(watch_label(&WatchStatus::OnHold), "On Hold");
    assert_eq!(watch_label(&WatchStatus::Dropped), "Dropped");
    assert_eq!(read_label(&ReadStatus::Reading), "Reading");
    assert_eq!(read_label(&ReadStatus::PlanToRead), "Plan to Read");
    assert_eq!(read_label(&ReadStatus::Completed), "Completed");
    assert_eq!(read_label(&ReadStatus::OnHold), "On Hold");
    assert_eq!(read_label(&ReadStatus::Dropped), "Dropped");
    assert_eq!(readable_name(&ReadableKind::LightNovel), "LightNovel");
    assert_eq!(readable_name(&ReadableKind::WebNovel), "WebNovel");
}

#[test]
fn rounding_goes_to_the_nearest_and_ties_to_even() {
    assert_eq!(round_ratio(Ratio { num: 0, den: 1 }), 0);
    assert_eq!(round_ratio(Ratio { num: 100, den: 3 }), 33);
    assert_eq!(round_ratio(Ratio { num: 200, den: 3 }), 67);
    assert_eq!(round_ratio(Ratio { num: 100, den: 8 }), 12);
    assert_eq!(round_ratio(Ratio { num: 300, den: 8 }), 38);
    assert_eq!(round_ratio(Ratio { num: 1, den: 2 }), 0);
    assert_eq!(round_ratio(Ratio { num: 3, den: 2 }), 2);
    assert_eq!(round_ratio(Ratio { num: 5, den: 2 }), 2);
    assert_eq!(round_ratio(Ratio { num: 100, den: 100 }), 1);
}

#[test]
fn progress_as_shown() {
    assert_eq!(format_progress(&Progress { current: 3, total: Some(12) }), "[3/12] 25%");
    assert_eq!(format_progress(&Progress { current: 1, total: Some(3) }), "[1/3] 33%");
    assert_eq!(format_progress(&Progress { current: 2, total: Some(3) }), "[2/3] 67%");
    assert_eq!(format_progress(&Progress { current: 1, total: Some(8) }), "[1/8] 12%");
    assert_eq!(format_progress(&Progress { current: 30, total: Some(24) }), "[30/24] 125%");
    assert_eq!(format_progress(&Progress { current: 7, total: Some(0) }), "[7/0] 0%");
    assert_eq!(format_progress(&Progress { current: 7, total: None }), "[7/?]");
}

#[test]
fn status_as_shown() {
    assert_eq!(format_status(&MediaItemType::Movie(WatchStatus::PlanToWatch)), "Movie (Plan to Watch)");
    assert_eq!(
        format_status(&MediaItemType::Series(
            Progress { current: 5, total: Some(25) },
            WatchStatus::Watching
        )),
        "Series [5/25] 20% (Watching)"
    );
    assert_eq!(
        format_status(&MediaItemType::Readable(
            ReadableKind::LightNovel,
            Progress { current: 5, total: None },
            ReadStatus::OnHold
        )),
        "LightNovel [5/?] (On Hold)"
    );
}

#[test]
fn content_types() {
    assert_eq!(guess_mime("index.html"), "text/html; charset=utf-8");
    assert_eq!(guess_mime("_next/static/chunk.min.js"), "application/javascript; charset=utf-8");
    assert_eq!(guess_mime("a.mjs"), "application/javascript; charset=utf-8");
    assert_eq!(guess_mime("a.css"), "text/css; charset=utf-8");
    assert_eq!(guess_mime("a.json"), "application/json; charset=utf-8");
    assert_eq!(guess_mime("a.png"), "image/png");
    assert_eq!(guess_mime("a.jpg"), "image/jpeg");
    assert_eq!(guess_mime("a.jpeg"), "image/jpeg");
    assert_eq!(guess_mime("a.gif"), "image/gif");
    assert_eq!(guess_mime("a.svg"), "image/svg+xml");
    assert_eq!(guess_mime("favicon.ico"), "image/x-icon");
    assert_eq!(guess_mime("a.woff"), "font/woff");
    assert_eq!(guess_mime("a.woff2"), "font/woff2");
    assert_eq!(guess_mime("a.ttf"), "font/ttf");
    assert_eq!(guess_mime("robots.txt"), "text/plain; charset=utf-8");
    assert_eq!(guess_mime("a.webp"), "image/webp");
    assert_eq!(guess_mime("a.HTML"), "application/octet-stream");
    assert_eq!(guess_mime("archive.tar.gz"), "application/octet-stream");
    assert_eq!(guess_mime("html"), "text/html; charset=utf-8");
    assert_eq!(guess_mime("a.html."), "application/octet-stream");
    assert_eq!(guess_mime(""), "application/octet-stream");
    assert_eq!(guess_mime("caf\u{e9}.png"), "image/png");
}

#[test]
fn tag_actions_and_completion() {
    assert_eq!(parse_tag_action("1"), Some(TagAction::Add));
    assert_eq!(parse_tag_action("2"), Some(TagAction::Remove));
    assert_eq!(parse_tag_action("0"), None);
    assert_eq!(parse_tag_action("add"), None);
    let mut open = MediaItem::with_id(
        ItemId { bits: 1 },
        "Monster".to_string(),
        MediaItemType::Series(Progress { current: 10, total: Some(74) }, WatchStatus::Watching),
    );
    assert!(open.complete());
    assert_eq!(
        open.media_type,
        MediaItemType::Series(Progress { current: 74, total: Some(74) }, WatchStatus::Completed)
    );
    assert!(!open.complete());
    let mut done = MediaItem::with_id(
        ItemId { bits: 2 },
        "Monster".to_string(),
        MediaItemType::Series(Progress { current: 74, total: Some(74) }, WatchStatus::Watching),
    );
    assert!(!done.complete());
    assert_eq!(
        done.media_type,
        MediaItemType::Series(Progress { current: 74, total: Some(74) }, WatchStatus::Watching)
    );
}

#[test]
fn short_queries_are_not_asked() {
    assert!(!worth_asking(""));
    assert!(!worth_asking("a"));
    assert!(worth_asking("ab"));
    assert!(worth_asking("\u{e9}"));
    assert!(worth_asking("one piece"));
}
