use kars::anilist::{self, AniListMedia};
use kars::mangadex::{self, MangaDexEntry, Relationship, TitleEntry};
use kars::models::{MediaItemType, ReadableKind};
use kars::openlibrary::{self, BookDoc};
use kars::progress::Progress;
use kars::search::{MediaSearchType, SearchError, SearchResult};
use kars::status::{ReadStatus, WatchStatus};
use kars::tmdb::{self, TmdbEntry};

fn s(text: &str) -> Option<String> {
    Some(text.to_string())
}

fn media() -> AniListMedia {
    AniListMedia {
        id: 16498,
        title_romaji: s("Shingeki no Kyojin"),
        title_english: s("Attack on Titan"),
        episodes: Some(25),
        chapters: Some(141),
        mean_score: Some(85),
        cover_large: s("https://img.example/aot.jpg"),
        format: s("TV"),
        country_of_origin: s("JP"),
    }
}

#[test]
fn anilist_series() {
    let hit = anilist::map_media(&media(), MediaSearchType::Anime).unwrap();
    assert_eq!(
        hit,
        SearchResult {
            title: "Attack on Titan".to_string(),
            media_type: MediaItemType::Series(
                Progress { current: 0, total: Some(25) },
                WatchStatus::PlanToWatch
            ),
            global_score: Some(85),
            external_id: Some(16498),
            poster_url: s("https://img.example/aot.jpg"),
            source: "anilist",
            format_label: "TV".to_string(),
        }
    );
}

#[test]
fn anilist_title_falls_back() {
    let mut m = media();
    m.title_english = s("");
    assert_eq!(anilist::map_media(&m, MediaSearchType::Anime).unwrap().title, "Shingeki no Kyojin");
    m.title_english = None;
    assert_eq!(anilist::map_media(&m, MediaSearchType::Anime).unwrap().title, "Shingeki no Kyojin");
    m.title_romaji = None;
    assert_eq!(anilist::map_media(&m, MediaSearchType::Anime).unwrap().title, "Unknown");
    m.title_english = s("");
    assert_eq!(anilist::map_media(&m, MediaSearchType::Anime).unwrap().title, "Unknown");
}

#[test]
fn anilist_formats_of_animation() {
    let cases = [
        (s("TV"), "TV"),
        (s("TV_SHORT"), "TV Short"),
        (s("OVA"), "OVA"),
        (s("ONA"), "ONA"),
        (s("SPECIAL"), "Special"),
        (s("MUSIC"), "Music"),
        (s("PILOT"), "PILOT"),
        (None, "UNKNOWN"),
    ];
    for (format, label) in cases {
        let mut m = media();
        m.format = format;
        let hit = anilist::map_media(&m, MediaSearchType::Anime).unwrap();
        assert_eq!(hit.format_label, label);
        assert!(matches!(hit.media_type, MediaItemType::Series(_, WatchStatus::PlanToWatch)));
    }
    let mut film = media();
    film.format = s("MOVIE");
    let hit = anilist::map_media(&film, MediaSearchType::Anime).unwrap();
    assert_eq!(hit.media_type, MediaItemType::Movie(WatchStatus::PlanToWatch));
    assert_eq!(hit.format_label, "Movie");
}

#[test]
fn anilist_readables() {
    let p = Progress { current: 0, total: Some(141) };
    let manga = anilist::map_media(&media(), MediaSearchType::Manga).unwrap();
    assert_eq!(
        manga.media_type,
        MediaItemType::Readable(ReadableKind::Manga, p, ReadStatus::PlanToRead)
    );
    assert_eq!(manga.format_label, "Manga");
    let mut korean = media();
    korean.country_of_origin = s("KR");
    let manhwa = anilist::map_media(&korean, MediaSearchType::LightNovel).unwrap();
    assert_eq!(
        manhwa.media_type,
        MediaItemType::Readable(ReadableKind::Manhwa, p, ReadStatus::PlanToRead)
    );
    assert_eq!(manhwa.format_label, "Manhwa");
    korean.format = s("NOVEL");
    let novel = anilist::map_media(&korean, MediaSearchType::Manga).unwrap();
    assert_eq!(
        novel.media_type,
        MediaItemType::Readable(ReadableKind::LightNovel, p, ReadStatus::PlanToRead)
    );
    assert_eq!(novel.format_label, "Light Novel");
    let mut nowhere = media();
    nowhere.country_of_origin = None;
    assert_eq!(anilist::map_media(&nowhere, MediaSearchType::Manga).unwrap().format_label, "Manga");
}

#[test]
fn anilist_other_categories_and_scores() {
    assert_eq!(anilist::map_media(&media(), MediaSearchType::Movie), None);
    assert_eq!(anilist::map_media(&media(), MediaSearchType::Series), None);
    assert_eq!(anilist::map_media(&media(), MediaSearchType::Book), None);
    let mut m = media();
    m.mean_score = Some(250);
    assert_eq!(anilist::map_media(&m, MediaSearchType::Anime).unwrap().global_score, Some(100));
    m.mean_score = Some(100);
    assert_eq!(anilist::map_media(&m, MediaSearchType::Anime).unwrap().global_score, Some(100));
    m.mean_score = None;
    assert_eq!(anilist::map_media(&m, MediaSearchType::Anime).unwrap().global_score, None);
}

#[test]
fn anilist_query_and_answer() {
    assert_eq!(anilist::query_type(MediaSearchType::Anime), Some(("ANIME", None)));
    assert_eq!(anilist::query_type(MediaSearchType::Manga), Some(("MANGA", None)));
    assert_eq!(anilist::query_type(MediaSearchType::LightNovel), Some(("MANGA", Some("NOVEL"))));
    assert_eq!(anilist::query_type(MediaSearchType::Book), None);
    assert_eq!(anilist::join_messages(&vec![]), "");
    assert_eq!(anilist::join_messages(&vec!["a".to_string()]), "a");
    assert_eq!(
        anilist::join_messages(&vec!["a".to_string(), "b".to_string(), "c".to_string()]),
        "a, b, c"
    );
    let failed = anilist::results_of_answer(
        Some(vec!["Too many requests".to_string(), "Try later".to_string()]),
        Some(vec![media()]),
        MediaSearchType::Anime,
    );
    assert_eq!(failed, Err(SearchError::Api("Too many requests, Try later".to_string())));
    let empty = anilist::results_of_answer(None, None, MediaSearchType::Anime);
    assert_eq!(empty, Err(SearchError::Api("No data in response".to_string())));
    let found =
        anilist::results_of_answer(None, Some(vec![media(), media()]), MediaSearchType::Anime)
            .unwrap();
    assert_eq!(found.len(), 2);
    assert_eq!(found[1].title, "Attack on Titan");
    let none =
        anilist::results_of_answer(None, Some(vec![media()]), MediaSearchType::Book).unwrap();
    assert!(none.is_empty());
}

fn entry(id: u32, date: Option<&str>, vote: Option<i64>) -> TmdbEntry {
    TmdbEntry {
        id,
        title: "Heat".to_string(),
        vote_average: vote,
        poster_path: s("/heat.jpg"),
        date: date.map(|d| d.to_string()),
    }
}

#[test]
fn tmdb_film_and_show() {
    let film = tmdb::movie_result(&entry(949, Some("1995-12-15"), Some(7900)));
    assert_eq!(
        film,
        SearchResult {
            title: "Heat".to_string(),
            media_type: MediaItemType::Movie(WatchStatus::PlanToWatch),
            global_score: Some(79),
            external_id: Some(949),
            poster_url: s("https://image.tmdb.org/t/p/w500/heat.jpg"),
            source: "tmdb",
            format_label: "Movie (1995)".to_string(),
        }
    );
    let mut e = entry(1396, Some("2008-01-20"), Some(8912));
    e.poster_path = None;
    let show = tmdb::tv_result(&e);
    assert_eq!(
        show.media_type,
        MediaItemType::Series(Progress { current: 0, total: None }, WatchStatus::PlanToWatch)
    );
    assert_eq!(show.global_score, Some(89));
    assert_eq!(show.poster_url, None);
    assert_eq!(show.format_label, "TV Series (2008)");
}

#[test]
fn tmdb_year_and_vote() {
    assert_eq!(tmdb::year(&s("1995-12-15")), "1995");
    assert_eq!(tmdb::year(&s("1995")), "1995");
    assert_eq!(tmdb::year(&s("199")), "?");
    assert_eq!(tmdb::year(&s("")), "?");
    assert_eq!(tmdb::year(&None), "?");
    assert_eq!(tmdb::year(&s("ab\u{e9}d")), "ab\u{e9}");
    assert_eq!(tmdb::year(&s("abc\u{e9}")), "?");
    assert_eq!(tmdb::vote_to_score(Some(7250)), Some(73));
    assert_eq!(tmdb::vote_to_score(Some(1)), Some(0));
    assert_eq!(tmdb::vote_to_score(Some(0)), None);
    assert_eq!(tmdb::vote_to_score(Some(-2000)), None);
    assert_eq!(tmdb::vote_to_score(Some(12_000)), Some(100));
    assert_eq!(tmdb::vote_to_score(None), None);
}

#[test]
fn tmdb_takes_ten_hits() {
    let entries: Vec<TmdbEntry> = (0..13).map(|i| entry(i, Some("2001-01-01"), None)).collect();
    let films = tmdb::results_of_page(&entries, true);
    assert_eq!(films.len(), 10);
    assert_eq!(films[9].external_id, Some(9));
    assert_eq!(films[0].format_label, "Movie (2001)");
    let shows = tmdb::results_of_page(&entries[..3].to_vec(), false);
    assert_eq!(shows.len(), 3);
    assert_eq!(shows[2].format_label, "TV Series (2001)");
    assert!(tmdb::results_of_page(&Vec::new(), true).is_empty());
}

fn title(language: &str, text: Option<&str>) -> TitleEntry {
    TitleEntry { language: language.to_string(), text: text.map(|t| t.to_string()) }
}

fn related(rel_type: &str, file_name: Option<&str>, name: Option<&str>) -> Relationship {
    Relationship {
        rel_type: rel_type.to_string(),
        file_name: file_name.map(|t| t.to_string()),
        name: name.map(|t| t.to_string()),
    }
}

#[test]
fn mangadex_title_preference() {
    let titles = vec![title("de", Some("Einzelstueck")), title("ja", Some("Wan Pisu")), title("en", Some("One Piece"))];
    assert_eq!(mangadex::extract_title(&titles), "One Piece");
    let titles = vec![title("ja", Some("Wan Pisu")), title("ja-ro", Some("Wan Piisu"))];
    assert_eq!(mangadex::extract_title(&titles), "Wan Piisu");
    let titles = vec![title("de", Some("Einzelstueck")), title("ja", Some("Wan Pisu"))];
    assert_eq!(mangadex::extract_title(&titles), "Wan Pisu");
    let titles = vec![title("de", Some("Einzelstueck")), title("fr", Some("Une Piece"))];
    assert_eq!(mangadex::extract_title(&titles), "Einzelstueck");
    let titles = vec![title("de", Some("Einzelstueck")), title("en", None), title("ja", Some("Wan Pisu"))];
    assert_eq!(mangadex::extract_title(&titles), "Einzelstueck");
    let titles = vec![title("de", None), title("fr", Some("Une Piece"))];
    assert_eq!(mangadex::extract_title(&titles), "Unknown");
    assert_eq!(mangadex::extract_title(&Vec::new()), "Unknown");
}

#[test]
fn mangadex_relationships() {
    let rels = vec![
        related("artist", None, Some("Oda")),
        related("cover_art", Some("c1.jpg"), None),
        related("author", None, Some("Eiichiro Oda")),
        related("cover_art", Some("c2.jpg"), None),
        related("author", None, Some("Someone Else")),
    ];
    assert_eq!(mangadex::extract_cover_filename(&rels), s("c1.jpg"));
    assert_eq!(mangadex::extract_author(&rels), "Eiichiro Oda");
    let bare = vec![related("cover_art", None, None), related("cover_art", Some("c2.jpg"), None), related("author", None, None)];
    assert_eq!(mangadex::extract_cover_filename(&bare), None);
    assert_eq!(mangadex::extract_author(&bare), "Unknown");
    assert_eq!(mangadex::extract_cover_filename(&Vec::new()), None);
    assert_eq!(mangadex::extract_author(&Vec::new()), "Unknown");
}

#[test]
fn mangadex_kinds() {
    let tags = vec![s("Action"), None, s("long strip")];
    assert!(mangadex::has_tag(&tags, "Long Strip"));
    assert!(mangadex::has_tag(&tags, "ACTION"));
    assert!(!mangadex::has_tag(&tags, "Long"));
    assert!(!mangadex::has_tag(&Vec::new(), "Long Strip"));
    assert_eq!(mangadex::determine_kind(&s("ko"), &tags), (ReadableKind::Webtoon, "Webtoon"));
    assert_eq!(
        mangadex::determine_kind(&s("ko"), &vec![s("Action")]),
        (ReadableKind::Manhwa, "Manhwa")
    );
    assert_eq!(mangadex::determine_kind(&s("ja"), &tags), (ReadableKind::Manga, "Manga"));
    assert_eq!(mangadex::determine_kind(&s("zh"), &tags), (ReadableKind::Manga, "Manga"));
    assert_eq!(mangadex::determine_kind(&None, &tags), (ReadableKind::Manga, "Manga"));
}

#[test]
fn mangadex_hit() {
    let e = MangaDexEntry {
        id: "a1c7c817".to_string(),
        titles: vec![title("en", Some("Solo Leveling"))],
        original_language: s("ko"),
        total_chapters: Some(200),
        year: Some(2018),
        status: s("completed"),
        tag_names: vec![s("Long Strip")],
        relationships: vec![
            related("author", None, Some("Chugong")),
            related("cover_art", Some("cover.png"), None),
        ],
        rating: Some(9237),
    };
    let hit = mangadex::entry_result(&e);
    assert_eq!(
        hit,
        SearchResult {
            title: "Solo Leveling".to_string(),
            media_type: MediaItemType::Readable(
                ReadableKind::Webtoon,
                Progress { current: 0, total: Some(200) },
                ReadStatus::PlanToRead
            ),
            global_score: Some(92),
            external_id: None,
            poster_url: s("https://uploads.mangadex.org/covers/a1c7c817/cover.png.256.jpg"),
            source: "mangadex",
            format_label: "Webtoon \u{b7} Chugong (2018, completed)".to_string(),
        }
    );
    let bare = MangaDexEntry {
        id: "x".to_string(),
        titles: Vec::new(),
        original_language: None,
        total_chapters: None,
        year: None,
        status: None,
        tag_names: Vec::new(),
        relationships: Vec::new(),
        rating: None,
    };
    let hit = mangadex::entry_result(&bare);
    assert_eq!(hit.title, "Unknown");
    assert_eq!(hit.format_label, "Manga \u{b7} Unknown (?, unknown)");
    assert_eq!(hit.poster_url, None);
    assert_eq!(hit.global_score, None);
    let both = mangadex::results_of_answer(&vec![e, bare]);
    assert_eq!(both.len(), 2);
    assert_eq!(both[0].title, "Solo Leveling");
    assert_eq!(both[1].title, "Unknown");
}

#[test]
fn openlibrary_work_numbers() {
    assert_eq!(openlibrary::work_number("/works/OL27448W"), Some(27448));
    assert_eq!(openlibrary::work_number("/works/OL27448"), Some(27448));
    assert_eq!(openlibrary::work_number("27448WWW"), Some(27448));
    assert_eq!(openlibrary::work_number("/works/OL/works/OL12W"), Some(12));
    assert_eq!(openlibrary::work_number("/works/OL+12W"), Some(12));
    assert_eq!(openlibrary::work_number("/works/OLW"), None);
    assert_eq!(openlibrary::work_number("/works/OL"), None);
    assert_eq!(openlibrary::work_number(""), None);
    assert_eq!(openlibrary::work_number("/books/OL27448M"), None);
    assert_eq!(openlibrary::work_number("/works/OL27448w"), None);
    assert_eq!(openlibrary::work_number("x/works/OL27448W"), None);
    assert_eq!(openlibrary::work_number("/works/OL99999999999W"), None);
    assert_eq!(openlibrary::work_number("/works/OL27\u{e9}48W"), None);
    assert_eq!(openlibrary::work_number("/works/OL4294967295W"), Some(u32::MAX));
}

#[test]
fn openlibrary_ratings() {
    assert_eq!(openlibrary::rating_to_score(Some(4200)), Some(84));
    assert_eq!(openlibrary::rating_to_score(Some(4225)), Some(85));
    assert_eq!(openlibrary::rating_to_score(Some(4224)), Some(84));
    assert_eq!(openlibrary::rating_to_score(Some(5000)), Some(100));
    assert_eq!(openlibrary::rating_to_score(Some(9000)), Some(100));
    assert_eq!(openlibrary::rating_to_score(Some(0)), Some(0));
    assert_eq!(openlibrary::rating_to_score(Some(-100)), Some(0));
    assert_eq!(openlibrary::rating_to_score(None), None);
}

#[test]
fn openlibrary_hits() {
    let doc = BookDoc {
        key: s("/works/OL27448W"),
        title: s("The Lord of the Rings"),
        author_name: Some(vec!["J.R.R. Tolkien".to_string(), "Someone".to_string()]),
        first_publish_year: Some(1954),
        cover_i: Some(9255566),
        number_of_pages_median: Some(1193),
        ratings_average: Some(4480),
    };
    let hit = openlibrary::doc_result(&doc).unwrap();
    assert_eq!(
        hit,
        SearchResult {
            title: "The Lord of the Rings".to_string(),
            media_type: MediaItemType::Readable(
                ReadableKind::Book,
                Progress { current: 0, total: Some(1193) },
                ReadStatus::PlanToRead
            ),
            global_score: Some(90),
            external_id: Some(27448),
            poster_url: s("https://covers.openlibrary.org/b/id/9255566-M.jpg"),
            source: "openlibrary",
            format_label: "J.R.R. Tolkien (1954)".to_string(),
        }
    );
    let untitled = BookDoc { title: None, ..doc.clone() };
    assert_eq!(openlibrary::doc_result(&untitled), None);
    let bare = BookDoc {
        key: None,
        title: s("Untold"),
        author_name: Some(Vec::new()),
        first_publish_year: None,
        cover_i: None,
        number_of_pages_median: None,
        ratings_average: None,
    };
    let hit = openlibrary::doc_result(&bare).unwrap();
    assert_eq!(hit.format_label, "Unknown (?)");
    assert_eq!(hit.external_id, None);
    assert_eq!(hit.poster_url, None);
    let anonymous = BookDoc { author_name: None, ..bare.clone() };
    assert_eq!(openlibrary::doc_result(&anonymous).unwrap().format_label, "Unknown (?)");
    let hits = openlibrary::results_of_answer(&vec![doc, untitled, bare]);
    assert_eq!(hits.len(), 2);
    assert_eq!(hits[0].title, "The Lord of the Rings");
    assert_eq!(hits[1].title, "Untold");
}
