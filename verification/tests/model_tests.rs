use kars::ident::ItemId;
use kars::models::{MediaItem, MediaItemType, ReadableKind};
use kars::progress::Progress;
use kars::status::{ReadStatus, WatchStatus};
use kars::tags::TagSet;

fn item(kind: MediaItemType) -> MediaItem {
    MediaItem::with_id(ItemId { bits: 7 }, "Title".to_string(), kind)
}

#[test]
fn new_item_is_bare_and_has_a_random_id() {
    let a = MediaItem::new("Dune".to_string(), MediaItemType::Movie(WatchStatus::PlanToWatch));
    assert_eq!(a.title, "Dune");
    assert_eq!(a.media_type, MediaItemType::Movie(WatchStatus::PlanToWatch));
    assert_eq!(a.score, None);
    assert_eq!(a.global_score, None);
    assert_eq!(a.external_id, None);
    assert_eq!(a.poster_url, None);
    assert_eq!(a.source, None);
    assert!(a.tags.is_empty());
    let mask = 0x0000_0000_0000_f000_c000_0000_0000_0000u128;
    assert_eq!(a.id.bits & mask, 0x0000_0000_0000_4000_8000_0000_0000_0000u128);
    let b = MediaItem::new("Dune".to_string(), MediaItemType::Movie(WatchStatus::PlanToWatch));
    assert_ne!(a.id, b.id);
}

#[test]
fn set_score_stores_tenths() {
    let mut it = item(MediaItemType::Movie(WatchStatus::Watching));
    it.set_score(7200);
    assert_eq!(it.score, Some(72));
    assert_eq!(it.get_score_display(), Some(7200));
    it.set_score(8350);
    assert_eq!(it.score, Some(84));
    it.set_score(-3000);
    assert_eq!(it.score, Some(0));
    it.set_score(99_000);
    assert_eq!(it.score, Some(100));
    assert_eq!(it.global_score, None);
    assert_eq!(it.title, "Title");
}

#[test]
fn set_global_score_leaves_the_users_score() {
    let mut it = item(MediaItemType::Movie(WatchStatus::Watching));
    it.set_score(5000);
    it.set_global_score(9120);
    assert_eq!(it.score, Some(50));
    assert_eq!(it.global_score, Some(91));
    assert_eq!(it.get_global_score_display(), Some(9100));
    assert_eq!(item(MediaItemType::Movie(WatchStatus::Watching)).get_score_display(), None);
}

#[test]
fn completed_status_counts_as_completed() {
    assert!(item(MediaItemType::Movie(WatchStatus::Completed)).is_completed());
    assert!(item(MediaItemType::Series(
        Progress { current: 0, total: None },
        WatchStatus::Completed
    ))
    .is_completed());
    assert!(item(MediaItemType::Readable(
        ReadableKind::Book,
        Progress { current: 0, total: Some(300) },
        ReadStatus::Completed
    ))
    .is_completed());
}

#[test]
fn finished_progress_counts_as_completed() {
    assert!(item(MediaItemType::Series(
        Progress { current: 12, total: Some(12) },
        WatchStatus::Watching
    ))
    .is_completed());
    assert!(item(MediaItemType::Readable(
        ReadableKind::Manga,
        Progress { current: 200, total: Some(139) },
        ReadStatus::OnHold
    ))
    .is_completed());
    assert!(!item(MediaItemType::Series(
        Progress { current: 11, total: Some(12) },
        WatchStatus::Watching
    ))
    .is_completed());
    assert!(!item(MediaItemType::Series(
        Progress { current: 11, total: None },
        WatchStatus::Dropped
    ))
    .is_completed());
}

#[test]
fn a_film_is_completed_by_its_status_alone() {
    assert!(!item(MediaItemType::Movie(WatchStatus::Watching)).is_completed());
    assert!(!item(MediaItemType::Movie(WatchStatus::PlanToWatch)).is_completed());
    assert!(!item(MediaItemType::Movie(WatchStatus::OnHold)).is_completed());
    assert!(!item(MediaItemType::Movie(WatchStatus::Dropped)).is_completed());
}

#[test]
fn force_complete_manga_with_unknown_total() {
    let mut it = item(MediaItemType::Readable(
        ReadableKind::Manga,
        Progress { current: 3, total: None },
        ReadStatus::Reading,
    ));
    it.force_complete();
    assert_eq!(
        it.media_type,
        MediaItemType::Readable(
            ReadableKind::Manga,
            Progress { current: 3, total: Some(3) },
            ReadStatus::Completed
        )
    );
    assert!(it.is_completed());
}

#[test]
fn force_complete_series_and_film() {
    let mut s = item(MediaItemType::Series(
        Progress { current: 5, total: Some(25) },
        WatchStatus::Watching,
    ));
    s.force_complete();
    assert_eq!(
        s.media_type,
        MediaItemType::Series(Progress { current: 25, total: Some(25) }, WatchStatus::Completed)
    );
    let mut m = item(MediaItemType::Movie(WatchStatus::Dropped));
    m.force_complete();
    assert_eq!(m.media_type, MediaItemType::Movie(WatchStatus::Completed));
}

#[test]
fn force_complete_changes_the_kind_only() {
    let mut it = item(MediaItemType::Series(
        Progress { current: 5, total: None },
        WatchStatus::OnHold,
    ));
    it.set_score(6600);
    it.source = Some("tmdb".to_string());
    it.tags.insert("favorite".to_string());
    it.force_complete();
    assert_eq!(it.id, ItemId { bits: 7 });
    assert_eq!(it.title, "Title");
    assert_eq!(it.score, Some(66));
    assert_eq!(it.source, Some("tmdb".to_string()));
    assert!(it.tags.contains("favorite"));
}

#[test]
fn record_force_complete_is_idempotent() {
    let kinds = [
        MediaItemType::Movie(WatchStatus::Watching),
        MediaItemType::Series(Progress { current: 5, total: Some(25) }, WatchStatus::Watching),
        MediaItemType::Series(Progress { current: 5, total: None }, WatchStatus::Dropped),
        MediaItemType::Readable(
            ReadableKind::Webtoon,
            Progress { current: 0, total: None },
            ReadStatus::PlanToRead,
        ),
    ];
    for kind in kinds {
        let mut once = item(kind);
        once.force_complete();
        let after_one = once.media_type;
        once.force_complete();
        assert_eq!(once.media_type, after_one);
    }
}

#[test]
fn status_equivalents() {
    assert_eq!(WatchStatus::Watching.to_read_status(), ReadStatus::Reading);
    assert_eq!(WatchStatus::PlanToWatch.to_read_status(), ReadStatus::PlanToRead);
    assert_eq!(WatchStatus::Completed.to_read_status(), ReadStatus::Completed);
    assert_eq!(WatchStatus::OnHold.to_read_status(), ReadStatus::OnHold);
    assert_eq!(WatchStatus::Dropped.to_read_status(), ReadStatus::Dropped);
    assert_eq!(ReadStatus::Reading.to_watch_status(), WatchStatus::Watching);
    assert_eq!(ReadStatus::PlanToRead.to_watch_status(), WatchStatus::PlanToWatch);
    assert_eq!(ReadStatus::Completed.to_watch_status(), WatchStatus::Completed);
    assert_eq!(ReadStatus::OnHold.to_watch_status(), WatchStatus::OnHold);
    assert_eq!(ReadStatus::Dropped.to_watch_status(), WatchStatus::Dropped);
}

#[test]
fn status_and_kind_words() {
    assert_eq!(WatchStatus::PlanToWatch.as_str(), "plan_to_watch");
    assert_eq!(WatchStatus::OnHold.as_str(), "on_hold");
    assert_eq!(ReadStatus::Reading.as_str(), "reading");
    assert_eq!(ReadStatus::PlanToRead.as_str(), "plan_to_read");
    assert_eq!(ReadableKind::LightNovel.as_str(), "light_novel");
    assert_eq!(ReadableKind::WebNovel.as_str(), "web_novel");
    assert_eq!(ReadableKind::Book.as_str(), "book");
}

#[test]
fn tag_set_keeps_each_tag_once_in_order() {
    let mut tags = TagSet::new();
    assert!(tags.is_empty());
    assert!(tags.insert("space".to_string()));
    assert!(tags.insert("favorite".to_string()));
    assert!(!tags.insert("space".to_string()));
    assert_eq!(tags.len(), 2);
    assert_eq!(tags.as_vec(), &vec!["space".to_string(), "favorite".to_string()]);
    assert!(tags.contains("favorite"));
    assert!(!tags.contains("Favorite"));
    assert!(tags.remove("space"));
    assert!(!tags.remove("space"));
    assert_eq!(tags.as_vec(), &vec!["favorite".to_string()]);
}

#[test]
fn tag_set_from_a_list_drops_repeats() {
    let tags = TagSet::from_vec(vec![
        "b".to_string(),
        "a".to_string(),
        "b".to_string(),
        "c".to_string(),
        "a".to_string(),
    ]);
    assert_eq!(tags.as_vec(), &vec!["b".to_string(), "a".to_string(), "c".to_string()]);
    let copy = tags.duplicate();
    assert_eq!(copy, tags);
    assert!(TagSet::from_vec(Vec::new()).is_empty());
}
