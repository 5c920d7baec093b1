use tgbot_mastodon_sync::handler::post::{filter_media, plan, resolved, Failure, Signal};
use tgbot_mastodon_sync::text::{MessageEntity, MessageEntityKind};
use tgbot_mastodon_sync::util::cache::MediaGroupCache;
use tgbot_mastodon_sync::util::media::{
    on_new_message, pixels, FileMeta, Media, MediaKind, MediaQuery, PhotoSize,
};

fn file(id: &str) -> FileMeta {
    FileMeta {
        id: id.to_string(),
        unique_id: format!("u-{id}"),
        size: 1,
    }
}

fn size(id: &str, width: u32, height: u32) -> PhotoSize {
    PhotoSize {
        file: file(id),
        width,
        height,
    }
}

fn photo(sizes: Vec<PhotoSize>, caption: Option<&str>) -> MediaKind {
    MediaKind::Photo {
        photo: sizes,
        caption: caption.map(str::to_string),
        caption_entities: vec![],
        has_media_spoiler: false,
    }
}

fn video(id: &str, spoiler: bool) -> MediaKind {
    MediaKind::Video {
        file: file(id),
        caption: None,
        caption_entities: vec![],
        has_media_spoiler: spoiler,
    }
}

fn document(id: &str) -> MediaKind {
    MediaKind::Document {
        file: file(id),
        caption: Some("a paper".to_string()),
        caption_entities: vec![],
    }
}

#[test]
fn group_is_resolved_in_the_order_of_its_messages() {
    let mut cache = MediaGroupCache::new();
    cache.record("g", 3, "itemC".to_string());
    cache.record("g", 1, "itemA".to_string());
    cache.record("g", 2, "itemB".to_string());
    assert_eq!(cache.resolve("g"), vec!["itemA", "itemB", "itemC"]);
}

#[test]
fn last_record_of_a_message_wins() {
    let mut cache = MediaGroupCache::new();
    cache.record("g", 2, "old".to_string());
    cache.record("g", 1, "first".to_string());
    cache.record("g", 2, "new".to_string());
    assert_eq!(cache.resolve("g"), vec!["first", "new"]);
}

#[test]
fn groups_are_kept_apart() {
    let mut cache = MediaGroupCache::new();
    cache.record("a", 5, "a5".to_string());
    cache.record("b", 4, "b4".to_string());
    cache.record("a", -3, "a-3".to_string());
    cache.record("b", 5, "b5".to_string());
    assert_eq!(cache.resolve("a"), vec!["a-3", "a5"]);
    assert_eq!(cache.resolve("b"), vec!["b4", "b5"]);
    assert!(cache.resolve("c").is_empty());
    assert!(MediaGroupCache::new().resolve("a").is_empty());
}

#[test]
fn group_can_be_resolved_before_it_is_complete() {
    let mut cache = MediaGroupCache::new();
    cache.record("g", 2, "B".to_string());
    assert_eq!(cache.resolve("g"), vec!["B"]);
    cache.record("g", 1, "A".to_string());
    assert_eq!(cache.resolve("g"), vec!["A", "B"]);
}

#[test]
fn best_photo_has_the_most_pixels() {
    let sizes = vec![size("s", 90, 90), size("l", 1280, 720), size("m", 320, 320)];
    assert_eq!(MediaKind::choice_best_photo(&sizes).file.id, "l");
    // Wider, but with fewer pixels.
    let sizes = vec![size("wide", 2000, 10), size("tall", 100, 1000)];
    assert_eq!(MediaKind::choice_best_photo(&sizes).file.id, "tall");
    // Of those with as many pixels, the last.
    let sizes = vec![size("a", 20, 10), size("b", 10, 20), size("c", 1, 1)];
    assert_eq!(MediaKind::choice_best_photo(&sizes).file.id, "b");
    assert_eq!(pixels(&size("max", u32::MAX, u32::MAX)), 18446744065119617025);
}

#[test]
fn file_and_caption_of_each_kind() {
    let p = photo(vec![size("s", 1, 1), size("l", 2, 2)], Some("cap"));
    assert_eq!(p.file().map(|f| f.id.as_str()), Some("l"));
    assert_eq!(p.caption(), Some(&"cap".to_string()));
    assert_eq!(document("d").file().map(|f| f.id.as_str()), Some("d"));
    assert_eq!(MediaKind::Poll.file(), None);
    assert_eq!(MediaKind::Poll.caption(), None);
    let text = MediaKind::Text {
        text: "hello".to_string(),
        entities: vec![MessageEntity {
            kind: MessageEntityKind::Bold,
            offset: 0,
            length: 5,
        }],
    };
    assert_eq!(text.file(), None);
    assert_eq!(text.caption(), Some(&"hello".to_string()));
    assert_eq!(text.entities().map(Vec::len), Some(1));
    assert_eq!(MediaKind::Sticker { file: file("s") }.caption(), None);
    assert!(video("v", true).has_media_spoiler());
    assert!(!document("d").has_media_spoiler());
}

#[test]
fn only_pictures_and_films_are_uploaded() {
    assert_eq!(
        filter_media(&video("v", false)).map(|f| f.id.as_str()),
        Some("v")
    );
    assert_eq!(
        filter_media(&MediaKind::Sticker { file: file("s") }).map(|f| f.id.as_str()),
        Some("s")
    );
    assert_eq!(
        filter_media(&MediaKind::VideoNote { file: file("n") }).map(|f| f.id.as_str()),
        Some("n")
    );
    assert_eq!(filter_media(&document("d")), None);
    assert_eq!(filter_media(&MediaKind::Location), None);
    assert_eq!(
        filter_media(&MediaKind::Text {
            text: "plain".to_string(),
            entities: vec![]
        }),
        None
    );
}

#[test]
fn unsupported_media_fail_the_whole_group() {
    let group = Media::group(
        "g".to_string(),
        vec![video("one", false), document("two"), video("three", false)],
    );
    let planned = plan(Some(&group));
    assert_eq!(planned, Err(Failure::UnsupportedMedia));
    assert_eq!(resolved(&planned), Signal::Refused);
}

#[test]
fn plan_of_a_group() {
    let group = Media::group(
        "g".to_string(),
        vec![
            video("one", false),
            photo(vec![size("s", 1, 1), size("two", 9, 9)], Some("the caption")),
            video("three", true),
        ],
    );
    assert_eq!(group.len(), 3);
    assert_eq!(group.iter().len(), 3);
    let planned = plan(Some(&group)).unwrap();
    assert!(planned.has_media);
    assert_eq!(planned.files, vec!["one", "two", "three"]);
    assert!(planned.sensitive);
    assert_eq!(planned.text, "the caption");
    assert!(planned.entities.is_empty());
    assert_eq!(resolved(&Ok(planned)), Signal::Resolved { files: 3 });
}

#[test]
fn plan_without_media() {
    let planned = plan(None).unwrap();
    assert!(!planned.has_media);
    assert!(planned.files.is_empty());
    assert!(!planned.sensitive);
    assert_eq!(planned.text, "");
}

#[test]
fn where_the_media_of_a_message_are_found() {
    assert_eq!(Media::query(None, Some("g".to_string())), MediaQuery::NoMedia);
    assert_eq!(
        Media::query(Some(MediaKind::Poll), None),
        MediaQuery::Single(Media::Single(Box::new(MediaKind::Poll)))
    );
    assert_eq!(
        Media::query(Some(MediaKind::Poll), Some("g".to_string())),
        MediaQuery::Group("g".to_string())
    );
    assert_eq!(on_new_message(true, Some("g".to_string())), Some("g".to_string()));
    assert_eq!(on_new_message(false, Some("g".to_string())), None);
    assert_eq!(on_new_message(true, None), None);
}
