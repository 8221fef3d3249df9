use std::path::PathBuf;
use std::time::Duration;

use catalog::model::artist::Artist;
use catalog::model::release::Release;
use catalog::model::track::{
    Tag, TagKey, TagReading, Track, TrackError, Visual, VisualKey,
};
use catalog::model::{CatalogItem, CatalogMetadata};

fn tag(key: TagKey, value: &str) -> Tag {
    Tag { key, value: value.to_string() }
}

fn reading(tags: Vec<Tag>, seconds: Option<u64>) -> Option<TagReading> {
    Some(TagReading { tags, duration: seconds.map(Duration::from_secs) })
}

fn track(title: &str) -> Track {
    Track {
        title: title.to_string(),
        release: Some("R".to_string()),
        artist: Some("A".to_string()),
        path: PathBuf::from("/music/a.flac"),
        duration: Duration::from_secs(3),
    }
}

#[test]
fn add_release_appends_a_new_title() {
    let mut artist = Artist { name: "A".to_string(), releases: vec![] };
    artist.add_release("R");
    assert_eq!(artist.releases, vec!["R".to_string()]);
    assert_eq!(artist.name, "A");
}

#[test]
fn add_release_ignores_a_known_title() {
    let mut artist = Artist {
        name: "A".to_string(),
        releases: vec!["R".to_string(), "S".to_string()],
    };
    artist.add_release("R");
    assert_eq!(artist.releases, vec!["R".to_string(), "S".to_string()]);
}

#[test]
fn add_release_tells_titles_apart_by_case() {
    let mut artist = Artist { name: "A".to_string(), releases: vec!["r".to_string()] };
    artist.add_release("R");
    assert_eq!(artist.releases, vec!["r".to_string(), "R".to_string()]);
}

#[test]
fn add_track_keeps_first_seen_order() {
    let mut release = Release { title: "R".to_string(), tracks: vec![], artist: None };
    release.add_track("T2");
    release.add_track("T1");
    release.add_track("T2");
    assert_eq!(release.tracks, vec!["T2".to_string(), "T1".to_string()]);
    assert_eq!(release.title, "R");
    assert_eq!(release.artist, None);
}

#[test]
fn add_track_twice_is_add_track_once() {
    let mut once = Release { title: "R".to_string(), tracks: vec![], artist: None };
    once.add_track("T");
    let mut twice = once.clone();
    twice.add_track("T");
    assert_eq!(once.tracks, twice.tracks);
}

#[test]
fn clones_are_equal_in_every_field() {
    let artist = Artist { name: "A".to_string(), releases: vec!["R".to_string()] };
    let copy = artist.clone();
    assert_eq!(copy.name, "A");
    assert_eq!(copy.releases, vec!["R".to_string()]);
    let release = Release {
        title: "R".to_string(),
        tracks: vec!["T".to_string()],
        artist: Some("A".to_string()),
    };
    let copy = release.clone();
    assert_eq!(copy.title, "R");
    assert_eq!(copy.tracks, vec!["T".to_string()]);
    assert_eq!(copy.artist, Some("A".to_string()));
    let first = track("T");
    let copy = first.clone();
    assert_eq!(copy.title, "T");
    assert_eq!(copy.release, Some("R".to_string()));
    assert_eq!(copy.artist, Some("A".to_string()));
    assert_eq!(copy.path, PathBuf::from("/music/a.flac"));
    assert_eq!(copy.duration, Duration::from_secs(3));
}

#[test]
fn display_text_is_name_or_title() {
    let artist = CatalogMetadata::Artist(Artist { name: "A".to_string(), releases: vec![] });
    let release = CatalogMetadata::Release(Release {
        title: "R".to_string(),
        tracks: vec![],
        artist: None,
    });
    let single = CatalogMetadata::Track(track("T"));
    assert_eq!(artist.display_text(), "A");
    assert_eq!(release.display_text(), "R");
    assert_eq!(single.display_text(), "T");
}

#[test]
fn an_item_of_one_kind_becomes_an_item_of_any_kind() {
    let item = CatalogItem {
        id: 7,
        favorite: true,
        metadata: Artist { name: "A".to_string(), releases: vec!["R".to_string()] },
    };
    let wrapped: CatalogItem<CatalogMetadata> = item.into();
    assert_eq!(wrapped.id, 7);
    assert!(wrapped.favorite);
    match wrapped.metadata {
        CatalogMetadata::Artist(artist) => {
            assert_eq!(artist.name, "A");
            assert_eq!(artist.releases, vec!["R".to_string()]);
        }
        _ => panic!("an artist was wrapped"),
    }
    let item = CatalogItem {
        id: 8,
        favorite: false,
        metadata: Release { title: "R".to_string(), tracks: vec![], artist: None },
    };
    let wrapped = CatalogItem::<CatalogMetadata>::from(item);
    assert_eq!(wrapped.id, 8);
    assert!(!wrapped.favorite);
    assert!(matches!(wrapped.metadata, CatalogMetadata::Release(_)));
    let item = CatalogItem { id: 9, favorite: false, metadata: track("T") };
    let wrapped = CatalogItem::<CatalogMetadata>::from(item);
    assert_eq!(wrapped.id, 9);
    assert!(matches!(wrapped.metadata, CatalogMetadata::Track(_)));
}

#[test]
fn a_fully_tagged_file_yields_a_track() {
    let tags = vec![
        tag(TagKey::Other, "2001"),
        tag(TagKey::TrackTitle, "T"),
        tag(TagKey::Artist, "A"),
        tag(TagKey::Album, "R"),
    ];
    let made = Track::from_path(PathBuf::from("/music/t.flac"), reading(tags, Some(185)));
    let made = made.expect("every required tag is there");
    assert_eq!(made.title, "T");
    assert_eq!(made.artist, Some("A".to_string()));
    assert_eq!(made.release, Some("R".to_string()));
    assert_eq!(made.path, PathBuf::from("/music/t.flac"));
    assert_eq!(made.duration, Duration::from_secs(185));
}

#[test]
fn the_last_of_repeated_tags_counts() {
    let tags = vec![
        tag(TagKey::TrackTitle, "first"),
        tag(TagKey::Artist, "A"),
        tag(TagKey::TrackTitle, "second"),
        tag(TagKey::Album, "R"),
        tag(TagKey::Album, "S"),
    ];
    let made = Track::from_path(PathBuf::from("t.flac"), reading(tags, Some(1))).unwrap();
    assert_eq!(made.title, "second");
    assert_eq!(made.release, Some("S".to_string()));
}

#[test]
fn a_file_without_title_yields_tag_missing() {
    let tags = vec![tag(TagKey::Artist, "A"), tag(TagKey::Album, "R")];
    let made = Track::from_path(PathBuf::from("t.flac"), reading(tags, Some(1)));
    assert_eq!(made.err(), Some(TrackError::TagMissing));
}

#[test]
fn a_file_without_artist_or_album_yields_a_track_without_them() {
    let tags = vec![tag(TagKey::TrackTitle, "T"), tag(TagKey::Album, "R")];
    let made = Track::from_path(PathBuf::from("t.flac"), reading(tags, Some(1))).unwrap();
    assert_eq!(made.title, "T");
    assert_eq!(made.release, Some("R".to_string()));
    assert_eq!(made.artist, None);
    let tags = vec![tag(TagKey::TrackTitle, "T"), tag(TagKey::Artist, "A")];
    let made = Track::from_path(PathBuf::from("t.flac"), reading(tags, Some(1))).unwrap();
    assert_eq!(made.release, None);
    assert_eq!(made.artist, Some("A".to_string()));
    let tags = vec![tag(TagKey::Other, "2001"), tag(TagKey::TrackTitle, "T")];
    let made = Track::from_path(PathBuf::from("/music/t.flac"), reading(tags, Some(7))).unwrap();
    assert_eq!(made.title, "T");
    assert_eq!(made.release, None);
    assert_eq!(made.artist, None);
    assert_eq!(made.path, PathBuf::from("/music/t.flac"));
    assert_eq!(made.duration, Duration::from_secs(7));
}

#[test]
fn a_missing_title_is_reported_before_a_missing_length() {
    let tags = vec![tag(TagKey::Artist, "A"), tag(TagKey::Album, "R")];
    let made = Track::from_path(PathBuf::from("t.flac"), reading(tags, None));
    assert_eq!(made.err(), Some(TrackError::TagMissing));
    let made = Track::from_path(PathBuf::from("t.flac"), reading(vec![], Some(1)));
    assert_eq!(made.err(), Some(TrackError::TagMissing));
}

#[test]
fn a_file_without_length_yields_unknown() {
    let tags = vec![tag(TagKey::TrackTitle, "T")];
    let made = Track::from_path(PathBuf::from("t.flac"), reading(tags, None));
    assert_eq!(made.err(), Some(TrackError::Unknown));
    let tags = vec![
        tag(TagKey::TrackTitle, "T"),
        tag(TagKey::Artist, "A"),
        tag(TagKey::Album, "R"),
    ];
    let made = Track::from_path(PathBuf::from("t.flac"), reading(tags, None));
    assert_eq!(made.err(), Some(TrackError::Unknown));
}

#[test]
fn a_file_that_could_not_be_read_yields_unknown() {
    let made = Track::from_path(PathBuf::from("t.flac"), None);
    assert_eq!(made.err(), Some(TrackError::Unknown));
}

#[test]
fn track_errors_in_words() {
    assert_eq!(TrackError::TagMissing.message(), "track is missing a required tag");
    assert_eq!(TrackError::Unknown.message(), "unknown error occured");
}

#[test]
fn the_first_front_cover_is_the_cover() {
    let visuals = vec![
        Visual { usage: VisualKey::Other, media_type: "image/gif".to_string(), data: vec![1] },
        Visual {
            usage: VisualKey::FrontCover,
            media_type: "image/jpeg".to_string(),
            data: vec![2, 3],
        },
        Visual {
            usage: VisualKey::FrontCover,
            media_type: "image/webp".to_string(),
            data: vec![4],
        },
    ];
    let cover = track("T").cover(&visuals, &vec![9, 9, 9]);
    assert_eq!(cover.mime_type, "image/jpeg");
    assert_eq!(cover.byte_data, vec![2, 3]);
}

#[test]
fn without_front_cover_the_stock_image_is_the_cover() {
    let visuals = vec![Visual {
        usage: VisualKey::Other,
        media_type: "image/gif".to_string(),
        data: vec![1],
    }];
    let cover = track("T").cover(&visuals, &vec![9, 8, 7]);
    assert_eq!(cover.mime_type, "image/png");
    assert_eq!(cover.byte_data, vec![9, 8, 7]);
    let cover = track("T").cover(&vec![], &vec![]);
    assert_eq!(cover.mime_type, "image/png");
    assert_eq!(cover.byte_data, Vec::<u8>::new());
}
