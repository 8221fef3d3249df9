use std::collections::HashMap;
use std::path::PathBuf;
use std::time::Duration;

use catalog::model::artist::Artist;
use catalog::model::release::Release;
use catalog::model::track::{Tag, TagKey, TagReading, Track};
use catalog::model::CatalogItem;
use catalog::repository::artist::ArtistFilter;
use catalog::repository::release::ReleaseFilter;
use catalog::repository::track::TrackFilter;
use catalog::repository::RepositoryError;
use catalog::service::artist::ArtistService;
use catalog::service::release::ReleaseService;
use catalog::service::sync::{
    is_audio_extension, CatalogService, CatalogServiceError, DirectoryEntry, Sync, SyncProgress,
    SyncRequest, SyncResponse, AUDIO_EXTENSION,
};
use catalog::service::track::{TrackService, TrackServiceError};
use catalog::service::{Progress, Request, Response, Task};

/// A store in memory that behaves as the catalog expects of a store.
struct Store {
    artists: Vec<CatalogItem<Artist>>,
    releases: Vec<CatalogItem<Release>>,
    tracks: Vec<CatalogItem<Track>>,
    asked: usize,
}

fn like(text: &Option<String>, value: &Option<String>) -> bool {
    match (text, value) {
        (_, None) => true,
        (None, Some(_)) => false,
        (Some(text), Some(value)) => {
            text.to_ascii_lowercase().contains(&value.to_ascii_lowercase())
        }
    }
}

fn next_id<T>(rows: &Vec<CatalogItem<T>>) -> i64 {
    rows.iter().map(|row| row.id).max().unwrap_or(0) + 1
}

impl Store {
    fn new() -> Store {
        Store { artists: vec![], releases: vec![], tracks: vec![], asked: 0 }
    }

    fn serve(&mut self, request: Request) -> Response {
        self.asked += 1;
        match request {
            Request::CreateTrack(track) => {
                let taken = self.tracks.iter().any(|row| {
                    row.metadata.title == track.title
                        && track.artist.is_some()
                        && row.metadata.artist == track.artist
                        && track.release.is_some()
                        && row.metadata.release == track.release
                });
                if taken {
                    return Response::Track(Err(RepositoryError::ItemCreate(
                        "UNIQUE constraint failed".to_string(),
                    )));
                }
                let row = CatalogItem { id: next_id(&self.tracks), favorite: false, metadata: track };
                self.tracks.push(row.clone());
                Response::Track(Ok(row))
            }
            Request::FindTracks(filter) => Response::Tracks(Ok(self
                .tracks
                .iter()
                .filter(|row| {
                    like(&Some(row.metadata.title.clone()), &filter.name)
                        && like(&row.metadata.artist, &filter.artist)
                        && like(&row.metadata.release, &filter.release)
                })
                .cloned()
                .collect())),
            Request::UpdateTrack(item) => {
                for row in self.tracks.iter_mut() {
                    if row.id == item.id {
                        *row = item.clone();
                    }
                }
                Response::Track(Ok(item))
            }
            Request::CreateRelease(release) => {
                let row = CatalogItem {
                    id: next_id(&self.releases),
                    favorite: false,
                    metadata: release,
                };
                self.releases.push(row.clone());
                Response::Release(Ok(row))
            }
            Request::FindReleases(filter) => Response::Releases(Ok(self
                .releases
                .iter()
                .filter(|row| {
                    like(&Some(row.metadata.title.clone()), &filter.title)
                        && like(&row.metadata.artist, &filter.artist)
                })
                .cloned()
                .collect())),
            Request::UpdateRelease(item) => {
                for row in self.releases.iter_mut() {
                    if row.id == item.id {
                        *row = item.clone();
                    }
                }
                Response::Release(Ok(item))
            }
            Request::CreateArtist(artist) => {
                let row = CatalogItem {
                    id: next_id(&self.artists),
                    favorite: false,
                    metadata: artist,
                };
                self.artists.push(row.clone());
                Response::Artist(Ok(row))
            }
            Request::FindArtists(filter) => Response::Artists(Ok(self
                .artists
                .iter()
                .filter(|row| {
                    filter.track.is_none() && like(&Some(row.metadata.name.clone()), &filter.name)
                })
                .cloned()
                .collect())),
            Request::UpdateArtist(item) => {
                for row in self.artists.iter_mut() {
                    if row.id == item.id {
                        *row = item.clone();
                    }
                }
                Response::Artist(Ok(item))
            }
        }
    }

    fn run<T: Task>(&mut self, begun: (T, Request)) -> Result<T::Output, T::Error> {
        let (mut task, mut request) = begun;
        loop {
            let response = self.serve(request);
            match task.resume(response) {
                Progress::Pending(next, asked) => {
                    task = next;
                    request = asked;
                }
                Progress::Done(outcome) => return outcome,
            }
        }
    }

    fn track_titles(&self) -> Vec<String> {
        self.tracks.iter().map(|row| row.metadata.title.clone()).collect()
    }
}

fn track(title: &str, release: &str, artist: &str) -> Track {
    Track {
        title: title.to_string(),
        release: Some(release.to_string()),
        artist: Some(artist.to_string()),
        path: PathBuf::from(format!("/music/{}.flac", title)),
        duration: Duration::from_secs(200),
    }
}

/// A directory tree in memory.
struct Tree {
    directories: HashMap<PathBuf, Vec<DirectoryEntry>>,
    files: HashMap<PathBuf, TagReading>,
    listed: Vec<PathBuf>,
    read: Vec<PathBuf>,
}

impl Tree {
    fn new() -> Tree {
        Tree { directories: HashMap::new(), files: HashMap::new(), listed: vec![], read: vec![] }
    }

    fn directory(&mut self, path: &str, entries: Vec<(&str, bool)>) {
        let entries = entries
            .into_iter()
            .map(|(name, is_directory)| {
                DirectoryEntry { path: PathBuf::from(path).join(name), is_directory }
            })
            .collect();
        self.directories.insert(PathBuf::from(path), entries);
    }

    fn file(&mut self, path: &str, tags: Vec<(TagKey, &str)>, seconds: Option<u64>) {
        let tags = tags.into_iter().map(|(key, value)| Tag { key, value: value.to_string() });
        self.files.insert(
            PathBuf::from(path),
            TagReading { tags: tags.collect(), duration: seconds.map(Duration::from_secs) },
        );
    }

    fn tagged(&mut self, path: &str, title: &str, release: &str, artist: &str) {
        self.file(
            path,
            vec![(TagKey::TrackTitle, title), (TagKey::Album, release), (TagKey::Artist, artist)],
            Some(100),
        );
    }

    fn answer(&mut self, store: &mut Store, request: SyncRequest) -> SyncResponse {
        match request {
            SyncRequest::ListDirectory(path) => {
                self.listed.push(path.clone());
                match self.directories.remove(&path) {
                    Some(entries) => SyncResponse::Listed(Ok(entries)),
                    None => SyncResponse::Listed(Err(format!("{} cannot be listed", path.display()))),
                }
            }
            SyncRequest::ReadTags(path) => {
                self.read.push(path.clone());
                SyncResponse::TagsRead(self.files.remove(&path))
            }
            SyncRequest::Store(request) => SyncResponse::Stored(store.serve(request)),
        }
    }

    fn sync(&mut self, store: &mut Store, root: &str) -> Result<(), CatalogServiceError> {
        let (mut sync, mut request): (Sync, SyncRequest) =
            CatalogService::new().sync(PathBuf::from(root));
        loop {
            let response = self.answer(store, request);
            match sync.resume(response) {
                SyncProgress::Pending(next, asked) => {
                    sync = next;
                    request = asked;
                }
                SyncProgress::Done(outcome) => return outcome,
            }
        }
    }
}

#[test]
fn two_tracks_of_one_release_share_release_and_artist() {
    let mut store = Store::new();
    store.run(TrackService::new().create_track(track("T1", "R", "A"))).expect("T1 is new");
    store.run(TrackService::new().create_track(track("T2", "R", "A"))).expect("T2 is new");
    assert_eq!(store.artists.len(), 1);
    assert_eq!(store.artists[0].metadata.name, "A");
    assert_eq!(store.releases.len(), 1);
    assert_eq!(store.releases[0].metadata.title, "R");
    assert_eq!(store.releases[0].metadata.artist, Some("A".to_string()));
    assert_eq!(store.releases[0].metadata.tracks, vec!["T1".to_string(), "T2".to_string()]);
    assert_eq!(store.tracks.len(), 2);
}

#[test]
fn a_new_artist_has_no_release_until_a_second_track_arrives() {
    let mut store = Store::new();
    store.run(TrackService::new().create_track(track("T1", "R", "A"))).expect("T1 is new");
    assert!(store.artists[0].metadata.releases.is_empty());
    store.run(TrackService::new().create_track(track("T2", "R", "A"))).expect("T2 is new");
    assert_eq!(store.artists[0].metadata.releases, vec!["R".to_string()]);
}

#[test]
fn the_same_track_twice_changes_nothing_the_second_time() {
    let mut store = Store::new();
    store.run(TrackService::new().create_track(track("T1", "R", "A"))).expect("T1 is new");
    store.run(TrackService::new().create_track(track("T2", "R", "A"))).expect("T2 is new");
    let releases = store.releases[0].metadata.tracks.clone();
    let artists = store.artists[0].metadata.releases.clone();
    let asked = store.asked;
    let again = store.run(TrackService::new().create_track(track("T2", "R", "A")));
    match again {
        Err(TrackServiceError::Internal(detail)) => {
            assert_eq!(detail, "unable to create item: UNIQUE constraint failed");
        }
        other => panic!("unexpected outcome {:?}", other),
    }
    assert_eq!(store.asked, asked + 1);
    assert_eq!(store.tracks.len(), 2);
    assert_eq!(store.releases.len(), 1);
    assert_eq!(store.artists.len(), 1);
    assert_eq!(store.releases[0].metadata.tracks, releases);
    assert_eq!(store.artists[0].metadata.releases, artists);
}

#[test]
fn what_was_created_is_found_again_with_its_data() {
    let mut store = Store::new();
    let created =
        store.run(TrackService::new().create_track(track("T1", "R", "A"))).expect("T1 is new");
    assert_eq!(created.id, 1);
    assert!(!created.favorite);
    let filter = TrackFilter { name: None, release: Some("R".to_string()), artist: None };
    let listed = store.run(TrackService::new().list_tracks(filter)).expect("the store works");
    assert_eq!(listed.len(), 1);
    assert_eq!(listed[0].id, created.id);
    assert_eq!(listed[0].metadata.title, "T1");
    assert_eq!(listed[0].metadata.path, PathBuf::from("/music/T1.flac"));
    assert_eq!(listed[0].metadata.duration, Duration::from_secs(200));
}

#[test]
fn unset_filters_list_every_row() {
    let mut store = Store::new();
    for (title, release, artist) in [("T1", "R1", "A1"), ("T2", "R2", "A2"), ("T3", "R2", "A3")] {
        store.run(TrackService::new().create_track(track(title, release, artist))).expect("new");
    }
    let tracks = store.run(TrackService::new().list_tracks(TrackFilter::default())).unwrap();
    let releases = store.run(ReleaseService::new().list_releases(ReleaseFilter::default())).unwrap();
    let artists = store.run(ArtistService::new().list_artists(ArtistFilter::default())).unwrap();
    assert_eq!(tracks.len(), 3);
    assert_eq!(releases.len(), 2);
    assert_eq!(artists.len(), 3);
}

#[test]
fn filtering_by_artist_finds_every_artist_that_contains_the_value() {
    let mut store = Store::new();
    for (title, artist) in [("T1", "A"), ("T2", "Band"), ("T3", "Trio")] {
        store.run(TrackService::new().create_track(track(title, "R", artist))).expect("new");
    }
    let filter = TrackFilter { name: None, release: None, artist: Some("A".to_string()) };
    let listed = store.run(TrackService::new().list_tracks(filter)).expect("the store works");
    let titles: Vec<String> = listed.iter().map(|row| row.metadata.title.clone()).collect();
    assert_eq!(titles, vec!["T1".to_string(), "T2".to_string()]);
}

#[test]
fn a_track_joins_the_release_whose_title_contains_its_release() {
    let mut store = Store::new();
    store.run(TrackService::new().create_track(track("T1", "Help!", "A"))).expect("new");
    store.run(TrackService::new().create_track(track("T2", "Help", "A"))).expect("new");
    assert_eq!(store.releases.len(), 1);
    assert_eq!(store.releases[0].metadata.title, "Help!");
    assert_eq!(store.releases[0].metadata.tracks, vec!["T1".to_string(), "T2".to_string()]);
}

#[test]
fn a_track_is_got_by_part_of_its_title() {
    let mut store = Store::new();
    store.run(TrackService::new().create_track(track("Come Together", "R", "A"))).expect("new");
    store.run(TrackService::new().create_track(track("Something", "R", "A"))).expect("new");
    let found = store.run(TrackService::new().get_track("together")).expect("a track");
    assert_eq!(found.metadata.title, "Come Together");
    let outcome = store.run(TrackService::new().get_track("Help"));
    assert!(matches!(outcome, Err(TrackServiceError::NotFound)));
}

#[test]
fn favorite_track_turns_the_mark_of_the_stored_track_over() {
    let mut store = Store::new();
    store.run(TrackService::new().create_track(track("T1", "R", "A"))).expect("new");
    store.run(TrackService::new().create_track(track("Other", "R", "A"))).expect("new");
    let marked = store.run(TrackService::new().favorite_track("T1")).expect("a track");
    assert_eq!(marked.id, 1);
    assert!(marked.favorite);
    assert!(store.tracks[0].favorite);
    assert!(!store.tracks[1].favorite);
    let cleared = store.run(TrackService::new().favorite_track("T1")).expect("a track");
    assert!(!cleared.favorite);
    assert!(!store.tracks[0].favorite);
    assert_eq!(store.tracks[0].metadata.title, "T1");
}

#[test]
fn a_file_with_a_title_alone_is_catalogued_without_release_and_artist() {
    let mut tree = Tree::new();
    tree.directory("/music", vec![("bare.flac", false), ("full.flac", false)]);
    tree.file("/music/bare.flac", vec![(TagKey::TrackTitle, "Bare")], Some(10));
    tree.tagged("/music/full.flac", "Full", "R", "A");
    let mut store = Store::new();
    assert!(tree.sync(&mut store, "/music").is_ok());
    assert_eq!(store.track_titles(), vec!["Bare", "Full"]);
    assert_eq!(store.tracks[0].metadata.release, None);
    assert_eq!(store.tracks[0].metadata.artist, None);
    assert_eq!(store.releases.len(), 1);
    assert_eq!(store.releases[0].metadata.tracks, vec!["Full".to_string()]);
    assert_eq!(store.artists.len(), 1);
}

#[test]
fn a_favorite_is_read_back_as_a_favorite() {
    let mut store = Store::new();
    store.run(TrackService::new().create_track(track("T1", "R", "A"))).expect("new");
    let mut item = store.tracks[0].clone();
    item.favorite = true;
    item.metadata.title = "T1 (remastered)".to_string();
    let answer = store.serve(Request::UpdateTrack(item));
    assert!(matches!(answer, Response::Track(Ok(_))));
    let listed = store.run(TrackService::new().list_tracks(TrackFilter::default())).unwrap();
    assert_eq!(listed.len(), 1);
    assert!(listed[0].favorite);
    assert_eq!(listed[0].metadata.title, "T1 (remastered)");
}

#[test]
fn sync_catalogues_every_audio_file_below_the_root() {
    let mut tree = Tree::new();
    tree.directory("/music", vec![("a", true), ("one.flac", false), ("notes.txt", false), ("b", true)]);
    tree.directory("/music/a", vec![("two.flac", false)]);
    tree.directory("/music/b", vec![("three.flac", false), ("deep", true)]);
    tree.directory("/music/b/deep", vec![("four.flac", false), ("cover.png", false)]);
    tree.tagged("/music/one.flac", "One", "R", "A");
    tree.tagged("/music/a/two.flac", "Two", "R", "A");
    tree.tagged("/music/b/three.flac", "Three", "S", "B");
    tree.tagged("/music/b/deep/four.flac", "Four", "S", "B");
    let mut store = Store::new();
    let outcome = tree.sync(&mut store, "/music");
    assert!(outcome.is_ok());
    assert_eq!(
        tree.listed,
        vec![
            PathBuf::from("/music"),
            PathBuf::from("/music/b"),
            PathBuf::from("/music/b/deep"),
            PathBuf::from("/music/a"),
        ]
    );
    assert_eq!(
        tree.read,
        vec![
            PathBuf::from("/music/one.flac"),
            PathBuf::from("/music/b/three.flac"),
            PathBuf::from("/music/b/deep/four.flac"),
            PathBuf::from("/music/a/two.flac"),
        ]
    );
    assert_eq!(store.track_titles(), vec!["One", "Three", "Four", "Two"]);
    assert_eq!(store.releases.len(), 2);
    assert_eq!(store.artists.len(), 2);
}

#[test]
fn sync_of_two_tracks_of_one_release() {
    let mut tree = Tree::new();
    tree.directory("/music", vec![("t1.flac", false), ("t2.flac", false)]);
    tree.tagged("/music/t1.flac", "T1", "R", "A");
    tree.tagged("/music/t2.flac", "T2", "R", "A");
    let mut store = Store::new();
    assert!(tree.sync(&mut store, "/music").is_ok());
    assert_eq!(store.artists.len(), 1);
    assert_eq!(store.artists[0].metadata.name, "A");
    assert_eq!(store.releases.len(), 1);
    assert_eq!(store.releases[0].metadata.title, "R");
    assert_eq!(store.releases[0].metadata.tracks, vec!["T1".to_string(), "T2".to_string()]);
    assert_eq!(store.tracks.len(), 2);
}

#[test]
fn a_file_without_title_adds_nothing_and_stops_nothing() {
    let mut tree = Tree::new();
    tree.directory("/music", vec![("bad.flac", false), ("good.flac", false), ("more", true)]);
    tree.directory("/music/more", vec![("fine.flac", false)]);
    tree.file("/music/bad.flac", vec![(TagKey::Artist, "A"), (TagKey::Album, "R")], Some(10));
    tree.tagged("/music/good.flac", "Good", "R", "A");
    tree.tagged("/music/more/fine.flac", "Fine", "R", "A");
    let mut store = Store::new();
    let outcome = tree.sync(&mut store, "/music");
    assert!(outcome.is_ok());
    assert_eq!(tree.read.len(), 3);
    assert_eq!(store.track_titles(), vec!["Good", "Fine"]);
    assert_eq!(store.releases.len(), 1);
    assert_eq!(store.artists.len(), 1);
}

#[test]
fn a_directory_of_untagged_files_leaves_the_store_empty() {
    let mut tree = Tree::new();
    tree.directory("/music", vec![("bad.flac", false), ("worse.flac", false)]);
    tree.file("/music/bad.flac", vec![(TagKey::Artist, "A"), (TagKey::Album, "R")], Some(10));
    let mut store = Store::new();
    assert!(tree.sync(&mut store, "/music").is_ok());
    assert_eq!(tree.read.len(), 2);
    assert_eq!(store.asked, 0);
    assert!(store.tracks.is_empty());
    assert!(store.releases.is_empty());
    assert!(store.artists.is_empty());
}

#[test]
fn a_file_that_is_catalogued_already_stops_nothing() {
    let mut tree = Tree::new();
    tree.directory("/music", vec![("copy.flac", false), ("new.flac", false)]);
    tree.tagged("/music/copy.flac", "T1", "R", "A");
    tree.tagged("/music/new.flac", "T2", "R", "A");
    let mut store = Store::new();
    store.run(TrackService::new().create_track(track("T1", "R", "A"))).expect("T1 is new");
    assert!(tree.sync(&mut store, "/music").is_ok());
    assert_eq!(store.track_titles(), vec!["T1", "T2"]);
    assert_eq!(store.releases[0].metadata.tracks, vec!["T1".to_string(), "T2".to_string()]);
}

#[test]
fn a_directory_that_cannot_be_listed_ends_the_sync() {
    let mut tree = Tree::new();
    tree.directory("/music", vec![("gone", true), ("t.flac", false)]);
    tree.tagged("/music/t.flac", "T", "R", "A");
    let mut store = Store::new();
    let outcome = tree.sync(&mut store, "/music");
    match outcome {
        Err(CatalogServiceError::Internal(detail)) => {
            assert_eq!(detail, "/music/gone cannot be listed");
        }
        other => panic!("unexpected outcome {:?}", other),
    }
    assert!(tree.read.is_empty());
    assert!(store.tracks.is_empty());
}

#[test]
fn an_empty_tree_is_synchronised_at_once() {
    let mut tree = Tree::new();
    tree.directory("/music", vec![]);
    let mut store = Store::new();
    assert!(tree.sync(&mut store, "/music").is_ok());
    assert_eq!(tree.listed, vec![PathBuf::from("/music")]);
    assert!(tree.read.is_empty());
}

#[test]
fn only_the_audio_extension_counts() {
    let file = |path: &str| DirectoryEntry { path: PathBuf::from(path), is_directory: false };
    assert!(file("a.flac").is_audio_file());
    assert!(file("/music/b/a.tar.flac").is_audio_file());
    assert!(!file("a.FLAC").is_audio_file());
    assert!(!file("a.mp3").is_audio_file());
    assert!(!file("a.flac.txt").is_audio_file());
    assert!(!file("flac").is_audio_file());
    assert!(!file(".flac").is_audio_file());
    assert!(!file("/music.flac/a").is_audio_file());
    let directory = DirectoryEntry { path: PathBuf::from("d.flac"), is_directory: true };
    assert!(!directory.is_audio_file());
}

#[test]
fn the_audio_extension_is_compared_letter_for_letter() {
    assert_eq!(AUDIO_EXTENSION, "flac");
    assert!(is_audio_extension(&Some("flac".to_string())));
    assert!(!is_audio_extension(&Some("Flac".to_string())));
    assert!(!is_audio_extension(&Some("flac ".to_string())));
    assert!(!is_audio_extension(&Some(String::new())));
    assert!(!is_audio_extension(&None));
}

#[test]
fn an_answer_that_was_not_asked_for_ends_the_sync() {
    let (sync, _) = CatalogService::new().sync(PathBuf::from("/music"));
    let progress = sync.resume(SyncResponse::TagsRead(None));
    match progress {
        SyncProgress::Done(Err(error)) => {
            assert!(matches!(error, CatalogServiceError::Unknown));
            assert_eq!(error.message(), "unknown error occured");
        }
        other => panic!("unexpected progress {:?}", other),
    }
}

#[test]
fn catalog_service_errors_in_words() {
    assert_eq!(CatalogServiceError::Internal("why".to_string()).message(), "why");
    assert_eq!(CatalogServiceError::Unknown.message(), "unknown error occured");
}
