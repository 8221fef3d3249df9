use std::path::PathBuf;
use std::time::Duration;

use catalog::model::artist::Artist;
use catalog::model::release::Release;
use catalog::model::track::Track;
use catalog::model::CatalogItem;
use catalog::repository::artist::{ArtistFilter, ArtistRepository};
use catalog::repository::release::{ReleaseFilter, ReleaseRepository};
use catalog::repository::track::{TrackFilter, TrackRepository};
use catalog::repository::{Operation, Repository, RepositoryError, Statement, Value as Bound};
use catalog::service::artist::{ArtistService, ArtistServiceError};
use catalog::service::release::ReleaseService;
use catalog::service::track::{TrackService, TrackServiceError};
use catalog::service::{Progress, Request, Response, Task};
use serde_json::Value;
use sqlx::sqlite::{SqlitePoolOptions, SqliteRow};
use sqlx::{Row, SqlitePool};
use tokio::runtime::{Builder, Runtime};

fn text(value: &Value, key: &str) -> String {
    value[key].as_str().expect("a text field").to_string()
}

fn optional_text(value: &Value, key: &str) -> Option<String> {
    value[key].as_str().map(str::to_string)
}

fn texts(value: &Value, key: &str) -> Vec<String> {
    let list = value[key].as_array().expect("a list field");
    list.iter().map(|item| item.as_str().expect("a text").to_string()).collect()
}

fn optional(text: &Option<String>) -> Value {
    match text {
        Some(text) => Value::String(text.clone()),
        None => Value::Null,
    }
}

fn list(texts: &Vec<String>) -> Value {
    Value::Array(texts.iter().map(|text| Value::String(text.clone())).collect())
}

fn artist_document(artist: &Artist) -> String {
    let mut map = serde_json::Map::new();
    map.insert("name".to_string(), Value::String(artist.name.clone()));
    map.insert("releases".to_string(), list(&artist.releases));
    Value::Object(map).to_string()
}

fn artist_of(document: &Value) -> Artist {
    Artist { name: text(document, "name"), releases: texts(document, "releases") }
}

fn release_document(release: &Release) -> String {
    let mut map = serde_json::Map::new();
    map.insert("title".to_string(), Value::String(release.title.clone()));
    map.insert("tracks".to_string(), list(&release.tracks));
    map.insert("artist".to_string(), optional(&release.artist));
    Value::Object(map).to_string()
}

fn release_of(document: &Value) -> Release {
    Release {
        title: text(document, "title"),
        tracks: texts(document, "tracks"),
        artist: optional_text(document, "artist"),
    }
}

fn track_document(track: &Track) -> String {
    let mut duration = serde_json::Map::new();
    duration.insert("secs".to_string(), Value::from(track.duration.as_secs()));
    duration.insert("nanos".to_string(), Value::from(track.duration.subsec_nanos()));
    let mut map = serde_json::Map::new();
    map.insert("title".to_string(), Value::String(track.title.clone()));
    map.insert("release".to_string(), optional(&track.release));
    map.insert("artist".to_string(), optional(&track.artist));
    map.insert("path".to_string(), Value::String(track.path.display().to_string()));
    map.insert("duration".to_string(), Value::Object(duration));
    Value::Object(map).to_string()
}

fn track_of(document: &Value) -> Track {
    let secs = document["duration"]["secs"].as_u64().expect("whole seconds");
    let nanos = document["duration"]["nanos"].as_u64().expect("nanoseconds") as u32;
    Track {
        title: text(document, "title"),
        release: optional_text(document, "release"),
        artist: optional_text(document, "artist"),
        path: PathBuf::from(text(document, "path")),
        duration: Duration::new(secs, nanos),
    }
}

/// The catalog's tables in an SQLite database in memory.
struct Store {
    runtime: Runtime,
    pool: SqlitePool,
}

impl Store {
    fn open() -> Store {
        let runtime = Builder::new_current_thread().enable_all().build().expect("a runtime");
        let pool = runtime
            .block_on(SqlitePoolOptions::new().max_connections(1).connect("sqlite::memory:"))
            .expect("a database in memory");
        let store = Store { runtime, pool };
        store.setup();
        store
    }

    fn setup(&self) {
        let mut statements = ArtistRepository::new().setup();
        statements.extend(ReleaseRepository::new().setup());
        statements.extend(TrackRepository::new().setup());
        for statement in statements {
            self.rows(&statement).expect("the schema");
        }
    }

    fn rows(&self, statement: &Statement) -> Result<Vec<SqliteRow>, String> {
        let mut query = sqlx::query(&statement.sql);
        for value in &statement.params {
            query = match value {
                Bound::Text(text) => query.bind(text.as_str()),
                Bound::Integer(number) => query.bind(*number),
                Bound::Boolean(flag) => query.bind(*flag),
            };
        }
        self.runtime.block_on(query.fetch_all(&self.pool)).map_err(|error| error.to_string())
    }

    fn items<T>(
        &self,
        operation: Operation,
        statement: &Statement,
        decode: fn(&Value) -> T,
    ) -> Result<Vec<CatalogItem<T>>, RepositoryError> {
        let rows = self
            .rows(statement)
            .map_err(|detail| RepositoryError::of_failure(operation, detail))?;
        Ok(rows
            .iter()
            .map(|row| {
                let raw: String = row.get("metadata");
                let document: Value = serde_json::from_str(&raw).expect("a document");
                CatalogItem {
                    id: row.get("id"),
                    favorite: row.get("favorite"),
                    metadata: decode(&document),
                }
            })
            .collect())
    }

    fn item<T>(
        &self,
        operation: Operation,
        statement: &Statement,
        decode: fn(&Value) -> T,
    ) -> Result<CatalogItem<T>, RepositoryError> {
        let mut items = self.items(operation, statement, decode)?;
        match items.pop() {
            Some(item) => Ok(item),
            None => Err(RepositoryError::of_failure(operation, "no rows returned".to_string())),
        }
    }

    fn written<T>(
        &self,
        statement: &Statement,
        item: CatalogItem<T>,
    ) -> Result<CatalogItem<T>, RepositoryError> {
        match self.rows(statement) {
            Ok(_) => Ok(item),
            Err(detail) => Err(RepositoryError::of_failure(Operation::Update, detail)),
        }
    }

    fn serve(&self, request: Request) -> Response {
        let artists = ArtistRepository::new();
        let releases = ReleaseRepository::new();
        let tracks = TrackRepository::new();
        match request {
            Request::CreateTrack(track) => Response::Track(self.item(
                Operation::Create,
                &tracks.create(track_document(&track)),
                track_of,
            )),
            Request::FindTracks(filter) => {
                Response::Tracks(self.items(Operation::Find, &tracks.find(&filter), track_of))
            }
            Request::UpdateTrack(item) => {
                let stored = CatalogItem {
                    id: item.id,
                    favorite: item.favorite,
                    metadata: track_document(&item.metadata),
                };
                Response::Track(self.written(&tracks.update(stored), item))
            }
            Request::CreateRelease(release) => Response::Release(self.item(
                Operation::Create,
                &releases.create(release_document(&release)),
                release_of,
            )),
            Request::FindReleases(filter) => Response::Releases(self.items(
                Operation::Find,
                &releases.find(&filter),
                release_of,
            )),
            Request::UpdateRelease(item) => {
                let stored = CatalogItem {
                    id: item.id,
                    favorite: item.favorite,
                    metadata: release_document(&item.metadata),
                };
                Response::Release(self.written(&releases.update(stored), item))
            }
            Request::CreateArtist(artist) => Response::Artist(self.item(
                Operation::Create,
                &artists.create(artist_document(&artist)),
                artist_of,
            )),
            Request::FindArtists(filter) => {
                Response::Artists(self.items(Operation::Find, &artists.find(&filter), artist_of))
            }
            Request::UpdateArtist(item) => {
                let stored = CatalogItem {
                    id: item.id,
                    favorite: item.favorite,
                    metadata: artist_document(&item.metadata),
                };
                Response::Artist(self.written(&artists.update(stored), item))
            }
        }
    }

    fn run<T: Task>(&self, begun: (T, Request)) -> Result<T::Output, T::Error> {
        let (mut task, mut request) = begun;
        loop {
            match task.resume(self.serve(request)) {
                Progress::Pending(next, asked) => {
                    task = next;
                    request = asked;
                }
                Progress::Done(outcome) => return outcome,
            }
        }
    }

    fn create_track(&self, title: &str, release: &str, artist: &str) -> CatalogItem<Track> {
        self.run(TrackService::new().create_track(track(title, release, artist)))
            .expect("the track is new")
    }

    fn all_tracks(&self) -> Vec<CatalogItem<Track>> {
        self.run(TrackService::new().list_tracks(TrackFilter::default())).expect("a listing")
    }

    fn all_releases(&self) -> Vec<CatalogItem<Release>> {
        self.run(ReleaseService::new().list_releases(ReleaseFilter::default())).expect("a listing")
    }

    fn all_artists(&self) -> Vec<CatalogItem<Artist>> {
        self.run(ArtistService::new().list_artists(ArtistFilter::default())).expect("a listing")
    }

    fn read_track(&self, id: i64) -> Result<CatalogItem<Track>, RepositoryError> {
        self.item(Operation::Read, &TrackRepository::new().read(id), track_of)
    }
}

fn track(title: &str, release: &str, artist: &str) -> Track {
    Track {
        title: title.to_string(),
        release: Some(release.to_string()),
        artist: Some(artist.to_string()),
        path: PathBuf::from(format!("/music/{}.flac", title)),
        duration: Duration::new(200, 500),
    }
}

fn titles(tracks: &Vec<CatalogItem<Track>>) -> Vec<String> {
    let mut titles: Vec<String> = tracks.iter().map(|row| row.metadata.title.clone()).collect();
    titles.sort();
    titles
}

#[test]
fn test_get_artist() {
    let store = Store::open();
    let listed = store.run(ArtistService::new().list_artists(ArtistFilter::default()));
    assert!(listed.expect("a listing").is_empty());
    let found = store.run(ArtistService::new().get_artist("Beatles"));
    assert!(matches!(found, Err(ArtistServiceError::NotFound)));
    store.create_track("Come Together", "Abbey Road", "The Beatles");
    let listed = store.run(ArtistService::new().list_artists(ArtistFilter::default()));
    let listed = listed.expect("a listing");
    assert_eq!(listed.len(), 1);
    assert_eq!(listed[0].metadata.name, "The Beatles");
    let found = store.run(ArtistService::new().get_artist("Beatles")).expect("an artist");
    assert_eq!(found.id, listed[0].id);
    assert_eq!(found.metadata.name, "The Beatles");
}

#[test]
fn sqlite_setup_may_run_again() {
    let store = Store::open();
    store.create_track("T", "R", "A");
    store.setup();
    store.setup();
    assert_eq!(store.all_tracks().len(), 1);
    assert_eq!(store.all_releases().len(), 1);
    assert_eq!(store.all_artists().len(), 1);
}

#[test]
fn sqlite_reads_back_what_was_created() {
    let store = Store::open();
    let created = store.create_track("T", "R", "A");
    assert!(!created.favorite);
    assert_eq!(created.metadata.title, "T");
    let read = store.read_track(created.id).expect("the row is there");
    assert_eq!(read.id, created.id);
    assert!(!read.favorite);
    assert_eq!(read.metadata.title, "T");
    assert_eq!(read.metadata.release, Some("R".to_string()));
    assert_eq!(read.metadata.artist, Some("A".to_string()));
    assert_eq!(read.metadata.path, PathBuf::from("/music/T.flac"));
    assert_eq!(read.metadata.duration, Duration::new(200, 500));
}

#[test]
fn sqlite_assigns_a_new_identity_to_every_row() {
    let store = Store::open();
    let first = store.create_track("T1", "R", "A");
    let second = store.create_track("T2", "R", "A");
    assert_ne!(first.id, second.id);
}

#[test]
fn sqlite_reads_nothing_for_an_unknown_identity() {
    let store = Store::open();
    store.create_track("T", "R", "A");
    assert!(matches!(store.read_track(99), Err(RepositoryError::ItemRead(_))));
}

#[test]
fn sqlite_reads_back_what_was_updated() {
    let store = Store::open();
    let mut item = store.create_track("T", "R", "A");
    item.favorite = true;
    item.metadata.title = "T (live)".to_string();
    item.metadata.duration = Duration::from_secs(321);
    let answer = store.serve(Request::UpdateTrack(item.clone()));
    assert!(matches!(answer, Response::Track(Ok(_))));
    let read = store.read_track(item.id).expect("the row is there");
    assert!(read.favorite);
    assert_eq!(read.metadata.title, "T (live)");
    assert_eq!(read.metadata.duration, Duration::from_secs(321));
    assert_eq!(store.all_tracks().len(), 1);
}

#[test]
fn sqlite_deletes_once_and_again() {
    let store = Store::open();
    let item = store.create_track("T", "R", "A");
    let statement = TrackRepository::new().delete(item.id);
    assert!(store.rows(&statement).is_ok());
    assert!(store.read_track(item.id).is_err());
    assert!(store.rows(&statement).is_ok());
    assert!(store.all_tracks().is_empty());
}

#[test]
fn sqlite_finds_every_row_for_an_unset_filter() {
    let store = Store::open();
    store.create_track("T1", "R1", "A1");
    store.create_track("T2", "R2", "A2");
    store.create_track("T3", "R2", "A3");
    assert_eq!(store.all_tracks().len(), 3);
    assert_eq!(store.all_releases().len(), 2);
    assert_eq!(store.all_artists().len(), 3);
}

#[test]
fn sqlite_finds_band_when_asked_for_a() {
    let store = Store::open();
    store.create_track("T1", "R", "A");
    store.create_track("T2", "R", "Band");
    store.create_track("T3", "R", "Trio");
    let filter = TrackFilter { name: None, release: None, artist: Some("A".to_string()) };
    let found = store.run(TrackService::new().list_tracks(filter)).expect("a listing");
    assert_eq!(titles(&found), vec!["T1".to_string(), "T2".to_string()]);
}

#[test]
fn sqlite_reads_percent_and_underscore_in_a_value_as_a_pattern() {
    let store = Store::open();
    store.create_track("T1", "R", "Band");
    store.create_track("T2", "R", "Bland");
    store.create_track("T3", "R", "Bd");
    store.create_track("T4", "R", "100%");
    let by_artist = |artist: &str| {
        let filter = TrackFilter { name: None, release: None, artist: Some(artist.to_string()) };
        titles(&store.run(TrackService::new().list_tracks(filter)).expect("a listing"))
    };
    assert_eq!(by_artist("B_nd"), vec!["T1".to_string()]);
    assert_eq!(by_artist("b%d"), vec!["T1".to_string(), "T2".to_string(), "T3".to_string()]);
    assert_eq!(by_artist("_"), vec!["T1", "T2", "T3", "T4"]);
    assert_eq!(by_artist("%"), vec!["T1", "T2", "T3", "T4"]);
    assert_eq!(by_artist("0%"), vec!["T4".to_string()]);
    assert_eq!(by_artist("____"), vec!["T1", "T2", "T4"]);
}

#[test]
fn sqlite_combines_the_conditions_of_a_filter() {
    let store = Store::open();
    store.create_track("T1", "Red", "Band");
    store.create_track("T2", "Blue", "Band");
    store.create_track("T3", "Red", "Trio");
    let filter = TrackFilter {
        name: None,
        release: Some("Red".to_string()),
        artist: Some("Band".to_string()),
    };
    let found = store.run(TrackService::new().list_tracks(filter)).expect("a listing");
    assert_eq!(titles(&found), vec!["T1".to_string()]);
    let filter = ReleaseFilter { title: Some("e".to_string()), artist: Some("trio".to_string()) };
    let found = store.run(ReleaseService::new().list_releases(filter)).expect("a listing");
    assert_eq!(found.len(), 0);
    let filter = ReleaseFilter { title: Some("e".to_string()), artist: Some("band".to_string()) };
    let found = store.run(ReleaseService::new().list_releases(filter)).expect("a listing");
    assert_eq!(found.len(), 2);
}

#[test]
fn sqlite_gets_a_track_by_part_of_its_title() {
    let store = Store::open();
    store.create_track("Come Together", "Abbey Road", "The Beatles");
    store.create_track("Something", "Abbey Road", "The Beatles");
    let found = store.run(TrackService::new().get_track("together")).expect("a track");
    assert_eq!(found.metadata.title, "Come Together");
    let found = store.run(TrackService::new().get_track("Something")).expect("a track");
    assert_eq!(found.metadata.title, "Something");
    let outcome = store.run(TrackService::new().get_track("Abbey"));
    assert!(matches!(outcome, Err(TrackServiceError::NotFound)));
}

#[test]
fn sqlite_lists_tracks_by_name_artist_and_release_together() {
    let store = Store::open();
    store.create_track("Red Song", "Red", "Band");
    store.create_track("Blue Song", "Red", "Band");
    store.create_track("Red Song", "Blue", "Band");
    let filter = TrackFilter {
        name: Some("red".to_string()),
        release: Some("red".to_string()),
        artist: Some("band".to_string()),
    };
    let found = store.run(TrackService::new().list_tracks(filter)).expect("a listing");
    assert_eq!(found.len(), 1);
    assert_eq!(found[0].metadata.title, "Red Song");
    assert_eq!(found[0].metadata.release, Some("Red".to_string()));
}

#[test]
fn sqlite_turns_the_favorite_mark_of_a_track_over() {
    let store = Store::open();
    let first = store.create_track("T1", "R", "A");
    let second = store.create_track("Other", "R", "A");
    let marked = store.run(TrackService::new().favorite_track("T1")).expect("a track");
    assert_eq!(marked.id, first.id);
    assert!(marked.favorite);
    assert_eq!(marked.metadata.title, "T1");
    assert_eq!(marked.metadata.duration, first.metadata.duration);
    assert!(store.read_track(first.id).expect("the row is there").favorite);
    assert!(!store.read_track(second.id).expect("the row is there").favorite);
    let cleared = store.run(TrackService::new().favorite_track("T1")).expect("a track");
    assert!(!cleared.favorite);
    assert!(!store.read_track(first.id).expect("the row is there").favorite);
    let outcome = store.run(TrackService::new().favorite_track("T9"));
    assert!(matches!(outcome, Err(TrackServiceError::NotFound)));
}

#[test]
fn sqlite_finds_no_artist_by_a_field_that_artists_lack() {
    let store = Store::open();
    store.create_track("T", "R", "A");
    let filter = ArtistFilter { name: None, track: Some("T".to_string()) };
    let found = store.run(ArtistService::new().list_artists(filter)).expect("a listing");
    assert!(found.is_empty());
}

#[test]
fn sqlite_tells_tracks_apart_that_lack_artist_or_release() {
    let store = Store::open();
    let bare = |title: &str, release: Option<&str>, artist: Option<&str>| Track {
        title: title.to_string(),
        release: release.map(str::to_string),
        artist: artist.map(str::to_string),
        path: PathBuf::from("/music/bare.flac"),
        duration: Duration::from_secs(1),
    };
    for (release, artist) in [(None, None), (Some("R"), None), (None, Some("A"))] {
        let first = store.run(TrackService::new().create_track(bare("T", release, artist)));
        let second = store.run(TrackService::new().create_track(bare("T", release, artist)));
        assert!(first.is_ok());
        assert!(second.is_ok());
    }
    assert_eq!(store.all_tracks().len(), 6);
    assert_eq!(store.all_releases().len(), 1);
    assert_eq!(store.all_releases()[0].metadata.tracks, vec!["T".to_string()]);
    assert_eq!(store.all_artists().len(), 1);
    assert!(store.all_artists()[0].metadata.releases.is_empty());
}

#[test]
fn sqlite_gets_artists_and_releases_by_part_of_their_names() {
    let store = Store::open();
    store.create_track("T", "Abbey Road", "The Beatles");
    let artist = store.run(ArtistService::new().get_artist("beatles")).expect("an artist");
    assert_eq!(artist.metadata.name, "The Beatles");
    let release = store.run(ReleaseService::new().get_release("Abbey")).expect("a release");
    assert_eq!(release.metadata.title, "Abbey Road");
    assert_eq!(release.metadata.artist, Some("The Beatles".to_string()));
    assert!(store.run(ArtistService::new().get_artist("Stones")).is_err());
}

#[test]
fn sqlite_refuses_the_same_track_twice() {
    let store = Store::open();
    store.create_track("T1", "R", "A");
    store.create_track("T2", "R", "A");
    let releases = store.all_releases()[0].metadata.tracks.clone();
    let artists = store.all_artists()[0].metadata.releases.clone();
    let again = store.run(TrackService::new().create_track(track("T2", "R", "A")));
    match again {
        Err(TrackServiceError::Internal(detail)) => {
            assert!(detail.starts_with("unable to create item: "), "{}", detail);
        }
        other => panic!("unexpected outcome {:?}", other),
    }
    assert_eq!(store.all_tracks().len(), 2);
    assert_eq!(store.all_releases().len(), 1);
    assert_eq!(store.all_artists().len(), 1);
    assert_eq!(store.all_releases()[0].metadata.tracks, releases);
    assert_eq!(store.all_artists()[0].metadata.releases, artists);
}

#[test]
fn sqlite_takes_the_same_title_of_another_release() {
    let store = Store::open();
    store.create_track("T", "R1", "A");
    store.create_track("T", "R2", "A");
    assert_eq!(store.all_tracks().len(), 2);
}

#[test]
fn sqlite_holds_two_tracks_of_one_release_as_one_release_and_one_artist() {
    let store = Store::open();
    store.create_track("T1", "R", "A");
    store.create_track("T2", "R", "A");
    let artists = store.all_artists();
    let releases = store.all_releases();
    assert_eq!(artists.len(), 1);
    assert_eq!(artists[0].metadata.name, "A");
    assert_eq!(artists[0].metadata.releases, vec!["R".to_string()]);
    assert_eq!(releases.len(), 1);
    assert_eq!(releases[0].metadata.title, "R");
    assert_eq!(releases[0].metadata.artist, Some("A".to_string()));
    assert_eq!(releases[0].metadata.tracks, vec!["T1".to_string(), "T2".to_string()]);
    assert_eq!(store.all_tracks().len(), 2);
}

#[test]
fn sqlite_marks_a_track_as_favorite_by_hand() {
    let store = Store::open();
    let item = store.create_track("T", "R", "A");
    let (task, _) = TrackService::new().favorite_track("T");
    let progress = task.resume(Response::Tracks(Ok(vec![item.clone()])));
    let (task, request) = match progress {
        Progress::Pending(task, request) => (task, request),
        Progress::Done(_) => panic!("the track was found"),
    };
    let marked = match task.resume(store.serve(request)) {
        Progress::Done(Ok(marked)) => marked,
        other => panic!("unexpected progress {:?}", other),
    };
    assert!(marked.favorite);
    assert!(store.read_track(item.id).expect("the row is there").favorite);
}
