use catalog::model::CatalogItem;
use catalog::repository::artist::{ArtistFilter, ArtistRepository};
use catalog::repository::release::{ReleaseFilter, ReleaseRepository};
use catalog::repository::track::{TrackFilter, TrackRepository};
use catalog::repository::{
    select, Field, Filter, Operation, Operator, Predicate, Repository, RepositoryError, Statement,
    Value,
};

fn texts(statement: &Statement) -> Vec<String> {
    statement
        .params
        .iter()
        .map(|value| match value {
            Value::Text(text) => text.clone(),
            Value::Integer(number) => format!("#{}", number),
            Value::Boolean(flag) => format!("?{}", flag),
        })
        .collect()
}

const TABLE: &str =
    " (id INTEGER PRIMARY KEY, favorite BOOLEAN NOT NULL DEFAULT FALSE, metadata TEXT NOT NULL)";

#[test]
fn setup_makes_the_table_once() {
    let statements = ArtistRepository::new().setup();
    assert_eq!(statements.len(), 1);
    assert_eq!(statements[0].sql, format!("CREATE TABLE IF NOT EXISTS artists{}", TABLE));
    assert!(statements[0].params.is_empty());
    let statements = ReleaseRepository::new().setup();
    assert_eq!(statements.len(), 1);
    assert_eq!(statements[0].sql, format!("CREATE TABLE IF NOT EXISTS releases{}", TABLE));
}

#[test]
fn setup_of_tracks_makes_the_uniqueness_index_too() {
    let statements = TrackRepository::new().setup();
    assert_eq!(statements.len(), 2);
    assert_eq!(statements[0].sql, format!("CREATE TABLE IF NOT EXISTS tracks{}", TABLE));
    assert_eq!(
        statements[1].sql,
        "CREATE UNIQUE INDEX IF NOT EXISTS idx_tracks_unique ON tracks((metadata->>'title'), (metadata->>'artist'), (metadata->>'release'))"
    );
    assert!(statements[1].params.is_empty());
}

#[test]
fn table_names() {
    assert_eq!(ArtistRepository::new().table_name(), "artists");
    assert_eq!(ReleaseRepository::new().table_name(), "releases");
    assert_eq!(TrackRepository::new().table_name(), "tracks");
}

#[test]
fn create_binds_the_document() {
    let statement = ArtistRepository::new().create("{\"name\":\"A\"}".to_string());
    assert_eq!(
        statement.sql,
        "INSERT INTO artists (metadata) VALUES ($1) RETURNING id, favorite, metadata"
    );
    assert_eq!(texts(&statement), vec!["{\"name\":\"A\"}".to_string()]);
}

#[test]
fn read_binds_the_identity() {
    let statement = ReleaseRepository::new().read(42);
    assert_eq!(statement.sql, "SELECT id, favorite, metadata FROM releases WHERE id = $1");
    assert_eq!(texts(&statement), vec!["#42".to_string()]);
}

#[test]
fn update_binds_document_favorite_and_identity_in_that_order() {
    let item = CatalogItem { id: 5, favorite: true, metadata: "{}".to_string() };
    let statement = TrackRepository::new().update(item);
    assert_eq!(statement.sql, "UPDATE tracks SET metadata = $1, favorite = $2 WHERE id = $3");
    assert_eq!(texts(&statement), vec!["{}".to_string(), "?true".to_string(), "#5".to_string()]);
}

#[test]
fn delete_binds_the_identity() {
    let statement = TrackRepository::new().delete(-3);
    assert_eq!(statement.sql, "DELETE FROM tracks WHERE id = $1");
    assert_eq!(texts(&statement), vec!["#-3".to_string()]);
}

#[test]
fn an_unset_filter_has_no_where_clause() {
    let statement = ArtistRepository::new().find(&ArtistFilter::default());
    assert_eq!(statement.sql, "SELECT id, favorite, metadata FROM artists");
    assert!(statement.params.is_empty());
    let statement = ReleaseRepository::new().find(&ReleaseFilter::default());
    assert_eq!(statement.sql, "SELECT id, favorite, metadata FROM releases");
    assert!(statement.params.is_empty());
    let statement = TrackRepository::new().find(&TrackFilter::default());
    assert_eq!(statement.sql, "SELECT id, favorite, metadata FROM tracks");
    assert!(statement.params.is_empty());
}

#[test]
fn an_unset_filter_has_no_predicates() {
    assert!(ArtistFilter::default().predicates().is_empty());
    assert!(ReleaseFilter::default().predicates().is_empty());
    assert!(TrackFilter::default().predicates().is_empty());
}

#[test]
fn filtering_tracks_by_artist_is_a_containment_test() {
    let filter = TrackFilter { name: None, release: None, artist: Some("A".to_string()) };
    let statement = TrackRepository::new().find(&filter);
    assert_eq!(
        statement.sql,
        "SELECT id, favorite, metadata FROM tracks WHERE metadata->>'artist' LIKE ?"
    );
    assert_eq!(texts(&statement), vec!["%A%".to_string()]);
}

#[test]
fn every_set_field_of_a_track_filter_is_a_condition() {
    let filter = TrackFilter {
        name: Some("n".to_string()),
        release: Some("r".to_string()),
        artist: Some("a".to_string()),
    };
    let statement = TrackRepository::new().find(&filter);
    assert_eq!(
        statement.sql,
        "SELECT id, favorite, metadata FROM tracks WHERE metadata->>'title' LIKE ? AND metadata->>'artist' LIKE ? AND metadata->>'release' LIKE ?"
    );
    assert_eq!(texts(&statement), vec!["%n%".to_string(), "%a%".to_string(), "%r%".to_string()]);
}

#[test]
fn an_unset_field_between_set_fields_is_left_out() {
    let filter = TrackFilter {
        name: Some("n".to_string()),
        release: Some("r".to_string()),
        artist: None,
    };
    let statement = TrackRepository::new().find(&filter);
    assert_eq!(
        statement.sql,
        "SELECT id, favorite, metadata FROM tracks WHERE metadata->>'title' LIKE ? AND metadata->>'release' LIKE ?"
    );
    assert_eq!(texts(&statement), vec!["%n%".to_string(), "%r%".to_string()]);
}

#[test]
fn the_name_of_a_track_filter_is_matched_against_the_title() {
    let filter = TrackFilter { name: Some("Come".to_string()), release: None, artist: None };
    let predicates = filter.predicates();
    assert_eq!(predicates.len(), 1);
    assert_eq!(predicates[0].field, Field::Title);
    assert_eq!(predicates[0].operator, Operator::Like);
    assert_eq!(predicates[0].value, "Come");
    let statement = TrackRepository::new().find(&filter);
    assert_eq!(
        statement.sql,
        "SELECT id, favorite, metadata FROM tracks WHERE metadata->>'title' LIKE ?"
    );
    assert_eq!(texts(&statement), vec!["%Come%".to_string()]);
}

#[test]
fn release_filter_conditions() {
    let filter = ReleaseFilter { title: Some("Abbey".to_string()), artist: None };
    let statement = ReleaseRepository::new().find(&filter);
    assert_eq!(
        statement.sql,
        "SELECT id, favorite, metadata FROM releases WHERE metadata->>'title' LIKE ?"
    );
    assert_eq!(texts(&statement), vec!["%Abbey%".to_string()]);
    let filter = ReleaseFilter { title: Some("t".to_string()), artist: Some("a".to_string()) };
    let statement = ReleaseRepository::new().find(&filter);
    assert_eq!(
        statement.sql,
        "SELECT id, favorite, metadata FROM releases WHERE metadata->>'title' LIKE ? AND metadata->>'artist' LIKE ?"
    );
    assert_eq!(texts(&statement), vec!["%t%".to_string(), "%a%".to_string()]);
}

#[test]
fn artist_filter_conditions() {
    let filter = ArtistFilter { name: Some("Beatles".to_string()), track: Some("12".to_string()) };
    let predicates = filter.predicates();
    assert_eq!(predicates.len(), 2);
    assert_eq!(predicates[0].field, Field::Name);
    assert_eq!(predicates[0].operator, Operator::Like);
    assert_eq!(predicates[0].value, "Beatles");
    assert_eq!(predicates[1].field, Field::Tracks);
    assert_eq!(predicates[1].operator, Operator::Equals);
    assert_eq!(predicates[1].value, "12");
    let statement = ArtistRepository::new().find(&filter);
    assert_eq!(
        statement.sql,
        "SELECT id, favorite, metadata FROM artists WHERE metadata->>'name' LIKE ? AND metadata->>'tracks' = ?"
    );
    assert_eq!(texts(&statement), vec!["%Beatles%".to_string(), "12".to_string()]);
}

#[test]
fn a_set_but_empty_field_is_a_condition() {
    let filter = ArtistFilter { name: Some(String::new()), track: None };
    let statement = ArtistRepository::new().find(&filter);
    assert_eq!(
        statement.sql,
        "SELECT id, favorite, metadata FROM artists WHERE metadata->>'name' LIKE ?"
    );
    assert_eq!(texts(&statement), vec!["%%".to_string()]);
}

#[test]
fn select_keeps_the_order_of_its_predicates() {
    let predicates = vec![
        Predicate { field: Field::Release, operator: Operator::Equals, value: "x".to_string() },
        Predicate { field: Field::Title, operator: Operator::Like, value: "y".to_string() },
        Predicate { field: Field::Artist, operator: Operator::Like, value: "z".to_string() },
    ];
    let statement = select("anything", &predicates);
    assert_eq!(
        statement.sql,
        "SELECT id, favorite, metadata FROM anything WHERE metadata->>'release' = ? AND metadata->>'title' LIKE ? AND metadata->>'artist' LIKE ?"
    );
    assert_eq!(texts(&statement), vec!["x".to_string(), "%y%".to_string(), "%z%".to_string()]);
}

#[test]
fn field_keys() {
    assert_eq!(Field::Name.key(), "name");
    assert_eq!(Field::Title.key(), "title");
    assert_eq!(Field::Artist.key(), "artist");
    assert_eq!(Field::Release.key(), "release");
    assert_eq!(Field::Tracks.key(), "tracks");
}

#[test]
fn failures_are_told_apart_by_operation() {
    let told = |operation| RepositoryError::of_failure(operation, "why".to_string());
    assert!(matches!(told(Operation::Setup), RepositoryError::Setup));
    assert!(matches!(told(Operation::Create), RepositoryError::ItemCreate(detail) if detail == "why"));
    assert!(matches!(told(Operation::Update), RepositoryError::ItemCreate(detail) if detail == "why"));
    assert!(matches!(told(Operation::Delete), RepositoryError::ItemCreate(detail) if detail == "why"));
    assert!(matches!(told(Operation::Read), RepositoryError::ItemRead(detail) if detail == "why"));
    assert!(matches!(told(Operation::Find), RepositoryError::ItemRead(detail) if detail == "why"));
}

#[test]
fn repository_errors_in_words() {
    assert_eq!(RepositoryError::Setup.message(), "unable to setup repository");
    assert_eq!(
        RepositoryError::ItemCreate("UNIQUE constraint failed".to_string()).message(),
        "unable to create item: UNIQUE constraint failed"
    );
    assert_eq!(
        RepositoryError::ItemRead("no rows".to_string()).message(),
        "unable to read item: no rows"
    );
}

#[test]
fn filters_are_copied_field_by_field() {
    let filter = TrackFilter {
        name: Some("n".to_string()),
        release: None,
        artist: Some("a".to_string()),
    };
    let copy = filter.clone();
    assert_eq!(copy.name, Some("n".to_string()));
    assert_eq!(copy.release, None);
    assert_eq!(copy.artist, Some("a".to_string()));
}
