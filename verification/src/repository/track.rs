//! The repository of tracks.

use vstd::prelude::*;
use crate::model::{copy_text, CatalogItem};
use crate::repository::{
    create_table, create_table_sql, create_unique_index, delete, insert, optional_condition,
    push_condition, select, select_by_id, unique_index_sql, update, Field, Filter, Operator,
    Predicate, PredicateView, Repository, Statement, StatementView,
};

verus! {

/// Which tracks a search is after: those whose title contains `name`, whose
/// artist contains `artist`, and whose release contains `release`.
#[derive(Debug)]
pub struct TrackFilter {
    pub name: Option<String>,
    pub release: Option<String>,
    pub artist: Option<String>,
}

/// What a [`TrackFilter`] holds, as mathematical values.
pub struct TrackFilterView {
    pub name: Option<Seq<char>>,
    pub release: Option<Seq<char>>,
    pub artist: Option<Seq<char>>,
}

impl View for TrackFilter {
    type V = TrackFilterView;

    open spec fn view(&self) -> TrackFilterView {
        TrackFilterView {
            name: self.name.deep_view(),
            release: self.release.deep_view(),
            artist: self.artist.deep_view(),
        }
    }
}

impl DeepView for TrackFilter {
    type V = TrackFilterView;

    open spec fn deep_view(&self) -> TrackFilterView {
        self@
    }
}

impl Default for TrackFilter {
    /// The filter with no field set, which every entry meets.
    fn default() -> (filter: Self)
        ensures
            filter@ == (TrackFilterView { name: None, release: None, artist: None }),
    {
        TrackFilter { name: None, release: None, artist: None }
    }
}

impl Clone for TrackFilter {
    fn clone(&self) -> (copy: Self)
        ensures
            copy@ == self@,
    {
        TrackFilter {
            name: copy_text(&self.name),
            release: copy_text(&self.release),
            artist: copy_text(&self.artist),
        }
    }
}

impl TrackFilterView {
    /// The predicates of the fields that are set, in the order in which a
    /// statement names them.
    pub open spec fn conditions(self) -> Seq<PredicateView> {
        optional_condition(Field::Title, Operator::Like, self.name)
            + optional_condition(Field::Artist, Operator::Like, self.artist)
            + optional_condition(Field::Release, Operator::Like, self.release)
    }
}

impl Filter for TrackFilter {
    open spec fn conditions(&self) -> Seq<PredicateView> {
        self@.conditions()
    }

    fn predicates(&self) -> (list: Vec<Predicate>) {
        let mut list: Vec<Predicate> = Vec::new();
        assert(list.deep_view() =~= Seq::empty());
        push_condition(&mut list, Field::Title, Operator::Like, &self.name);
        push_condition(&mut list, Field::Artist, Operator::Like, &self.artist);
        push_condition(&mut list, Field::Release, Operator::Like, &self.release);
        assert(list.deep_view() =~= self.conditions());
        list
    }
}

/// The repository of tracks: it writes the statements that act on the table
/// `tracks`.
#[derive(Debug, Clone, Copy)]
pub struct TrackRepository {}

impl TrackRepository {
    /// The repository of tracks.
    pub fn new() -> (repository: Self) {
        TrackRepository { }
    }
}

impl Repository for TrackRepository {
    type Filter = TrackFilter;

    open spec fn table() -> Seq<char> {
        "tracks"@
    }

    fn table_name(&self) -> (name: &'static str) {
        "tracks"
    }

    fn setup(&self) -> (statements: Vec<Statement>)
        ensures
            statements.deep_view() == seq![
                StatementView { sql: create_table_sql(Self::table()), params: Seq::empty() },
                StatementView { sql: unique_index_sql(Self::table()), params: Seq::empty() },
            ],
    {
        let mut statements: Vec<Statement> = Vec::new();
        statements.push(create_table("tracks"));
        statements.push(create_unique_index("tracks"));
        assert(statements.deep_view() =~= seq![
            StatementView { sql: create_table_sql(Self::table()), params: Seq::empty() },
            StatementView { sql: unique_index_sql(Self::table()), params: Seq::empty() },
        ]);
        statements
    }

    fn create(&self, document: String) -> (statement: Statement) {
        insert("tracks", document)
    }

    fn read(&self, id: i64) -> (statement: Statement) {
        select_by_id("tracks", id)
    }

    fn update(&self, item: CatalogItem<String>) -> (statement: Statement) {
        update("tracks", item.id, item.favorite, item.metadata)
    }

    fn delete(&self, id: i64) -> (statement: Statement) {
        delete("tracks", id)
    }

    fn find(&self, filter: &TrackFilter) -> (statement: Statement) {
        let predicates = filter.predicates();
        select("tracks", &predicates)
    }
}

} // verus!
