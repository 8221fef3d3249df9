//! The repository of releases.

use vstd::prelude::*;
use crate::model::{copy_text, CatalogItem};
use crate::repository::{
    create_table, create_table_sql, delete, insert, optional_condition, push_condition, select,
    select_by_id, update, Field, Filter, Operator, Predicate, PredicateView, Repository, Statement,
    StatementView,
};

verus! {

/// Which releases a search is after: those whose title contains `title`, and
/// whose artist contains `artist`.
#[derive(Debug)]
pub struct ReleaseFilter {
    pub title: Option<String>,
    pub artist: Option<String>,
}

/// What a [`ReleaseFilter`] holds, as mathematical values.
pub struct ReleaseFilterView {
    pub title: Option<Seq<char>>,
    pub artist: Option<Seq<char>>,
}

impl View for ReleaseFilter {
    type V = ReleaseFilterView;

    open spec fn view(&self) -> ReleaseFilterView {
        ReleaseFilterView {
            title: self.title.deep_view(),
            artist: self.artist.deep_view(),
        }
    }
}

impl DeepView for ReleaseFilter {
    type V = ReleaseFilterView;

    open spec fn deep_view(&self) -> ReleaseFilterView {
        self@
    }
}

impl Default for ReleaseFilter {
    /// The filter with no field set, which every entry meets.
    fn default() -> (filter: Self)
        ensures
            filter@ == (ReleaseFilterView { title: None, artist: None }),
    {
        ReleaseFilter { title: None, artist: None }
    }
}

impl Clone for ReleaseFilter {
    fn clone(&self) -> (copy: Self)
        ensures
            copy@ == self@,
    {
        ReleaseFilter {
            title: copy_text(&self.title),
            artist: copy_text(&self.artist),
        }
    }
}

impl ReleaseFilterView {
    /// The predicates of the fields that are set, in the order in which a
    /// statement names them.
    pub open spec fn conditions(self) -> Seq<PredicateView> {
        optional_condition(Field::Title, Operator::Like, self.title)
            + optional_condition(Field::Artist, Operator::Like, self.artist)
    }
}

impl Filter for ReleaseFilter {
    open spec fn conditions(&self) -> Seq<PredicateView> {
        self@.conditions()
    }

    fn predicates(&self) -> (list: Vec<Predicate>) {
        let mut list: Vec<Predicate> = Vec::new();
        assert(list.deep_view() =~= Seq::empty());
        push_condition(&mut list, Field::Title, Operator::Like, &self.title);
        push_condition(&mut list, Field::Artist, Operator::Like, &self.artist);
        assert(list.deep_view() =~= self.conditions());
        list
    }
}

/// The repository of releases: it writes the statements that act on the table
/// `releases`.
#[derive(Debug, Clone, Copy)]
pub struct ReleaseRepository {}

impl ReleaseRepository {
    /// The repository of releases.
    pub fn new() -> (repository: Self) {
        ReleaseRepository { }
    }
}

impl Repository for ReleaseRepository {
    type Filter = ReleaseFilter;

    open spec fn table() -> Seq<char> {
        "releases"@
    }

    fn table_name(&self) -> (name: &'static str) {
        "releases"
    }

    fn setup(&self) -> (statements: Vec<Statement>)
        ensures
            statements.deep_view() == seq![
                StatementView { sql: create_table_sql(Self::table()), params: Seq::empty() },
            ],
    {
        let mut statements: Vec<Statement> = Vec::new();
        statements.push(create_table("releases"));
        assert(statements.deep_view() =~= seq![
            StatementView { sql: create_table_sql(Self::table()), params: Seq::empty() },
        ]);
        statements
    }

    fn create(&self, document: String) -> (statement: Statement) {
        insert("releases", document)
    }

    fn read(&self, id: i64) -> (statement: Statement) {
        select_by_id("releases", id)
    }

    fn update(&self, item: CatalogItem<String>) -> (statement: Statement) {
        update("releases", item.id, item.favorite, item.metadata)
    }

    fn delete(&self, id: i64) -> (statement: Statement) {
        delete("releases", id)
    }

    fn find(&self, filter: &ReleaseFilter) -> (statement: Statement) {
        let predicates = filter.predicates();
        select("releases", &predicates)
    }
}

} // verus!
