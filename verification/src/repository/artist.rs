//! The repository of artists.

use vstd::prelude::*;
use crate::model::{copy_text, CatalogItem};
use crate::repository::{
    create_table, create_table_sql, delete, insert, optional_condition, push_condition, select,
    select_by_id, update, Field, Filter, Operator, Predicate, PredicateView, Repository, Statement,
    StatementView,
};

verus! {

/// Which artists a search is after: those whose name contains `name`, and
/// whose tracks field is `track`.
#[derive(Debug)]
pub struct ArtistFilter {
    pub name: Option<String>,
    pub track: Option<String>,
}

/// What an [`ArtistFilter`] holds, as mathematical values.
pub struct ArtistFilterView {
    pub name: Option<Seq<char>>,
    pub track: Option<Seq<char>>,
}

impl View for ArtistFilter {
    type V = ArtistFilterView;

    open spec fn view(&self) -> ArtistFilterView {
        ArtistFilterView {
            name: self.name.deep_view(),
            track: self.track.deep_view(),
        }
    }
}

impl DeepView for ArtistFilter {
    type V = ArtistFilterView;

    open spec fn deep_view(&self) -> ArtistFilterView {
        self@
    }
}

impl Default for ArtistFilter {
    /// The filter with no field set, which every entry meets.
    fn default() -> (filter: Self)
        ensures
            filter@ == (ArtistFilterView { name: None, track: None }),
    {
        ArtistFilter { name: None, track: None }
    }
}

impl Clone for ArtistFilter {
    fn clone(&self) -> (copy: Self)
        ensures
            copy@ == self@,
    {
        ArtistFilter {
            name: copy_text(&self.name),
            track: copy_text(&self.track),
        }
    }
}

impl ArtistFilterView {
    /// The predicates of the fields that are set, in the order in which a
    /// statement names them.
    pub open spec fn conditions(self) -> Seq<PredicateView> {
        optional_condition(Field::Name, Operator::Like, self.name)
            + optional_condition(Field::Tracks, Operator::Equals, self.track)
    }
}

impl Filter for ArtistFilter {
    open spec fn conditions(&self) -> Seq<PredicateView> {
        self@.conditions()
    }

    fn predicates(&self) -> (list: Vec<Predicate>) {
        let mut list: Vec<Predicate> = Vec::new();
        assert(list.deep_view() =~= Seq::empty());
        push_condition(&mut list, Field::Name, Operator::Like, &self.name);
        push_condition(&mut list, Field::Tracks, Operator::Equals, &self.track);
        assert(list.deep_view() =~= self.conditions());
        list
    }
}

/// The repository of artists: it writes the statements that act on the table
/// `artists`.
#[derive(Debug, Clone, Copy)]
pub struct ArtistRepository {}

impl ArtistRepository {
    /// The repository of artists.
    pub fn new() -> (repository: Self) {
        ArtistRepository { }
    }
}

impl Repository for ArtistRepository {
    type Filter = ArtistFilter;

    open spec fn table() -> Seq<char> {
        "artists"@
    }

    fn table_name(&self) -> (name: &'static str) {
        "artists"
    }

    fn setup(&self) -> (statements: Vec<Statement>)
        ensures
            statements.deep_view() == seq![
                StatementView { sql: create_table_sql(Self::table()), params: Seq::empty() },
            ],
    {
        let mut statements: Vec<Statement> = Vec::new();
        statements.push(create_table("artists"));
        assert(statements.deep_view() =~= seq![
            StatementView { sql: create_table_sql(Self::table()), params: Seq::empty() },
        ]);
        statements
    }

    fn create(&self, document: String) -> (statement: Statement) {
        insert("artists", document)
    }

    fn read(&self, id: i64) -> (statement: Statement) {
        select_by_id("artists", id)
    }

    fn update(&self, item: CatalogItem<String>) -> (statement: Statement) {
        update("artists", item.id, item.favorite, item.metadata)
    }

    fn delete(&self, id: i64) -> (statement: Statement) {
        delete("artists", id)
    }

    fn find(&self, filter: &ArtistFilter) -> (statement: Statement) {
        let predicates = filter.predicates();
        select("artists", &predicates)
    }
}

} // verus!
