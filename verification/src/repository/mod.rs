//! Persistence in a relational store: every table holds an identity, a
//! favorite mark and one document per row, and every operation on it is a
//! statement with positional parameters. This module writes the statements;
//! running them is left to whoever holds the connection.

use vstd::prelude::*;
use vstd::string::*;
use crate::model::CatalogItem;

pub mod artist;
pub mod release;
pub mod track;

verus! {

/// The operations that every repository offers.
#[derive(Debug, Clone, Copy, PartialEq, Eq, Structural)]
pub enum Operation {
    Setup,
    Create,
    Read,
    Update,
    Delete,
    Find,
}

/// Why an operation on a repository failed.
#[derive(Debug)]
pub enum RepositoryError {
    /// The table or one of its indexes could not be made.
    Setup,
    /// An entry could not be written; the text says why.
    ItemCreate(String),
    /// An entry could not be read; the text says why.
    ItemRead(String),
}

/// What a [`RepositoryError`] holds, as mathematical values.
pub enum RepositoryErrorView {
    Setup,
    ItemCreate(Seq<char>),
    ItemRead(Seq<char>),
}

impl View for RepositoryError {
    type V = RepositoryErrorView;

    open spec fn view(&self) -> RepositoryErrorView {
        match self {
            RepositoryError::Setup => RepositoryErrorView::Setup,
            RepositoryError::ItemCreate(detail) => RepositoryErrorView::ItemCreate(detail@),
            RepositoryError::ItemRead(detail) => RepositoryErrorView::ItemRead(detail@),
        }
    }
}

impl DeepView for RepositoryError {
    type V = RepositoryErrorView;

    open spec fn deep_view(&self) -> RepositoryErrorView {
        self@
    }
}

impl RepositoryErrorView {
    /// The error that a failure of `operation` is reported as: a failed setup
    /// as such, a failed read or search as a read failure, and every failed
    /// write as a create failure.
    pub open spec fn of_failure(operation: Operation, detail: Seq<char>) -> RepositoryErrorView {
        match operation {
            Operation::Setup => RepositoryErrorView::Setup,
            Operation::Read | Operation::Find => RepositoryErrorView::ItemRead(detail),
            Operation::Create | Operation::Update | Operation::Delete => {
                RepositoryErrorView::ItemCreate(detail)
            },
        }
    }

    /// The error in words.
    pub open spec fn message(self) -> Seq<char> {
        match self {
            RepositoryErrorView::Setup => "unable to setup repository"@,
            RepositoryErrorView::ItemCreate(detail) => "unable to create item: "@ + detail,
            RepositoryErrorView::ItemRead(detail) => "unable to read item: "@ + detail,
        }
    }
}

impl RepositoryError {
    /// The error to report when `operation` failed and the store said
    /// `detail` about it.
    pub fn of_failure(operation: Operation, detail: String) -> (error: RepositoryError)
        ensures
            error@ == RepositoryErrorView::of_failure(operation, detail@),
    {
        match operation {
            Operation::Setup => RepositoryError::Setup,
            Operation::Read | Operation::Find => RepositoryError::ItemRead(detail),
            Operation::Create | Operation::Update | Operation::Delete => {
                RepositoryError::ItemCreate(detail)
            },
        }
    }

    /// The error in words.
    pub fn message(&self) -> (text: String)
        ensures
            text@ == self@.message(),
    {
        match self {
            RepositoryError::Setup => String::from_str("unable to setup repository"),
            RepositoryError::ItemCreate(detail) => {
                String::from_str("unable to create item: ").concat(detail.as_str())
            },
            RepositoryError::ItemRead(detail) => {
                String::from_str("unable to read item: ").concat(detail.as_str())
            },
        }
    }
}

impl Clone for RepositoryError {
    fn clone(&self) -> (copy: Self)
        ensures
            copy@ == self@,
    {
        match self {
            RepositoryError::Setup => RepositoryError::Setup,
            RepositoryError::ItemCreate(detail) => RepositoryError::ItemCreate(detail.clone()),
            RepositoryError::ItemRead(detail) => RepositoryError::ItemRead(detail.clone()),
        }
    }
}

/// A value bound to one placeholder of a statement.
#[derive(Debug)]
pub enum Value {
    Text(String),
    Integer(i64),
    Boolean(bool),
}

/// What a [`Value`] holds, as mathematical values.
pub enum ValueView {
    Text(Seq<char>),
    Integer(i64),
    Boolean(bool),
}

impl View for Value {
    type V = ValueView;

    open spec fn view(&self) -> ValueView {
        match self {
            Value::Text(text) => ValueView::Text(text@),
            Value::Integer(number) => ValueView::Integer(*number),
            Value::Boolean(flag) => ValueView::Boolean(*flag),
        }
    }
}

impl DeepView for Value {
    type V = ValueView;

    open spec fn deep_view(&self) -> ValueView {
        self@
    }
}

/// A statement for the store: its text, and the values for its placeholders
/// in the order in which the text names them.
#[derive(Debug)]
pub struct Statement {
    pub sql: String,
    pub params: Vec<Value>,
}

/// What a [`Statement`] holds, as mathematical values.
pub struct StatementView {
    pub sql: Seq<char>,
    pub params: Seq<ValueView>,
}

impl View for Statement {
    type V = StatementView;

    open spec fn view(&self) -> StatementView {
        StatementView { sql: self.sql@, params: self.params.deep_view() }
    }
}

impl DeepView for Statement {
    type V = StatementView;

    open spec fn deep_view(&self) -> StatementView {
        self@
    }
}

/// The fields of a document that a search can address.
#[derive(Debug, Clone, Copy, PartialEq, Eq, Structural)]
pub enum Field {
    Name,
    Title,
    Artist,
    Release,
    Tracks,
}

impl Field {
    /// The field's key in the document.
    pub open spec fn path(self) -> Seq<char> {
        match self {
            Field::Name => "name"@,
            Field::Title => "title"@,
            Field::Artist => "artist"@,
            Field::Release => "release"@,
            Field::Tracks => "tracks"@,
        }
    }

    /// The field's key in the document.
    pub fn key(&self) -> (key: &'static str)
        ensures
            key@ == self.path(),
    {
        match self {
            Field::Name => "name",
            Field::Title => "title",
            Field::Artist => "artist",
            Field::Release => "release",
            Field::Tracks => "tracks",
        }
    }
}

/// How a predicate compares a field with its value.
#[derive(Debug, Clone, Copy, PartialEq, Eq, Structural)]
pub enum Operator {
    /// The field's text contains the value.
    Like,
    /// The field's text is the value.
    Equals,
}

/// One condition of a search: a field, how it is compared, and with what.
#[derive(Debug)]
pub struct Predicate {
    pub field: Field,
    pub operator: Operator,
    pub value: String,
}

/// What a [`Predicate`] holds, as mathematical values.
pub struct PredicateView {
    pub field: Field,
    pub operator: Operator,
    pub value: Seq<char>,
}

impl View for Predicate {
    type V = PredicateView;

    open spec fn view(&self) -> PredicateView {
        PredicateView { field: self.field, operator: self.operator, value: self.value@ }
    }
}

impl DeepView for Predicate {
    type V = PredicateView;

    open spec fn deep_view(&self) -> PredicateView {
        self@
    }
}

impl PredicateView {
    /// The predicate as a condition of a statement, with one placeholder.
    pub open spec fn condition(self) -> Seq<char> {
        match self.operator {
            Operator::Like => "metadata->>'"@ + self.field.path() + "' LIKE ?"@,
            Operator::Equals => "metadata->>'"@ + self.field.path() + "' = ?"@,
        }
    }

    /// The value for the condition's placeholder: the pattern `%value%` for a
    /// containment test, the value itself for an equality test.
    pub open spec fn bound(self) -> ValueView {
        match self.operator {
            Operator::Like => ValueView::Text("%"@ + self.value + "%"@),
            Operator::Equals => ValueView::Text(self.value),
        }
    }
}

/// The conditions of `predicates` in their order, joined by `AND`; empty where
/// there is no predicate.
pub open spec fn conjunction(predicates: Seq<PredicateView>) -> Seq<char>
    decreases predicates.len(),
{
    if predicates.len() == 0 {
        Seq::empty()
    } else if predicates.len() == 1 {
        predicates[0].condition()
    } else {
        conjunction(predicates.drop_last()) + " AND "@ + predicates.last().condition()
    }
}

/// The values for the placeholders of [`conjunction`], in the same order.
pub open spec fn bindings(predicates: Seq<PredicateView>) -> Seq<ValueView> {
    Seq::new(predicates.len(), |i: int| predicates[i].bound())
}

/// The statement that makes `table` unless it exists already.
pub open spec fn create_table_sql(table: Seq<char>) -> Seq<char> {
    "CREATE TABLE IF NOT EXISTS "@ + table
        + " (id INTEGER PRIMARY KEY, favorite BOOLEAN NOT NULL DEFAULT FALSE, metadata TEXT NOT NULL)"@
}

/// The statement that makes, unless it exists already, the index under which
/// no two documents of `table` agree in title, artist and release.
pub open spec fn unique_index_sql(table: Seq<char>) -> Seq<char> {
    "CREATE UNIQUE INDEX IF NOT EXISTS idx_"@ + table + "_unique ON "@ + table
        + "((metadata->>'title'), (metadata->>'artist'), (metadata->>'release'))"@
}

/// The statement that adds a row to `table` and hands the row back.
pub open spec fn insert_sql(table: Seq<char>) -> Seq<char> {
    "INSERT INTO "@ + table + " (metadata) VALUES ($1) RETURNING id, favorite, metadata"@
}

/// The statement that reads the row of `table` with a given identity.
pub open spec fn select_by_id_sql(table: Seq<char>) -> Seq<char> {
    "SELECT id, favorite, metadata FROM "@ + table + " WHERE id = $1"@
}

/// The statement that replaces document and favorite mark of one row of
/// `table`.
pub open spec fn update_sql(table: Seq<char>) -> Seq<char> {
    "UPDATE "@ + table + " SET metadata = $1, favorite = $2 WHERE id = $3"@
}

/// The statement that removes one row of `table`.
pub open spec fn delete_sql(table: Seq<char>) -> Seq<char> {
    "DELETE FROM "@ + table + " WHERE id = $1"@
}

/// The statement that reads the rows of `table` that meet every one of
/// `predicates`: without a predicate it has no `WHERE` clause.
pub open spec fn select_sql(table: Seq<char>, predicates: Seq<PredicateView>) -> Seq<char> {
    if predicates.len() == 0 {
        "SELECT id, favorite, metadata FROM "@ + table
    } else {
        "SELECT id, favorite, metadata FROM "@ + table + " WHERE "@ + conjunction(predicates)
    }
}

/// The statement that makes `table` unless it exists already.
pub fn create_table(table: &str) -> (statement: Statement)
    ensures
        statement@ == (StatementView { sql: create_table_sql(table@), params: Seq::empty() }),
{
    let sql = String::from_str("CREATE TABLE IF NOT EXISTS ").concat(table).concat(
        " (id INTEGER PRIMARY KEY, favorite BOOLEAN NOT NULL DEFAULT FALSE, metadata TEXT NOT NULL)",
    );
    let statement = Statement { sql, params: Vec::new() };
    assert(statement.params.deep_view() =~= Seq::empty());
    statement
}

/// The statement that makes the uniqueness index of `table` unless it exists
/// already.
pub fn create_unique_index(table: &str) -> (statement: Statement)
    ensures
        statement@ == (StatementView { sql: unique_index_sql(table@), params: Seq::empty() }),
{
    let sql = String::from_str("CREATE UNIQUE INDEX IF NOT EXISTS idx_").concat(table).concat(
        "_unique ON ",
    ).concat(table).concat(
        "((metadata->>'title'), (metadata->>'artist'), (metadata->>'release'))",
    );
    let statement = Statement { sql, params: Vec::new() };
    assert(statement.params.deep_view() =~= Seq::empty());
    statement
}

/// The statement that adds `document` to `table` as a new row.
pub fn insert(table: &str, document: String) -> (statement: Statement)
    ensures
        statement@ == (StatementView {
            sql: insert_sql(table@),
            params: seq![ValueView::Text(document@)],
        }),
{
    let sql = String::from_str("INSERT INTO ").concat(table).concat(
        " (metadata) VALUES ($1) RETURNING id, favorite, metadata",
    );
    let mut params: Vec<Value> = Vec::new();
    params.push(Value::Text(document));
    let statement = Statement { sql, params };
    assert(statement.params.deep_view() =~= seq![ValueView::Text(document@)]);
    statement
}

/// The statement that reads the row of `table` whose identity is `id`.
pub fn select_by_id(table: &str, id: i64) -> (statement: Statement)
    ensures
        statement@ == (StatementView {
            sql: select_by_id_sql(table@),
            params: seq![ValueView::Integer(id)],
        }),
{
    let sql = String::from_str("SELECT id, favorite, metadata FROM ").concat(table).concat(
        " WHERE id = $1",
    );
    let mut params: Vec<Value> = Vec::new();
    params.push(Value::Integer(id));
    let statement = Statement { sql, params };
    assert(statement.params.deep_view() =~= seq![ValueView::Integer(id)]);
    statement
}

/// The statement that gives the row of `table` whose identity is `id` the
/// document `document` and the favorite mark `favorite`.
pub fn update(table: &str, id: i64, favorite: bool, document: String) -> (statement: Statement)
    ensures
        statement@ == (StatementView {
            sql: update_sql(table@),
            params: seq![
                ValueView::Text(document@),
                ValueView::Boolean(favorite),
                ValueView::Integer(id),
            ],
        }),
{
    let sql = String::from_str("UPDATE ").concat(table).concat(
        " SET metadata = $1, favorite = $2 WHERE id = $3",
    );
    let mut params: Vec<Value> = Vec::new();
    params.push(Value::Text(document));
    params.push(Value::Boolean(favorite));
    params.push(Value::Integer(id));
    let statement = Statement { sql, params };
    assert(statement.params.deep_view() =~= seq![
        ValueView::Text(document@),
        ValueView::Boolean(favorite),
        ValueView::Integer(id),
    ]);
    statement
}

/// The statement that removes the row of `table` whose identity is `id`.
pub fn delete(table: &str, id: i64) -> (statement: Statement)
    ensures
        statement@ == (StatementView {
            sql: delete_sql(table@),
            params: seq![ValueView::Integer(id)],
        }),
{
    let sql = String::from_str("DELETE FROM ").concat(table).concat(" WHERE id = $1");
    let mut params: Vec<Value> = Vec::new();
    params.push(Value::Integer(id));
    let statement = Statement { sql, params };
    assert(statement.params.deep_view() =~= seq![ValueView::Integer(id)]);
    statement
}

/// The statement that reads the rows of `table` that meet every one of
/// `predicates`. Each predicate contributes one condition and one parameter,
/// both in the predicate's place in the list.
pub fn select(table: &str, predicates: &Vec<Predicate>) -> (statement: Statement)
    ensures
        statement@ == (StatementView {
            sql: select_sql(table@, predicates.deep_view()),
            params: bindings(predicates.deep_view()),
        }),
{
    let ghost all = predicates.deep_view();
    let mut sql = String::from_str("SELECT id, favorite, metadata FROM ").concat(table);
    let mut params: Vec<Value> = Vec::new();
    if predicates.len() == 0 {
        assert(params.deep_view() =~= bindings(all));
        return Statement { sql, params };
    }
    sql.append(" WHERE ");
    let ghost head = sql@;
    let mut i: usize = 0;
    while i < predicates.len()
        invariant
            i <= predicates.len(),
            all == predicates.deep_view(),
            sql@ == head + conjunction(all.take(i as int)),
            params.deep_view() == bindings(all.take(i as int)),
        decreases predicates.len() - i,
    {
        let predicate = &predicates[i];
        proof {
            let next = all.take(i + 1);
            assert(next.drop_last() =~= all.take(i as int));
            assert(next.last() == predicate@);
        }
        if i > 0 {
            sql.append(" AND ");
        }
        sql.append("metadata->>'");
        sql.append(predicate.field.key());
        let ghost before = params.deep_view();
        match predicate.operator {
            Operator::Like => {
                sql.append("' LIKE ?");
                let pattern = String::from_str("%").concat(predicate.value.as_str()).concat("%");
                params.push(Value::Text(pattern));
            },
            Operator::Equals => {
                sql.append("' = ?");
                params.push(Value::Text(predicate.value.clone()));
            },
        }
        assert(params.deep_view() =~= before.push(predicate@.bound()));
        assert(params.deep_view() =~= bindings(all.take(i + 1)));
        assert(sql@ =~= head + conjunction(all.take(i + 1)));
        i += 1;
    }
    assert(all.take(i as int) =~= all);
    Statement { sql, params }
}

/// A sparse description of the rows that a search is after: every field that
/// is set contributes one predicate, and a field that is not set contributes
/// none.
pub trait Filter {
    /// The predicates of the fields that are set, in the order of the fields.
    spec fn conditions(&self) -> Seq<PredicateView>;

    /// The predicates of the fields that are set, in the order of the fields.
    fn predicates(&self) -> (list: Vec<Predicate>)
        ensures
            list.deep_view() == self.conditions(),
    ;
}

/// What the catalog asks of the store for one kind of entry. Documents go in
/// and come out in their stored form.
pub trait Repository {
    /// How searches over this kind of entry are described.
    type Filter: Filter;

    /// The name of the table that holds this kind of entry.
    spec fn table() -> Seq<char>;

    /// The name of the table that holds this kind of entry.
    fn table_name(&self) -> (name: &'static str)
        ensures
            name@ == Self::table(),
    ;

    /// The statements that make the table and what supports it, in the order
    /// in which they are to run. Each one is safe to run again.
    fn setup(&self) -> (statements: Vec<Statement>)
        ensures
            statements.len() >= 1,
            statements[0]@ == (StatementView {
                sql: create_table_sql(Self::table()),
                params: Seq::empty(),
            }),
    ;

    /// The statement that stores `document` as a new entry.
    fn create(&self, document: String) -> (statement: Statement)
        ensures
            statement@ == (StatementView {
                sql: insert_sql(Self::table()),
                params: seq![ValueView::Text(document@)],
            }),
    ;

    /// The statement that reads the entry whose identity is `id`.
    fn read(&self, id: i64) -> (statement: Statement)
        ensures
            statement@ == (StatementView {
                sql: select_by_id_sql(Self::table()),
                params: seq![ValueView::Integer(id)],
            }),
    ;

    /// The statement that replaces the document and the favorite mark of the
    /// entry whose identity is `item.id` by those of `item`.
    fn update(&self, item: CatalogItem<String>) -> (statement: Statement)
        ensures
            statement@ == (StatementView {
                sql: update_sql(Self::table()),
                params: seq![
                    ValueView::Text(item.metadata@),
                    ValueView::Boolean(item.favorite),
                    ValueView::Integer(item.id),
                ],
            }),
    ;

    /// The statement that removes the entry whose identity is `id`.
    fn delete(&self, id: i64) -> (statement: Statement)
        ensures
            statement@ == (StatementView {
                sql: delete_sql(Self::table()),
                params: seq![ValueView::Integer(id)],
            }),
    ;

    /// The statement that reads the entries that meet every predicate of
    /// `filter`.
    fn find(&self, filter: &Self::Filter) -> (statement: Statement)
        ensures
            statement@ == (StatementView {
                sql: select_sql(Self::table(), filter.conditions()),
                params: bindings(filter.conditions()),
            }),
    ;
}

/// The predicate of one text field of a filter: none where the field is not
/// set.
pub open spec fn optional_condition(
    field: Field,
    operator: Operator,
    value: Option<Seq<char>>,
) -> Seq<PredicateView> {
    match value {
        Some(value) => seq![PredicateView { field, operator, value }],
        None => Seq::empty(),
    }
}

/// Appends to `list` the predicate of one text field of a filter, if the
/// field is set.
pub fn push_condition(
    list: &mut Vec<Predicate>,
    field: Field,
    operator: Operator,
    value: &Option<String>,
)
    ensures
        final(list).deep_view() == old(list).deep_view() + optional_condition(
            field,
            operator,
            value.deep_view(),
        ),
{
    let ghost before = list.deep_view();
    match value {
        Some(value) => {
            list.push(Predicate { field, operator, value: value.clone() });
            assert(list.deep_view() =~= before + seq![
                PredicateView { field, operator, value: value@ },
            ]);
        },
        None => {
            assert(list.deep_view() =~= before + Seq::empty());
        },
    }
}

/// A search without predicates reads the whole table: its statement has no
/// `WHERE` clause and no parameter.
pub proof fn law_no_predicate_no_condition(table: Seq<char>)
    ensures
        select_sql(table, Seq::empty()) == "SELECT id, favorite, metadata FROM "@ + table,
        bindings(Seq::empty()) == Seq::<ValueView>::empty(),
{
    assert(bindings(Seq::empty()) =~= Seq::<ValueView>::empty());
}

/// Every predicate has one parameter, in the predicate's place: the
/// parameters of a search are as many as its predicates and in their order.
pub proof fn law_parameters_follow_predicates(predicates: Seq<PredicateView>)
    ensures
        bindings(predicates).len() == predicates.len(),
        forall|i: int|
            0 <= i < predicates.len() ==> bindings(predicates)[i] == predicates[i].bound(),
        forall|i: int|
            0 <= i < predicates.len() ==> bindings(predicates.take(i + 1)) == bindings(
                predicates.take(i),
            ).push(predicates[i].bound()),
{
    assert forall|i: int| 0 <= i < predicates.len() implies bindings(predicates.take(i + 1))
        == bindings(predicates.take(i)).push(predicates[i].bound()) by {
        assert(bindings(predicates.take(i + 1)) =~= bindings(predicates.take(i)).push(
            predicates[i].bound(),
        ));
    }
}

/// A field that is not set contributes no predicate, and a field that is set
/// contributes exactly one, with the field's value.
pub proof fn law_unset_field_is_left_out(field: Field, operator: Operator, value: Option<Seq<char>>)
    ensures
        value is None ==> optional_condition(field, operator, value).len() == 0,
        value is Some ==> optional_condition(field, operator, value) == seq![
            PredicateView { field, operator, value: value->0 },
        ],
{
}

} // verus!
