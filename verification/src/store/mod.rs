//! The store as the catalog takes it to be. Nothing here runs: tables, what
//! a search finds and how the store answers a request are written down as
//! mathematics, and what the catalog relies on is proved of them. A store
//! that persists the catalog is expected to behave as this one does.

use vstd::prelude::*;
use crate::model::artist::ArtistView;
use crate::model::release::ReleaseView;
use crate::model::track::TrackView;
use crate::model::CatalogItem;
use crate::repository::artist::ArtistFilterView;
use crate::repository::release::ReleaseFilterView;
use crate::repository::track::TrackFilterView;
use crate::repository::{optional_condition, Field, Operator, PredicateView};

pub mod catalog;
pub mod run;

verus! {

/// A document: what the store keeps of an entry, read by field.
pub trait Document {
    /// The text that the document holds in `field`; none where the document
    /// has no such field, or holds no text in it.
    spec fn text(&self, field: Field) -> Option<Seq<char>>;
}

impl Document for ArtistView {
    open spec fn text(&self, field: Field) -> Option<Seq<char>> {
        match field {
            Field::Name => Some(self.name),
            _ => None,
        }
    }
}

impl Document for ReleaseView {
    open spec fn text(&self, field: Field) -> Option<Seq<char>> {
        match field {
            Field::Title => Some(self.title),
            Field::Artist => self.artist,
            _ => None,
        }
    }
}

impl Document for TrackView {
    open spec fn text(&self, field: Field) -> Option<Seq<char>> {
        match field {
            Field::Title => Some(self.title),
            Field::Artist => self.artist,
            Field::Release => self.release,
            _ => None,
        }
    }
}

/// The letter `c` in lower case where it is one of `A` to `Z`, and `c` itself
/// otherwise.
pub open spec fn fold_case(c: char) -> char {
    if 'A' <= c && c <= 'Z' {
        ((c as u8) + 32) as char
    } else {
        c
    }
}

/// `text` with every letter from `A` to `Z` in lower case.
pub open spec fn folded(text: Seq<char>) -> Seq<char> {
    Seq::new(text.len(), |i: int| fold_case(text[i]))
}

/// `part` occurs in `whole` at offset `at`.
pub open spec fn occurs_at(part: Seq<char>, whole: Seq<char>, at: int) -> bool {
    0 <= at && at + part.len() <= whole.len() && whole.subrange(at, at + part.len()) == part
}

/// `value` holds neither `%` nor `_`, the two characters that the store
/// reads in a pattern as standing for other characters.
pub open spec fn plain(value: Seq<char>) -> bool {
    forall|i: int| 0 <= i < value.len() ==> value[i] != '%' && value[i] != '_'
}

/// `text` contains `value`, a difference between upper and lower case of the
/// letters `A` to `Z` aside.
pub open spec fn like(text: Seq<char>, value: Seq<char>) -> bool {
    exists|at: int| occurs_at(folded(value), folded(text), at)
}

/// `text` matches `pattern` as the store understands patterns: `%` stands
/// for any run of characters, an empty one too, `_` stands for any one
/// character, and every other character stands for itself, the letters `A`
/// to `Z` for their lower case as well.
pub open spec fn matches_pattern(pattern: Seq<char>, text: Seq<char>) -> bool
    decreases pattern.len(), text.len(),
{
    if pattern.len() == 0 {
        text.len() == 0
    } else if pattern[0] == '%' {
        matches_pattern(pattern.drop_first(), text) || (text.len() > 0 && matches_pattern(
            pattern,
            text.drop_first(),
        ))
    } else if text.len() == 0 {
        false
    } else if pattern[0] == '_' {
        matches_pattern(pattern.drop_first(), text.drop_first())
    } else {
        fold_case(pattern[0]) == fold_case(text[0]) && matches_pattern(
            pattern.drop_first(),
            text.drop_first(),
        )
    }
}

/// The pattern that a containment test for `value` binds: the value between
/// two `%`.
pub open spec fn containing(value: Seq<char>) -> Seq<char> {
    "%"@ + value + "%"@
}

/// `document` meets `predicate`: it holds text in the predicate's field, and
/// that text matches the pattern that the predicate binds, or is the
/// predicate's value.
pub open spec fn holds<D: Document>(predicate: PredicateView, document: D) -> bool {
    match document.text(predicate.field) {
        Some(text) => match predicate.operator {
            Operator::Like => matches_pattern(containing(predicate.value), text),
            Operator::Equals => text == predicate.value,
        },
        None => false,
    }
}

/// `document` meets every one of `predicates`.
pub open spec fn meets<D: Document>(predicates: Seq<PredicateView>, document: D) -> bool {
    forall|i: int| 0 <= i < predicates.len() ==> holds(#[trigger] predicates[i], document)
}

/// A table: its rows in the order in which they were added.
pub struct Table<D> {
    pub rows: Seq<CatalogItem<D>>,
}

impl<D> Table<D> {
    /// The table without rows.
    pub open spec fn empty() -> Table<D> {
        Table { rows: Seq::empty() }
    }

    /// A row of the table has the identity `id`.
    pub open spec fn has(self, id: i64) -> bool {
        exists|i: int| 0 <= i < self.rows.len() && (#[trigger] self.rows[i]).id == id
    }

    /// No two rows of the table have the same identity.
    pub open spec fn well_formed(self) -> bool {
        forall|i: int, j: int|
            0 <= i < j < self.rows.len() ==> (#[trigger] self.rows[i]).id != (
            #[trigger] self.rows[j]).id
    }

    /// The highest identity among the rows, and 0 where none is higher.
    pub open spec fn highest(self) -> int
        decreases self.rows.len(),
    {
        if self.rows.len() == 0 {
            0
        } else {
            let rest = (Table { rows: self.rows.drop_last() }).highest();
            if self.rows.last().id > rest {
                self.rows.last().id as int
            } else {
                rest
            }
        }
    }

    /// The store can assign one more identity.
    pub open spec fn has_room(self) -> bool {
        self.highest() < i64::MAX
    }

    /// Adding `document`: the new row comes last, is no favorite, and has an
    /// identity one above the highest so far. The result is the table and the
    /// new row.
    pub open spec fn create(self, document: D) -> (Table<D>, CatalogItem<D>) {
        let row = CatalogItem {
            id: (self.highest() + 1) as i64,
            favorite: false,
            metadata: document,
        };
        (Table { rows: self.rows.push(row) }, row)
    }

    /// The row with the identity `id`, if there is one.
    pub open spec fn read(self, id: i64) -> Option<CatalogItem<D>> {
        if self.has(id) {
            Some(
                self.rows[choose|i: int|
                    0 <= i < self.rows.len() && (#[trigger] self.rows[i]).id == id],
            )
        } else {
            None
        }
    }

    /// Replacing the row that has the identity of `item` by `item`; a table
    /// without such a row stays as it is.
    pub open spec fn update(self, item: CatalogItem<D>) -> Table<D> {
        Table {
            rows: Seq::new(
                self.rows.len(),
                |i: int|
                    if self.rows[i].id == item.id {
                        item
                    } else {
                        self.rows[i]
                    },
            ),
        }
    }

    /// Removing the row with the identity `id`; a table without such a row
    /// stays as it is.
    pub open spec fn delete(self, id: i64) -> Table<D> {
        Table { rows: self.rows.filter(|row: CatalogItem<D>| row.id != id) }
    }
}

impl<D: Document> Table<D> {
    /// The rows whose documents meet every one of `predicates`, in the
    /// table's order.
    pub open spec fn find(self, predicates: Seq<PredicateView>) -> Seq<CatalogItem<D>> {
        self.rows.filter(|row: CatalogItem<D>| meets(predicates, row.metadata))
    }
}

/// No identity in a table is above the highest.
pub(crate) proof fn lemma_highest_bounds<D>(table: Table<D>, i: int)
    requires
        0 <= i < table.rows.len(),
    ensures
        table.rows[i].id <= table.highest(),
        0 <= table.highest(),
    decreases table.rows.len(),
{
    let rest = Table { rows: table.rows.drop_last() };
    if i < table.rows.len() - 1 {
        lemma_highest_bounds(rest, i);
    } else if rest.rows.len() > 0 {
        lemma_highest_bounds(rest, 0);
    }
}

/// A search without conditions finds every row: a filter with no field set
/// leaves the table as it is.
pub proof fn law_find_without_conditions<D: Document>(table: Table<D>)
    ensures
        table.find(Seq::empty()) == table.rows,
        table.find(Seq::empty()).len() == table.rows.len(),
{
    let keep = |row: CatalogItem<D>| meets(Seq::<PredicateView>::empty(), row.metadata);
    lemma_filter_all(table.rows, keep);
}

/// A filter that every element passes leaves a sequence as it is.
pub(crate) proof fn lemma_filter_all<A>(items: Seq<A>, keep: spec_fn(A) -> bool)
    requires
        forall|i: int| 0 <= i < items.len() ==> keep(#[trigger] items[i]),
    ensures
        items.filter(keep) == items,
    decreases items.len(),
{
    reveal(Seq::filter);
    if items.len() > 0 {
        lemma_filter_all(items.drop_last(), keep);
        assert(items.drop_last().push(items.last()) =~= items);
    }
}

/// A filter of artists, of releases or of tracks with no field set has no
/// conditions, and so finds every row of its table.
pub proof fn law_unset_filter_finds_every_row(
    artists: Table<ArtistView>,
    releases: Table<ReleaseView>,
    tracks: Table<TrackView>,
)
    ensures
        artists.find((ArtistFilterView { name: None, track: None }).conditions()) == artists.rows,
        releases.find((ReleaseFilterView { title: None, artist: None }).conditions())
            == releases.rows,
        tracks.find((TrackFilterView { name: None, release: None, artist: None }).conditions())
            == tracks.rows,
{
    assert((ArtistFilterView { name: None, track: None }).conditions() =~= Seq::empty());
    assert((ReleaseFilterView { title: None, artist: None }).conditions() =~= Seq::empty());
    assert((TrackFilterView { name: None, release: None, artist: None }).conditions()
        =~= Seq::empty());
    law_find_without_conditions(artists);
    law_find_without_conditions(releases);
    law_find_without_conditions(tracks);
}

/// What was created can be read: the row that `create` hands back carries the
/// document as it was submitted, is no favorite, has an identity that no row
/// had before, and is what `read` yields for that identity afterwards.
pub proof fn law_read_after_create<D>(table: Table<D>, document: D)
    requires
        table.well_formed(),
        table.has_room(),
    ensures
        ({
            let (next, row) = table.create(document);
            &&& row.metadata == document
            &&& !row.favorite
            &&& !table.has(row.id)
            &&& next.well_formed()
            &&& next.read(row.id) == Some(row)
            &&& next.rows.len() == table.rows.len() + 1
        }),
{
    let (next, row) = table.create(document);
    assert forall|i: int| 0 <= i < table.rows.len() implies (#[trigger] table.rows[i]).id
        != row.id by {
        lemma_highest_bounds(table, i);
    }
    if table.rows.len() > 0 {
        lemma_highest_bounds(table, 0);
    }
    let last = table.rows.len() as int;
    assert(next.rows[last] == row);
    assert(next.has(row.id));
    lemma_read_is_the_row(next, last);
}

/// In a well-formed table, reading the identity of a row yields that row.
pub(crate) proof fn lemma_read_is_the_row<D>(table: Table<D>, i: int)
    requires
        table.well_formed(),
        0 <= i < table.rows.len(),
    ensures
        table.read(table.rows[i].id) == Some(table.rows[i]),
{
    let id = table.rows[i].id;
    assert(table.has(id));
    let found = choose|k: int| 0 <= k < table.rows.len() && (#[trigger] table.rows[k]).id == id;
    assert(found == i);
}

/// What was updated is what is read: after `update`, `read` yields the new
/// document and the new favorite mark for the row's identity, never the
/// former ones, and every other row is as it was.
pub proof fn law_read_after_update<D>(table: Table<D>, item: CatalogItem<D>)
    requires
        table.well_formed(),
        table.has(item.id),
    ensures
        table.update(item).well_formed(),
        table.update(item).read(item.id) == Some(item),
        table.update(item).rows.len() == table.rows.len(),
        forall|id: i64| id != item.id ==> table.update(item).read(id) == table.read(id),
{
    let next = table.update(item);
    let at = choose|i: int| 0 <= i < table.rows.len() && (#[trigger] table.rows[i]).id == item.id;
    assert(next.rows[at] == item);
    lemma_read_is_the_row(next, at);
    assert forall|id: i64| id != item.id implies next.read(id) == table.read(id) by {
        if table.has(id) {
            let k = choose|k: int| 0 <= k < table.rows.len() && (#[trigger] table.rows[k]).id == id;
            lemma_read_is_the_row(table, k);
            assert(next.rows[k] == table.rows[k]);
            lemma_read_is_the_row(next, k);
        } else {
            if next.has(id) {
                let k = choose|k: int|
                    0 <= k < next.rows.len() && (#[trigger] next.rows[k]).id == id;
                assert(table.rows[k].id == id);
            }
        }
    }
}

/// What was deleted is gone: after `delete`, `read` yields nothing for the
/// identity, and deleting once more changes nothing.
pub proof fn law_read_after_delete<D>(table: Table<D>, id: i64)
    ensures
        table.delete(id).read(id) is None,
        table.delete(id).delete(id) == table.delete(id),
{
    let keep = |row: CatalogItem<D>| row.id != id;
    let next = table.delete(id);
    assert forall|i: int| 0 <= i < next.rows.len() implies keep(#[trigger] next.rows[i]) by {
        table.rows.lemma_filter_pred(keep, i);
    }
    if next.has(id) {
        let k = choose|k: int| 0 <= k < next.rows.len() && (#[trigger] next.rows[k]).id == id;
        assert(keep(next.rows[k]));
    }
    lemma_filter_all(next.rows, keep);
}

/// What a search finds: every row that it finds is a row of the table and
/// meets every predicate, and every row of the table that meets every
/// predicate is found.
pub proof fn law_find_is_exact<D: Document>(table: Table<D>, predicates: Seq<PredicateView>)
    ensures
        forall|row: CatalogItem<D>|
            table.find(predicates).contains(row) <==> table.rows.contains(row) && meets(
                predicates,
                row.metadata,
            ),
{
    lemma_find_keeps_what_meets(table, predicates);
}

/// The rows that `find` keeps are the rows whose documents `meets` holds of.
pub(crate) proof fn lemma_find_keeps_what_meets<D: Document>(
    table: Table<D>,
    predicates: Seq<PredicateView>,
)
    ensures
        forall|row: CatalogItem<D>|
            table.find(predicates).contains(row) <==> table.rows.contains(row) && meets(
                predicates,
                row.metadata,
            ),
{
    let keep = |row: CatalogItem<D>| meets(predicates, row.metadata);
    let found = table.find(predicates);
    assert forall|row: CatalogItem<D>| found.contains(row) <==> table.rows.contains(row) && meets(
        predicates,
        row.metadata,
    ) by {
        if found.contains(row) {
            let i = choose|i: int| 0 <= i < found.len() && found[i] == row;
            table.rows.lemma_filter_pred(keep, i);
            table.rows.lemma_filter_contains_rev(keep, row);
        }
        if table.rows.contains(row) && meets(predicates, row.metadata) {
            let j = choose|j: int| 0 <= j < table.rows.len() && table.rows[j] == row;
            table.rows.lemma_filter_contains(keep, j);
        }
    }
}

/// A search for tracks by artist is a containment test, not a comparison:
/// for a plain value it finds exactly the tracks that name an artist whose
/// name contains the value searched for.
pub proof fn law_artist_filter_is_containment(tracks: Table<TrackView>, artist: Seq<char>)
    requires
        plain(artist),
    ensures
        forall|row: CatalogItem<TrackView>|
            tracks.find(
                (TrackFilterView { name: None, release: None, artist: Some(artist) }).conditions(),
            ).contains(row) <==> tracks.rows.contains(row) && row.metadata.artist is Some && like(
                row.metadata.artist->0,
                artist,
            ),
{
    let filter = TrackFilterView { name: None, release: None, artist: Some(artist) };
    let predicates = filter.conditions();
    let only = PredicateView { field: Field::Artist, operator: Operator::Like, value: artist };
    assert(predicates =~= seq![only]);
    law_find_is_exact(tracks, predicates);
    assert forall|row: CatalogItem<TrackView>|
        meets(predicates, row.metadata) <==> row.metadata.artist is Some && like(
            row.metadata.artist->0,
            artist,
        ) by {
        assert(predicates[0] == only);
        lemma_holds_is_like(Field::Artist, artist, row.metadata);
    }
}

/// The text `A` is plain.
pub(crate) proof fn lemma_a_is_plain()
    ensures
        plain("A"@),
{
    reveal_strlit("A");
}

/// A lone `%` matches every text.
pub(crate) proof fn lemma_percent_matches_all(text: Seq<char>)
    ensures
        matches_pattern(seq!['%'], text),
    decreases text.len(),
{
    let pattern = seq!['%'];
    assert(pattern[0] == '%');
    assert(pattern.drop_first() =~= Seq::<char>::empty());
    if text.len() > 0 {
        lemma_percent_matches_all(text.drop_first());
    } else {
        assert(matches_pattern(Seq::<char>::empty(), text));
        assert(matches_pattern(pattern.drop_first(), text));
    }
}

/// A plain value followed by `%` matches the texts that begin with the
/// value, case aside.
pub(crate) proof fn lemma_pattern_of_a_beginning(value: Seq<char>, text: Seq<char>)
    requires
        plain(value),
    ensures
        matches_pattern(value + seq!['%'], text) <==> occurs_at(folded(value), folded(text), 0),
    decreases value.len(),
{
    let pattern = value + seq!['%'];
    if value.len() == 0 {
        assert(pattern =~= seq!['%']);
        lemma_percent_matches_all(text);
        assert(folded(text).subrange(0, 0) =~= folded(value));
    } else {
        assert(pattern[0] == value[0]);
        assert(pattern.drop_first() =~= value.drop_first() + seq!['%']);
        assert(plain(value.drop_first())) by {
            assert forall|i: int| 0 <= i < value.drop_first().len() implies value.drop_first()[i]
                != '%' && value.drop_first()[i] != '_' by {
                assert(value.drop_first()[i] == value[i + 1]);
            }
        }
        if text.len() > 0 {
            lemma_pattern_of_a_beginning(value.drop_first(), text.drop_first());
            let rest = value.drop_first().len() as int;
            if occurs_at(folded(value), folded(text), 0) {
                let part = folded(text).subrange(0, value.len() as int);
                assert(part[0] == folded(value)[0]);
                assert(folded(text.drop_first()).subrange(0, rest) =~= folded(
                    value.drop_first(),
                )) by {
                    assert forall|i: int| 0 <= i < rest implies folded(text.drop_first()).subrange(
                        0,
                        rest,
                    )[i] == folded(value.drop_first())[i] by {
                        assert(part[i + 1] == folded(value)[i + 1]);
                    }
                }
            }
            if fold_case(value[0]) == fold_case(text[0]) && occurs_at(
                folded(value.drop_first()),
                folded(text.drop_first()),
                0,
            ) {
                let inner = folded(text.drop_first()).subrange(0, rest);
                assert(folded(text).subrange(0, value.len() as int) =~= folded(value)) by {
                    assert forall|i: int| 0 <= i < value.len() implies folded(text).subrange(
                        0,
                        value.len() as int,
                    )[i] == folded(value)[i] by {
                        if i > 0 {
                            assert(inner[i - 1] == folded(value.drop_first())[i - 1]);
                        }
                    }
                }
            }
        }
    }
}

/// The text from `from` on matches the pattern.
pub open spec fn matches_from(pattern: Seq<char>, text: Seq<char>, from: int) -> bool {
    0 <= from <= text.len() && matches_pattern(pattern, text.skip(from))
}

/// A pattern behind a `%` matches the texts that the pattern matches from
/// some place on.
pub(crate) proof fn lemma_pattern_behind_percent(pattern: Seq<char>, text: Seq<char>)
    ensures
        matches_pattern(seq!['%'] + pattern, text) <==> exists|from: int|
            matches_from(pattern, text, from),
    decreases text.len(),
{
    let whole = seq!['%'] + pattern;
    assert(whole[0] == '%');
    assert(whole.drop_first() =~= pattern);
    assert(text.skip(0) =~= text);
    if text.len() > 0 {
        let rest = text.drop_first();
        lemma_pattern_behind_percent(pattern, rest);
        if matches_pattern(whole, text) {
            if matches_pattern(pattern, text) {
                assert(matches_from(pattern, text, 0));
            } else {
                let from = choose|from: int| matches_from(pattern, rest, from);
                assert(rest.skip(from) =~= text.skip(from + 1));
                assert(matches_from(pattern, text, from + 1));
            }
        }
        if exists|from: int| matches_from(pattern, text, from) {
            let from = choose|from: int| matches_from(pattern, text, from);
            if from > 0 {
                assert(rest.skip(from - 1) =~= text.skip(from));
                assert(matches_from(pattern, rest, from - 1));
            }
        }
    } else {
        if matches_pattern(whole, text) {
            assert(matches_from(pattern, text, 0));
        }
        if exists|from: int| matches_from(pattern, text, from) {
            let from = choose|from: int| matches_from(pattern, text, from);
            assert(from == 0);
        }
    }
}

/// The pattern that the model matches against is the text that the statement
/// binds for a containment test.
pub proof fn law_pattern_is_what_is_bound(predicate: PredicateView)
    requires
        predicate.operator == Operator::Like,
    ensures
        predicate.bound() == crate::repository::ValueView::Text(containing(predicate.value)),
{
}

/// For a plain value, the pattern that a containment test binds matches the
/// texts that contain the value, case aside: a search by pattern is then a
/// containment test.
pub proof fn law_pattern_of_a_plain_value_is_containment(text: Seq<char>, value: Seq<char>)
    requires
        plain(value),
    ensures
        matches_pattern(containing(value), text) <==> like(text, value),
{
    reveal_strlit("%");
    let tail = value + seq!['%'];
    assert("%"@ =~= seq!['%']);
    assert(containing(value) =~= seq!['%'] + tail);
    lemma_pattern_behind_percent(tail, text);
    if matches_pattern(containing(value), text) {
        let from = choose|from: int| matches_from(tail, text, from);
        lemma_pattern_of_a_beginning(value, text.skip(from));
        assert(folded(text).subrange(from, from + value.len()) =~= folded(text.skip(from)).subrange(
            0,
            value.len() as int,
        ));
        assert(occurs_at(folded(value), folded(text), from));
    }
    if like(text, value) {
        let at = choose|at: int| occurs_at(folded(value), folded(text), at);
        lemma_pattern_of_a_beginning(value, text.skip(at));
        assert(folded(text).subrange(at, at + value.len()) =~= folded(text.skip(at)).subrange(
            0,
            value.len() as int,
        ));
        assert(matches_from(tail, text, at));
    }
}

/// A document meets a containment test for a plain value exactly where it
/// holds text in the field and that text contains the value.
pub(crate) proof fn lemma_holds_is_like<D: Document>(
    field: Field,
    value: Seq<char>,
    document: D,
)
    requires
        plain(value),
    ensures
        holds(PredicateView { field, operator: Operator::Like, value }, document) <==> (
        document.text(field) matches Some(text) && like(text, value)),
{
    if document.text(field) is Some {
        law_pattern_of_a_plain_value_is_containment(document.text(field)->0, value);
    }
}

/// Every text matches itself read as a pattern.
pub(crate) proof fn lemma_matches_itself(text: Seq<char>)
    ensures
        matches_pattern(text, text),
    decreases text.len(),
{
    if text.len() > 0 {
        let rest = text.drop_first();
        lemma_matches_itself(rest);
        if text[0] == '%' {
            assert(text.drop_first() == rest);
            assert(matches_pattern(text, rest));
        }
    }
}

/// What matches a pattern matches the pattern followed by `%`.
pub(crate) proof fn lemma_percent_behind_matches(pattern: Seq<char>, text: Seq<char>)
    requires
        matches_pattern(pattern, text),
    ensures
        matches_pattern(pattern + seq!['%'], text),
    decreases pattern.len(), text.len(),
{
    let longer = pattern + seq!['%'];
    if pattern.len() == 0 {
        assert(longer =~= seq!['%']);
        lemma_percent_matches_all(text);
    } else {
        assert(longer[0] == pattern[0]);
        assert(longer.drop_first() =~= pattern.drop_first() + seq!['%']);
        if pattern[0] == '%' {
            if matches_pattern(pattern.drop_first(), text) {
                lemma_percent_behind_matches(pattern.drop_first(), text);
            } else {
                lemma_percent_behind_matches(pattern, text.drop_first());
            }
        } else {
            lemma_percent_behind_matches(pattern.drop_first(), text.drop_first());
        }
    }
}

/// Every text meets the containment test for itself, whatever characters it
/// holds: a search for a name finds what has that name.
pub proof fn law_text_matches_its_own_pattern(text: Seq<char>)
    ensures
        matches_pattern(containing(text), text),
{
    reveal_strlit("%");
    let tail = text + seq!['%'];
    assert("%"@ =~= seq!['%']);
    assert(containing(text) =~= seq!['%'] + tail);
    lemma_matches_itself(text);
    lemma_percent_behind_matches(text, text);
    lemma_pattern_behind_percent(tail, text);
    assert(text.skip(0) =~= text);
    assert(matches_from(tail, text, 0));
}

/// A search in a table without rows finds nothing, and a search in a table
/// of one row finds that row if its document meets every predicate.
pub(crate) proof fn lemma_find_among_few<D: Document>(row: CatalogItem<D>, predicates: Seq<PredicateView>)
    ensures
        Table::<D>::empty().find(predicates) == Seq::<CatalogItem<D>>::empty(),
        (Table { rows: seq![row] }).find(predicates) == if meets(predicates, row.metadata) {
            seq![row]
        } else {
            Seq::<CatalogItem<D>>::empty()
        },
{
    reveal_with_fuel(Seq::filter, 2);
    let keep = |row: CatalogItem<D>| meets(predicates, row.metadata);
    let none = Seq::<CatalogItem<D>>::empty();
    assert(none.filter(keep) =~= none);
    let one = seq![row];
    assert(one.drop_last() =~= none);
    assert(one.last() == row);
    if meets(predicates, row.metadata) {
        assert(one.filter(keep) =~= none.push(row));
        assert(none.push(row) =~= one);
    } else {
        assert(one.filter(keep) =~= none);
    }
}

/// Containment is no comparison: the store finds `Band` when asked for `A`,
/// since the letters `a` and `A` count as one.
pub proof fn example_band_contains_a()
    ensures
        like("Band"@, "A"@),
        matches_pattern(containing("A"@), "Band"@),
        "Band"@ != "A"@,
{
    lemma_a_is_plain();
    law_pattern_of_a_plain_value_is_containment("Band"@, "A"@);
    reveal_strlit("Band");
    reveal_strlit("A");
    let text = folded("Band"@);
    let value = folded("A"@);
    assert(value.len() == 1);
    assert(value[0] == 'a');
    assert(text[1] == 'a');
    assert(text.subrange(1, 2) =~= value);
    assert(occurs_at(value, text, 1));
}

/// A document meets the predicates of two lists together exactly where it
/// meets those of each.
pub(crate) proof fn lemma_meets_both<D: Document>(
    first: Seq<PredicateView>,
    second: Seq<PredicateView>,
    document: D,
)
    ensures
        meets(first + second, document) <==> meets(first, document) && meets(second, document),
{
    let both = first + second;
    if meets(both, document) {
        assert forall|i: int| 0 <= i < first.len() implies holds(
            #[trigger] first[i],
            document,
        ) by {
            assert(both[i] == first[i]);
        }
        assert forall|i: int| 0 <= i < second.len() implies holds(
            #[trigger] second[i],
            document,
        ) by {
            assert(both[first.len() + i] == second[i]);
        }
    }
    if meets(first, document) && meets(second, document) {
        assert forall|i: int| 0 <= i < both.len() implies holds(#[trigger] both[i], document) by {
            if i < first.len() {
                assert(both[i] == first[i]);
            } else {
                assert(both[i] == second[i - first.len()]);
            }
        }
    }
}

/// A document meets the predicate of one field of a filter where the field
/// is not set, and otherwise where it meets the predicate with the field's
/// value.
pub(crate) proof fn lemma_meets_optional<D: Document>(
    field: Field,
    operator: Operator,
    value: Option<Seq<char>>,
    document: D,
)
    ensures
        meets(optional_condition(field, operator, value), document) <==> (value matches Some(
            value,
        ) ==> holds(PredicateView { field, operator, value }, document)),
{
    let list = optional_condition(field, operator, value);
    if value is Some {
        assert(list[0] == PredicateView { field, operator, value: value->0 });
    }
}

/// A filter finds nothing twice: in a table that gives no identity twice, no
/// two rows that a search finds have the same identity, and the search finds
/// no more rows than the table has.
pub proof fn law_find_finds_each_row_once<D: Document>(
    table: Table<D>,
    predicates: Seq<PredicateView>,
)
    requires
        table.well_formed(),
    ensures
        (Table { rows: table.find(predicates) }).well_formed(),
        table.find(predicates).len() <= table.rows.len(),
{
    let keep = |row: CatalogItem<D>| meets(predicates, row.metadata);
    lemma_filter_keeps_identities_apart(table.rows, keep);
    table.rows.lemma_filter_len(keep);
}

/// What a filter keeps of rows with identities of their own has identities
/// of its own.
pub(crate) proof fn lemma_filter_keeps_identities_apart<D>(
    rows: Seq<CatalogItem<D>>,
    keep: spec_fn(CatalogItem<D>) -> bool,
)
    requires
        forall|i: int, j: int|
            0 <= i < j < rows.len() ==> (#[trigger] rows[i]).id != (#[trigger] rows[j]).id,
    ensures
        forall|i: int, j: int|
            0 <= i < j < rows.filter(keep).len() ==> (#[trigger] rows.filter(keep)[i]).id != (
            #[trigger] rows.filter(keep)[j]).id,
    decreases rows.len(),
{
    reveal(Seq::filter);
    if rows.len() > 0 {
        let rest = rows.drop_last();
        let last = rows.len() - 1;
        assert forall|i: int, j: int| 0 <= i < j < rest.len() implies (#[trigger] rest[i]).id != (
        #[trigger] rest[j]).id by {
            assert(rest[i] == rows[i]);
            assert(rest[j] == rows[j]);
        }
        lemma_filter_keeps_identities_apart(rest, keep);
        let kept = rest.filter(keep);
        let found = rows.filter(keep);
        if keep(rows.last()) {
            assert(found =~= kept.push(rows.last()));
            assert forall|i: int, j: int| 0 <= i < j < found.len() implies (#[trigger] found[i]).id
                != (#[trigger] found[j]).id by {
                if j == kept.len() {
                    assert(found[i] == kept[i]);
                    assert(kept.contains(kept[i]));
                    rest.lemma_filter_contains_rev(keep, kept[i]);
                    let k = choose|k: int| 0 <= k < rest.len() && rest[k] == kept[i];
                    assert(rows[k] == rest[k]);
                    assert(rows[k].id != rows[last].id);
                    assert(found[j] == rows[last]);
                } else {
                    assert(found[i] == kept[i]);
                    assert(found[j] == kept[j]);
                }
            }
        } else {
            assert(found =~= kept);
        }
    }
}

/// What a search for tracks finds. Whichever of name, artist and release a
/// filter sets, with plain values, the search finds exactly the tracks whose
/// title contains the name, whose artist contains the filter's artist and
/// whose release contains the filter's release, as far as the filter sets
/// them. A field that is not set constrains nothing; a track that lacks an
/// artist or a release meets no filter that sets it.
pub proof fn law_track_filter_is_containment(tracks: Table<TrackView>, filter: TrackFilterView)
    requires
        filter.name matches Some(name) ==> plain(name),
        filter.artist matches Some(artist) ==> plain(artist),
        filter.release matches Some(release) ==> plain(release),
    ensures
        forall|row: CatalogItem<TrackView>|
            tracks.find(filter.conditions()).contains(row) <==> {
                &&& tracks.rows.contains(row)
                &&& filter.name matches Some(name) ==> like(row.metadata.title, name)
                &&& filter.artist matches Some(artist) ==> row.metadata.artist is Some && like(
                    row.metadata.artist->0,
                    artist,
                )
                &&& filter.release matches Some(release) ==> row.metadata.release is Some && like(
                    row.metadata.release->0,
                    release,
                )
            },
{
    let by_name = optional_condition(Field::Title, Operator::Like, filter.name);
    let by_artist = optional_condition(Field::Artist, Operator::Like, filter.artist);
    let by_release = optional_condition(Field::Release, Operator::Like, filter.release);
    lemma_find_keeps_what_meets(tracks, filter.conditions());
    assert forall|row: CatalogItem<TrackView>|
        meets(filter.conditions(), row.metadata) <==> {
            &&& filter.name matches Some(name) ==> like(row.metadata.title, name)
            &&& filter.artist matches Some(artist) ==> row.metadata.artist is Some && like(
                row.metadata.artist->0,
                artist,
            )
            &&& filter.release matches Some(release) ==> row.metadata.release is Some && like(
                row.metadata.release->0,
                release,
            )
        } by {
        lemma_meets_both(by_name + by_artist, by_release, row.metadata);
        lemma_meets_both(by_name, by_artist, row.metadata);
        lemma_meets_optional(Field::Title, Operator::Like, filter.name, row.metadata);
        lemma_meets_optional(Field::Artist, Operator::Like, filter.artist, row.metadata);
        lemma_meets_optional(Field::Release, Operator::Like, filter.release, row.metadata);
        if filter.name is Some {
            lemma_holds_is_like(Field::Title, filter.name->0, row.metadata);
        }
        if filter.artist is Some {
            lemma_holds_is_like(Field::Artist, filter.artist->0, row.metadata);
        }
        if filter.release is Some {
            lemma_holds_is_like(Field::Release, filter.release->0, row.metadata);
        }
    }
}

/// What a search for releases finds: for plain values, exactly the releases
/// whose title contains the filter's title and whose artist contains the
/// filter's artist, as far as the filter sets them.
pub proof fn law_release_filter_is_containment(
    releases: Table<ReleaseView>,
    filter: ReleaseFilterView,
)
    requires
        filter.title matches Some(title) ==> plain(title),
        filter.artist matches Some(artist) ==> plain(artist),
    ensures
        forall|row: CatalogItem<ReleaseView>|
            releases.find(filter.conditions()).contains(row) <==> {
                &&& releases.rows.contains(row)
                &&& filter.title matches Some(title) ==> like(row.metadata.title, title)
                &&& filter.artist matches Some(artist) ==> row.metadata.artist is Some && like(
                    row.metadata.artist->0,
                    artist,
                )
            },
{
    let by_title = optional_condition(Field::Title, Operator::Like, filter.title);
    let by_artist = optional_condition(Field::Artist, Operator::Like, filter.artist);
    lemma_find_keeps_what_meets(releases, filter.conditions());
    assert forall|row: CatalogItem<ReleaseView>|
        meets(filter.conditions(), row.metadata) <==> {
            &&& filter.title matches Some(title) ==> like(row.metadata.title, title)
            &&& filter.artist matches Some(artist) ==> row.metadata.artist is Some && like(
                row.metadata.artist->0,
                artist,
            )
        } by {
        lemma_meets_both(by_title, by_artist, row.metadata);
        lemma_meets_optional(Field::Title, Operator::Like, filter.title, row.metadata);
        lemma_meets_optional(Field::Artist, Operator::Like, filter.artist, row.metadata);
        if filter.title is Some {
            lemma_holds_is_like(Field::Title, filter.title->0, row.metadata);
        }
        if filter.artist is Some {
            lemma_holds_is_like(Field::Artist, filter.artist->0, row.metadata);
        }
    }
}

/// What a search for artists finds: for a plain name, exactly the artists
/// whose name contains the filter's name, if the filter sets one. A filter
/// that sets a track finds no artist, since no artist's document has such a
/// field.
pub proof fn law_artist_filter_is_containment_by_name(
    artists: Table<ArtistView>,
    filter: ArtistFilterView,
)
    requires
        filter.name matches Some(name) ==> plain(name),
    ensures
        forall|row: CatalogItem<ArtistView>|
            artists.find(filter.conditions()).contains(row) <==> {
                &&& artists.rows.contains(row)
                &&& filter.name matches Some(name) ==> like(row.metadata.name, name)
                &&& filter.track is None
            },
{
    let by_name = optional_condition(Field::Name, Operator::Like, filter.name);
    let by_track = optional_condition(Field::Tracks, Operator::Equals, filter.track);
    lemma_find_keeps_what_meets(artists, filter.conditions());
    assert forall|row: CatalogItem<ArtistView>|
        meets(filter.conditions(), row.metadata) <==> {
            &&& filter.name matches Some(name) ==> like(row.metadata.name, name)
            &&& filter.track is None
        } by {
        lemma_meets_both(by_name, by_track, row.metadata);
        lemma_meets_optional(Field::Name, Operator::Like, filter.name, row.metadata);
        lemma_meets_optional(Field::Tracks, Operator::Equals, filter.track, row.metadata);
        if filter.name is Some {
            lemma_holds_is_like(Field::Name, filter.name->0, row.metadata);
        }
    }
}

} // verus!
