//! Whole operations against the store: getting a track and turning its
//! favorite mark over, and the reading of the files that a walk has found.

use std::path::PathBuf;
use vstd::prelude::*;
use crate::model::track::{track_from_tags, TagReadingView, TrackView};
use crate::model::CatalogItem;
use crate::service::sync::{SyncRequestView, SyncResponseView, SyncStep, SyncView};
use crate::service::track::{
    track_by_name, CreateTrackStep, CreateTrackView, FavoriteTrack, GetTrack,
    TrackServiceErrorView,
};
use crate::service::{first_found, RequestView, ResponseView, Step};
use crate::store::catalog::{
    law_second_track_joins_release_and_artist, lemma_upsert_stays_on_course, Catalog,
};
use crate::store::{law_read_after_update, lemma_holds_is_like, like, meets, plain, Table};
use crate::model::artist::ArtistView;
use crate::model::release::ReleaseView;
use crate::repository::{Field, Operator, PredicateView};

verus! {

/// How turning a favorite mark over goes on after a step.
pub type FavoriteStep = Step<FavoriteTrack, CatalogItem<TrackView>, TrackServiceErrorView>;

/// `row` with its favorite mark turned over.
pub open spec fn flipped(row: CatalogItem<TrackView>) -> CatalogItem<TrackView> {
    CatalogItem { id: row.id, favorite: !row.favorite, metadata: row.metadata }
}

/// `at` is the place of the first row of `rows` whose title contains
/// `name`.
pub open spec fn first_titled(rows: Seq<CatalogItem<TrackView>>, name: Seq<char>, at: int) -> bool {
    &&& 0 <= at < rows.len()
    &&& like(rows[at].metadata.title, name)
    &&& forall|k: int| 0 <= k < at ==> !like((#[trigger] rows[k]).metadata.title, name)
}

impl Catalog {
    /// Getting the track of the name `name` from beginning to end: what the
    /// operation yields with the store as it is.
    pub open spec fn get_track(self, name: Seq<char>) -> Result<
        CatalogItem<TrackView>,
        TrackServiceErrorView,
    > {
        GetTrack::outcome(self.serve(RequestView::FindTracks(track_by_name(name))).1)
    }

    /// Turning over the favorite mark of the track of the title `title` from
    /// beginning to end: what the store holds afterwards, and how the
    /// operation ended.
    pub open spec fn favorite_track(self, title: Seq<char>) -> (Catalog, FavoriteStep) {
        let found = self.serve(RequestView::FindTracks(track_by_name(title)));
        match FavoriteTrack::Finding.next(found.1) {
            Step::Pending(task, request) => {
                let written = found.0.serve(request);
                (written.0, task.next(written.1))
            },
            Step::Done(outcome) => (found.0, Step::Done(outcome)),
        }
    }

    /// One answer of the store within a synchronisation: where the
    /// synchronisation waits for the store, the store answers and the
    /// synchronisation takes the answer; where it waits for something else,
    /// or is over, nothing changes.
    pub open spec fn store_advance(self, step: SyncStep) -> (Catalog, SyncStep) {
        match step {
            SyncStep::Pending(sync, SyncRequestView::Store(request)) => {
                let (next, response) = self.serve(request);
                (next, sync.resume(SyncResponseView::Stored(response)))
            },
            _ => (self, step),
        }
    }

    /// The file at `current` is read with the outcome `reading`, and whatever
    /// the synchronisation then asks of the store is answered: what the
    /// store holds afterwards, and where the synchronisation stands.
    pub open spec fn take_file(
        self,
        files: Seq<PathBuf>,
        current: PathBuf,
        reading: Option<TagReadingView>,
    ) -> (Catalog, SyncStep) {
        let begun = (SyncView::Reading { files, current }).resume(
            SyncResponseView::TagsRead(reading),
        );
        let first = self.store_advance(begun);
        let second = first.0.store_advance(first.1);
        let third = second.0.store_advance(second.1);
        let fourth = third.0.store_advance(third.1);
        fourth.0.store_advance(fourth.1)
    }

    /// The catalog with the track of one file taken into it, if the reading
    /// of the file yields a track.
    pub open spec fn with_file(self, current: PathBuf, reading: Option<TagReadingView>) -> Catalog {
        match track_from_tags(current, reading) {
            Ok(track) => self.upsert(track).0,
            Err(_) => self,
        }
    }

    /// The catalog with the tracks of `files` taken into it one after the
    /// other, in the order of the files.
    pub open spec fn with_files(
        self,
        files: Seq<PathBuf>,
        readings: spec_fn(PathBuf) -> Option<TagReadingView>,
    ) -> Catalog
        decreases files.len(),
    {
        if files.len() == 0 {
            self
        } else {
            self.with_file(files.first(), readings(files.first())).with_files(
                files.drop_first(),
                readings,
            )
        }
    }

    /// The reading of `files` by the synchronisation from beginning to end:
    /// the first file is read and what is asked of the store for it is
    /// answered, and so on with the files after it. The result is what the
    /// store holds at the end, and where the synchronisation stands.
    pub open spec fn read_files(
        self,
        files: Seq<PathBuf>,
        readings: spec_fn(PathBuf) -> Option<TagReadingView>,
    ) -> (Catalog, SyncStep)
        decreases files.len(),
    {
        if files.len() == 0 {
            (self, SyncView::read_on(files))
        } else {
            let taken = self.take_file(
                files.drop_first(),
                files.first(),
                readings(files.first()),
            );
            match taken.1 {
                SyncStep::Done(_) => taken,
                SyncStep::Pending(_, _) => taken.0.read_files(files.drop_first(), readings),
            }
        }
    }
}

/// Where a filter keeps an element at all, the first that it keeps is the
/// first of the sequence that passes.
pub(crate) proof fn lemma_first_kept<A>(items: Seq<A>, keep: spec_fn(A) -> bool)
    ensures
        items.filter(keep).len() == 0 <==> forall|k: int|
            0 <= k < items.len() ==> !keep(#[trigger] items[k]),
        items.filter(keep).len() > 0 ==> exists|at: int|
            0 <= at < items.len() && items.filter(keep).first() == items[at] && keep(items[at])
                && forall|k: int| 0 <= k < at ==> !keep(#[trigger] items[k]),
    decreases items.len(),
{
    reveal(Seq::filter);
    if items.len() > 0 {
        let rest = items.drop_last();
        lemma_first_kept(rest, keep);
        let last = items.len() - 1;
        assert forall|k: int| 0 <= k < last implies rest[k] == items[k] by {}
        if rest.filter(keep).len() > 0 {
            let at = choose|at: int|
                0 <= at < rest.len() && rest.filter(keep).first() == rest[at] && keep(rest[at])
                    && forall|k: int| 0 <= k < at ==> !keep(#[trigger] rest[k]);
            assert(items[at] == rest[at]);
            assert(items.filter(keep).first() == items[at]);
            assert(keep(items[at]));
            assert forall|k: int| 0 <= k < at implies !keep(#[trigger] items[k]) by {
                assert(rest[k] == items[k]);
            }
        } else {
            assert forall|k: int| 0 <= k < last implies !keep(#[trigger] items[k]) by {
                assert(rest[k] == items[k]);
            }
            if keep(items[last]) {
                assert(items.filter(keep) =~= seq![items[last]]);
                assert(items.filter(keep).first() == items[last]);
            }
        }
    }
}

/// A track is got by its title. For a plain name, the operation yields the
/// first stored track whose title contains the name, and it yields that there
/// is none exactly where no stored track has such a title.
pub proof fn law_get_track_is_by_title(catalog: Catalog, name: Seq<char>)
    requires
        plain(name),
    ensures
        match catalog.get_track(name) {
            Ok(row) => exists|at: int|
                first_titled(catalog.tracks.rows, name, at) && catalog.tracks.rows[at] == row,
            Err(error) => error == TrackServiceErrorView::NotFound && forall|k: int|
                0 <= k < catalog.tracks.rows.len() ==> !like(
                    (#[trigger] catalog.tracks.rows[k]).metadata.title,
                    name,
                ),
        },
{
    lemma_search_by_title(catalog.tracks, name);
}

/// What the search by title finds first.
pub(crate) proof fn lemma_search_by_title(tracks: Table<TrackView>, name: Seq<char>)
    requires
        plain(name),
    ensures
        match first_found(tracks.find(track_by_name(name).conditions())) {
            Some(row) => exists|at: int| first_titled(tracks.rows, name, at) && tracks.rows[at] == row,
            None => forall|k: int|
                0 <= k < tracks.rows.len() ==> !like((#[trigger] tracks.rows[k]).metadata.title, name),
        },
{
    let predicates = track_by_name(name).conditions();
    let only = PredicateView { field: Field::Title, operator: Operator::Like, value: name };
    assert(predicates =~= seq![only]);
    let keep = |row: CatalogItem<TrackView>| meets(predicates, row.metadata);
    assert forall|row: CatalogItem<TrackView>| keep(row) <==> like(row.metadata.title, name) by {
        assert(predicates[0] == only);
        lemma_holds_is_like(Field::Title, name, row.metadata);
    }
    lemma_first_kept(tracks.rows, keep);
    let found = tracks.find(predicates);
    if found.len() > 0 {
        let at = choose|at: int|
            0 <= at < tracks.rows.len() && found.first() == tracks.rows[at] && keep(tracks.rows[at])
                && forall|k: int| 0 <= k < at ==> !keep(#[trigger] tracks.rows[k]);
        assert(first_titled(tracks.rows, name, at)) by {
            assert forall|k: int| 0 <= k < at implies !like(
                (#[trigger] tracks.rows[k]).metadata.title,
                name,
            ) by {
                assert(!keep(tracks.rows[k]));
            }
        }
    } else {
        assert forall|k: int| 0 <= k < tracks.rows.len() implies !like(
            (#[trigger] tracks.rows[k]).metadata.title,
            name,
        ) by {
            assert(!keep(tracks.rows[k]));
        }
    }
}

/// Turning a favorite mark over reads, flips and writes back. In a store
/// that gives no identity twice, the track that `get_track` yields is
/// written back with the same identity and data and the opposite mark, and
/// that is the result; a read of its identity shows the new mark afterwards;
/// no other track, no release and no artist changes. Where `get_track`
/// yields no track, nothing changes and the operation fails as `get_track`
/// does.
pub proof fn law_favorite_track_flips_the_mark(catalog: Catalog, title: Seq<char>)
    requires
        catalog.tracks.well_formed(),
    ensures
        ({
            let (next, step) = catalog.favorite_track(title);
            match catalog.get_track(title) {
                Ok(row) => {
                    &&& step == FavoriteStep::Done(Ok(flipped(row)))
                    &&& next.tracks.read(row.id) == Some(flipped(row))
                    &&& forall|id: i64|
                        id != row.id ==> next.tracks.read(id) == catalog.tracks.read(id)
                    &&& next.tracks.rows.len() == catalog.tracks.rows.len()
                    &&& next.releases == catalog.releases
                    &&& next.artists == catalog.artists
                },
                Err(error) => next == catalog && step == FavoriteStep::Done(Err(error)),
            }
        }),
{
    let predicates = track_by_name(title).conditions();
    let keep = |row: CatalogItem<TrackView>| meets(predicates, row.metadata);
    lemma_first_kept(catalog.tracks.rows, keep);
    match catalog.get_track(title) {
        Ok(row) => {
            let at = choose|at: int|
                0 <= at < catalog.tracks.rows.len() && catalog.tracks.rows.filter(keep).first()
                    == catalog.tracks.rows[at] && keep(catalog.tracks.rows[at]) && forall|k: int|
                    0 <= k < at ==> !keep(#[trigger] catalog.tracks.rows[k]);
            assert(catalog.tracks.rows[at].id == row.id);
            assert(catalog.tracks.has(row.id));
            law_read_after_update(catalog.tracks, flipped(row));
        },
        Err(_) => {},
    }
}

/// The place of an operation on a track within a synchronisation that has
/// `files` still to read.
pub open spec fn within(files: Seq<PathBuf>, step: CreateTrackStep) -> SyncStep {
    match step {
        Step::Pending(task, request) => SyncStep::Pending(
            SyncView::Storing { files, task },
            SyncRequestView::Store(request),
        ),
        Step::Done(_) => SyncView::read_on(files),
    }
}

/// Within a synchronisation the store answers an operation on a track as it
/// does outside of one.
pub(crate) proof fn lemma_store_advance_is_advance(
    catalog: Catalog,
    files: Seq<PathBuf>,
    step: CreateTrackStep,
)
    ensures
        catalog.store_advance(within(files, step)) == (
            catalog.advance(step).0,
            within(files, catalog.advance(step).1),
        ),
{
}

/// Reading one file is taking its track into the catalog. Once the file is
/// read and the store has answered what was asked of it, the store holds
/// what taking the file's track into it leaves, or what it held before where
/// the file yields no track, and the synchronisation goes on to the next
/// file, or is over with success where none is left.
pub proof fn law_reading_a_file_is_upsert(
    catalog: Catalog,
    files: Seq<PathBuf>,
    current: PathBuf,
    reading: Option<TagReadingView>,
)
    ensures
        catalog.take_file(files, current, reading) == (
            catalog.with_file(current, reading),
            SyncView::read_on(files),
        ),
{
    match track_from_tags(current, reading) {
        Ok(track) => {
            let begun = CreateTrackView::begin(track);
            let start: CreateTrackStep = Step::Pending(begun.0, begun.1);
            let first = catalog.advance(start);
            let second = first.0.advance(first.1);
            let third = second.0.advance(second.1);
            let fourth = third.0.advance(third.1);
            lemma_store_advance_is_advance(catalog, files, start);
            lemma_store_advance_is_advance(first.0, files, first.1);
            lemma_store_advance_is_advance(second.0, files, second.1);
            lemma_store_advance_is_advance(third.0, files, third.1);
            lemma_store_advance_is_advance(fourth.0, files, fourth.1);
            lemma_upsert_stays_on_course(catalog, track);
        },
        Err(_) => {},
    }
}

/// Reading the files that a walk has found is taking their tracks into the
/// catalog one after the other, in the order of the files: at the end the
/// synchronisation is over with success, and the store holds what the
/// operations on the tracks leave. A file that yields no track, and a track
/// that the store refuses, stop nothing.
pub proof fn law_reading_files_is_upsert_in_order(
    catalog: Catalog,
    files: Seq<PathBuf>,
    readings: spec_fn(PathBuf) -> Option<TagReadingView>,
)
    ensures
        catalog.read_files(files, readings) == (
            catalog.with_files(files, readings),
            SyncStep::Done(Ok(())),
        ),
    decreases files.len(),
{
    if files.len() > 0 {
        let rest = files.drop_first();
        assert(files[0] == files.first());
        law_reading_a_file_is_upsert(catalog, rest, files.first(), readings(files.first()));
        let taken = catalog.take_file(rest, files.first(), readings(files.first()));
        law_reading_files_is_upsert_in_order(taken.0, rest, readings);
        if rest.len() == 0 {
            assert(taken.0.with_files(rest, readings) == taken.0);
        }
    }
}

/// Two files of one release. Where a walk has found two files whose readings
/// yield two tracks of different titles that name the same release and the
/// same artist, reading them into an empty catalog leaves one artist, which
/// lists the release, one release, which lists both tracks in the order of
/// the files, and two tracks, and the synchronisation is over with success.
pub proof fn law_two_files_of_one_release(
    one: PathBuf,
    other: PathBuf,
    readings: spec_fn(PathBuf) -> Option<TagReadingView>,
    first: TrackView,
    second: TrackView,
)
    requires
        track_from_tags(one, readings(one)) == Ok::<TrackView, crate::model::track::TrackError>(
            first,
        ),
        track_from_tags(other, readings(other)) == Ok::<
            TrackView,
            crate::model::track::TrackError,
        >(second),
        first.release is Some,
        first.artist is Some,
        second.release == first.release,
        second.artist == first.artist,
        second.title != first.title,
    ensures
        ({
            let run = Catalog::empty().read_files(seq![one, other], readings);
            let catalog = run.0;
            &&& run.1 == SyncStep::Done(Ok(()))
            &&& catalog.artists.rows.len() == 1
            &&& catalog.artists.rows[0].metadata == ArtistView {
                name: first.artist->0,
                releases: seq![first.release->0],
            }
            &&& catalog.releases.rows.len() == 1
            &&& catalog.releases.rows[0].metadata == ReleaseView {
                title: first.release->0,
                tracks: seq![first.title, second.title],
                artist: first.artist,
            }
            &&& catalog.tracks.rows.len() == 2
            &&& catalog.tracks.rows[0].metadata == first
            &&& catalog.tracks.rows[1].metadata == second
        }),
{
    let files = seq![one, other];
    assert(files[0] == one && files[1] == other);
    law_reading_files_is_upsert_in_order(Catalog::empty(), files, readings);
    law_second_track_joins_release_and_artist(first, second);
    let rest = files.drop_first();
    assert(rest =~= seq![other]);
    assert(rest.first() == other);
    assert(rest.drop_first() =~= Seq::<PathBuf>::empty());
    let begun = Catalog::empty().with_file(one, readings(one));
    assert(begun == Catalog::empty().upsert(first).0);
    assert(begun.with_files(rest, readings) == begun.with_file(other, readings(other)).with_files(
        rest.drop_first(),
        readings,
    ));
}

} // verus!
