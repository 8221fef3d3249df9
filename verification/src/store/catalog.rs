//! The three tables together, how they answer what the catalog's operations
//! ask, and what taking a track into the catalog does to them.

use vstd::prelude::*;
use crate::model::artist::ArtistView;
use crate::model::release::ReleaseView;
use crate::model::track::TrackView;
use crate::model::{distinct_titles, law_with_title_is_a_union, with_title, CatalogItem};
use crate::repository::artist::ArtistFilterView;
use crate::repository::release::ReleaseFilterView;
use crate::repository::{Field, Operator, PredicateView, RepositoryErrorView};
use crate::service::track::{
    distance, CreateTrackStep, CreateTrackView, TrackServiceErrorView,
};
use crate::service::{last_found, RequestView, ResponseView, Step};
use crate::store::{lemma_find_among_few, law_text_matches_its_own_pattern, meets, Table};

verus! {

/// Two tracks that the store takes for the same: both name an artist and a
/// release, and they agree in title, artist and release. A track that lacks
/// an artist or a release is the same as no other: the index that keeps
/// tracks apart tells absent values apart.
pub open spec fn same_entry(a: TrackView, b: TrackView) -> bool {
    &&& a.title == b.title
    &&& a.artist is Some
    &&& a.artist == b.artist
    &&& a.release is Some
    &&& a.release == b.release
}

/// The catalog as the store holds it.
pub struct Catalog {
    pub artists: Table<ArtistView>,
    pub releases: Table<ReleaseView>,
    pub tracks: Table<TrackView>,
}

impl Catalog {
    /// The catalog before anything was taken into it.
    pub open spec fn empty() -> Catalog {
        Catalog { artists: Table::empty(), releases: Table::empty(), tracks: Table::empty() }
    }

    /// `track` is stored, as it is.
    pub open spec fn lists_track(self, track: TrackView) -> bool {
        exists|i: int|
            0 <= i < self.tracks.rows.len() && (#[trigger] self.tracks.rows[i]).metadata == track
    }

    /// A track that the store takes for the same as `track` is stored.
    pub open spec fn holds_track(self, track: TrackView) -> bool {
        exists|i: int|
            0 <= i < self.tracks.rows.len() && same_entry(
                (#[trigger] self.tracks.rows[i]).metadata,
                track,
            )
    }

    /// No release lists a track twice, and no artist a release.
    pub open spec fn tidy(self) -> bool {
        &&& forall|i: int|
            0 <= i < self.releases.rows.len() ==> distinct_titles(
                (#[trigger] self.releases.rows[i]).metadata.tracks,
            )
        &&& forall|i: int|
            0 <= i < self.artists.rows.len() ==> distinct_titles(
                (#[trigger] self.artists.rows[i]).metadata.releases,
            )
    }

    /// How the store answers `request`, and what it holds afterwards. The one
    /// request that the store refuses is to create a track that it holds
    /// already; a search changes nothing; an update hands back what it was
    /// given.
    pub open spec fn serve(self, request: RequestView) -> (Catalog, ResponseView) {
        match request {
            RequestView::CreateTrack(track) => {
                if self.holds_track(track) {
                    (
                        self,
                        ResponseView::Track(Err(RepositoryErrorView::ItemCreate(Seq::empty()))),
                    )
                } else {
                    let (tracks, row) = self.tracks.create(track);
                    (Catalog { tracks, ..self }, ResponseView::Track(Ok(row)))
                }
            },
            RequestView::FindTracks(filter) => (
                self,
                ResponseView::Tracks(Ok(self.tracks.find(filter.conditions()))),
            ),
            RequestView::UpdateTrack(item) => (
                Catalog { tracks: self.tracks.update(item), ..self },
                ResponseView::Track(Ok(item)),
            ),
            RequestView::CreateRelease(release) => {
                let (releases, row) = self.releases.create(release);
                (Catalog { releases, ..self }, ResponseView::Release(Ok(row)))
            },
            RequestView::FindReleases(filter) => (
                self,
                ResponseView::Releases(Ok(self.releases.find(filter.conditions()))),
            ),
            RequestView::UpdateRelease(item) => (
                Catalog { releases: self.releases.update(item), ..self },
                ResponseView::Release(Ok(item)),
            ),
            RequestView::CreateArtist(artist) => {
                let (artists, row) = self.artists.create(artist);
                (Catalog { artists, ..self }, ResponseView::Artist(Ok(row)))
            },
            RequestView::FindArtists(filter) => (
                self,
                ResponseView::Artists(Ok(self.artists.find(filter.conditions()))),
            ),
            RequestView::UpdateArtist(item) => (
                Catalog { artists: self.artists.update(item), ..self },
                ResponseView::Artist(Ok(item)),
            ),
        }
    }

    /// One step of taking a track into the catalog: the store answers the
    /// request that is pending, and the operation takes the answer. Once the
    /// operation is over, nothing changes any more.
    pub open spec fn advance(self, step: CreateTrackStep) -> (Catalog, CreateTrackStep) {
        match step {
            Step::Pending(task, request) => {
                let (next, response) = self.serve(request);
                (next, task.resume(response))
            },
            Step::Done(_) => (self, step),
        }
    }

    /// Taking `track` into the catalog from beginning to end: what the store
    /// holds afterwards, and how the operation ended.
    pub open spec fn upsert(self, track: TrackView) -> (Catalog, CreateTrackStep) {
        let begun = CreateTrackView::begin(track);
        let first = self.advance(Step::Pending(begun.0, begun.1));
        let second = first.0.advance(first.1);
        let third = second.0.advance(second.1);
        let fourth = third.0.advance(third.1);
        fourth.0.advance(fourth.1)
    }
}

/// The operation stands where an operation on `track` can stand with the
/// store holding `catalog`: what it asks fits what it waits for, and once the
/// track is stored, the store holds it.
pub open spec fn on_course(catalog: Catalog, track: TrackView, step: CreateTrackStep) -> bool {
    match step {
        Step::Done(Ok(_)) => catalog.lists_track(track),
        Step::Done(Err(_)) => true,
        Step::Pending(CreateTrackView::Creating { track: kept }, request) => {
            kept == track && request == RequestView::CreateTrack(track)
        },
        Step::Pending(CreateTrackView::FindingRelease { track: kept, .. }, request) => {
            kept == track && catalog.lists_track(track) && request is FindReleases
        },
        Step::Pending(CreateTrackView::FindingArtist { track: kept, .. }, request) => {
            kept == track && catalog.lists_track(track) && request is FindArtists
        },
        Step::Pending(CreateTrackView::WritingRelease { track: kept, .. }, request) => {
            kept == track && catalog.lists_track(track) && (request is UpdateRelease
                || request is CreateRelease)
        },
        Step::Pending(CreateTrackView::WritingArtist { .. }, request) => {
            catalog.lists_track(track) && (request is UpdateArtist || request is CreateArtist)
        },
    }
}

/// No list that the operation carries or is about to write names a title
/// twice.
pub open spec fn neat(step: CreateTrackStep) -> bool {
    match step {
        Step::Pending(task, request) => {
            &&& match task {
                CreateTrackView::FindingArtist { release: Some(item), .. } => distinct_titles(
                    item.metadata.tracks,
                ),
                CreateTrackView::WritingRelease { artist: Some(item), .. } => distinct_titles(
                    item.metadata.releases,
                ),
                _ => true,
            }
            &&& match request {
                RequestView::UpdateRelease(item) => distinct_titles(item.metadata.tracks),
                RequestView::CreateRelease(release) => distinct_titles(release.tracks),
                RequestView::UpdateArtist(item) => distinct_titles(item.metadata.releases),
                RequestView::CreateArtist(artist) => distinct_titles(artist.releases),
                _ => true,
            }
        },
        Step::Done(_) => true,
    }
}

/// What a search finds is a row of the table.
pub(crate) proof fn lemma_last_found_is_a_row<D: crate::store::Document>(
    table: Table<D>,
    predicates: Seq<crate::repository::PredicateView>,
)
    ensures
        last_found(table.find(predicates)) matches Some(row) ==> table.rows.contains(row),
{
    let found = table.find(predicates);
    if found.len() > 0 {
        crate::store::lemma_find_keeps_what_meets(table, predicates);
        assert(found[found.len() - 1] == found.last());
        assert(found.contains(found.last()));
    }
}

/// In a tidy catalog, an update with a list that names no title twice, and
/// the creation of an entry with such a list, leave the catalog tidy.
pub(crate) proof fn lemma_writes_keep_tidy(catalog: Catalog, request: RequestView)
    requires
        catalog.tidy(),
        match request {
            RequestView::UpdateRelease(item) => distinct_titles(item.metadata.tracks),
            RequestView::CreateRelease(release) => distinct_titles(release.tracks),
            RequestView::UpdateArtist(item) => distinct_titles(item.metadata.releases),
            RequestView::CreateArtist(artist) => distinct_titles(artist.releases),
            _ => true,
        },
    ensures
        catalog.serve(request).0.tidy(),
{
    let next = catalog.serve(request).0;
    assert forall|i: int| 0 <= i < next.releases.rows.len() implies distinct_titles(
        (#[trigger] next.releases.rows[i]).metadata.tracks,
    ) by {
        if i < catalog.releases.rows.len() {
            assert(distinct_titles(catalog.releases.rows[i].metadata.tracks));
        }
    }
    assert forall|i: int| 0 <= i < next.artists.rows.len() implies distinct_titles(
        (#[trigger] next.artists.rows[i]).metadata.releases,
    ) by {
        if i < catalog.artists.rows.len() {
            assert(distinct_titles(catalog.artists.rows[i].metadata.releases));
        }
    }
}

/// A request other than for the update of a track leaves a stored track in
/// place.
pub(crate) proof fn lemma_serving_keeps_tracks(catalog: Catalog, request: RequestView, track: TrackView)
    requires
        catalog.lists_track(track),
        !(request is UpdateTrack),
    ensures
        catalog.serve(request).0.lists_track(track),
{
    let next = catalog.serve(request).0;
    let i = choose|i: int|
        0 <= i < catalog.tracks.rows.len() && (#[trigger] catalog.tracks.rows[i]).metadata
            == track;
    assert(next.tracks.rows[i].metadata == track);
}

/// One step keeps an operation on course and brings it nearer to its end.
pub(crate) proof fn lemma_advance_stays_on_course(
    catalog: Catalog,
    track: TrackView,
    step: CreateTrackStep,
)
    requires
        on_course(catalog, track, step),
    ensures
        on_course(catalog.advance(step).0, track, catalog.advance(step).1),
        distance(catalog.advance(step).1) < distance(step) || distance(step) == 0,
{
    match step {
        Step::Done(_) => {},
        Step::Pending(task, request) => {
            match task {
                CreateTrackView::Creating { .. } => {
                    if !catalog.holds_track(track) {
                        let (tracks, row) = catalog.tracks.create(track);
                        let last = catalog.tracks.rows.len() as int;
                        assert(tracks.rows[last] == row);
                        let next = catalog.serve(request).0;
                        assert(next.tracks.rows[last].metadata == track);
                    }
                },
                _ => {
                    lemma_serving_keeps_tracks(catalog, request, track);
                },
            }
        },
    }
}

/// One step keeps a tidy catalog tidy, and the lists that the operation
/// carries free of repetitions.
pub(crate) proof fn lemma_advance_stays_neat(catalog: Catalog, step: CreateTrackStep)
    requires
        catalog.tidy(),
        neat(step),
    ensures
        catalog.advance(step).0.tidy(),
        neat(catalog.advance(step).1),
{
    match step {
        Step::Done(_) => {},
        Step::Pending(task, request) => {
            lemma_writes_keep_tidy(catalog, request);
            let (next, response) = catalog.serve(request);
            match (task, response) {
                (CreateTrackView::FindingRelease { .. }, ResponseView::Releases(Ok(found))) => {
                    if request is FindReleases {
                        lemma_found_is_neat(catalog, request);
                    }
                },
                (
                    CreateTrackView::FindingArtist { track, created, release },
                    ResponseView::Artists(Ok(found)),
                ) => {
                    if request is FindArtists {
                        lemma_found_is_neat(catalog, request);
                    }
                    if release is Some {
                        law_with_title_is_a_union(release->0.metadata.tracks, track.title);
                    }
                    let artist = last_found(found);
                    if artist is Some && track.release is Some && request is FindArtists {
                        law_with_title_is_a_union(
                            artist->0.metadata.releases,
                            track.release->0,
                        );
                    }
                },
                (
                    CreateTrackView::WritingRelease { track, created, artist },
                    ResponseView::Release(Ok(_)),
                ) => {
                    if artist is Some && track.release is Some {
                        law_with_title_is_a_union(
                            artist->0.metadata.releases,
                            track.release->0,
                        );
                    }
                },
                _ => {},
            }
        },
    }
}

/// In a tidy catalog, the last entry that a search for releases or for
/// artists finds names no title twice.
pub(crate) proof fn lemma_found_is_neat(catalog: Catalog, request: RequestView)
    requires
        catalog.tidy(),
    ensures
        catalog.serve(request).1 matches ResponseView::Releases(Ok(found)) ==> (last_found(
            found,
        ) matches Some(item) ==> distinct_titles(item.metadata.tracks)),
        catalog.serve(request).1 matches ResponseView::Artists(Ok(found)) ==> (last_found(
            found,
        ) matches Some(item) ==> distinct_titles(item.metadata.releases)),
{
    match request {
        RequestView::FindReleases(filter) => {
            lemma_last_found_is_a_row(catalog.releases, filter.conditions());
            let found = last_found(catalog.releases.find(filter.conditions()));
            if found is Some {
                let k = choose|k: int|
                    0 <= k < catalog.releases.rows.len() && catalog.releases.rows[k] == found->0;
                assert(distinct_titles(catalog.releases.rows[k].metadata.tracks));
            }
        },
        RequestView::FindArtists(filter) => {
            lemma_last_found_is_a_row(catalog.artists, filter.conditions());
            let found = last_found(catalog.artists.find(filter.conditions()));
            if found is Some {
                let k = choose|k: int|
                    0 <= k < catalog.artists.rows.len() && catalog.artists.rows[k] == found->0;
                assert(distinct_titles(catalog.artists.rows[k].metadata.releases));
            }
        },
        _ => {},
    }
}

/// Taking a track into the catalog comes to an end within five answers of
/// the store, and where it ends well the store lists the track.
pub proof fn law_upsert_comes_to_an_end(catalog: Catalog, track: TrackView)
    ensures
        catalog.upsert(track).1 is Done,
        catalog.upsert(track).1 matches Step::Done(Ok(_)) ==> catalog.upsert(track).0.lists_track(
            track,
        ),
{
    lemma_upsert_stays_on_course(catalog, track);
}

/// The whole operation is on course at its end, and at its end it is.
pub(crate) proof fn lemma_upsert_stays_on_course(catalog: Catalog, track: TrackView)
    ensures
        catalog.upsert(track).1 is Done,
        on_course(catalog.upsert(track).0, track, catalog.upsert(track).1),
        !catalog.holds_track(track) ==> catalog.upsert(track).0.lists_track(track),
{
    let begun = CreateTrackView::begin(track);
    let start: CreateTrackStep = Step::Pending(begun.0, begun.1);
    let first = catalog.advance(start);
    let second = first.0.advance(first.1);
    let third = second.0.advance(second.1);
    let fourth = third.0.advance(third.1);
    lemma_advance_stays_on_course(catalog, track, start);
    lemma_advance_stays_on_course(first.0, track, first.1);
    lemma_advance_stays_on_course(second.0, track, second.1);
    lemma_advance_stays_on_course(third.0, track, third.1);
    lemma_advance_stays_on_course(fourth.0, track, fourth.1);
    if !catalog.holds_track(track) {
        let (tracks, row) = catalog.tracks.create(track);
        let last = catalog.tracks.rows.len() as int;
        assert(tracks.rows[last] == row);
        assert(first.0.tracks.rows[last].metadata == track);
        assert(first.0.lists_track(track));
        lemma_kept_while_on_course(first.0, track, first.1);
        lemma_kept_while_on_course(second.0, track, second.1);
        lemma_kept_while_on_course(third.0, track, third.1);
        lemma_kept_while_on_course(fourth.0, track, fourth.1);
    }
}

/// A track that the store holds already is refused, and the store stays as it
/// is: nothing is written for a file that was catalogued before.
pub(crate) proof fn lemma_duplicate_is_refused(catalog: Catalog, track: TrackView)
    requires
        catalog.holds_track(track),
    ensures
        catalog.upsert(track).0 == catalog,
        catalog.upsert(track).1 matches Step::Done(Err(TrackServiceErrorView::Internal(_))),
{
}

/// Taking the same track into the catalog a second time changes nothing,
/// where the track names its artist and its release: the store refuses the
/// track, the operation fails, and every release and every artist lists what
/// it listed after the first time.
pub proof fn law_upsert_again_changes_nothing(catalog: Catalog, track: TrackView)
    requires
        track.artist is Some,
        track.release is Some,
    ensures
        ({
            let once = catalog.upsert(track);
            let twice = once.0.upsert(track);
            &&& twice.0 == once.0
            &&& twice.0.releases == once.0.releases
            &&& twice.0.artists == once.0.artists
            &&& twice.1 matches Step::Done(Err(TrackServiceErrorView::Internal(_)))
        }),
{
    let once = catalog.upsert(track);
    lemma_upsert_stays_on_course(catalog, track);
    if catalog.holds_track(track) {
        lemma_duplicate_is_refused(catalog, track);
    } else {
        let i = choose|i: int|
            0 <= i < once.0.tracks.rows.len() && (#[trigger] once.0.tracks.rows[i]).metadata
                == track;
        assert(same_entry(once.0.tracks.rows[i].metadata, track));
    }
    lemma_duplicate_is_refused(once.0, track);
}

/// Past the creation of the track, a step leaves a stored track in place.
pub(crate) proof fn lemma_kept_while_on_course(catalog: Catalog, track: TrackView, step: CreateTrackStep)
    requires
        on_course(catalog, track, step),
        catalog.lists_track(track),
        !(step matches Step::Pending(CreateTrackView::Creating { .. }, _)),
    ensures
        catalog.advance(step).0.lists_track(track),
{
    match step {
        Step::Done(_) => {},
        Step::Pending(task, request) => {
            lemma_serving_keeps_tracks(catalog, request, track);
        },
    }
}

/// Taking a track into the catalog appends no title twice: where no release
/// lists a track twice and no artist a release before, none does afterwards.
pub proof fn law_upsert_keeps_lists_distinct(catalog: Catalog, track: TrackView)
    requires
        catalog.tidy(),
    ensures
        catalog.upsert(track).0.tidy(),
{
    let begun = CreateTrackView::begin(track);
    let start: CreateTrackStep = Step::Pending(begun.0, begun.1);
    let first = catalog.advance(start);
    let second = first.0.advance(first.1);
    let third = second.0.advance(second.1);
    let fourth = third.0.advance(third.1);
    lemma_advance_stays_neat(catalog, start);
    lemma_advance_stays_neat(first.0, first.1);
    lemma_advance_stays_neat(second.0, second.1);
    lemma_advance_stays_neat(third.0, third.1);
    lemma_advance_stays_neat(fourth.0, fourth.1);
}

/// The catalog that holds one track of a release by an artist, the release
/// with that track, and the artist with no release yet.
pub open spec fn after_first_track(track: TrackView) -> Catalog {
    Catalog {
        artists: Table {
            rows: seq![
                CatalogItem {
                    id: 1,
                    favorite: false,
                    metadata: ArtistView { name: track.artist->0, releases: Seq::empty() },
                },
            ],
        },
        releases: Table {
            rows: seq![
                CatalogItem {
                    id: 1,
                    favorite: false,
                    metadata: ReleaseView {
                        title: track.release->0,
                        tracks: seq![track.title],
                        artist: track.artist,
                    },
                },
            ],
        },
        tracks: Table { rows: seq![CatalogItem { id: 1, favorite: false, metadata: track }] },
    }
}

/// The first track of a release by an artist, taken into an empty catalog,
/// brings its release and its artist with it: the release lists the track,
/// and the artist lists no release yet.
pub proof fn law_first_track_brings_release_and_artist(track: TrackView)
    requires
        track.release is Some,
        track.artist is Some,
    ensures
        Catalog::empty().upsert(track).0 == after_first_track(track),
        Catalog::empty().upsert(track).1 matches Step::Done(Ok(_)),
{
    let empty = Catalog::empty();
    let row = CatalogItem { id: 1i64, favorite: false, metadata: track };
    let begun = CreateTrackView::begin(track);
    let first = empty.advance(Step::Pending(begun.0, begun.1));
    assert(!empty.holds_track(track));
    assert(empty.tracks.highest() == 0);
    assert(first.0.tracks.rows =~= seq![row]);
    assert(first.1 is Pending);
    let second = first.0.advance(first.1);
    lemma_find_among_few(
        row,
        (ReleaseFilterView { title: track.release, artist: None }).conditions(),
    );
    assert(second.0 == first.0);
    let third = second.0.advance(second.1);
    lemma_find_among_few(row, (ArtistFilterView { name: track.artist, track: None }).conditions());
    assert(third.0 == first.0);
    let fourth = third.0.advance(third.1);
    assert(third.0.releases.highest() == 0);
    assert(fourth.0.releases.rows =~= after_first_track(track).releases.rows);
    let fifth = fourth.0.advance(fourth.1);
    assert(fourth.0.artists.highest() == 0);
    assert(fifth.0.artists.rows =~= after_first_track(track).artists.rows);
    assert(fifth.0.tracks.rows =~= after_first_track(track).tracks.rows);
}

/// A second track of the same release by the same artist joins what is
/// there: afterwards the catalog holds one artist, which lists the release,
/// one release, which lists both tracks in the order in which they came, and
/// two tracks.
pub proof fn law_second_track_joins_release_and_artist(first: TrackView, second: TrackView)
    requires
        first.release is Some,
        first.artist is Some,
        second.release == first.release,
        second.artist == first.artist,
        second.title != first.title,
    ensures
        ({
            let catalog = Catalog::empty().upsert(first).0.upsert(second).0;
            &&& catalog.artists.rows.len() == 1
            &&& catalog.artists.rows[0].metadata == ArtistView {
                name: first.artist->0,
                releases: seq![first.release->0],
            }
            &&& catalog.releases.rows.len() == 1
            &&& catalog.releases.rows[0].metadata == ReleaseView {
                title: first.release->0,
                tracks: seq![first.title, second.title],
                artist: first.artist,
            }
            &&& catalog.tracks.rows.len() == 2
            &&& catalog.tracks.rows[0].metadata == first
            &&& catalog.tracks.rows[1].metadata == second
        }),
{
    law_first_track_brings_release_and_artist(first);
    let before = after_first_track(first);
    let release = before.releases.rows[0];
    let artist = before.artists.rows[0];
    let stored = before.tracks.rows[0];
    let begun = CreateTrackView::begin(second);
    let one = before.advance(Step::Pending(begun.0, begun.1));
    assert(!before.holds_track(second)) by {
        if before.holds_track(second) {
            let i = choose|i: int|
                0 <= i < before.tracks.rows.len() && same_entry(
                    (#[trigger] before.tracks.rows[i]).metadata,
                    second,
                );
            assert(before.tracks.rows[i] == stored);
        }
    }
    assert(before.tracks.highest() == 1) by {
        assert(before.tracks.rows.drop_last() =~= Seq::empty());
        reveal_with_fuel(Table::highest, 2);
    }
    let row = CatalogItem { id: 2i64, favorite: false, metadata: second };
    assert(one.0.tracks.rows =~= seq![stored, row]);
    assert(one.0.releases == before.releases);
    assert(one.0.artists == before.artists);
    let by_title = (ReleaseFilterView { title: second.release, artist: None }).conditions();
    let title_is = PredicateView {
        field: Field::Title,
        operator: Operator::Like,
        value: first.release->0,
    };
    assert(by_title =~= seq![title_is]);
    law_text_matches_its_own_pattern(first.release->0);
    assert(meets(by_title, release.metadata)) by {
        assert(by_title[0] == title_is);
    }
    lemma_find_among_few(release, by_title);
    let two = one.0.advance(one.1);
    assert(two.0 == one.0);
    let by_name = (ArtistFilterView { name: second.artist, track: None }).conditions();
    let name_is = PredicateView {
        field: Field::Name,
        operator: Operator::Like,
        value: first.artist->0,
    };
    assert(by_name =~= seq![name_is]);
    law_text_matches_its_own_pattern(first.artist->0);
    assert(meets(by_name, artist.metadata)) by {
        assert(by_name[0] == name_is);
    }
    lemma_find_among_few(artist, by_name);
    let three = two.0.advance(two.1);
    assert(three.0 == one.0);
    assert(with_title(seq![first.title], second.title) =~= seq![first.title, second.title]) by {
        let list = seq![first.title];
        if list.contains(second.title) {
            let i = choose|i: int| 0 <= i < list.len() && list[i] == second.title;
            assert(list[i] == first.title);
        }
    }
    let four = three.0.advance(three.1);
    assert(four.0.releases.rows.len() == 1);
    assert(four.0.releases.rows[0].metadata.tracks == seq![first.title, second.title]);
    assert(with_title(Seq::<Seq<char>>::empty(), first.release->0) =~= seq![first.release->0]) by {
        let none = Seq::<Seq<char>>::empty();
        assert(!none.contains(first.release->0));
    }
    let five = four.0.advance(four.1);
    assert(five.0.artists.rows.len() == 1);
    assert(five.0.artists.rows[0].metadata.releases == seq![first.release->0]);
    assert(five.0.tracks == one.0.tracks);
    assert(five.0.releases == four.0.releases);
}

} // verus!
