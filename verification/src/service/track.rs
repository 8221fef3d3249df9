//! Operations on tracks, among them the one that takes a newly found track
//! into the catalog and links it to its release and its artist.

use vstd::prelude::*;
use crate::model::artist::{Artist, ArtistView};
use crate::model::release::{Release, ReleaseView};
use crate::model::track::{Track, TrackView};
use crate::model::{copy_text, with_title, CatalogItem};
use crate::repository::artist::{ArtistFilter, ArtistFilterView};
use crate::repository::release::{ReleaseFilter, ReleaseFilterView};
use crate::repository::track::{TrackFilter, TrackFilterView};
use crate::service::{
    first_found, last_found, take_first, take_last, Progress, Request, RequestView, Response,
    ResponseView, Step, Task,
};

verus! {

/// Why an operation on tracks failed.
#[derive(Debug)]
pub enum TrackServiceError {
    /// No track answers the description.
    NotFound,
    /// The store failed; the text says how.
    Internal(String),
}

/// What a [`TrackServiceError`] holds, as mathematical values.
pub enum TrackServiceErrorView {
    NotFound,
    Internal(Seq<char>),
}

impl View for TrackServiceError {
    type V = TrackServiceErrorView;

    open spec fn view(&self) -> TrackServiceErrorView {
        match self {
            TrackServiceError::NotFound => TrackServiceErrorView::NotFound,
            TrackServiceError::Internal(detail) => TrackServiceErrorView::Internal(detail@),
        }
    }
}

impl DeepView for TrackServiceError {
    type V = TrackServiceErrorView;

    open spec fn deep_view(&self) -> TrackServiceErrorView {
        self@
    }
}

impl TrackServiceErrorView {
    /// The error in words.
    pub open spec fn message(self) -> Seq<char> {
        match self {
            TrackServiceErrorView::NotFound => "artist was not found"@,
            TrackServiceErrorView::Internal(detail) => detail,
        }
    }
}

impl TrackServiceError {
    /// The error in words.
    pub fn message(&self) -> (text: String)
        ensures
            text@ == self@.message(),
    {
        match self {
            TrackServiceError::NotFound => "artist was not found".to_owned(),
            TrackServiceError::Internal(detail) => detail.clone(),
        }
    }
}

/// The search for the release that `track` belongs to: by the name of the
/// track's release alone, whoever the release is credited to.
pub open spec fn release_lookup(track: TrackView) -> ReleaseFilterView {
    ReleaseFilterView { title: track.release, artist: None }
}

/// The search for the artist that `track` is credited to: by name.
pub open spec fn artist_lookup(track: TrackView) -> ArtistFilterView {
    ArtistFilterView { name: track.artist, track: None }
}

/// What is written to the releases once `track` is stored as `created`: where
/// the track names no release, nothing; where the search found a release,
/// that release with the track's title among its tracks; and otherwise a new
/// release of that name, credited to the track's artist, with the stored
/// track's title as its only track.
pub open spec fn release_write(
    track: TrackView,
    created: CatalogItem<TrackView>,
    found: Option<CatalogItem<ReleaseView>>,
) -> Option<RequestView> {
    match track.release {
        None => None,
        Some(name) => Some(
            match found {
                Some(item) => RequestView::UpdateRelease(
                    CatalogItem {
                        id: item.id,
                        favorite: item.favorite,
                        metadata: ReleaseView {
                            title: item.metadata.title,
                            tracks: with_title(item.metadata.tracks, track.title),
                            artist: item.metadata.artist,
                        },
                    },
                ),
                None => RequestView::CreateRelease(
                    ReleaseView {
                        title: name,
                        tracks: seq![created.metadata.title],
                        artist: track.artist,
                    },
                ),
            },
        ),
    }
}

/// What is written to the artists for `track`: where the track names no
/// artist, nothing; where the search found an artist, that artist with the
/// name of the track's release, if it names one, among its releases; and
/// otherwise a new artist of that name with no release yet.
pub open spec fn artist_write(
    track: TrackView,
    found: Option<CatalogItem<ArtistView>>,
) -> Option<RequestView> {
    match track.artist {
        None => None,
        Some(name) => Some(
            match found {
                Some(item) => RequestView::UpdateArtist(
                    CatalogItem {
                        id: item.id,
                        favorite: item.favorite,
                        metadata: ArtistView {
                            name: item.metadata.name,
                            releases: match track.release {
                                Some(release) => with_title(item.metadata.releases, release),
                                None => item.metadata.releases,
                            },
                        },
                    },
                ),
                None => RequestView::CreateArtist(
                    ArtistView { name: name, releases: Seq::empty() },
                ),
            },
        ),
    }
}

/// Taking a track into the catalog, step by step: the track is stored, its
/// release and its artist are looked up, and then the release and the artist
/// are written, each updated where the search found one and created where it
/// did not.
#[derive(Debug)]
pub enum CreateTrack {
    /// The track is being stored.
    Creating { track: Track },
    /// The track is stored; its release is being looked up.
    FindingRelease { track: Track, created: CatalogItem<Track> },
    /// Its artist is being looked up.
    FindingArtist {
        track: Track,
        created: CatalogItem<Track>,
        release: Option<CatalogItem<Release>>,
    },
    /// Its release is being written.
    WritingRelease {
        track: Track,
        created: CatalogItem<Track>,
        artist: Option<CatalogItem<Artist>>,
    },
    /// Its artist is being written.
    WritingArtist { created: CatalogItem<Track> },
}

/// What a [`CreateTrack`] holds, as mathematical values.
pub enum CreateTrackView {
    Creating { track: TrackView },
    FindingRelease { track: TrackView, created: CatalogItem<TrackView> },
    FindingArtist {
        track: TrackView,
        created: CatalogItem<TrackView>,
        release: Option<CatalogItem<ReleaseView>>,
    },
    WritingRelease {
        track: TrackView,
        created: CatalogItem<TrackView>,
        artist: Option<CatalogItem<ArtistView>>,
    },
    WritingArtist { created: CatalogItem<TrackView> },
}

impl DeepView for CreateTrack {
    type V = CreateTrackView;

    open spec fn deep_view(&self) -> CreateTrackView {
        match self {
            CreateTrack::Creating { track } => CreateTrackView::Creating { track: track@ },
            CreateTrack::FindingRelease { track, created } => CreateTrackView::FindingRelease {
                track: track@,
                created: created@,
            },
            CreateTrack::FindingArtist { track, created, release } => {
                CreateTrackView::FindingArtist {
                    track: track@,
                    created: created@,
                    release: release.deep_view(),
                }
            },
            CreateTrack::WritingRelease { track, created, artist } => {
                CreateTrackView::WritingRelease {
                    track: track@,
                    created: created@,
                    artist: artist.deep_view(),
                }
            },
            CreateTrack::WritingArtist { created } => CreateTrackView::WritingArtist {
                created: created@,
            },
        }
    }
}

/// How taking a track into the catalog goes on after a step.
pub type CreateTrackStep = Step<CreateTrackView, CatalogItem<TrackView>, TrackServiceErrorView>;

impl CreateTrackView {
    /// How the operation begins: the track is to be stored.
    pub open spec fn begin(track: TrackView) -> (CreateTrackView, RequestView) {
        (CreateTrackView::Creating { track }, RequestView::CreateTrack(track))
    }

    /// How the operation goes on once both searches are answered: with the
    /// write to the releases if there is one to make, and otherwise as after
    /// that write.
    pub open spec fn after_lookups(
        track: TrackView,
        created: CatalogItem<TrackView>,
        release: Option<CatalogItem<ReleaseView>>,
        artist: Option<CatalogItem<ArtistView>>,
    ) -> CreateTrackStep {
        match release_write(track, created, release) {
            Some(request) => Step::Pending(
                CreateTrackView::WritingRelease { track, created, artist },
                request,
            ),
            None => Self::after_release(track, created, artist),
        }
    }

    /// How the operation goes on once the releases are settled: with the write
    /// to the artists if there is one to make, and otherwise it is over and
    /// yields the stored track.
    pub open spec fn after_release(
        track: TrackView,
        created: CatalogItem<TrackView>,
        artist: Option<CatalogItem<ArtistView>>,
    ) -> CreateTrackStep {
        match artist_write(track, artist) {
            Some(request) => Step::Pending(CreateTrackView::WritingArtist { created }, request),
            None => Step::Done(Ok(created)),
        }
    }

    /// How the operation goes on after `response`. A response that reports a
    /// failure, or that does not answer the request that was made, ends the
    /// operation at once: nothing that was written before is taken back, and
    /// nothing more is written.
    pub open spec fn resume(self, response: ResponseView) -> CreateTrackStep {
        match (self, response) {
            (CreateTrackView::Creating { track }, ResponseView::Track(Ok(created))) => {
                Step::Pending(
                    CreateTrackView::FindingRelease { track, created },
                    RequestView::FindReleases(release_lookup(track)),
                )
            },
            (
                CreateTrackView::FindingRelease { track, created },
                ResponseView::Releases(Ok(found)),
            ) => Step::Pending(
                CreateTrackView::FindingArtist { track, created, release: last_found(found) },
                RequestView::FindArtists(artist_lookup(track)),
            ),
            (
                CreateTrackView::FindingArtist { track, created, release },
                ResponseView::Artists(Ok(found)),
            ) => Self::after_lookups(track, created, release, last_found(found)),
            (
                CreateTrackView::WritingRelease { track, created, artist },
                ResponseView::Release(Ok(_)),
            ) => Self::after_release(track, created, artist),
            (CreateTrackView::WritingArtist { created }, ResponseView::Artist(Ok(_))) => {
                Step::Done(Ok(created))
            },
            _ => Step::Done(Err(TrackServiceErrorView::Internal(response.complaint()))),
        }
    }
}

/// How many answers an operation is away from its end, at most.
pub open spec fn distance(step: CreateTrackStep) -> nat {
    match step {
        Step::Done(_) => 0,
        Step::Pending(CreateTrackView::WritingArtist { .. }, _) => 1,
        Step::Pending(CreateTrackView::WritingRelease { .. }, _) => 2,
        Step::Pending(CreateTrackView::FindingArtist { .. }, _) => 3,
        Step::Pending(CreateTrackView::FindingRelease { .. }, _) => 4,
        Step::Pending(CreateTrackView::Creating { .. }, _) => 5,
    }
}

/// Taking a track into the catalog ends, whatever the store answers: every
/// answer brings the operation nearer to its end, which is five answers away
/// at most when it begins.
pub proof fn law_create_track_ends(
    task: CreateTrackView,
    request: RequestView,
    response: ResponseView,
)
    ensures
        distance(task.resume(response)) < distance(Step::Pending(task, request)),
        distance(Step::Pending(task, request)) <= 5,
{
}

/// A failure ends the operation at once: after an answer that reports one,
/// nothing more is asked of the store, and the operation fails in the store's
/// words. What was written before the failure stays written.
pub proof fn law_create_track_stops_at_a_failure(task: CreateTrackView, response: ResponseView)
    requires
        response.failure() is Some,
    ensures
        task.resume(response) == CreateTrackStep::Done(
            Err(TrackServiceErrorView::Internal(response.failure()->0.message())),
        ),
{
}

impl CreateTrack {
    /// How the operation goes on once both searches are answered.
    fn after_lookups(
        track: Track,
        created: CatalogItem<Track>,
        release: Option<CatalogItem<Release>>,
        artist: Option<CatalogItem<Artist>>,
    ) -> (progress: Progress<CreateTrack, CatalogItem<Track>, TrackServiceError>)
        ensures
            progress.deep_view() == CreateTrackView::after_lookups(
                track@,
                created@,
                release.deep_view(),
                artist.deep_view(),
            ),
    {
        match &track.release {
            None => Self::after_release(track, created, artist),
            Some(name) => {
                let request = match release {
                    Some(item) => {
                        let mut item = item;
                        item.metadata.add_track(track.title.as_str());
                        Request::UpdateRelease(item)
                    },
                    None => {
                        let mut tracks: Vec<String> = Vec::new();
                        tracks.push(created.metadata.title.clone());
                        assert(tracks.deep_view() =~= seq![created@.metadata.title]);
                        Request::CreateRelease(
                            Release {
                                title: name.clone(),
                                artist: copy_text(&track.artist),
                                tracks,
                            },
                        )
                    },
                };
                Progress::Pending(CreateTrack::WritingRelease { track, created, artist }, request)
            },
        }
    }

    /// How the operation goes on once the releases are settled.
    fn after_release(
        track: Track,
        created: CatalogItem<Track>,
        artist: Option<CatalogItem<Artist>>,
    ) -> (progress: Progress<CreateTrack, CatalogItem<Track>, TrackServiceError>)
        ensures
            progress.deep_view() == CreateTrackView::after_release(
                track@,
                created@,
                artist.deep_view(),
            ),
    {
        match track.artist {
            None => Progress::Done(Ok(created)),
            Some(name) => {
                let request = match artist {
                    Some(item) => {
                        let mut item = item;
                        match &track.release {
                            Some(release) => {
                                item.metadata.add_release(release.as_str());
                            },
                            None => {},
                        }
                        Request::UpdateArtist(item)
                    },
                    None => {
                        let releases: Vec<String> = Vec::new();
                        assert(releases.deep_view() =~= Seq::empty());
                        Request::CreateArtist(Artist { name, releases })
                    },
                };
                Progress::Pending(CreateTrack::WritingArtist { created }, request)
            },
        }
    }
}

impl Task for CreateTrack {
    type Output = CatalogItem<Track>;

    type Error = TrackServiceError;

    fn resume(self, response: Response) -> (progress: Progress<
        CreateTrack,
        CatalogItem<Track>,
        TrackServiceError,
    >)
        ensures
            progress.deep_view() == self.deep_view().resume(response@),
    {
        match (self, response) {
            (CreateTrack::Creating { track }, Response::Track(Ok(created))) => {
                let filter = ReleaseFilter { title: copy_text(&track.release), artist: None };
                Progress::Pending(
                    CreateTrack::FindingRelease { track, created },
                    Request::FindReleases(filter),
                )
            },
            (CreateTrack::FindingRelease { track, created }, Response::Releases(Ok(found))) => {
                let filter = ArtistFilter { name: copy_text(&track.artist), track: None };
                let release = take_last(found);
                Progress::Pending(
                    CreateTrack::FindingArtist { track, created, release },
                    Request::FindArtists(filter),
                )
            },
            (
                CreateTrack::FindingArtist { track, created, release },
                Response::Artists(Ok(found)),
            ) => {
                let artist = take_last(found);
                Self::after_lookups(track, created, release, artist)
            },
            (
                CreateTrack::WritingRelease { track, created, artist },
                Response::Release(Ok(_)),
            ) => Self::after_release(track, created, artist),
            (CreateTrack::WritingArtist { created }, Response::Artist(Ok(_))) => {
                Progress::Done(Ok(created))
            },
            (_, response) => Progress::Done(Err(TrackServiceError::Internal(response.complaint()))),
        }
    }
}

/// The search that `get_track` makes: for the tracks whose title contains
/// `name`.
pub open spec fn track_by_name(name: Seq<char>) -> TrackFilterView {
    TrackFilterView { name: Some(name), artist: None, release: None }
}

/// Getting one track: a search is made, and the first track that it finds is
/// the result.
#[derive(Debug)]
pub struct GetTrack {}

impl DeepView for GetTrack {
    type V = GetTrack;

    open spec fn deep_view(&self) -> GetTrack {
        *self
    }
}

impl GetTrack {
    /// What getting a track yields for `response`: the first track found;
    /// that there is none where the search found nothing; and a failure
    /// where the search failed or the response answers another request.
    pub open spec fn outcome(response: ResponseView) -> Result<
        CatalogItem<TrackView>,
        TrackServiceErrorView,
    > {
        match response {
            ResponseView::Tracks(Ok(found)) => match first_found(found) {
                Some(item) => Ok(item),
                None => Err(TrackServiceErrorView::NotFound),
            },
            _ => Err(TrackServiceErrorView::Internal(response.complaint())),
        }
    }
}

impl Task for GetTrack {
    type Output = CatalogItem<Track>;

    type Error = TrackServiceError;

    fn resume(self, response: Response) -> (progress: Progress<
        GetTrack,
        CatalogItem<Track>,
        TrackServiceError,
    >)
        ensures
            progress.deep_view() == Step::<
                GetTrack,
                CatalogItem<TrackView>,
                TrackServiceErrorView,
            >::Done(GetTrack::outcome(response@)),
    {
        match response {
            Response::Tracks(Ok(found)) => match take_first(found) {
                Some(item) => Progress::Done(Ok(item)),
                None => Progress::Done(Err(TrackServiceError::NotFound)),
            },
            response => Progress::Done(Err(TrackServiceError::Internal(response.complaint()))),
        }
    }
}

/// Listing tracks: a search is made, and what it finds is the result.
#[derive(Debug)]
pub struct ListTracks {}

impl DeepView for ListTracks {
    type V = ListTracks;

    open spec fn deep_view(&self) -> ListTracks {
        *self
    }
}

impl ListTracks {
    /// What listing tracks yields for `response`: the tracks found, in the
    /// order in which the store gave them; and a failure where the search
    /// failed or the response answers another request.
    pub open spec fn outcome(response: ResponseView) -> Result<
        Seq<CatalogItem<TrackView>>,
        TrackServiceErrorView,
    > {
        match response {
            ResponseView::Tracks(Ok(found)) => Ok(found),
            _ => Err(TrackServiceErrorView::Internal(response.complaint())),
        }
    }
}

impl Task for ListTracks {
    type Output = Vec<CatalogItem<Track>>;

    type Error = TrackServiceError;

    fn resume(self, response: Response) -> (progress: Progress<
        ListTracks,
        Vec<CatalogItem<Track>>,
        TrackServiceError,
    >)
        ensures
            progress.deep_view() == Step::<
                ListTracks,
                Seq<CatalogItem<TrackView>>,
                TrackServiceErrorView,
            >::Done(ListTracks::outcome(response@)),
    {
        match response {
            Response::Tracks(Ok(found)) => Progress::Done(Ok(found)),
            response => Progress::Done(Err(TrackServiceError::Internal(response.complaint()))),
        }
    }
}

/// Marking a track as a favorite, or taking the mark away: the track is looked
/// up as `get_track` does, and written back with its mark turned over.
#[derive(Debug, Clone, Copy, PartialEq, Eq, Structural)]
pub enum FavoriteTrack {
    /// The track is being looked up.
    Finding,
    /// The track is being written back.
    Writing,
}

impl DeepView for FavoriteTrack {
    type V = FavoriteTrack;

    open spec fn deep_view(&self) -> FavoriteTrack {
        *self
    }
}

impl FavoriteTrack {
    /// How the operation goes on after `response`: once the track is found, it
    /// is written back with the same identity and data and the opposite mark;
    /// once it is written, the operation yields what the store wrote.
    pub open spec fn next(self, response: ResponseView) -> Step<
        FavoriteTrack,
        CatalogItem<TrackView>,
        TrackServiceErrorView,
    > {
        match (self, response) {
            (FavoriteTrack::Finding, ResponseView::Tracks(Ok(found))) => match first_found(found) {
                Some(item) => Step::Pending(
                    FavoriteTrack::Writing,
                    RequestView::UpdateTrack(
                        CatalogItem {
                            id: item.id,
                            favorite: !item.favorite,
                            metadata: item.metadata,
                        },
                    ),
                ),
                None => Step::Done(Err(TrackServiceErrorView::NotFound)),
            },
            (FavoriteTrack::Writing, ResponseView::Track(Ok(item))) => Step::Done(Ok(item)),
            _ => Step::Done(Err(TrackServiceErrorView::Internal(response.complaint()))),
        }
    }
}

impl Task for FavoriteTrack {
    type Output = CatalogItem<Track>;

    type Error = TrackServiceError;

    fn resume(self, response: Response) -> (progress: Progress<
        FavoriteTrack,
        CatalogItem<Track>,
        TrackServiceError,
    >)
        ensures
            progress.deep_view() == self.next(response@),
    {
        match (self, response) {
            (FavoriteTrack::Finding, Response::Tracks(Ok(found))) => match take_first(found) {
                Some(item) => {
                    let mut item = item;
                    item.favorite = !item.favorite;
                    Progress::Pending(FavoriteTrack::Writing, Request::UpdateTrack(item))
                },
                None => Progress::Done(Err(TrackServiceError::NotFound)),
            },
            (FavoriteTrack::Writing, Response::Track(Ok(item))) => Progress::Done(Ok(item)),
            (_, response) => Progress::Done(Err(TrackServiceError::Internal(response.complaint()))),
        }
    }
}

/// The operations on tracks.
#[derive(Debug, Clone, Copy)]
pub struct TrackService {}

impl TrackService {
    /// The operations on tracks.
    pub fn new() -> (service: Self) {
        TrackService { }
    }

    /// Begins taking `track` into the catalog.
    pub fn create_track(&self, track: Track) -> (begun: (CreateTrack, Request))
        ensures
            (begun.0.deep_view(), begun.1@) == CreateTrackView::begin(track@),
    {
        let kept = track.clone();
        (CreateTrack::Creating { track: kept }, Request::CreateTrack(track))
    }

    /// Begins turning over the favorite mark of the first track that a search
    /// by `title` finds.
    pub fn favorite_track(&self, title: &str) -> (begun: (FavoriteTrack, Request))
        ensures
            begun.0 == FavoriteTrack::Finding,
            begun.1@ == RequestView::FindTracks(track_by_name(title@)),
    {
        let filter = TrackFilter { name: Some(title.to_owned()), artist: None, release: None };
        (FavoriteTrack::Finding, Request::FindTracks(filter))
    }

    /// Begins getting the first track that a search by `name` finds.
    pub fn get_track(&self, name: &str) -> (begun: (GetTrack, Request))
        ensures
            begun.1@ == RequestView::FindTracks(track_by_name(name@)),
    {
        let filter = TrackFilter { name: Some(name.to_owned()), artist: None, release: None };
        (GetTrack { }, Request::FindTracks(filter))
    }

    /// Begins listing the tracks that meet `filter`.
    pub fn list_tracks(&self, filter: TrackFilter) -> (begun: (ListTracks, Request))
        ensures
            begun.1@ == RequestView::FindTracks(filter@),
    {
        (ListTracks { }, Request::FindTracks(filter))
    }
}

} // verus!
