//! The catalog's operations. Each one is a conversation with the store: the
//! operation says what it wants done, is told how that went, and says what it
//! wants next, until it has a result. Whoever holds the store runs the
//! conversation; every decision in it is made here.

use vstd::prelude::*;
use crate::model::artist::{Artist, ArtistView};
use crate::model::release::{Release, ReleaseView};
use crate::model::track::{Track, TrackView};
use crate::model::CatalogItem;
use crate::repository::artist::{ArtistFilter, ArtistFilterView};
use crate::repository::release::{ReleaseFilter, ReleaseFilterView};
use crate::repository::track::{TrackFilter, TrackFilterView};
use crate::repository::{RepositoryError, RepositoryErrorView};

pub mod artist;
pub mod release;
pub mod sync;
pub mod track;

verus! {

/// What an operation asks of the store.
#[derive(Debug)]
pub enum Request {
    CreateTrack(Track),
    FindTracks(TrackFilter),
    UpdateTrack(CatalogItem<Track>),
    CreateRelease(Release),
    FindReleases(ReleaseFilter),
    UpdateRelease(CatalogItem<Release>),
    CreateArtist(Artist),
    FindArtists(ArtistFilter),
    UpdateArtist(CatalogItem<Artist>),
}

/// What a [`Request`] holds, as mathematical values.
pub enum RequestView {
    CreateTrack(TrackView),
    FindTracks(TrackFilterView),
    UpdateTrack(CatalogItem<TrackView>),
    CreateRelease(ReleaseView),
    FindReleases(ReleaseFilterView),
    UpdateRelease(CatalogItem<ReleaseView>),
    CreateArtist(ArtistView),
    FindArtists(ArtistFilterView),
    UpdateArtist(CatalogItem<ArtistView>),
}

impl View for Request {
    type V = RequestView;

    open spec fn view(&self) -> RequestView {
        match self {
            Request::CreateTrack(track) => RequestView::CreateTrack(track@),
            Request::FindTracks(filter) => RequestView::FindTracks(filter@),
            Request::UpdateTrack(item) => RequestView::UpdateTrack(item@),
            Request::CreateRelease(release) => RequestView::CreateRelease(release@),
            Request::FindReleases(filter) => RequestView::FindReleases(filter@),
            Request::UpdateRelease(item) => RequestView::UpdateRelease(item@),
            Request::CreateArtist(artist) => RequestView::CreateArtist(artist@),
            Request::FindArtists(filter) => RequestView::FindArtists(filter@),
            Request::UpdateArtist(item) => RequestView::UpdateArtist(item@),
        }
    }
}

impl DeepView for Request {
    type V = RequestView;

    open spec fn deep_view(&self) -> RequestView {
        self@
    }
}

/// How the store answers a [`Request`]: with the entry that was written, or
/// with the entries that were found, or with the reason why it failed.
#[derive(Debug)]
pub enum Response {
    Track(Result<CatalogItem<Track>, RepositoryError>),
    Tracks(Result<Vec<CatalogItem<Track>>, RepositoryError>),
    Release(Result<CatalogItem<Release>, RepositoryError>),
    Releases(Result<Vec<CatalogItem<Release>>, RepositoryError>),
    Artist(Result<CatalogItem<Artist>, RepositoryError>),
    Artists(Result<Vec<CatalogItem<Artist>>, RepositoryError>),
}

/// What a [`Response`] holds, as mathematical values.
pub enum ResponseView {
    Track(Result<CatalogItem<TrackView>, RepositoryErrorView>),
    Tracks(Result<Seq<CatalogItem<TrackView>>, RepositoryErrorView>),
    Release(Result<CatalogItem<ReleaseView>, RepositoryErrorView>),
    Releases(Result<Seq<CatalogItem<ReleaseView>>, RepositoryErrorView>),
    Artist(Result<CatalogItem<ArtistView>, RepositoryErrorView>),
    Artists(Result<Seq<CatalogItem<ArtistView>>, RepositoryErrorView>),
}

/// The view of a result: the view of what it holds either way.
pub open spec fn outcome_view<T: DeepView, E: DeepView>(outcome: Result<T, E>) -> Result<
    T::V,
    E::V,
> {
    match outcome {
        Ok(value) => Ok(value.deep_view()),
        Err(error) => Err(error.deep_view()),
    }
}

impl View for Response {
    type V = ResponseView;

    open spec fn view(&self) -> ResponseView {
        match self {
            Response::Track(outcome) => ResponseView::Track(outcome_view(*outcome)),
            Response::Tracks(outcome) => ResponseView::Tracks(outcome_view(*outcome)),
            Response::Release(outcome) => ResponseView::Release(outcome_view(*outcome)),
            Response::Releases(outcome) => ResponseView::Releases(outcome_view(*outcome)),
            Response::Artist(outcome) => ResponseView::Artist(outcome_view(*outcome)),
            Response::Artists(outcome) => ResponseView::Artists(outcome_view(*outcome)),
        }
    }
}

impl DeepView for Response {
    type V = ResponseView;

    open spec fn deep_view(&self) -> ResponseView {
        self@
    }
}

impl ResponseView {
    /// The failure that the response reports, if it reports one.
    pub open spec fn failure(self) -> Option<RepositoryErrorView> {
        match self {
            ResponseView::Track(Err(error)) => Some(error),
            ResponseView::Tracks(Err(error)) => Some(error),
            ResponseView::Release(Err(error)) => Some(error),
            ResponseView::Releases(Err(error)) => Some(error),
            ResponseView::Artist(Err(error)) => Some(error),
            ResponseView::Artists(Err(error)) => Some(error),
            _ => None,
        }
    }

    /// Why an operation that cannot go on after this response has failed: in
    /// the store's words where the response reports a failure, and otherwise
    /// because the response answers a request that the operation did not
    /// make.
    pub open spec fn complaint(self) -> Seq<char> {
        match self.failure() {
            Some(error) => error.message(),
            None => UNEXPECTED_RESPONSE@,
        }
    }
}

/// What an operation reports when the store answers a request that the
/// operation did not make.
pub const UNEXPECTED_RESPONSE: &'static str = "the store answered a request that was not made";

impl Response {
    /// Why an operation that cannot go on after this response has failed.
    pub fn complaint(&self) -> (text: String)
        ensures
            text@ == self@.complaint(),
    {
        match self {
            Response::Track(Err(error)) => error.message(),
            Response::Tracks(Err(error)) => error.message(),
            Response::Release(Err(error)) => error.message(),
            Response::Releases(Err(error)) => error.message(),
            Response::Artist(Err(error)) => error.message(),
            Response::Artists(Err(error)) => error.message(),
            _ => UNEXPECTED_RESPONSE.to_owned(),
        }
    }
}

/// Where an operation stands after a response: it goes on with a request, or
/// it has its result.
#[derive(Debug)]
pub enum Progress<Task, Output, Error> {
    /// The operation goes on: the request is to be put to the store, and the
    /// store's answer handed to the task.
    Pending(Task, Request),
    /// The operation is over.
    Done(Result<Output, Error>),
}

/// What a [`Progress`] holds, as mathematical values.
pub enum Step<Task, Output, Error> {
    Pending(Task, RequestView),
    Done(Result<Output, Error>),
}

impl<Task: DeepView, Output: DeepView, Error: DeepView> DeepView for Progress<
    Task,
    Output,
    Error,
> {
    type V = Step<Task::V, Output::V, Error::V>;

    open spec fn deep_view(&self) -> Step<Task::V, Output::V, Error::V> {
        match self {
            Progress::Pending(task, request) => Step::Pending(task.deep_view(), request@),
            Progress::Done(outcome) => Step::Done(outcome_view(*outcome)),
        }
    }
}

/// An operation in progress.
pub trait Task: Sized {
    /// What the operation yields when it succeeds.
    type Output;

    /// What the operation yields when it fails.
    type Error;

    /// Takes the store's answer to the request that the operation made last,
    /// and says how the operation goes on.
    fn resume(self, response: Response) -> Progress<Self, Self::Output, Self::Error>;
}

/// The last of the entries that a search found, if it found any.
pub open spec fn last_found<T>(found: Seq<T>) -> Option<T> {
    if found.len() == 0 {
        None
    } else {
        Some(found.last())
    }
}

/// The first of the entries that a search found, if it found any.
pub open spec fn first_found<T>(found: Seq<T>) -> Option<T> {
    if found.len() == 0 {
        None
    } else {
        Some(found.first())
    }
}

/// Takes the last of the entries that a search found, if it found any.
pub fn take_last<T: DeepView>(found: Vec<T>) -> (last: Option<T>)
    ensures
        last.deep_view() == last_found(found.deep_view()),
{
    let mut found = found;
    found.pop()
}

/// Takes the first of the entries that a search found, if it found any.
pub fn take_first<T: DeepView>(found: Vec<T>) -> (first: Option<T>)
    ensures
        first.deep_view() == first_found(found.deep_view()),
{
    let mut found = found;
    if found.len() == 0 {
        None
    } else {
        Some(found.swap_remove(0))
    }
}

} // verus!
