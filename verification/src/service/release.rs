//! Operations on releases.

use vstd::prelude::*;
use crate::model::release::{Release, ReleaseView};
use crate::model::CatalogItem;
use crate::repository::release::{ReleaseFilter, ReleaseFilterView};
use crate::service::{
    first_found, take_first, Progress, Request, RequestView, Response, ResponseView, Step, Task,
};

verus! {

/// Why an operation on releases failed.
#[derive(Debug)]
pub enum ReleaseServiceError {
    /// No release answers the description.
    NotFound,
    /// The store failed; the text says how.
    Internal(String),
}

/// What a [`ReleaseServiceError`] holds, as mathematical values.
pub enum ReleaseServiceErrorView {
    NotFound,
    Internal(Seq<char>),
}

impl View for ReleaseServiceError {
    type V = ReleaseServiceErrorView;

    open spec fn view(&self) -> ReleaseServiceErrorView {
        match self {
            ReleaseServiceError::NotFound => ReleaseServiceErrorView::NotFound,
            ReleaseServiceError::Internal(detail) => ReleaseServiceErrorView::Internal(detail@),
        }
    }
}

impl DeepView for ReleaseServiceError {
    type V = ReleaseServiceErrorView;

    open spec fn deep_view(&self) -> ReleaseServiceErrorView {
        self@
    }
}

impl ReleaseServiceErrorView {
    /// The error in words.
    pub open spec fn message(self) -> Seq<char> {
        match self {
            ReleaseServiceErrorView::NotFound => "release was not found"@,
            ReleaseServiceErrorView::Internal(detail) => detail,
        }
    }
}

impl ReleaseServiceError {
    /// The error in words.
    pub fn message(&self) -> (text: String)
        ensures
            text@ == self@.message(),
    {
        match self {
            ReleaseServiceError::NotFound => "release was not found".to_owned(),
            ReleaseServiceError::Internal(detail) => detail.clone(),
        }
    }
}

/// The search that `get_release` makes: for the releases whose title contains
/// `title`.
pub open spec fn release_by_title(title: Seq<char>) -> ReleaseFilterView {
    ReleaseFilterView { title: Some(title), artist: None }
}

/// Getting one release: a search is made, and the first release that it finds is
/// the result.
#[derive(Debug)]
pub struct GetRelease {}

impl DeepView for GetRelease {
    type V = GetRelease;

    open spec fn deep_view(&self) -> GetRelease {
        *self
    }
}

impl GetRelease {
    /// What getting a release yields for `response`: the first release found;
    /// that there is none where the search found nothing; and a failure
    /// where the search failed or the response answers another request.
    pub open spec fn outcome(response: ResponseView) -> Result<
        CatalogItem<ReleaseView>,
        ReleaseServiceErrorView,
    > {
        match response {
            ResponseView::Releases(Ok(found)) => match first_found(found) {
                Some(item) => Ok(item),
                None => Err(ReleaseServiceErrorView::NotFound),
            },
            _ => Err(ReleaseServiceErrorView::Internal(response.complaint())),
        }
    }
}

impl Task for GetRelease {
    type Output = CatalogItem<Release>;

    type Error = ReleaseServiceError;

    fn resume(self, response: Response) -> (progress: Progress<
        GetRelease,
        CatalogItem<Release>,
        ReleaseServiceError,
    >)
        ensures
            progress.deep_view() == Step::<
                GetRelease,
                CatalogItem<ReleaseView>,
                ReleaseServiceErrorView,
            >::Done(GetRelease::outcome(response@)),
    {
        match response {
            Response::Releases(Ok(found)) => match take_first(found) {
                Some(item) => Progress::Done(Ok(item)),
                None => Progress::Done(Err(ReleaseServiceError::NotFound)),
            },
            response => Progress::Done(Err(ReleaseServiceError::Internal(response.complaint()))),
        }
    }
}

/// Listing releases: a search is made, and what it finds is the result.
#[derive(Debug)]
pub struct ListReleases {}

impl DeepView for ListReleases {
    type V = ListReleases;

    open spec fn deep_view(&self) -> ListReleases {
        *self
    }
}

impl ListReleases {
    /// What listing releases yields for `response`: the releases found, in the
    /// order in which the store gave them; and a failure where the search
    /// failed or the response answers another request.
    pub open spec fn outcome(response: ResponseView) -> Result<
        Seq<CatalogItem<ReleaseView>>,
        ReleaseServiceErrorView,
    > {
        match response {
            ResponseView::Releases(Ok(found)) => Ok(found),
            _ => Err(ReleaseServiceErrorView::Internal(response.complaint())),
        }
    }
}

impl Task for ListReleases {
    type Output = Vec<CatalogItem<Release>>;

    type Error = ReleaseServiceError;

    fn resume(self, response: Response) -> (progress: Progress<
        ListReleases,
        Vec<CatalogItem<Release>>,
        ReleaseServiceError,
    >)
        ensures
            progress.deep_view() == Step::<
                ListReleases,
                Seq<CatalogItem<ReleaseView>>,
                ReleaseServiceErrorView,
            >::Done(ListReleases::outcome(response@)),
    {
        match response {
            Response::Releases(Ok(found)) => Progress::Done(Ok(found)),
            response => Progress::Done(Err(ReleaseServiceError::Internal(response.complaint()))),
        }
    }
}

/// The operations on releases.
#[derive(Debug, Clone, Copy)]
pub struct ReleaseService {}

impl ReleaseService {
    /// The operations on releases.
    pub fn new() -> (service: Self) {
        ReleaseService { }
    }

    /// Begins getting the first release that a search by `title` finds.
    pub fn get_release(&self, title: &str) -> (begun: (GetRelease, Request))
        ensures
            begun.1@ == RequestView::FindReleases(release_by_title(title@)),
    {
        let filter = ReleaseFilter { title: Some(title.to_owned()), artist: None };
        (GetRelease { }, Request::FindReleases(filter))
    }

    /// Begins listing the releases that meet `filter`.
    pub fn list_releases(&self, filter: ReleaseFilter) -> (begun: (ListReleases, Request))
        ensures
            begun.1@ == RequestView::FindReleases(filter@),
    {
        (ListReleases { }, Request::FindReleases(filter))
    }
}

} // verus!
