//! Operations on artists.

use vstd::prelude::*;
use crate::model::artist::{Artist, ArtistView};
use crate::model::CatalogItem;
use crate::repository::artist::{ArtistFilter, ArtistFilterView};
use crate::service::{
    first_found, take_first, Progress, Request, RequestView, Response, ResponseView, Step, Task,
};

verus! {

/// Why an operation on artists failed.
#[derive(Debug)]
pub enum ArtistServiceError {
    /// No artist answers the description.
    NotFound,
    /// The store failed; the text says how.
    Internal(String),
}

/// What an [`ArtistServiceError`] holds, as mathematical values.
pub enum ArtistServiceErrorView {
    NotFound,
    Internal(Seq<char>),
}

impl View for ArtistServiceError {
    type V = ArtistServiceErrorView;

    open spec fn view(&self) -> ArtistServiceErrorView {
        match self {
            ArtistServiceError::NotFound => ArtistServiceErrorView::NotFound,
            ArtistServiceError::Internal(detail) => ArtistServiceErrorView::Internal(detail@),
        }
    }
}

impl DeepView for ArtistServiceError {
    type V = ArtistServiceErrorView;

    open spec fn deep_view(&self) -> ArtistServiceErrorView {
        self@
    }
}

impl ArtistServiceErrorView {
    /// The error in words.
    pub open spec fn message(self) -> Seq<char> {
        match self {
            ArtistServiceErrorView::NotFound => "artist was not found"@,
            ArtistServiceErrorView::Internal(detail) => detail,
        }
    }
}

impl ArtistServiceError {
    /// The error in words.
    pub fn message(&self) -> (text: String)
        ensures
            text@ == self@.message(),
    {
        match self {
            ArtistServiceError::NotFound => "artist was not found".to_owned(),
            ArtistServiceError::Internal(detail) => detail.clone(),
        }
    }
}

/// The search that `get_artist` makes: for the artists whose name contains
/// `name`.
pub open spec fn artist_by_name(name: Seq<char>) -> ArtistFilterView {
    ArtistFilterView { name: Some(name), track: None }
}

/// Getting one artist: a search is made, and the first artist that it finds is
/// the result.
#[derive(Debug)]
pub struct GetArtist {}

impl DeepView for GetArtist {
    type V = GetArtist;

    open spec fn deep_view(&self) -> GetArtist {
        *self
    }
}

impl GetArtist {
    /// What getting an artist yields for `response`: the first artist found;
    /// that there is none where the search found nothing; and a failure
    /// where the search failed or the response answers another request.
    pub open spec fn outcome(response: ResponseView) -> Result<
        CatalogItem<ArtistView>,
        ArtistServiceErrorView,
    > {
        match response {
            ResponseView::Artists(Ok(found)) => match first_found(found) {
                Some(item) => Ok(item),
                None => Err(ArtistServiceErrorView::NotFound),
            },
            _ => Err(ArtistServiceErrorView::Internal(response.complaint())),
        }
    }
}

impl Task for GetArtist {
    type Output = CatalogItem<Artist>;

    type Error = ArtistServiceError;

    fn resume(self, response: Response) -> (progress: Progress<
        GetArtist,
        CatalogItem<Artist>,
        ArtistServiceError,
    >)
        ensures
            progress.deep_view() == Step::<
                GetArtist,
                CatalogItem<ArtistView>,
                ArtistServiceErrorView,
            >::Done(GetArtist::outcome(response@)),
    {
        match response {
            Response::Artists(Ok(found)) => match take_first(found) {
                Some(item) => Progress::Done(Ok(item)),
                None => Progress::Done(Err(ArtistServiceError::NotFound)),
            },
            response => Progress::Done(Err(ArtistServiceError::Internal(response.complaint()))),
        }
    }
}

/// Listing artists: a search is made, and what it finds is the result.
#[derive(Debug)]
pub struct ListArtists {}

impl DeepView for ListArtists {
    type V = ListArtists;

    open spec fn deep_view(&self) -> ListArtists {
        *self
    }
}

impl ListArtists {
    /// What listing artists yields for `response`: the artists found, in the
    /// order in which the store gave them; and a failure where the search
    /// failed or the response answers another request.
    pub open spec fn outcome(response: ResponseView) -> Result<
        Seq<CatalogItem<ArtistView>>,
        ArtistServiceErrorView,
    > {
        match response {
            ResponseView::Artists(Ok(found)) => Ok(found),
            _ => Err(ArtistServiceErrorView::Internal(response.complaint())),
        }
    }
}

impl Task for ListArtists {
    type Output = Vec<CatalogItem<Artist>>;

    type Error = ArtistServiceError;

    fn resume(self, response: Response) -> (progress: Progress<
        ListArtists,
        Vec<CatalogItem<Artist>>,
        ArtistServiceError,
    >)
        ensures
            progress.deep_view() == Step::<
                ListArtists,
                Seq<CatalogItem<ArtistView>>,
                ArtistServiceErrorView,
            >::Done(ListArtists::outcome(response@)),
    {
        match response {
            Response::Artists(Ok(found)) => Progress::Done(Ok(found)),
            response => Progress::Done(Err(ArtistServiceError::Internal(response.complaint()))),
        }
    }
}

/// The operations on artists.
#[derive(Debug, Clone, Copy)]
pub struct ArtistService {}

impl ArtistService {
    /// The operations on artists.
    pub fn new() -> (service: Self) {
        ArtistService { }
    }

    /// Begins getting the first artist that a search by `name` finds.
    pub fn get_artist(&self, name: &str) -> (begun: (GetArtist, Request))
        ensures
            begun.1@ == RequestView::FindArtists(artist_by_name(name@)),
    {
        let filter = ArtistFilter { name: Some(name.to_owned()), track: None };
        (GetArtist { }, Request::FindArtists(filter))
    }

    /// Begins listing the artists that meet `filter`.
    pub fn list_artists(&self, filter: ArtistFilter) -> (begun: (ListArtists, Request))
        ensures
            begun.1@ == RequestView::FindArtists(filter@),
    {
        (ListArtists { }, Request::FindArtists(filter))
    }
}

} // verus!
