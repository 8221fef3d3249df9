//! Releases and the tracks on them.

use vstd::prelude::*;
use crate::model::{copy_text, copy_titles, push_title, with_title};

verus! {

/// A release, known by its title, with the artist it is credited to, if any,
/// and the titles of its tracks in the order in which they were first seen.
#[derive(Debug)]
pub struct Release {
    pub title: String,
    pub tracks: Vec<String>,
    pub artist: Option<String>,
}

/// What a [`Release`] holds, as mathematical values.
pub struct ReleaseView {
    pub title: Seq<char>,
    pub tracks: Seq<Seq<char>>,
    pub artist: Option<Seq<char>>,
}

impl View for Release {
    type V = ReleaseView;

    open spec fn view(&self) -> ReleaseView {
        ReleaseView {
            title: self.title@,
            tracks: self.tracks.deep_view(),
            artist: self.artist.deep_view(),
        }
    }
}

impl DeepView for Release {
    type V = ReleaseView;

    open spec fn deep_view(&self) -> ReleaseView {
        self@
    }
}

impl Clone for Release {
    fn clone(&self) -> (copy: Self)
        ensures
            copy@ == self@,
    {
        Release {
            title: self.title.clone(),
            tracks: copy_titles(&self.tracks),
            artist: copy_text(&self.artist),
        }
    }
}

impl Release {
    /// Records `title` among the release's tracks; a title already recorded
    /// is not recorded again.
    pub fn add_track(&mut self, title: &str)
        ensures
            final(self)@.title == old(self)@.title,
            final(self)@.artist == old(self)@.artist,
            final(self)@.tracks == with_title(old(self)@.tracks, title@),
    {
        push_title(&mut self.tracks, title);
    }
}

} // verus!
