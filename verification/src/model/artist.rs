//! Artists and the releases credited to them.

use vstd::prelude::*;
use crate::model::{copy_titles, push_title, with_title};

verus! {

/// An artist, known by a display name, with the titles of its releases in the
/// order in which they were first seen.
#[derive(Debug)]
pub struct Artist {
    pub name: String,
    pub releases: Vec<String>,
}

/// What an [`Artist`] holds, as mathematical values.
pub struct ArtistView {
    pub name: Seq<char>,
    pub releases: Seq<Seq<char>>,
}

impl View for Artist {
    type V = ArtistView;

    open spec fn view(&self) -> ArtistView {
        ArtistView { name: self.name@, releases: self.releases.deep_view() }
    }
}

impl DeepView for Artist {
    type V = ArtistView;

    open spec fn deep_view(&self) -> ArtistView {
        self@
    }
}

impl Clone for Artist {
    fn clone(&self) -> (copy: Self)
        ensures
            copy@ == self@,
    {
        Artist { name: self.name.clone(), releases: copy_titles(&self.releases) }
    }
}

impl Artist {
    /// Records `title` among the artist's releases; a title already recorded
    /// is not recorded again.
    pub fn add_release(&mut self, title: &str)
        ensures
            final(self)@.name == old(self)@.name,
            final(self)@.releases == with_title(old(self)@.releases, title@),
    {
        push_title(&mut self.releases, title);
    }
}

} // verus!
