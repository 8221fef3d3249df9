//! Catalog entries: the envelope shared by every kind of entry and the union
//! over the three kinds.

use vstd::prelude::*;
use crate::model::artist::{Artist, ArtistView};
use crate::model::release::{Release, ReleaseView};
use crate::model::track::{Track, TrackView};

pub mod artist;
pub mod release;
pub mod track;

verus! {

/// The titles of `list`, followed by `title` unless it is already among them.
pub open spec fn with_title(list: Seq<Seq<char>>, title: Seq<char>) -> Seq<Seq<char>> {
    if list.contains(title) {
        list
    } else {
        list.push(title)
    }
}

/// No title occurs twice in `list`.
pub open spec fn distinct_titles(list: Seq<Seq<char>>) -> bool {
    forall|i: int, j: int| 0 <= i < j < list.len() ==> list[i] != list[j]
}

/// Adding a title is the union with a set of one: the title is listed
/// afterwards; every title that was listed stays where it was; a list that
/// named no title twice names none twice afterwards; and adding the title
/// once more changes nothing.
pub proof fn law_with_title_is_a_union(list: Seq<Seq<char>>, title: Seq<char>)
    ensures
        with_title(list, title).contains(title),
        forall|i: int| 0 <= i < list.len() ==> with_title(list, title)[i] == list[i],
        forall|other: Seq<char>|
            with_title(list, title).contains(other) <==> list.contains(other) || other == title,
        distinct_titles(list) ==> distinct_titles(with_title(list, title)),
        with_title(with_title(list, title), title) == with_title(list, title),
{
    let grown = with_title(list, title);
    if !list.contains(title) {
        assert(grown[list.len() as int] == title);
        assert forall|other: Seq<char>| grown.contains(other) implies list.contains(other) || other
            == title by {
            let i = choose|i: int| 0 <= i < grown.len() && grown[i] == other;
            if i < list.len() {
                assert(list[i] == other);
            }
        }
        assert forall|other: Seq<char>| list.contains(other) implies grown.contains(other) by {
            let i = choose|i: int| 0 <= i < list.len() && list[i] == other;
            assert(grown[i] == other);
        }
        if distinct_titles(list) {
            assert forall|i: int, j: int| 0 <= i < j < grown.len() implies grown[i] != grown[j] by {
                if j == list.len() {
                    assert(list[i] == grown[i]);
                    assert(list.contains(grown[i]));
                }
            }
        }
    }
}

/// Appends `title` to `list` unless an equal title is already present.
pub fn push_title(list: &mut Vec<String>, title: &str)
    ensures
        final(list).deep_view() == with_title(old(list).deep_view(), title@),
{
    let wanted = title.to_owned();
    let mut i: usize = 0;
    while i < list.len()
        invariant
            i <= list.len(),
            *list == *old(list),
            wanted@ == title@,
            forall|k: int| 0 <= k < i ==> list.deep_view()[k] != title@,
        decreases list.len() - i,
    {
        if list[i] == wanted {
            assert(list.deep_view()[i as int] == title@);
            return;
        }
        i += 1;
    }
    let ghost before = list.deep_view();
    assert(!before.contains(title@));
    list.push(wanted);
    assert(list.deep_view() =~= before.push(title@));
}

/// A copy of an optional text.
pub fn copy_text(text: &Option<String>) -> (copy: Option<String>)
    ensures
        copy.deep_view() == text.deep_view(),
{
    match text {
        Some(value) => Some(value.clone()),
        None => None,
    }
}

/// A copy of a list of titles.
pub fn copy_titles(list: &Vec<String>) -> (copy: Vec<String>)
    ensures
        copy.deep_view() == list.deep_view(),
{
    let mut copy: Vec<String> = Vec::new();
    let mut i: usize = 0;
    while i < list.len()
        invariant
            i <= list.len(),
            copy.len() == i,
            forall|k: int| 0 <= k < i ==> copy.deep_view()[k] == list.deep_view()[k],
        decreases list.len() - i,
    {
        copy.push(list[i].clone());
        i += 1;
    }
    assert(copy.deep_view() =~= list.deep_view());
    copy
}

/// A stored entry: the identity that the store assigned, the favorite mark,
/// and the entry's own data.
#[derive(Debug)]
pub struct CatalogItem<T> {
    pub id: i64,
    pub favorite: bool,
    pub metadata: T,
}

impl<T: View> View for CatalogItem<T> {
    type V = CatalogItem<T::V>;

    open spec fn view(&self) -> CatalogItem<T::V> {
        CatalogItem { id: self.id, favorite: self.favorite, metadata: self.metadata@ }
    }
}

impl<T: DeepView> DeepView for CatalogItem<T> {
    type V = CatalogItem<T::V>;

    open spec fn deep_view(&self) -> CatalogItem<T::V> {
        CatalogItem { id: self.id, favorite: self.favorite, metadata: self.metadata.deep_view() }
    }
}

impl<T: Clone> Clone for CatalogItem<T> {
    fn clone(&self) -> (copy: Self)
        ensures
            copy.id == self.id,
            copy.favorite == self.favorite,
            cloned::<T>(self.metadata, copy.metadata),
    {
        CatalogItem { id: self.id, favorite: self.favorite, metadata: self.metadata.clone() }
    }
}

/// The data of an entry of any of the three kinds.
#[derive(Debug)]
pub enum CatalogMetadata {
    Track(Track),
    Artist(Artist),
    Release(Release),
}

/// What a [`CatalogMetadata`] holds, as mathematical values.
pub enum CatalogMetadataView {
    Track(TrackView),
    Artist(ArtistView),
    Release(ReleaseView),
}

impl CatalogMetadataView {
    /// The text by which an entry is shown: an artist's name, a release's or
    /// a track's title.
    pub open spec fn display_text(self) -> Seq<char> {
        match self {
            CatalogMetadataView::Artist(artist) => artist.name,
            CatalogMetadataView::Release(release) => release.title,
            CatalogMetadataView::Track(track) => track.title,
        }
    }
}

impl View for CatalogMetadata {
    type V = CatalogMetadataView;

    open spec fn view(&self) -> CatalogMetadataView {
        match self {
            CatalogMetadata::Track(track) => CatalogMetadataView::Track(track@),
            CatalogMetadata::Artist(artist) => CatalogMetadataView::Artist(artist@),
            CatalogMetadata::Release(release) => CatalogMetadataView::Release(release@),
        }
    }
}

impl DeepView for CatalogMetadata {
    type V = CatalogMetadataView;

    open spec fn deep_view(&self) -> CatalogMetadataView {
        self@
    }
}

impl CatalogMetadata {
    /// The text by which the entry is shown.
    pub fn display_text(&self) -> (text: &str)
        ensures
            text@ == self@.display_text(),
    {
        match self {
            CatalogMetadata::Artist(artist) => artist.name.as_str(),
            CatalogMetadata::Release(release) => release.title.as_str(),
            CatalogMetadata::Track(track) => track.title.as_str(),
        }
    }
}

impl Clone for CatalogMetadata {
    fn clone(&self) -> (copy: Self)
        ensures
            copy@ == self@,
    {
        match self {
            CatalogMetadata::Track(track) => CatalogMetadata::Track(track.clone()),
            CatalogMetadata::Artist(artist) => CatalogMetadata::Artist(artist.clone()),
            CatalogMetadata::Release(release) => CatalogMetadata::Release(release.clone()),
        }
    }
}

impl From<CatalogItem<Artist>> for CatalogItem<CatalogMetadata> {
    fn from(item: CatalogItem<Artist>) -> (wrapped: Self) {
        CatalogItem {
            id: item.id,
            favorite: item.favorite,
            metadata: CatalogMetadata::Artist(item.metadata),
        }
    }
}

impl vstd::std_specs::convert::FromSpecImpl<CatalogItem<Artist>> for CatalogItem<CatalogMetadata> {
    open spec fn obeys_from_spec() -> bool {
        true
    }

    open spec fn from_spec(item: CatalogItem<Artist>) -> Self {
        CatalogItem {
            id: item.id,
            favorite: item.favorite,
            metadata: CatalogMetadata::Artist(item.metadata),
        }
    }
}

impl From<CatalogItem<Release>> for CatalogItem<CatalogMetadata> {
    fn from(item: CatalogItem<Release>) -> (wrapped: Self) {
        CatalogItem {
            id: item.id,
            favorite: item.favorite,
            metadata: CatalogMetadata::Release(item.metadata),
        }
    }
}

impl vstd::std_specs::convert::FromSpecImpl<CatalogItem<Release>> for CatalogItem<CatalogMetadata> {
    open spec fn obeys_from_spec() -> bool {
        true
    }

    open spec fn from_spec(item: CatalogItem<Release>) -> Self {
        CatalogItem {
            id: item.id,
            favorite: item.favorite,
            metadata: CatalogMetadata::Release(item.metadata),
        }
    }
}

impl From<CatalogItem<Track>> for CatalogItem<CatalogMetadata> {
    fn from(item: CatalogItem<Track>) -> (wrapped: Self) {
        CatalogItem {
            id: item.id,
            favorite: item.favorite,
            metadata: CatalogMetadata::Track(item.metadata),
        }
    }
}

impl vstd::std_specs::convert::FromSpecImpl<CatalogItem<Track>> for CatalogItem<CatalogMetadata> {
    open spec fn obeys_from_spec() -> bool {
        true
    }

    open spec fn from_spec(item: CatalogItem<Track>) -> Self {
        CatalogItem {
            id: item.id,
            favorite: item.favorite,
            metadata: CatalogMetadata::Track(item.metadata),
        }
    }
}

} // verus!
