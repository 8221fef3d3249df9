//! The library view: a list of entries of the catalog, one of them selected.

use vstd::prelude::*;
use vstd::string::*;
use crate::model::track::{Track, TrackView};
use crate::model::{copy_text, CatalogItem, CatalogMetadata, CatalogMetadataView};
use crate::repository::artist::{ArtistFilter, ArtistFilterView};
use crate::repository::release::{ReleaseFilter, ReleaseFilterView};
use crate::repository::track::{TrackFilter, TrackFilterView};

verus! {

/// What the library lists.
#[derive(Debug, Clone, Copy, PartialEq, Eq, Structural)]
pub enum LibraryView {
    Artist,
    Release,
    Track,
}

impl Default for LibraryView {
    fn default() -> (view: Self)
        ensures
            view == LibraryView::Artist,
    {
        LibraryView::Artist
    }
}

impl LibraryView {
    /// The view's title.
    pub open spec fn title(self) -> Seq<char> {
        match self {
            LibraryView::Artist => "Artist"@,
            LibraryView::Release => "Release"@,
            LibraryView::Track => "Track"@,
        }
    }

    /// The view's title.
    pub fn label(&self) -> (text: &'static str)
        ensures
            text@ == self.title(),
    {
        match self {
            LibraryView::Artist => "Artist",
            LibraryView::Release => "Release",
            LibraryView::Track => "Track",
        }
    }
}

/// Why the library could not load what it lists.
#[derive(Debug)]
pub enum LibraryError {
    /// The catalog failed; the text says how.
    Internal(String),
    Unknown,
}

impl LibraryError {
    /// The error in words.
    pub fn message(&self) -> (text: String)
        ensures
            text@ == match *self {
                LibraryError::Internal(detail) => detail@,
                LibraryError::Unknown => "unknown error occured"@,
            },
    {
        match self {
            LibraryError::Internal(detail) => detail.clone(),
            LibraryError::Unknown => "unknown error occured".to_owned(),
        }
    }
}

/// How the selection moves.
#[derive(Debug, Clone, Copy, PartialEq, Eq, Structural)]
pub enum LibraryItemAction {
    SelectNext,
    SelectPrevious,
    SelectByCatalogId(i64),
}

/// One entry of the list: an entry of the catalog, selected or not.
#[derive(Debug)]
pub struct LibraryItem {
    pub catalog_item: CatalogItem<CatalogMetadata>,
    pub selected: bool,
}

/// What a [`LibraryItem`] holds, as mathematical values.
pub struct LibraryItemView {
    pub catalog_item: CatalogItem<CatalogMetadataView>,
    pub selected: bool,
}

impl View for LibraryItem {
    type V = LibraryItemView;

    open spec fn view(&self) -> LibraryItemView {
        LibraryItemView { catalog_item: self.catalog_item@, selected: self.selected }
    }
}

impl DeepView for LibraryItem {
    type V = LibraryItemView;

    open spec fn deep_view(&self) -> LibraryItemView {
        self@
    }
}

impl LibraryItemView {
    /// The entry with its selection turned over.
    pub open spec fn toggled(self) -> LibraryItemView {
        LibraryItemView { catalog_item: self.catalog_item, selected: !self.selected }
    }

    /// What the entry is listed as: its display text, behind a mark where it
    /// is selected.
    pub open spec fn label(self) -> Seq<char> {
        if self.selected {
            "> "@ + self.catalog_item.metadata.display_text()
        } else {
            self.catalog_item.metadata.display_text()
        }
    }
}

impl Clone for LibraryItem {
    fn clone(&self) -> (copy: Self)
        ensures
            copy@ == self@,
    {
        LibraryItem {
            catalog_item: CatalogItem {
                id: self.catalog_item.id,
                favorite: self.catalog_item.favorite,
                metadata: self.catalog_item.metadata.clone(),
            },
            selected: self.selected,
        }
    }
}

impl LibraryItem {
    /// The entry for `catalog_item`, not selected.
    pub fn new(catalog_item: CatalogItem<CatalogMetadata>) -> (item: Self)
        ensures
            item@ == (LibraryItemView { catalog_item: catalog_item@, selected: false }),
    {
        LibraryItem { catalog_item, selected: false }
    }

    /// Turns the entry's selection over.
    pub fn toggled_selected(&mut self)
        ensures
            final(self)@ == old(self)@.toggled(),
    {
        self.selected = !self.selected
    }

    /// Whether the entry can be opened to show what belongs to it: an artist
    /// and a release can, a track cannot.
    pub fn is_expandable(&self) -> (answer: bool)
        ensures
            answer == !(self@.catalog_item.metadata is Track),
    {
        match self.catalog_item.metadata {
            CatalogMetadata::Artist(_) => true,
            CatalogMetadata::Release(_) => true,
            CatalogMetadata::Track(_) => false,
        }
    }

    /// What the entry is listed as.
    pub fn label(&self) -> (text: String)
        ensures
            text@ == self@.label(),
    {
        if self.selected {
            String::from_str("> ").concat(self.catalog_item.metadata.display_text())
        } else {
            String::from_str(self.catalog_item.metadata.display_text())
        }
    }
}

/// `at` is the place of the first selected entry of `items`.
pub open spec fn is_first_selected(items: Seq<LibraryItemView>, at: int) -> bool {
    &&& 0 <= at < items.len()
    &&& items[at].selected
    &&& forall|k: int| 0 <= k < at ==> !(#[trigger] items[k]).selected
}

/// The place of the first selected entry, if one is selected.
pub open spec fn first_selected(items: Seq<LibraryItemView>) -> Option<int> {
    if exists|at: int| is_first_selected(items, at) {
        Some(choose|at: int| is_first_selected(items, at))
    } else {
        None
    }
}

/// `at` is the place of the first entry of `items` for the catalog's entry
/// `id`.
pub open spec fn is_first_with_id(items: Seq<LibraryItemView>, id: i64, at: int) -> bool {
    &&& 0 <= at < items.len()
    &&& items[at].catalog_item.id == id
    &&& forall|k: int| 0 <= k < at ==> (#[trigger] items[k]).catalog_item.id != id
}

/// The place of the first entry for the catalog's entry `id`, if there is
/// one.
pub open spec fn first_with_id(items: Seq<LibraryItemView>, id: i64) -> Option<int> {
    if exists|at: int| is_first_with_id(items, id, at) {
        Some(choose|at: int| is_first_with_id(items, id, at))
    } else {
        None
    }
}

/// `items` with the selection of the entry at `at` turned over.
pub open spec fn toggled_at(items: Seq<LibraryItemView>, at: int) -> Seq<LibraryItemView> {
    items.update(at, items[at].toggled())
}

/// `items` after the selection has moved. Where no entry is selected, the
/// first one becomes selected. Otherwise the first selected entry loses the
/// selection, and it passes to the entry after it or before it, staying where
/// there is none, or to the first entry for the catalog's entry that the
/// action names, to none where there is none. The entry that the selection
/// passes to has its selection turned over.
pub open spec fn selection_after(
    items: Seq<LibraryItemView>,
    action: LibraryItemAction,
) -> Seq<LibraryItemView> {
    match first_selected(items) {
        None => toggled_at(items, 0),
        Some(at) => {
            let cleared = toggled_at(items, at);
            match action {
                LibraryItemAction::SelectNext => if at < items.len() - 1 {
                    toggled_at(cleared, at + 1)
                } else {
                    toggled_at(cleared, at)
                },
                LibraryItemAction::SelectPrevious => if at > 0 {
                    toggled_at(cleared, at - 1)
                } else {
                    toggled_at(cleared, at)
                },
                LibraryItemAction::SelectByCatalogId(id) => match first_with_id(cleared, id) {
                    Some(target) => toggled_at(cleared, target),
                    None => cleared,
                },
            }
        },
    }
}

/// Exactly one entry of `items` is selected, the one at `at`.
pub open spec fn only_selected(items: Seq<LibraryItemView>, at: int) -> bool {
    &&& 0 <= at < items.len()
    &&& forall|k: int| 0 <= k < items.len() ==> ((#[trigger] items[k]).selected <==> k == at)
}

/// A step down or up keeps the selection single: where exactly one entry is
/// selected, exactly one is selected afterwards, the one after it or before
/// it, or the same one at the end or at the top of the list. The entries
/// themselves stay as they are.
pub proof fn law_selection_stays_single(items: Seq<LibraryItemView>, at: int)
    requires
        only_selected(items, at),
    ensures
        only_selected(
            selection_after(items, LibraryItemAction::SelectNext),
            if at < items.len() - 1 {
                at + 1
            } else {
                at
            },
        ),
        only_selected(
            selection_after(items, LibraryItemAction::SelectPrevious),
            if at > 0 {
                at - 1
            } else {
                at
            },
        ),
        forall|action: LibraryItemAction, k: int|
            0 <= k < items.len() ==> (#[trigger] selection_after(items, action)[k]).catalog_item
                == items[k].catalog_item,
        forall|action: LibraryItemAction| #[trigger]
            selection_after(items, action).len() == items.len(),
{
    assert(is_first_selected(items, at));
    let first = choose|first: int| is_first_selected(items, first);
    assert(first == at);
    let cleared = toggled_at(items, at);
    assert forall|action: LibraryItemAction, k: int| 0 <= k < items.len() implies (
    #[trigger] selection_after(items, action)[k]).catalog_item == items[k].catalog_item by {
        match action {
            LibraryItemAction::SelectByCatalogId(id) => {
                if first_with_id(cleared, id) is Some {
                    let target = choose|target: int| is_first_with_id(cleared, id, target);
                    assert(is_first_with_id(cleared, id, target));
                }
            },
            _ => {},
        }
    }
    assert forall|action: LibraryItemAction| #[trigger]
        selection_after(items, action).len() == items.len() by {
        match action {
            LibraryItemAction::SelectByCatalogId(id) => {
                if first_with_id(cleared, id) is Some {
                    let target = choose|target: int| is_first_with_id(cleared, id, target);
                    assert(is_first_with_id(cleared, id, target));
                }
            },
            _ => {},
        }
    }
}

/// Where no entry is selected, any move of the selection selects the first
/// entry and no other.
pub proof fn law_selection_begins_at_the_top(items: Seq<LibraryItemView>, action: LibraryItemAction)
    requires
        items.len() > 0,
        forall|k: int| 0 <= k < items.len() ==> !(#[trigger] items[k]).selected,
    ensures
        only_selected(selection_after(items, action), 0),
{
    assert forall|at: int| !is_first_selected(items, at) by {
        if 0 <= at < items.len() {
            assert(!items[at].selected);
        }
    }
}

/// The list of entries.
#[derive(Debug)]
pub struct LibraryItems {
    inner: Vec<LibraryItem>,
}

impl View for LibraryItems {
    type V = Seq<LibraryItemView>;

    closed spec fn view(&self) -> Seq<LibraryItemView> {
        self.inner.deep_view()
    }
}

/// What an entry that was looked up holds, if one was found.
pub open spec fn shown(item: Option<&LibraryItem>) -> Option<LibraryItemView> {
    match item {
        Some(item) => Some(item@),
        None => None,
    }
}

/// The place that an index stands for.
pub open spec fn place(at: Option<usize>) -> Option<int> {
    match at {
        Some(at) => Some(at as int),
        None => None,
    }
}

impl LibraryItems {
    /// The list of `items`, as they are.
    pub fn new(items: Vec<LibraryItem>) -> (list: Self)
        ensures
            list@ == items.deep_view(),
    {
        LibraryItems { inner: items }
    }

    /// How many entries the list has.
    pub fn len(&self) -> (len: usize)
        ensures
            len == self@.len(),
    {
        self.inner.len()
    }

    /// The entry at `at`.
    pub fn get(&self, at: usize) -> (item: Option<&LibraryItem>)
        ensures
            shown(item) == if at < self@.len() {
                Some(self@[at as int])
            } else {
                None
            },
    {
        if at < self.inner.len() {
            Some(&self.inner[at])
        } else {
            None
        }
    }

    /// The entries in their order.
    pub fn iter(&self) -> (items: &Vec<LibraryItem>)
        ensures
            items.deep_view() == self@,
    {
        &self.inner
    }

    /// The place of the first selected entry, if one is selected.
    pub fn selected_index(&self) -> (at: Option<usize>)
        ensures
            place(at) == first_selected(self@),
    {
        let mut i: usize = 0;
        while i < self.inner.len()
            invariant
                i <= self.inner.len(),
                forall|k: int| 0 <= k < i ==> !(#[trigger] self@[k]).selected,
            decreases self.inner.len() - i,
        {
            assert(self@[i as int] == self.inner[i as int]@);
            if self.inner[i].selected {
                assert(is_first_selected(self@, i as int));
                return Some(i);
            }
            i += 1;
        }
        assert forall|at: int| !is_first_selected(self@, at) by {
            if 0 <= at < self@.len() {
                assert(!self@[at].selected);
            }
        }
        None
    }

    /// The place of the first entry for the catalog's entry `catalog_id`, if
    /// there is one.
    pub fn index_of(&self, catalog_id: i64) -> (at: Option<usize>)
        ensures
            place(at) == first_with_id(self@, catalog_id),
    {
        let mut i: usize = 0;
        while i < self.inner.len()
            invariant
                i <= self.inner.len(),
                forall|k: int| 0 <= k < i ==> (#[trigger] self@[k]).catalog_item.id != catalog_id,
            decreases self.inner.len() - i,
        {
            assert(self@[i as int] == self.inner[i as int]@);
            if self.inner[i].catalog_item.id == catalog_id {
                assert(is_first_with_id(self@, catalog_id, i as int));
                return Some(i);
            }
            i += 1;
        }
        assert forall|at: int| !is_first_with_id(self@, catalog_id, at) by {
            if 0 <= at < self@.len() {
                assert(self@[at].catalog_item.id != catalog_id);
            }
        }
        None
    }

    /// The first entry for the catalog's entry `catalog_id`, if there is one.
    pub fn find(&self, catalog_id: i64) -> (item: Option<&LibraryItem>)
        ensures
            shown(item) == match first_with_id(self@, catalog_id) {
                Some(at) => Some(self@[at]),
                None => None,
            },
    {
        match self.index_of(catalog_id) {
            Some(at) => Some(&self.inner[at]),
            None => None,
        }
    }

    /// The first selected entry, if one is selected.
    pub fn selected(&self) -> (item: Option<&LibraryItem>)
        ensures
            shown(item) == match first_selected(self@) {
                Some(at) => Some(self@[at]),
                None => None,
            },
    {
        match self.selected_index() {
            Some(at) => Some(&self.inner[at]),
            None => None,
        }
    }

    /// Turns over the selection of the entry at `at`.
    fn toggle(&mut self, at: usize)
        requires
            at < old(self)@.len(),
        ensures
            final(self)@ == toggled_at(old(self)@, at as int),
    {
        self.inner[at].toggled_selected();
        assert(self@ =~= toggled_at(old(self)@, at as int));
    }

    /// Moves the selection as `action` says. The list must not be empty.
    pub fn select(&mut self, action: LibraryItemAction)
        requires
            old(self)@.len() > 0,
        ensures
            final(self)@ == selection_after(old(self)@, action),
    {
        match self.selected_index() {
            Some(index) => {
                let len = self.inner.len();
                self.toggle(index);
                assert(self@.len() == len);
                match action {
                    LibraryItemAction::SelectNext => {
                        if index < len - 1 {
                            self.toggle(index + 1);
                        } else {
                            self.toggle(index);
                        }
                    },
                    LibraryItemAction::SelectPrevious => {
                        if index > 0 {
                            self.toggle(index - 1);
                        } else {
                            self.toggle(index);
                        }
                    },
                    LibraryItemAction::SelectByCatalogId(id) => {
                        match self.index_of(id) {
                            Some(target) => {
                                self.toggle(target);
                            },
                            None => {},
                        }
                    },
                }
            },
            None => {
                self.toggle(0);
            },
        }
    }

    /// Replaces the entries by `items`, which must not be empty, and turns
    /// over the selection of the first of them.
    pub fn refresh(&mut self, items: Vec<LibraryItem>) -> (list: &Self)
        requires
            items.len() > 0,
        ensures
            final(self)@ == toggled_at(items.deep_view(), 0),
            list@ == final(self)@,
    {
        self.inner = items;
        self.toggle(0);
        self
    }
}

/// The keys that the screen answers.
#[derive(Debug, Clone, Copy, PartialEq, Eq, Structural)]
pub enum Key {
    ArrowUp,
    ArrowDown,
    Enter,
    Backspace,
    Space,
    /// Any other key.
    Other,
}

/// What can happen to the library.
#[derive(Debug)]
pub enum LibraryMessage {
    /// These entries are to be listed, as they are.
    ItemsLoad(Vec<LibraryItem>),
    /// This track was chosen for playing.
    TrackSelect(Track),
    /// These entries of the catalog are to be listed, the first one selected.
    ItemRefresh(Vec<CatalogItem<CatalogMetadata>>),
    /// What belongs to this entry is to be listed; without an entry, the
    /// artists.
    ItemLoad(Option<LibraryItem>),
    /// The library lists another kind of entry.
    ChangeView(LibraryView),
    /// A key was pressed.
    InputEvent(Key),
    /// Something went wrong; the text says what.
    Error(String),
}

/// What the library wants done after a message.
#[derive(Debug)]
pub enum LibraryCommand {
    Nothing,
    /// The artists that meet the filter are to be listed as they are.
    ListArtists(ArtistFilter),
    /// The artists that meet the filter are to be listed, the first one
    /// selected.
    RefreshWithArtists(ArtistFilter),
    /// The releases that meet the filter are to be listed, the first one
    /// selected.
    RefreshWithReleases(ReleaseFilter),
    /// The tracks that meet the filter are to be listed, the first one
    /// selected.
    RefreshWithTracks(TrackFilter),
    /// The artists that meet the filter are to be listed as they are, and the
    /// library is to show the view.
    ReplaceWithArtists { artists: ArtistFilter, then: LibraryView },
    /// The releases that meet the filter are to be listed as they are, and
    /// the library is to show the view.
    ReplaceWithReleases { releases: ReleaseFilter, then: LibraryView },
    /// The artist of this name is to be got and what belongs to it listed,
    /// and the library is to show the view.
    OpenArtist { name: String, then: LibraryView },
    /// The release of this title is to be got and what belongs to it listed,
    /// and the library is to show the view.
    OpenRelease { title: String, then: LibraryView },
    /// The track is to be played.
    Play(Track),
    /// The entry at this place is to be brought into sight from above.
    RevealAbove(usize),
    /// The entry at this place is to be brought into sight from below.
    RevealBelow(usize),
    /// The text is to be handed to the library as an error.
    Report(String),
}

/// What a [`LibraryCommand`] holds, as mathematical values.
pub enum LibraryCommandView {
    Nothing,
    ListArtists(ArtistFilterView),
    RefreshWithArtists(ArtistFilterView),
    RefreshWithReleases(ReleaseFilterView),
    RefreshWithTracks(TrackFilterView),
    ReplaceWithArtists { artists: ArtistFilterView, then: LibraryView },
    ReplaceWithReleases { releases: ReleaseFilterView, then: LibraryView },
    OpenArtist { name: Seq<char>, then: LibraryView },
    OpenRelease { title: Seq<char>, then: LibraryView },
    Play(TrackView),
    RevealAbove(int),
    RevealBelow(int),
    Report(Seq<char>),
}

impl View for LibraryCommand {
    type V = LibraryCommandView;

    open spec fn view(&self) -> LibraryCommandView {
        match self {
            LibraryCommand::Nothing => LibraryCommandView::Nothing,
            LibraryCommand::ListArtists(filter) => LibraryCommandView::ListArtists(filter@),
            LibraryCommand::RefreshWithArtists(filter) => LibraryCommandView::RefreshWithArtists(
                filter@,
            ),
            LibraryCommand::RefreshWithReleases(filter) => {
                LibraryCommandView::RefreshWithReleases(filter@)
            },
            LibraryCommand::RefreshWithTracks(filter) => LibraryCommandView::RefreshWithTracks(
                filter@,
            ),
            LibraryCommand::ReplaceWithArtists { artists, then } => {
                LibraryCommandView::ReplaceWithArtists { artists: artists@, then: *then }
            },
            LibraryCommand::ReplaceWithReleases { releases, then } => {
                LibraryCommandView::ReplaceWithReleases { releases: releases@, then: *then }
            },
            LibraryCommand::OpenArtist { name, then } => LibraryCommandView::OpenArtist {
                name: name@,
                then: *then,
            },
            LibraryCommand::OpenRelease { title, then } => LibraryCommandView::OpenRelease {
                title: title@,
                then: *then,
            },
            LibraryCommand::Play(track) => LibraryCommandView::Play(track@),
            LibraryCommand::RevealAbove(at) => LibraryCommandView::RevealAbove(*at as int),
            LibraryCommand::RevealBelow(at) => LibraryCommandView::RevealBelow(*at as int),
            LibraryCommand::Report(text) => LibraryCommandView::Report(text@),
        }
    }
}

/// The entries for `items`, none of them selected.
pub open spec fn listed(items: Seq<CatalogItem<CatalogMetadataView>>) -> Seq<LibraryItemView> {
    Seq::new(items.len(), |i: int| LibraryItemView { catalog_item: items[i], selected: false })
}

/// The place of the first selected entry, or the top of the list where none
/// is selected.
pub open spec fn place_in_sight(items: Seq<LibraryItemView>) -> int {
    match first_selected(items) {
        Some(at) => at,
        None => 0,
    }
}

/// What opening `item` asks for: the releases credited to an artist, the
/// tracks on a release, and nothing for a track.
pub open spec fn children_of(item: CatalogMetadataView) -> LibraryCommandView {
    match item {
        CatalogMetadataView::Artist(artist) => LibraryCommandView::RefreshWithReleases(
            ReleaseFilterView { title: None, artist: Some(artist.name) },
        ),
        CatalogMetadataView::Release(release) => LibraryCommandView::RefreshWithTracks(
            TrackFilterView { name: None, release: Some(release.title), artist: release.artist },
        ),
        CatalogMetadataView::Track(_) => LibraryCommandView::Nothing,
    }
}

/// What the enter key asks for on `item`: a track is played, an artist or a
/// release is got anew and opened.
pub open spec fn entering(item: CatalogMetadataView) -> LibraryCommandView {
    match item {
        CatalogMetadataView::Track(track) => LibraryCommandView::Play(track),
        CatalogMetadataView::Artist(artist) => LibraryCommandView::OpenArtist {
            name: artist.name,
            then: LibraryView::Release,
        },
        CatalogMetadataView::Release(release) => LibraryCommandView::OpenRelease {
            title: release.title,
            then: LibraryView::Track,
        },
    }
}

/// What the backspace key asks for on `item`: from a release back to all
/// artists, from a track back to the releases of its artist, and nothing from
/// an artist.
pub open spec fn leaving(item: CatalogMetadataView) -> LibraryCommandView {
    match item {
        CatalogMetadataView::Release(_) => LibraryCommandView::ReplaceWithArtists {
            artists: ArtistFilterView { name: None, track: None },
            then: LibraryView::Artist,
        },
        CatalogMetadataView::Track(track) => LibraryCommandView::ReplaceWithReleases {
            releases: ReleaseFilterView { title: None, artist: track.artist },
            then: LibraryView::Release,
        },
        CatalogMetadataView::Artist(_) => LibraryCommandView::Nothing,
    }
}

/// What the library reports when it is to do something without a catalog.
pub const NO_CATALOG: &'static str = "No catalog";

/// The library: the entries that it lists, and whether it has a catalog to
/// list from.
#[derive(Debug)]
pub struct Library {
    items: LibraryItems,
    connected: bool,
}

impl View for Library {
    type V = Seq<LibraryItemView>;

    closed spec fn view(&self) -> Seq<LibraryItemView> {
        self.items@
    }
}

impl Default for Library {
    /// The library that lists nothing and has no catalog.
    fn default() -> (library: Self)
        ensures
            library@.len() == 0,
            !library.connected(),
    {
        Library { items: LibraryItems::new(Vec::new()), connected: false }
    }
}

impl Library {
    /// The library has a catalog to list from.
    pub closed spec fn connected(&self) -> bool {
        self.connected
    }

    /// The library with a catalog, which lists nothing yet, and what it wants
    /// done first: all artists listed.
    pub fn new() -> (begun: (Library, LibraryCommand))
        ensures
            begun.0@.len() == 0,
            begun.0.connected(),
            begun.1@ == LibraryCommandView::ListArtists(
                ArtistFilterView { name: None, track: None },
            ),
    {
        (
            Library { items: LibraryItems::new(Vec::new()), connected: true },
            LibraryCommand::ListArtists(ArtistFilter::default()),
        )
    }

    /// Whether the library has a catalog to list from.
    pub fn has_catalog(&self) -> (answer: bool)
        ensures
            answer == self.connected(),
    {
        self.connected
    }

    /// The entries that the library lists.
    pub fn items(&self) -> (items: &LibraryItems)
        ensures
            items@ == self@,
    {
        &self.items
    }

    /// The library can take `message`: a list to refresh with has an entry, a
    /// move of the selection has a list to move in, and the enter key has a
    /// selected entry to act on. Without a catalog the library can take
    /// every message, since it does nothing with any.
    pub open spec fn takes(self, message: LibraryMessage) -> bool {
        !self.connected() || match message {
            LibraryMessage::ItemRefresh(items) => items.len() > 0,
            LibraryMessage::InputEvent(Key::ArrowUp) => self@.len() > 0,
            LibraryMessage::InputEvent(Key::ArrowDown) => self@.len() > 0,
            LibraryMessage::InputEvent(Key::Enter) => first_selected(self@) is Some,
            LibraryMessage::InputEvent(Key::Backspace) => self@.len() > 0,
            _ => true,
        }
    }

    /// What the library lists after `message`: without a catalog, what it
    /// listed before.
    pub open spec fn listing_after(self, message: LibraryMessage) -> Seq<LibraryItemView> {
        if self.connected() {
            self.listing_with_catalog(message)
        } else {
            self@
        }
    }

    /// What the library wants done after `message`: without a catalog, that
    /// the lack of one be reported.
    pub open spec fn command_after(self, message: LibraryMessage) -> LibraryCommandView {
        if self.connected() {
            self.command_with_catalog(message)
        } else {
            LibraryCommandView::Report(NO_CATALOG@)
        }
    }

    /// What a library with a catalog lists after `message`.
    pub open spec fn listing_with_catalog(self, message: LibraryMessage) -> Seq<LibraryItemView> {
        match message {
            LibraryMessage::ItemsLoad(items) => items.deep_view(),
            LibraryMessage::ItemRefresh(items) => toggled_at(listed(items.deep_view()), 0),
            LibraryMessage::InputEvent(Key::ArrowUp) => selection_after(
                self@,
                LibraryItemAction::SelectPrevious,
            ),
            LibraryMessage::InputEvent(Key::ArrowDown) => selection_after(
                self@,
                LibraryItemAction::SelectNext,
            ),
            LibraryMessage::InputEvent(Key::Backspace) => match first_selected(self@) {
                Some(_) => self@,
                None => selection_after(self@, LibraryItemAction::SelectNext),
            },
            _ => self@,
        }
    }

    /// What a library with a catalog wants done after `message`.
    pub open spec fn command_with_catalog(self, message: LibraryMessage) -> LibraryCommandView {
        match message {
            LibraryMessage::ItemLoad(Some(item)) => children_of(item@.catalog_item.metadata),
            LibraryMessage::ItemLoad(None) => LibraryCommandView::RefreshWithArtists(
                ArtistFilterView { name: None, track: None },
            ),
            LibraryMessage::InputEvent(Key::ArrowUp) => LibraryCommandView::RevealAbove(
                place_in_sight(self.listing_with_catalog(message)),
            ),
            LibraryMessage::InputEvent(Key::ArrowDown) => LibraryCommandView::RevealBelow(
                place_in_sight(self.listing_with_catalog(message)),
            ),
            LibraryMessage::InputEvent(Key::Enter) => match first_selected(self@) {
                Some(at) => entering(self@[at].catalog_item.metadata),
                None => LibraryCommandView::Nothing,
            },
            LibraryMessage::InputEvent(Key::Backspace) => match first_selected(self@) {
                Some(at) => leaving(self@[at].catalog_item.metadata),
                None => LibraryCommandView::Nothing,
            },
            _ => LibraryCommandView::Nothing,
        }
    }

    /// Whether the library can take `message`.
    pub fn accepts(&self, message: &LibraryMessage) -> (answer: bool)
        ensures
            answer == self.takes(*message),
    {
        if !self.connected {
            return true;
        }
        match message {
            LibraryMessage::ItemRefresh(items) => items.len() > 0,
            LibraryMessage::InputEvent(Key::ArrowUp) => self.items.len() > 0,
            LibraryMessage::InputEvent(Key::ArrowDown) => self.items.len() > 0,
            LibraryMessage::InputEvent(Key::Enter) => self.items.selected_index().is_some(),
            LibraryMessage::InputEvent(Key::Backspace) => self.items.len() > 0,
            _ => true,
        }
    }

    /// The entries for `items`, none of them selected.
    fn entries_for(items: &Vec<CatalogItem<CatalogMetadata>>) -> (entries: Vec<LibraryItem>)
        ensures
            entries.deep_view() == listed(items.deep_view()),
    {
        let mut entries: Vec<LibraryItem> = Vec::new();
        let mut i: usize = 0;
        while i < items.len()
            invariant
                i <= items.len(),
                entries.len() == i,
                forall|k: int|
                    0 <= k < i ==> (#[trigger] entries.deep_view()[k]) == listed(
                        items.deep_view(),
                    )[k],
            decreases items.len() - i,
        {
            let ghost done = entries.deep_view();
            let item = &items[i];
            entries.push(
                LibraryItem::new(
                    CatalogItem {
                        id: item.id,
                        favorite: item.favorite,
                        metadata: item.metadata.clone(),
                    },
                ),
            );
            assert forall|k: int| 0 <= k < i + 1 implies (#[trigger] entries.deep_view()[k])
                == listed(items.deep_view())[k] by {
                if k < i {
                    assert(entries.deep_view()[k] == done[k]);
                } else {
                    assert(items.deep_view()[k] == item@);
                }
            }
            i += 1;
        }
        assert(entries.deep_view() =~= listed(items.deep_view()));
        entries
    }

    /// The place of the first selected entry, or the top of the list.
    fn sight(&self) -> (at: usize)
        ensures
            at == place_in_sight(self@),
    {
        match self.items.selected_index() {
            Some(at) => at,
            None => 0,
        }
    }

    /// Takes a message that the library can take, and says what it wants
    /// done.
    pub fn update(&mut self, message: LibraryMessage) -> (command: LibraryCommand)
        requires
            old(self).takes(message),
        ensures
            final(self)@ == old(self).listing_after(message),
            final(self).connected() == old(self).connected(),
            command@ == old(self).command_after(message),
    {
        if !self.connected {
            return LibraryCommand::Report(NO_CATALOG.to_owned());
        }
        match message {
            LibraryMessage::ItemsLoad(items) => {
                self.items = LibraryItems::new(items);
                LibraryCommand::Nothing
            },
            LibraryMessage::ItemLoad(Some(item)) => match item.catalog_item.metadata {
                CatalogMetadata::Artist(artist) => LibraryCommand::RefreshWithReleases(
                    ReleaseFilter { title: None, artist: Some(artist.name) },
                ),
                CatalogMetadata::Release(release) => LibraryCommand::RefreshWithTracks(
                    TrackFilter {
                        name: None,
                        artist: release.artist,
                        release: Some(release.title),
                    },
                ),
                CatalogMetadata::Track(_) => LibraryCommand::Nothing,
            },
            LibraryMessage::ItemLoad(None) => LibraryCommand::RefreshWithArtists(
                ArtistFilter::default(),
            ),
            LibraryMessage::ItemRefresh(items) => {
                let entries = Self::entries_for(&items);
                assert(entries.deep_view().len() == items.len());
                self.items.refresh(entries);
                LibraryCommand::Nothing
            },
            LibraryMessage::InputEvent(Key::ArrowUp) => {
                self.items.select(LibraryItemAction::SelectPrevious);
                LibraryCommand::RevealAbove(self.sight())
            },
            LibraryMessage::InputEvent(Key::ArrowDown) => {
                self.items.select(LibraryItemAction::SelectNext);
                LibraryCommand::RevealBelow(self.sight())
            },
            LibraryMessage::InputEvent(Key::Enter) => match self.items.selected() {
                Some(item) => match &item.catalog_item.metadata {
                    CatalogMetadata::Track(track) => LibraryCommand::Play(track.clone()),
                    CatalogMetadata::Artist(artist) => LibraryCommand::OpenArtist {
                        name: artist.name.clone(),
                        then: LibraryView::Release,
                    },
                    CatalogMetadata::Release(release) => LibraryCommand::OpenRelease {
                        title: release.title.clone(),
                        then: LibraryView::Track,
                    },
                },
                None => LibraryCommand::Nothing,
            },
            LibraryMessage::InputEvent(Key::Backspace) => match self.items.selected() {
                Some(item) => match &item.catalog_item.metadata {
                    CatalogMetadata::Release(_) => LibraryCommand::ReplaceWithArtists {
                        artists: ArtistFilter::default(),
                        then: LibraryView::Artist,
                    },
                    CatalogMetadata::Track(track) => LibraryCommand::ReplaceWithReleases {
                        releases: ReleaseFilter { title: None, artist: copy_text(&track.artist) },
                        then: LibraryView::Release,
                    },
                    CatalogMetadata::Artist(_) => LibraryCommand::Nothing,
                },
                None => {
                    self.items.select(LibraryItemAction::SelectNext);
                    LibraryCommand::Nothing
                },
            },
            LibraryMessage::InputEvent(_) => LibraryCommand::Nothing,
            LibraryMessage::TrackSelect(_) => LibraryCommand::Nothing,
            LibraryMessage::Error(_) => LibraryCommand::Nothing,
            LibraryMessage::ChangeView(_) => LibraryCommand::Nothing,
        }
    }
}

} // verus!
