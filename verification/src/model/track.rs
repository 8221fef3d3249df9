//! Tracks, and how one is put together from what a file's tags say.

use std::path::PathBuf;
use std::time::Duration;
use vstd::prelude::*;
use crate::model::copy_text;

verus! {

/// `std::path::PathBuf`, made known so that a track can hold the path of its
/// file. Nothing is claimed of what a path holds.
#[verifier::external_type_specification]
#[verifier::external_body]
pub struct ExPathBuf(PathBuf);

/// `PathBuf::clone`, taken on trust: the copy is the path that it was made
/// from.
pub assume_specification[ <PathBuf as Clone>::clone ](path: &PathBuf) -> (copy: PathBuf)
    ensures
        copy == *path,
;

/// Why a file did not yield a track.
#[derive(Debug, Clone, Copy, PartialEq, Eq, Structural)]
pub enum TrackError {
    /// A tag that every track needs is missing from the file.
    TagMissing,
    /// The file could not be read or understood.
    Unknown,
}

impl TrackError {
    /// The error in words.
    pub fn message(&self) -> (text: &'static str)
        ensures
            text@ == match *self {
                TrackError::TagMissing => "track is missing a required tag"@,
                TrackError::Unknown => "unknown error occured"@,
            },
    {
        match self {
            TrackError::TagMissing => "track is missing a required tag",
            TrackError::Unknown => "unknown error occured",
        }
    }
}

/// Cover art: the image's bytes and their media type.
#[derive(Debug)]
pub struct Cover {
    pub byte_data: Vec<u8>,
    pub mime_type: String,
}

/// What a [`Cover`] holds, as mathematical values.
pub struct CoverView {
    pub byte_data: Seq<u8>,
    pub mime_type: Seq<char>,
}

impl Clone for Cover {
    fn clone(&self) -> (copy: Self)
        ensures
            copy@ == self@,
    {
        Cover { byte_data: self.byte_data.clone(), mime_type: self.mime_type.clone() }
    }
}

impl View for Cover {
    type V = CoverView;

    open spec fn view(&self) -> CoverView {
        CoverView { byte_data: self.byte_data@, mime_type: self.mime_type@ }
    }
}

impl DeepView for Cover {
    type V = CoverView;

    open spec fn deep_view(&self) -> CoverView {
        self@
    }
}

/// The tags that the catalog reads from a file.
#[derive(Debug, Clone, Copy, PartialEq, Eq, Structural)]
pub enum TagKey {
    TrackTitle,
    Artist,
    Album,
    /// Any tag that the catalog has no use for.
    Other,
}

/// One tag of a file: what it is about and what it says.
#[derive(Debug)]
pub struct Tag {
    pub key: TagKey,
    pub value: String,
}

/// What a [`Tag`] holds, as mathematical values.
pub struct TagView {
    pub key: TagKey,
    pub value: Seq<char>,
}

impl View for Tag {
    type V = TagView;

    open spec fn view(&self) -> TagView {
        TagView { key: self.key, value: self.value@ }
    }
}

impl DeepView for Tag {
    type V = TagView;

    open spec fn deep_view(&self) -> TagView {
        self@
    }
}

/// What was read from one file: its tags in the order in which the file
/// holds them, and its length where that could be worked out.
#[derive(Debug)]
pub struct TagReading {
    pub tags: Vec<Tag>,
    pub duration: Option<Duration>,
}

/// What a [`TagReading`] holds, as mathematical values.
pub struct TagReadingView {
    pub tags: Seq<TagView>,
    pub duration: Option<Duration>,
}

impl View for TagReading {
    type V = TagReadingView;

    open spec fn view(&self) -> TagReadingView {
        TagReadingView { tags: self.tags.deep_view(), duration: self.duration }
    }
}

impl DeepView for TagReading {
    type V = TagReadingView;

    open spec fn deep_view(&self) -> TagReadingView {
        self@
    }
}

/// What an embedded image shows.
#[derive(Debug, Clone, Copy, PartialEq, Eq, Structural)]
pub enum VisualKey {
    FrontCover,
    /// Any image other than the front cover.
    Other,
}

/// One image embedded in a file.
#[derive(Debug)]
pub struct Visual {
    pub usage: VisualKey,
    pub media_type: String,
    pub data: Vec<u8>,
}

/// What a [`Visual`] holds, as mathematical values.
pub struct VisualView {
    pub usage: VisualKey,
    pub media_type: Seq<char>,
    pub data: Seq<u8>,
}

impl View for Visual {
    type V = VisualView;

    open spec fn view(&self) -> VisualView {
        VisualView { usage: self.usage, media_type: self.media_type@, data: self.data@ }
    }
}

impl DeepView for Visual {
    type V = VisualView;

    open spec fn deep_view(&self) -> VisualView {
        self@
    }
}

/// One audio file as the catalog knows it.
#[derive(Debug)]
pub struct Track {
    pub title: String,
    pub release: Option<String>,
    pub artist: Option<String>,
    pub path: PathBuf,
    pub duration: Duration,
}

/// What a [`Track`] holds, as mathematical values.
pub struct TrackView {
    pub title: Seq<char>,
    pub release: Option<Seq<char>>,
    pub artist: Option<Seq<char>>,
    pub path: PathBuf,
    pub duration: Duration,
}

impl View for Track {
    type V = TrackView;

    open spec fn view(&self) -> TrackView {
        TrackView {
            title: self.title@,
            release: self.release.deep_view(),
            artist: self.artist.deep_view(),
            path: self.path,
            duration: self.duration,
        }
    }
}

impl DeepView for Track {
    type V = TrackView;

    open spec fn deep_view(&self) -> TrackView {
        self@
    }
}

impl Clone for Track {
    fn clone(&self) -> (copy: Self)
        ensures
            copy@ == self@,
    {
        Track {
            title: self.title.clone(),
            release: copy_text(&self.release),
            artist: copy_text(&self.artist),
            path: self.path.clone(),
            duration: self.duration,
        }
    }
}

/// What the last tag about `key` among `tags` says, if there is such a tag.
pub open spec fn last_tagged(tags: Seq<TagView>, key: TagKey) -> Option<Seq<char>>
    decreases tags.len(),
{
    if tags.len() == 0 {
        None
    } else if tags.last().key == key {
        Some(tags.last().value)
    } else {
        last_tagged(tags.drop_last(), key)
    }
}

/// The first front cover among `visuals`, if there is one.
pub open spec fn first_front_cover(visuals: Seq<VisualView>) -> Option<VisualView>
    decreases visuals.len(),
{
    if visuals.len() == 0 {
        None
    } else if visuals.first().usage == VisualKey::FrontCover {
        Some(visuals.first())
    } else {
        first_front_cover(visuals.drop_first())
    }
}

/// The track that a reading of a file describes, or the reason why it
/// describes none: the file must have been read, a title is required, and so
/// is a length. The artist and the album are taken as the file gives them,
/// and a track may lack either. Where a tag occurs more than once, the last
/// one counts.
pub open spec fn track_from_tags(path: PathBuf, reading: Option<TagReadingView>) -> Result<
    TrackView,
    TrackError,
> {
    match reading {
        None => Err(TrackError::Unknown),
        Some(reading) => {
            let title = last_tagged(reading.tags, TagKey::TrackTitle);
            let artist = last_tagged(reading.tags, TagKey::Artist);
            let album = last_tagged(reading.tags, TagKey::Album);
            if title is None {
                Err(TrackError::TagMissing)
            } else if reading.duration is None {
                Err(TrackError::Unknown)
            } else {
                Ok(
                    TrackView {
                        title: title->0,
                        release: album,
                        artist: artist,
                        path: path,
                        duration: reading.duration->0,
                    },
                )
            }
        },
    }
}

/// The view of a track or of the reason why there is none.
pub open spec fn track_result_view(result: Result<Track, TrackError>) -> Result<
    TrackView,
    TrackError,
> {
    match result {
        Ok(track) => Ok(track@),
        Err(error) => Err(error),
    }
}

impl Track {
    /// Puts a track together from the file's path and what was read from the
    /// file, if it could be read.
    pub fn from_path(path: PathBuf, reading: Option<TagReading>) -> (result: Result<
        Track,
        TrackError,
    >)
        ensures
            track_result_view(result) == track_from_tags(path, reading.deep_view()),
    {
        let reading = match reading {
            Some(reading) => reading,
            None => {
                return Err(TrackError::Unknown);
            },
        };
        let tags = &reading.tags;
        let duration = reading.duration;
        let mut title: Option<String> = None;
        let mut artist: Option<String> = None;
        let mut album: Option<String> = None;
        let ghost all = tags.deep_view();
        let mut i: usize = 0;
        while i < tags.len()
            invariant
                i <= tags.len(),
                all == tags.deep_view(),
                title.deep_view() == last_tagged(all.take(i as int), TagKey::TrackTitle),
                artist.deep_view() == last_tagged(all.take(i as int), TagKey::Artist),
                album.deep_view() == last_tagged(all.take(i as int), TagKey::Album),
            decreases tags.len() - i,
        {
            let tag = &tags[i];
            proof {
                let next = all.take(i + 1);
                assert(next.drop_last() =~= all.take(i as int));
                assert(next.last() == tag@);
            }
            match tag.key {
                TagKey::TrackTitle => {
                    title = Some(tag.value.clone());
                },
                TagKey::Artist => {
                    artist = Some(tag.value.clone());
                },
                TagKey::Album => {
                    album = Some(tag.value.clone());
                },
                TagKey::Other => {},
            }
            i += 1;
        }
        assert(all.take(i as int) =~= all);
        let title = match title {
            Some(title) => title,
            None => {
                return Err(TrackError::TagMissing);
            },
        };
        let duration = match duration {
            Some(duration) => duration,
            None => {
                return Err(TrackError::Unknown);
            },
        };
        Ok(Track { title, artist, release: album, duration, path })
    }

    /// The cover to show for the track: the first front cover among the
    /// images embedded in its file, or the stock image where there is none.
    pub fn cover(&self, visuals: &Vec<Visual>, stock_image: &Vec<u8>) -> (cover: Cover)
        ensures
            cover@ == match first_front_cover(visuals.deep_view()) {
                Some(visual) => CoverView { byte_data: visual.data, mime_type: visual.media_type },
                None => CoverView { byte_data: stock_image@, mime_type: "image/png"@ },
            },
    {
        let ghost all = visuals.deep_view();
        assert(all.skip(0) =~= all);
        let mut i: usize = 0;
        while i < visuals.len()
            invariant
                i <= visuals.len(),
                all == visuals.deep_view(),
                first_front_cover(all) == first_front_cover(all.skip(i as int)),
            decreases visuals.len() - i,
        {
            let visual = &visuals[i];
            proof {
                let rest = all.skip(i as int);
                assert(rest.first() == visual@);
                assert(rest.drop_first() =~= all.skip(i + 1));
            }
            match visual.usage {
                VisualKey::FrontCover => {
                    return Cover {
                        mime_type: visual.media_type.clone(),
                        byte_data: visual.data.clone(),
                    };
                },
                VisualKey::Other => {},
            }
            i += 1;
        }
        Cover { mime_type: "image/png".to_owned(), byte_data: stock_image.clone() }
    }
}

} // verus!
