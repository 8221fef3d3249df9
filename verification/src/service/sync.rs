//! Synchronising the catalog with a directory tree: every directory below
//! the root is listed, every audio file found is read, and every track that
//! the reading yields is taken into the catalog.

use std::path::PathBuf;
use vstd::prelude::*;
use crate::model::track::{track_from_tags, TagReading, TagReadingView, Track};
use crate::service::track::{CreateTrack, CreateTrackView, TrackService};
use crate::service::{Progress, Request, RequestView, Response, ResponseView, Step, Task};

verus! {

/// The extension by which a file counts as an audio file.
pub const AUDIO_EXTENSION: &'static str = "flac";

/// Why a synchronisation failed.
#[derive(Debug)]
pub enum CatalogServiceError {
    /// A directory could not be listed; the text says why.
    Internal(String),
    /// The synchronisation was told of something it had not asked for.
    Unknown,
}

/// What a [`CatalogServiceError`] holds, as mathematical values.
pub enum CatalogServiceErrorView {
    Internal(Seq<char>),
    Unknown,
}

impl View for CatalogServiceError {
    type V = CatalogServiceErrorView;

    open spec fn view(&self) -> CatalogServiceErrorView {
        match self {
            CatalogServiceError::Internal(detail) => CatalogServiceErrorView::Internal(detail@),
            CatalogServiceError::Unknown => CatalogServiceErrorView::Unknown,
        }
    }
}

impl CatalogServiceErrorView {
    /// The error in words.
    pub open spec fn message(self) -> Seq<char> {
        match self {
            CatalogServiceErrorView::Internal(detail) => detail,
            CatalogServiceErrorView::Unknown => "unknown error occured"@,
        }
    }
}

impl CatalogServiceError {
    /// The error in words.
    pub fn message(&self) -> (text: String)
        ensures
            text@ == self@.message(),
    {
        match self {
            CatalogServiceError::Internal(detail) => detail.clone(),
            CatalogServiceError::Unknown => "unknown error occured".to_owned(),
        }
    }
}

/// One entry of a directory as the walker needs it: where it is, and whether
/// it is a directory itself.
#[derive(Debug)]
pub struct DirectoryEntry {
    pub path: PathBuf,
    pub is_directory: bool,
}

impl View for DirectoryEntry {
    type V = DirectoryEntry;

    open spec fn view(&self) -> DirectoryEntry {
        *self
    }
}

impl DeepView for DirectoryEntry {
    type V = DirectoryEntry;

    open spec fn deep_view(&self) -> DirectoryEntry {
        *self
    }
}

/// The extension of the file name that `path` ends in, as
/// `std::path::Path::extension` gives it and `OsStr::to_str` reads
/// it: none where the path has no extension, or has one that is no valid
/// text.
pub uninterp spec fn extension_of(path: PathBuf) -> Option<Seq<char>>;

/// `std::path::Path::extension`, with what it gives read as text by
/// `OsStr::to_str`; taken on trust. The text handed back is the
/// extension that the path has, and there is none where the path has none or
/// its extension is no valid text. Nothing is claimed of which part of a path
/// its extension is.
#[verifier::external_body]
fn extension(path: &PathBuf) -> (text: Option<String>)
    ensures
        text.deep_view() == extension_of(*path),
{
    match path.extension() {
        Some(extension) => extension.to_str().map(str::to_owned),
        None => None,
    }
}

/// `extension` is the extension of an audio file.
pub open spec fn audio_extension(extension: Option<Seq<char>>) -> bool {
    extension == Some(AUDIO_EXTENSION@)
}

/// Whether `extension` is the extension of an audio file: it is where it is
/// the audio extension, letter for letter.
pub fn is_audio_extension(extension: &Option<String>) -> (answer: bool)
    ensures
        answer == audio_extension(extension.deep_view()),
{
    match extension {
        Some(extension) => {
            let wanted = AUDIO_EXTENSION.to_owned();
            *extension == wanted
        },
        None => false,
    }
}

impl DirectoryEntry {
    /// The entry is an audio file: it is no directory, and the extension of
    /// its name is the audio extension.
    pub open spec fn audio_file(self) -> bool {
        !self.is_directory && audio_extension(extension_of(self.path))
    }

    /// Whether the entry is an audio file.
    pub fn is_audio_file(&self) -> (answer: bool)
        ensures
            answer == self.audio_file(),
    {
        if self.is_directory {
            return false;
        }
        let extension = extension(&self.path);
        is_audio_extension(&extension)
    }
}

/// The paths of the directories among `entries`, in their order.
pub open spec fn directories_among(entries: Seq<DirectoryEntry>) -> Seq<PathBuf>
    decreases entries.len(),
{
    if entries.len() == 0 {
        Seq::empty()
    } else if entries.last().is_directory {
        directories_among(entries.drop_last()).push(entries.last().path)
    } else {
        directories_among(entries.drop_last())
    }
}

/// The paths of the audio files among `entries`, in their order.
pub open spec fn audio_files_among(entries: Seq<DirectoryEntry>) -> Seq<PathBuf>
    decreases entries.len(),
{
    if entries.len() == 0 {
        Seq::empty()
    } else if entries.last().audio_file() {
        audio_files_among(entries.drop_last()).push(entries.last().path)
    } else {
        audio_files_among(entries.drop_last())
    }
}

/// What a synchronisation asks for.
#[derive(Debug)]
pub enum SyncRequest {
    /// The entries of this directory.
    ListDirectory(PathBuf),
    /// The tags and the length of this file.
    ReadTags(PathBuf),
    /// The store's answer to this request.
    Store(Request),
}

/// What a [`SyncRequest`] holds, as mathematical values.
pub enum SyncRequestView {
    ListDirectory(PathBuf),
    ReadTags(PathBuf),
    Store(RequestView),
}

impl View for SyncRequest {
    type V = SyncRequestView;

    open spec fn view(&self) -> SyncRequestView {
        match self {
            SyncRequest::ListDirectory(path) => SyncRequestView::ListDirectory(*path),
            SyncRequest::ReadTags(path) => SyncRequestView::ReadTags(*path),
            SyncRequest::Store(request) => SyncRequestView::Store(request@),
        }
    }
}

/// What a synchronisation is told in answer to a [`SyncRequest`].
#[derive(Debug)]
pub enum SyncResponse {
    /// The entries of the directory, or why it could not be listed.
    Listed(Result<Vec<DirectoryEntry>, String>),
    /// What was read from the file, if it could be read.
    TagsRead(Option<TagReading>),
    /// The store's answer.
    Stored(Response),
}

/// What a [`SyncResponse`] holds, as mathematical values.
pub enum SyncResponseView {
    Listed(Result<Seq<DirectoryEntry>, Seq<char>>),
    TagsRead(Option<TagReadingView>),
    Stored(ResponseView),
}

impl View for SyncResponse {
    type V = SyncResponseView;

    open spec fn view(&self) -> SyncResponseView {
        match self {
            SyncResponse::Listed(Ok(entries)) => SyncResponseView::Listed(Ok(entries.deep_view())),
            SyncResponse::Listed(Err(detail)) => SyncResponseView::Listed(Err(detail@)),
            SyncResponse::TagsRead(reading) => SyncResponseView::TagsRead(reading.deep_view()),
            SyncResponse::Stored(response) => SyncResponseView::Stored(response@),
        }
    }
}

/// A synchronisation in progress.
#[derive(Debug)]
pub enum Sync {
    /// A directory is being listed. `directories` are those found and not yet
    /// listed, the last one found to be listed next; `files` are the audio
    /// files found so far, in the order in which they were found.
    Walking { directories: Vec<PathBuf>, files: Vec<PathBuf> },
    /// Every directory is listed, and the file at `current` is being read.
    /// `files` are the audio files still to be read, in their order.
    Reading { files: Vec<PathBuf>, current: PathBuf },
    /// The track of a file is being taken into the catalog.
    Storing { files: Vec<PathBuf>, task: CreateTrack },
}

/// What a [`Sync`] holds, as mathematical values.
pub enum SyncView {
    Walking { directories: Seq<PathBuf>, files: Seq<PathBuf> },
    Reading { files: Seq<PathBuf>, current: PathBuf },
    Storing { files: Seq<PathBuf>, task: CreateTrackView },
}

impl View for Sync {
    type V = SyncView;

    open spec fn view(&self) -> SyncView {
        match self {
            Sync::Walking { directories, files } => SyncView::Walking {
                directories: directories@,
                files: files@,
            },
            Sync::Reading { files, current } => SyncView::Reading {
                files: files@,
                current: *current,
            },
            Sync::Storing { files, task } => SyncView::Storing {
                files: files@,
                task: task.deep_view(),
            },
        }
    }
}

/// Where a synchronisation stands after a response.
#[derive(Debug)]
pub enum SyncProgress {
    /// It goes on: the request is to be met, and the answer handed back.
    Pending(Sync, SyncRequest),
    /// It is over.
    Done(Result<(), CatalogServiceError>),
}

/// What a [`SyncProgress`] holds, as mathematical values.
pub enum SyncStep {
    Pending(SyncView, SyncRequestView),
    Done(Result<(), CatalogServiceErrorView>),
}

impl View for SyncProgress {
    type V = SyncStep;

    open spec fn view(&self) -> SyncStep {
        match self {
            SyncProgress::Pending(sync, request) => SyncStep::Pending(sync@, request@),
            SyncProgress::Done(Ok(_)) => SyncStep::Done(Ok(())),
            SyncProgress::Done(Err(error)) => SyncStep::Done(Err(error@)),
        }
    }
}

impl SyncView {
    /// How a synchronisation of the tree below `root` begins: the root is to
    /// be listed.
    pub open spec fn begin(root: PathBuf) -> (SyncView, SyncRequestView) {
        (
            SyncView::Walking { directories: Seq::empty(), files: Seq::empty() },
            SyncRequestView::ListDirectory(root),
        )
    }

    /// How the walk goes on: the directory found last is listed next, and
    /// once none is left the files are read.
    pub open spec fn walk_on(directories: Seq<PathBuf>, files: Seq<PathBuf>) -> SyncStep {
        if directories.len() > 0 {
            SyncStep::Pending(
                SyncView::Walking { directories: directories.drop_last(), files },
                SyncRequestView::ListDirectory(directories.last()),
            )
        } else {
            Self::read_on(files)
        }
    }

    /// How the reading goes on: the first of `files` is read next, and once
    /// none is left the synchronisation is over, with success.
    pub open spec fn read_on(files: Seq<PathBuf>) -> SyncStep {
        if files.len() > 0 {
            SyncStep::Pending(
                SyncView::Reading { files: files.drop_first(), current: files.first() },
                SyncRequestView::ReadTags(files.first()),
            )
        } else {
            SyncStep::Done(Ok(()))
        }
    }

    /// How the synchronisation goes on after `response`.
    ///
    /// A directory that cannot be listed ends it with a failure. A file that
    /// cannot be read, or whose reading yields no track, is passed over:
    /// nothing is asked of the store for it, and the next file is read. A
    /// track that the store does not take, for whatever reason, is passed
    /// over as well.
    pub open spec fn resume(self, response: SyncResponseView) -> SyncStep {
        match (self, response) {
            (SyncView::Walking { directories, files }, SyncResponseView::Listed(Ok(entries))) => {
                Self::walk_on(
                    directories + directories_among(entries),
                    files + audio_files_among(entries),
                )
            },
            (SyncView::Walking { .. }, SyncResponseView::Listed(Err(detail))) => SyncStep::Done(
                Err(CatalogServiceErrorView::Internal(detail)),
            ),
            (SyncView::Reading { files, current }, SyncResponseView::TagsRead(reading)) => {
                match track_from_tags(current, reading) {
                    Ok(track) => SyncStep::Pending(
                        SyncView::Storing { files, task: CreateTrackView::begin(track).0 },
                        SyncRequestView::Store(CreateTrackView::begin(track).1),
                    ),
                    Err(_) => Self::read_on(files),
                }
            },
            (SyncView::Storing { files, task }, SyncResponseView::Stored(answer)) => {
                match task.resume(answer) {
                    Step::Pending(task, request) => SyncStep::Pending(
                        SyncView::Storing { files, task },
                        SyncRequestView::Store(request),
                    ),
                    Step::Done(_) => Self::read_on(files),
                }
            },
            _ => SyncStep::Done(Err(CatalogServiceErrorView::Unknown)),
        }
    }
}

impl Sync {
    /// How the walk goes on.
    fn walk_on(directories: Vec<PathBuf>, files: Vec<PathBuf>) -> (progress: SyncProgress)
        ensures
            progress@ == SyncView::walk_on(directories@, files@),
    {
        let mut directories = directories;
        match directories.pop() {
            Some(next) => SyncProgress::Pending(
                Sync::Walking { directories, files },
                SyncRequest::ListDirectory(next),
            ),
            None => Self::read_on(files),
        }
    }

    /// How the reading goes on.
    fn read_on(files: Vec<PathBuf>) -> (progress: SyncProgress)
        ensures
            progress@ == SyncView::read_on(files@),
    {
        let mut files = files;
        if files.len() > 0 {
            let ghost before = files@;
            let current = files.remove(0);
            assert(files@ =~= before.drop_first());
            let asked = current.clone();
            SyncProgress::Pending(Sync::Reading { files, current }, SyncRequest::ReadTags(asked))
        } else {
            SyncProgress::Done(Ok(()))
        }
    }

    /// Takes what a synchronisation is told in answer to its last request,
    /// and says how it goes on.
    pub fn resume(self, response: SyncResponse) -> (progress: SyncProgress)
        ensures
            progress@ == self@.resume(response@),
    {
        match (self, response) {
            (Sync::Walking { directories, files }, SyncResponse::Listed(Ok(entries))) => {
                let mut directories = directories;
                let mut files = files;
                let ghost all = entries.deep_view();
                let ghost directories_before = directories@;
                let ghost files_before = files@;
                let mut i: usize = 0;
                while i < entries.len()
                    invariant
                        i <= entries.len(),
                        all == entries.deep_view(),
                        directories@ == directories_before + directories_among(
                            all.take(i as int),
                        ),
                        files@ == files_before + audio_files_among(all.take(i as int)),
                    decreases entries.len() - i,
                {
                    let entry = &entries[i];
                    proof {
                        let next = all.take(i + 1);
                        assert(next.drop_last() =~= all.take(i as int));
                        assert(next.last() == entry@);
                    }
                    if entry.is_directory {
                        directories.push(entry.path.clone());
                    } else if entry.is_audio_file() {
                        files.push(entry.path.clone());
                    }
                    assert(directories@ =~= directories_before + directories_among(
                        all.take(i + 1),
                    ));
                    assert(files@ =~= files_before + audio_files_among(all.take(i + 1)));
                    i += 1;
                }
                assert(all.take(i as int) =~= all);
                Self::walk_on(directories, files)
            },
            (Sync::Walking { .. }, SyncResponse::Listed(Err(detail))) => SyncProgress::Done(
                Err(CatalogServiceError::Internal(detail)),
            ),
            (Sync::Reading { files, current }, SyncResponse::TagsRead(reading)) => {
                match Track::from_path(current, reading) {
                    Ok(track) => {
                        let (task, request) = TrackService::new().create_track(track);
                        SyncProgress::Pending(
                            Sync::Storing { files, task },
                            SyncRequest::Store(request),
                        )
                    },
                    Err(_) => Self::read_on(files),
                }
            },
            (Sync::Storing { files, task }, SyncResponse::Stored(answer)) => {
                match task.resume(answer) {
                    Progress::Pending(task, request) => SyncProgress::Pending(
                        Sync::Storing { files, task },
                        SyncRequest::Store(request),
                    ),
                    Progress::Done(_) => Self::read_on(files),
                }
            },
            _ => SyncProgress::Done(Err(CatalogServiceError::Unknown)),
        }
    }
}

/// A file that yields no track is passed over. Where the file could not be
/// read, or lacks a title, or has no length, the
/// synchronisation asks nothing of the store for it: it goes on to read the
/// next file, and where none is left it is over, with success.
pub proof fn law_file_without_track_is_passed_over(
    files: Seq<PathBuf>,
    current: PathBuf,
    reading: Option<TagReadingView>,
)
    requires
        track_from_tags(current, reading) is Err,
    ensures
        ({
            let step = (SyncView::Reading { files, current }).resume(
                SyncResponseView::TagsRead(reading),
            );
            &&& !(step matches SyncStep::Pending(_, SyncRequestView::Store(_)))
            &&& files.len() > 0 ==> step == SyncStep::Pending(
                SyncView::Reading { files: files.drop_first(), current: files.first() },
                SyncRequestView::ReadTags(files.first()),
            )
            &&& files.len() == 0 ==> step == SyncStep::Done(Ok(()))
        }),
{
}

/// A track that the store does not take is passed over as well: whatever the
/// reason for which taking the track into the catalog ends, the
/// synchronisation goes on to read the next file, and where none is left it
/// is over, with success.
pub proof fn law_refused_track_is_passed_over(
    files: Seq<PathBuf>,
    task: CreateTrackView,
    answer: ResponseView,
)
    requires
        task.resume(answer) is Done,
    ensures
        ({
            let step = (SyncView::Storing { files, task }).resume(
                SyncResponseView::Stored(answer),
            );
            &&& files.len() > 0 ==> step == SyncStep::Pending(
                SyncView::Reading { files: files.drop_first(), current: files.first() },
                SyncRequestView::ReadTags(files.first()),
            )
            &&& files.len() == 0 ==> step == SyncStep::Done(Ok(()))
        }),
{
}

/// A root without directories in it is walked at once: when the listing of
/// the root names no directory, the synchronisation goes on to read the audio
/// files that the listing names, in the order of the listing, and where it
/// names none it is over with success.
pub proof fn law_flat_root_is_read_in_order(root: PathBuf, entries: Seq<DirectoryEntry>)
    requires
        forall|i: int| 0 <= i < entries.len() ==> !(#[trigger] entries[i]).is_directory,
    ensures
        SyncView::begin(root).1 == SyncRequestView::ListDirectory(root),
        SyncView::begin(root).0.resume(SyncResponseView::Listed(Ok(entries))) == SyncView::read_on(
            audio_files_among(entries),
        ),
{
    lemma_no_directories_among(entries);
    assert(Seq::<PathBuf>::empty() + directories_among(entries) =~= Seq::<PathBuf>::empty());
    assert(Seq::<PathBuf>::empty() + audio_files_among(entries) =~= audio_files_among(entries));
}

/// Entries that are no directories have no directories among them.
pub(crate) proof fn lemma_no_directories_among(entries: Seq<DirectoryEntry>)
    requires
        forall|i: int| 0 <= i < entries.len() ==> !(#[trigger] entries[i]).is_directory,
    ensures
        directories_among(entries).len() == 0,
    decreases entries.len(),
{
    if entries.len() > 0 {
        let rest = entries.drop_last();
        assert forall|i: int| 0 <= i < rest.len() implies !(#[trigger] rest[i]).is_directory by {
            assert(rest[i] == entries[i]);
        }
        lemma_no_directories_among(rest);
        assert(!entries[entries.len() - 1].is_directory);
    }
}

/// A directory that cannot be listed ends the synchronisation with a
/// failure, wherever in the walk it stands: nothing more is listed, and no
/// file is read.
pub proof fn law_unlisted_directory_ends_the_run(
    directories: Seq<PathBuf>,
    files: Seq<PathBuf>,
    detail: Seq<char>,
)
    ensures
        (SyncView::Walking { directories, files }).resume(SyncResponseView::Listed(Err(detail)))
            == SyncStep::Done(Err(CatalogServiceErrorView::Internal(detail))),
{
}

/// The service that keeps the catalog in step with a directory tree.
#[derive(Debug, Clone, Copy)]
pub struct CatalogService {
    pub artist: crate::service::artist::ArtistService,
    pub release: crate::service::release::ReleaseService,
    pub track: TrackService,
}

impl CatalogService {
    /// The service, with the services for the three kinds of entry.
    pub fn new() -> (service: Self) {
        CatalogService {
            artist: crate::service::artist::ArtistService::new(),
            release: crate::service::release::ReleaseService::new(),
            track: TrackService::new(),
        }
    }

    /// Begins a synchronisation of the tree below `path`.
    pub fn sync(&self, path: PathBuf) -> (begun: (Sync, SyncRequest))
        ensures
            (begun.0@, begun.1@) == SyncView::begin(path),
    {
        (
            Sync::Walking { directories: Vec::new(), files: Vec::new() },
            SyncRequest::ListDirectory(path),
        )
    }
}

} // verus!
