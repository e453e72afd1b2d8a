//! Copying a folder, with all that is in it, into another folder.
//!
//! The copy is depth first and strictly serial. It is driven from outside:
//! [`copy_folder`] gives the first request, and [`CopyFolder::step`] takes the
//! answer to the last request and gives the next one, until the request is
//! [`Action::Finish`]. Nothing that was created is undone when the copy fails.
//!
//! The type `E` is the error of whatever makes the remote calls. The copy
//! hands it on and never looks inside.

pub mod course;
pub mod guarantees;
pub mod machine;
pub mod remote;
pub mod replica;

use crate::common::drive_file::{handles_view, is_directory, text_of, FileHandle, FileHandleView};
use crate::files::copy_folder::machine::{
    advance, capped, finish, list_request, start, take_up, ActionView, ConfigView,
    CopyFolderConfigView, CopyFolderView, FrameView, ListSortOrder, ReplyView, StageView,
    MAX_FILES,
};
use core::marker::PhantomData;
use vstd::pervasive::unreached;
use vstd::prelude::*;
use vstd::string::{to_string_from_display_ensures, StringExecFns};

verus! {

/// The folder to copy and the folder to copy it into.
#[derive(Clone, Debug)]
pub struct Config {
    pub src_folder_id: String,
    pub to_folder_id: String,
}

impl View for Config {
    type V = ConfigView;

    open spec fn view(&self) -> ConfigView {
        ConfigView { src_folder_id: self.src_folder_id@, to_folder_id: self.to_folder_id@ }
    }
}

/// One level of the traversal: the children of `src_folder_id` are copied into `to_folder_id`.
pub struct CopyFolderConfig {
    pub src_folder_id: String,
    pub to_folder_id: String,
}

impl View for CopyFolderConfig {
    type V = CopyFolderConfigView;

    open spec fn view(&self) -> CopyFolderConfigView {
        CopyFolderConfigView {
            src_folder_id: self.src_folder_id@,
            to_folder_id: self.to_folder_id@,
        }
    }
}

/// Why a copy ended without completing. Each variant names the phase that
/// failed; where a remote call failed, it holds the error of that call.
#[derive(Debug)]
pub enum Error<E> {
    /// The session with the remote store could not be opened.
    Hub(E),
    /// The metadata of the source folder could not be fetched.
    GetFile(E),
    /// The metadata of the destination folder could not be fetched.
    GetDestinationFolder(E),
    /// The source is not a folder.
    SourceNotADirectory,
    /// The destination is not a folder.
    DestinationNotADirectory,
    /// The source of a copy of a single file is a folder.
    SourceIsADirectory,
    /// The children of a folder could not be listed.
    ListFiles(E),
    /// A file could not be copied.
    Copy(E),
    /// The remote store reported an object without an id.
    FileWithoutId,
    /// The remote store listed a child without a name.
    FileWithoutName,
    /// A directory could not be created.
    MKDirError(E),
    /// The content of a file could not be copied.
    CopyFile(E),
    /// The copy of a file could not be given the name of the file.
    RenameError(E),
}

impl<E> Error<E> {
    /// The error of the remote call that failed, where the copy ended on one.
    pub open spec fn cause(self) -> Option<E> {
        match self {
            Error::Hub(cause) => Some(cause),
            Error::GetFile(cause) => Some(cause),
            Error::GetDestinationFolder(cause) => Some(cause),
            Error::ListFiles(cause) => Some(cause),
            Error::Copy(cause) => Some(cause),
            Error::MKDirError(cause) => Some(cause),
            Error::CopyFile(cause) => Some(cause),
            Error::RenameError(cause) => Some(cause),
            _ => None,
        }
    }

    /// What the message says of the phase that failed. Where there is a cause,
    /// its text follows.
    pub open spec fn lead(self) -> Seq<char> {
        match self {
            Error::Hub(_) => Seq::empty(),
            Error::GetFile(_) => "Failed to get file: "@,
            Error::GetDestinationFolder(_) => "Failed to get destination folder: "@,
            Error::SourceNotADirectory => "Can only copy a directory"@,
            Error::DestinationNotADirectory => "Can only copy to a directory"@,
            Error::SourceIsADirectory => "Copy directories is not supported"@,
            Error::ListFiles(_) => "Failed to list files: "@,
            Error::Copy(_) => "Failed to copy file: "@,
            Error::FileWithoutId => "Found a file to copy with no id"@,
            Error::FileWithoutName => "Found a file to copy with no name"@,
            Error::MKDirError(_) => "Failed creating folder: "@,
            Error::CopyFile(_) => "Faild copying file: "@,
            Error::RenameError(_) => "Faild renaming file: "@,
        }
    }

    /// The message of this error, given the text `cause` of the error it holds.
    pub open spec fn message_with(self, cause: Seq<char>) -> Seq<char> {
        if self.cause() is Some {
            self.lead() + cause
        } else {
            self.lead()
        }
    }

    /// The message of this error for a reader, where `cause` is the text of
    /// the error it holds. An error that holds none ignores `cause`.
    pub fn describe(&self, cause: &str) -> (text: String)
        ensures
            text@ == self.message_with(cause@),
    {
        match self {
            Error::Hub(_) => String::new().concat(cause),
            Error::GetFile(_) => String::from_str("Failed to get file: ").concat(cause),
            Error::GetDestinationFolder(_) => String::from_str(
                "Failed to get destination folder: ",
            ).concat(cause),
            Error::SourceNotADirectory => String::from_str("Can only copy a directory"),
            Error::DestinationNotADirectory => String::from_str("Can only copy to a directory"),
            Error::SourceIsADirectory => String::from_str("Copy directories is not supported"),
            Error::ListFiles(_) => String::from_str("Failed to list files: ").concat(cause),
            Error::Copy(_) => String::from_str("Failed to copy file: ").concat(cause),
            Error::FileWithoutId => String::from_str("Found a file to copy with no id"),
            Error::FileWithoutName => String::from_str("Found a file to copy with no name"),
            Error::MKDirError(_) => String::from_str("Failed creating folder: ").concat(cause),
            Error::CopyFile(_) => String::from_str("Faild copying file: ").concat(cause),
            Error::RenameError(_) => String::from_str("Faild renaming file: ").concat(cause),
        }
    }
}

/// A file that could not be copied and a content that could not be copied
/// are told apart by their messages, whatever the causes.
pub proof fn lemma_copy_messages_differ<E>(
    cause: E,
    other: E,
    text: Seq<char>,
    other_text: Seq<char>,
)
    ensures
        Error::Copy(cause).message_with(text) != Error::CopyFile(other).message_with(other_text),
{
    reveal_strlit("Failed to copy file: ");
    reveal_strlit("Faild copying file: ");
    let copy = Error::Copy(cause).message_with(text);
    let content = Error::CopyFile(other).message_with(other_text);
    assert(copy[4] == 'e');
    assert(content[4] == 'd');
}

impl<E: core::fmt::Display> Error<E> {
    /// Whether `text` is a message of this error: what failed, followed by a
    /// text that the error it holds is displayed as.
    pub open spec fn displays_as(self, text: Seq<char>) -> bool {
        match self.cause() {
            Some(cause) => exists|rendered: String|
                #[trigger] to_string_from_display_ensures::<E>(&cause, rendered) && text
                    == self.message_with(rendered@),
            None => text == self.lead(),
        }
    }

    /// The message of this error for a reader: what failed, followed by the
    /// text that the error it holds is displayed as.
    pub fn message(&self) -> (text: String)
        ensures
            self.displays_as(text@),
    {
        match self {
            Error::Hub(cause) => self.describe_cause(cause),
            Error::GetFile(cause) => self.describe_cause(cause),
            Error::GetDestinationFolder(cause) => self.describe_cause(cause),
            Error::ListFiles(cause) => self.describe_cause(cause),
            Error::Copy(cause) => self.describe_cause(cause),
            Error::MKDirError(cause) => self.describe_cause(cause),
            Error::CopyFile(cause) => self.describe_cause(cause),
            Error::RenameError(cause) => self.describe_cause(cause),
            _ => self.describe(""),
        }
    }

    /// The message of this error, which holds `cause`.
    fn describe_cause(&self, cause: &E) -> (text: String)
        requires
            self.cause() == Some(*cause),
        ensures
            self.displays_as(text@),
    {
        let rendered = cause.to_string();
        assert(to_string_from_display_ensures::<E>(&self.cause()->0, rendered));
        self.describe(rendered.as_str())
    }
}

/// What the copy asks of the remote store next.
#[derive(Debug)]
pub enum Action<E> {
    /// Open the session that the following requests go through.
    /// Answered by [`Reply::Session`].
    OpenSession,
    /// Fetch the metadata of `file_id`. Answered by [`Reply::File`].
    GetFile { file_id: String },
    /// List the direct children of `folder_id` in the order `order_by`, at most
    /// `max_files` of them. Answered by [`Reply::Files`].
    ListFiles { folder_id: String, order_by: ListSortOrder, max_files: usize },
    /// Create a directory called `name` in `parent_id`; the remote store
    /// chooses its id. Answered by [`Reply::File`] with the new directory.
    CreateDirectory { name: String, parent_id: String },
    /// Copy the file `file_id` into `to_folder_id`. Answered by
    /// [`Reply::File`] with the new file, whatever name it got.
    CopyFile { file_id: String, to_folder_id: String },
    /// Give the file `file_id` the name `name`. Answered by [`Reply::Renamed`].
    Rename { file_id: String, name: String },
    /// Nothing more: the copy has ended, in the way given.
    Finish(Result<(), Error<E>>),
}

impl<E> View for Action<E> {
    type V = ActionView<E>;

    open spec fn view(&self) -> ActionView<E> {
        match *self {
            Action::OpenSession => ActionView::OpenSession,
            Action::GetFile { file_id } => ActionView::GetFile { file_id: file_id@ },
            Action::ListFiles { folder_id, order_by, max_files } => ActionView::ListFiles {
                folder_id: folder_id@,
                order_by,
                max_files: max_files as nat,
            },
            Action::CreateDirectory { name, parent_id } => ActionView::CreateDirectory {
                name: name@,
                parent_id: parent_id@,
            },
            Action::CopyFile { file_id, to_folder_id } => ActionView::CopyFile {
                file_id: file_id@,
                to_folder_id: to_folder_id@,
            },
            Action::Rename { file_id, name } => ActionView::Rename {
                file_id: file_id@,
                name: name@,
            },
            Action::Finish(outcome) => ActionView::Finish(outcome),
        }
    }
}

/// What the remote store answered to the last request.
#[derive(Debug)]
pub enum Reply<E> {
    /// The session was opened, or why it was not.
    Session(Result<(), E>),
    /// The object asked for or created, or why there is none.
    File(Result<FileHandle, E>),
    /// The children listed, or why they were not.
    Files(Result<Vec<FileHandle>, E>),
    /// The file was renamed, or why it was not.
    Renamed(Result<(), E>),
}

impl<E> View for Reply<E> {
    type V = ReplyView<E>;

    open spec fn view(&self) -> ReplyView<E> {
        match *self {
            Reply::Session(outcome) => ReplyView::Session(outcome),
            Reply::File(Ok(file)) => ReplyView::File(Ok(file@)),
            Reply::File(Err(cause)) => ReplyView::File(Err(cause)),
            Reply::Files(Ok(files)) => ReplyView::Files(Ok(handles_view(files@))),
            Reply::Files(Err(cause)) => ReplyView::Files(Err(cause)),
            Reply::Renamed(outcome) => ReplyView::Renamed(outcome),
        }
    }
}

/// The answer that a copy is waiting for.
enum Stage {
    Session,
    Source,
    Destination,
    Listing { to_folder_id: String },
    Directory { child_id: String },
    Copy { name: String },
    Rename,
    Finished,
}

impl View for Stage {
    type V = StageView;

    closed spec fn view(&self) -> StageView {
        match *self {
            Stage::Session => StageView::Session,
            Stage::Source => StageView::Source,
            Stage::Destination => StageView::Destination,
            Stage::Listing { to_folder_id } => StageView::Listing { to_folder_id: to_folder_id@ },
            Stage::Directory { child_id } => StageView::Directory { child_id: child_id@ },
            Stage::Copy { name } => StageView::Copy { name: name@ },
            Stage::Rename => StageView::Rename,
            Stage::Finished => StageView::Finished,
        }
    }
}

/// A source folder that the copy is inside of: its listing, how far the copy
/// has come in it, and the folder that receives the replicas.
struct Frame {
    to_folder_id: String,
    children: Vec<FileHandle>,
    next: usize,
}

impl View for Frame {
    type V = FrameView;

    closed spec fn view(&self) -> FrameView {
        FrameView {
            to_folder_id: self.to_folder_id@,
            rest: if self.next <= self.children.len() {
                handles_view(self.children@).skip(self.next as int)
            } else {
                Seq::empty()
            },
        }
    }
}

spec fn frames_view(frames: Seq<Frame>) -> Seq<FrameView> {
    frames.map_values(|frame: Frame| frame@)
}

/// A copy in progress: what it waits for, and the folders it is inside of.
/// `E` is the error of the remote calls whose answers it is given.
pub struct CopyFolder<E> {
    config: Config,
    stage: Stage,
    frames: Vec<Frame>,
    cause: PhantomData<E>,
}

impl<E> View for CopyFolder<E> {
    type V = CopyFolderView;

    closed spec fn view(&self) -> CopyFolderView {
        CopyFolderView {
            config: self.config@,
            stage: self.stage@,
            frames: frames_view(self.frames@),
        }
    }
}

/// Begins the copy of the folder `config.src_folder_id` into the folder
/// `config.to_folder_id`. The first request is for the session.
///
/// The copy then fetches the source and the destination, in this order, and
/// ends before it has changed anything unless both are folders. After that it
/// replicates the children of the source one by one, a folder with all that is
/// in it before the child that follows it.
pub fn copy_folder<E>(config: Config) -> (started: (CopyFolder<E>, Action<E>))
    ensures
        (started.0@, started.1@) == start::<E>(config@),
{
    let started = (
        CopyFolder { config, stage: Stage::Session, frames: Vec::new(), cause: PhantomData },
        Action::OpenSession,
    );
    assert(frames_view(started.0.frames@) =~= Seq::empty());
    started
}

/// Turns the copy `state` to one level of the traversal: the children of
/// `config.src_folder_id` are to go into `config.to_folder_id`. The request is
/// for their listing, in the order `FolderModifiedName`, capped at `MAX_FILES`.
pub fn copy_folder_inner<E>(state: CopyFolder<E>, config: CopyFolderConfig) -> (entered: (
    CopyFolder<E>,
    Action<E>,
))
    ensures
        (entered.0@, entered.1@) == state@.enter::<E>(config@),
{
    enter(state.config, state.frames, config)
}

/// Asks for the listing of `level.src_folder_id`, whose children are to go
/// into `level.to_folder_id`.
fn enter<E>(config: Config, frames: Vec<Frame>, level: CopyFolderConfig) -> (entered: (
    CopyFolder<E>,
    Action<E>,
))
    ensures
        entered.0@ == (CopyFolderView {
            config: config@,
            stage: StageView::Listing { to_folder_id: level@.to_folder_id },
            frames: frames_view(frames@),
        }),
        entered.1@ == list_request::<E>(level@.src_folder_id),
{
    let CopyFolderConfig { src_folder_id, to_folder_id } = level;
    (
        CopyFolder { config, stage: Stage::Listing { to_folder_id }, frames, cause: PhantomData },
        Action::ListFiles {
            folder_id: src_folder_id,
            order_by: ListSortOrder::FolderModifiedName,
            max_files: MAX_FILES,
        },
    )
}

/// `Ok` for a folder, the error `otherwise` for anything else.
fn err_if_not_directory<E>(file: &FileHandle, otherwise: Error<E>) -> (checked: Result<
    (),
    Error<E>,
>)
    ensures
        checked == if file@.is_directory() {
            Ok::<(), Error<E>>(())
        } else {
            Err::<(), Error<E>>(otherwise)
        },
{
    if !is_directory(file) {
        Err(otherwise)
    } else {
        Ok(())
    }
}

/// Ends the copy with `outcome`.
fn end_with<E>(config: Config, outcome: Result<(), Error<E>>) -> (ended: (CopyFolder<E>, Action<E>))
    ensures
        (ended.0@, ended.1@) == finish(config@, outcome),
{
    let ended = (
        CopyFolder { config, stage: Stage::Finished, frames: Vec::new(), cause: PhantomData },
        Action::Finish(outcome),
    );
    assert(frames_view(ended.0.frames@) =~= Seq::empty());
    ended
}

/// Takes up a child that goes into `to_folder_id`, given its id, its name and
/// whether it is a folder.
fn begin_child<E>(
    config: Config,
    child_id: Option<String>,
    child_name: Option<String>,
    directory: bool,
    to_folder_id: String,
    frames: Vec<Frame>,
) -> (taken: (CopyFolder<E>, Action<E>))
    ensures
        forall|child: FileHandleView|
            child.id == text_of(child_id) && child.name == text_of(child_name)
                && child.is_directory() == directory ==> (taken.0@, taken.1@) == #[trigger] take_up::<
                E,
            >(config@, child, to_folder_id@, frames_view(frames@)),
{
    match child_id {
        None => end_with(config, Err(Error::FileWithoutId)),
        Some(id) => match child_name {
            None => end_with(config, Err(Error::FileWithoutName)),
            Some(name) => if directory {
                (
                    CopyFolder {
                        config,
                        stage: Stage::Directory { child_id: id },
                        frames,
                        cause: PhantomData,
                    },
                    Action::CreateDirectory { name, parent_id: to_folder_id },
                )
            } else {
                (
                    CopyFolder { config, stage: Stage::Copy { name }, frames, cause: PhantomData },
                    Action::CopyFile { file_id: id, to_folder_id },
                )
            },
        },
    }
}

/// Goes on with what is left in `frames`, the folders that the copy is inside of.
fn go_on<E>(config: Config, frames: Vec<Frame>) -> (advanced: (CopyFolder<E>, Action<E>))
    ensures
        (advanced.0@, advanced.1@) == advance::<E>(config@, frames_view(frames@)),
{
    let mut open = frames;
    loop
        invariant
            advance::<E>(config@, frames_view(open@)) == advance::<E>(
                config@,
                frames_view(frames@),
            ),
        decreases open.len(),
    {
        let ghost before = frames_view(open@);
        match open.pop() {
            None => {
                return end_with(config, Ok(()));
            },
            Some(frame) => {
                assert(frames_view(open@) =~= before.drop_last());
                assert(before.last() == frame@);
                if frame.next < frame.children.len() {
                    let child = &frame.children[frame.next];
                    let child_id = child.id.clone();
                    let child_name = child.name.clone();
                    let directory = is_directory(child);
                    let to_folder_id = frame.to_folder_id.clone();
                    assert(frame@.rest.first() == child@);
                    let Frame { to_folder_id: receiver, children, next } = frame;
                    let rest = Frame { to_folder_id: receiver, children, next: next + 1 };
                    assert(rest@.rest =~= frame@.rest.drop_first());
                    let ghost below = frames_view(open@);
                    open.push(rest);
                    assert(frames_view(open@) =~= below.push(rest@));
                    return begin_child(config, child_id, child_name, directory, to_folder_id, open);
                }
            },
        }
    }
}

impl<E> CopyFolder<E> {
    /// Whether the copy has ended: it then expects no reply.
    pub fn is_finished(&self) -> (finished: bool)
        ensures
            finished == (self@.stage is Finished),
    {
        match self.stage {
            Stage::Finished => true,
            _ => false,
        }
    }

    /// Whether `reply` answers what the copy last asked for.
    pub fn expects(&self, reply: &Reply<E>) -> (expected: bool)
        ensures
            expected == self@.expects(reply@),
    {
        match self.stage {
            Stage::Session => match reply {
                Reply::Session(_) => true,
                _ => false,
            },
            Stage::Listing { .. } => match reply {
                Reply::Files(_) => true,
                _ => false,
            },
            Stage::Rename => match reply {
                Reply::Renamed(_) => true,
                _ => false,
            },
            Stage::Finished => false,
            _ => match reply {
                Reply::File(_) => true,
                _ => false,
            },
        }
    }

    /// Takes the answer to the last request and gives the next request.
    ///
    /// A failed call ends the copy with the error of its phase. So does a
    /// source or a destination that is not a folder, a child without id or
    /// name, and a created object without id. A listing is cut to its first
    /// `MAX_FILES` children, and its children are then taken up in their order:
    /// for a folder a directory of its name is created and its own children are
    /// listed and replicated before the next child is looked at; a file is
    /// copied and the copy is renamed to the name of the file.
    pub fn step(self, reply: Reply<E>) -> (next: (CopyFolder<E>, Action<E>))
        requires
            self@.expects(reply@),
        ensures
            (next.0@, next.1@) == self@.step(reply@),
    {
        let CopyFolder { config, stage, frames, cause } = self;
        match (stage, reply) {
            (Stage::Session, Reply::Session(Err(cause))) => end_with(config, Err(Error::Hub(cause))),
            (Stage::Session, Reply::Session(Ok(_))) => {
                let file_id = config.src_folder_id.clone();
                (CopyFolder { config, stage: Stage::Source, frames, cause }, Action::GetFile { file_id })
            },
            (Stage::Source, Reply::File(Err(cause))) => end_with(config, Err(Error::GetFile(cause))),
            (Stage::Source, Reply::File(Ok(source))) => {
                match err_if_not_directory(&source, Error::SourceNotADirectory) {
                    Ok(_) => {
                        let file_id = config.to_folder_id.clone();
                        (
                            CopyFolder { config, stage: Stage::Destination, frames, cause },
                            Action::GetFile { file_id },
                        )
                    },
                    Err(error) => end_with(config, Err(error)),
                }
            },
            (Stage::Destination, Reply::File(Err(cause))) => end_with(
                config,
                Err(Error::GetDestinationFolder(cause)),
            ),
            (Stage::Destination, Reply::File(Ok(destination))) => {
                match err_if_not_directory(&destination, Error::DestinationNotADirectory) {
                    Ok(_) => {
                        let level = CopyFolderConfig {
                            src_folder_id: config.src_folder_id.clone(),
                            to_folder_id: config.to_folder_id.clone(),
                        };
                        enter(config, frames, level)
                    },
                    Err(error) => end_with(config, Err(error)),
                }
            },
            (Stage::Listing { .. }, Reply::Files(Err(cause))) => end_with(
                config,
                Err(Error::ListFiles(cause)),
            ),
            (Stage::Listing { to_folder_id }, Reply::Files(Ok(children))) => {
                let ghost listed = handles_view(children@);
                let ghost open = frames_view(frames@);
                let mut children = children;
                children.truncate(MAX_FILES);
                let frame = Frame { to_folder_id, children, next: 0 };
                assert(frame@.rest =~= capped(listed));
                let mut frames = frames;
                frames.push(frame);
                assert(frames_view(frames@) =~= open.push(frame@));
                go_on(config, frames)
            },
            (Stage::Directory { .. }, Reply::File(Err(cause))) => end_with(
                config,
                Err(Error::MKDirError(cause)),
            ),
            (Stage::Directory { child_id }, Reply::File(Ok(directory))) => match directory.id {
                Some(id) => enter(
                    config,
                    frames,
                    CopyFolderConfig { src_folder_id: child_id, to_folder_id: id },
                ),
                None => end_with(config, Err(Error::FileWithoutId)),
            },
            (Stage::Copy { .. }, Reply::File(Err(cause))) => end_with(config, Err(Error::Copy(cause))),
            (Stage::Copy { name }, Reply::File(Ok(copy))) => match copy.id {
                Some(id) => (
                    CopyFolder { config, stage: Stage::Rename, frames, cause },
                    Action::Rename { file_id: id, name },
                ),
                None => end_with(config, Err(Error::FileWithoutId)),
            },
            (Stage::Rename, Reply::Renamed(Err(cause))) => end_with(
                config,
                Err(Error::RenameError(cause)),
            ),
            (Stage::Rename, Reply::Renamed(Ok(_))) => go_on(config, frames),
            _ => unreached(),
        }
    }
}

} // verus!
