//! The folder copy as a transition system over mathematical values.
//!
//! A copy is a conversation: the copy asks the remote store for one thing at a
//! time, and what it asks next depends only on its own state and on the last
//! answer. This module states that dependence; the executable copy is held to it.

use crate::common::drive_file::FileHandleView;
use crate::files::copy_folder::Error;
use vstd::prelude::*;

verus! {

/// The most children one listing is asked to hold. Children beyond it are not replicated.
pub const MAX_FILES: usize = 1000;

/// The order in which a listing is asked for.
#[derive(Clone, Copy, Debug, PartialEq, Eq)]
pub enum ListSortOrder {
    /// By the folder flag, then by modification time, then by name. The copy
    /// takes the children in the order of the listing, and does not rely on
    /// the folders of a listing standing before its files.
    FolderModifiedName,
}

/// The two ends of a copy.
pub struct ConfigView {
    pub src_folder_id: Seq<char>,
    pub to_folder_id: Seq<char>,
}

/// One level of the traversal: the children of `src_folder_id` go into `to_folder_id`.
pub struct CopyFolderConfigView {
    pub src_folder_id: Seq<char>,
    pub to_folder_id: Seq<char>,
}

/// What the copy asks for next.
pub enum ActionView<E> {
    OpenSession,
    GetFile { file_id: Seq<char> },
    ListFiles { folder_id: Seq<char>, order_by: ListSortOrder, max_files: nat },
    CreateDirectory { name: Seq<char>, parent_id: Seq<char> },
    CopyFile { file_id: Seq<char>, to_folder_id: Seq<char> },
    Rename { file_id: Seq<char>, name: Seq<char> },
    Finish(Result<(), Error<E>>),
}

impl<E> ActionView<E> {
    /// The requests that change the remote store.
    pub open spec fn is_mutation(self) -> bool {
        self is CreateDirectory || self is CopyFile || self is Rename
    }
}

/// What the remote store answered.
pub enum ReplyView<E> {
    Session(Result<(), E>),
    File(Result<FileHandleView, E>),
    Files(Result<Seq<FileHandleView>, E>),
    Renamed(Result<(), E>),
}

/// The answer the copy is waiting for.
pub enum StageView {
    /// Whether the session was opened.
    Session,
    /// The metadata of the source folder.
    Source,
    /// The metadata of the destination folder.
    Destination,
    /// The children of a source folder whose replica is `to_folder_id`.
    Listing { to_folder_id: Seq<char> },
    /// The directory created for the child `child_id`.
    Directory { child_id: Seq<char> },
    /// The copy made of a file that is to be called `name`.
    Copy { name: Seq<char> },
    /// Whether the copy was renamed.
    Rename,
    /// Nothing: the copy has ended.
    Finished,
}

/// The children of one source folder that are still to be replicated, first
/// one first, and the folder that receives them.
pub struct FrameView {
    pub to_folder_id: Seq<char>,
    pub rest: Seq<FileHandleView>,
}

/// The state of a copy. The last frame is the folder being worked on; the
/// frames before it are the folders around it, outermost first.
pub struct CopyFolderView {
    pub config: ConfigView,
    pub stage: StageView,
    pub frames: Seq<FrameView>,
}

/// The listing request of one level of the traversal.
pub open spec fn list_request<E>(src_folder_id: Seq<char>) -> ActionView<E> {
    ActionView::ListFiles {
        folder_id: src_folder_id,
        order_by: ListSortOrder::FolderModifiedName,
        max_files: MAX_FILES as nat,
    }
}

/// The part of a listing that is replicated: all of it, up to `MAX_FILES` children.
pub open spec fn capped<A>(listing: Seq<A>) -> Seq<A> {
    if listing.len() <= MAX_FILES {
        listing
    } else {
        listing.take(MAX_FILES as int)
    }
}

/// A copy that has not asked for anything yet, and its first request.
pub open spec fn start<E>(config: ConfigView) -> (CopyFolderView, ActionView<E>) {
    (
        CopyFolderView { config, stage: StageView::Session, frames: Seq::empty() },
        ActionView::OpenSession,
    )
}

/// The end of a copy: it ends with `outcome`, and nothing is kept of the folders still open.
pub open spec fn finish<E>(config: ConfigView, outcome: Result<(), Error<E>>) -> (
    CopyFolderView,
    ActionView<E>,
) {
    (
        CopyFolderView { config, stage: StageView::Finished, frames: Seq::empty() },
        ActionView::Finish(outcome),
    )
}

/// The copy takes up `child`, which goes into `to_folder_id`, with `frames`
/// still to do after it. A child without id or name ends the copy; for
/// a folder a directory of the same name is asked for, for a file a copy.
pub open spec fn take_up<E>(
    config: ConfigView,
    child: FileHandleView,
    to_folder_id: Seq<char>,
    frames: Seq<FrameView>,
) -> (CopyFolderView, ActionView<E>) {
    match (child.id, child.name) {
        (None, _) => finish(config, Err(Error::FileWithoutId)),
        (Some(_), None) => finish(config, Err(Error::FileWithoutName)),
        (Some(id), Some(name)) => if child.is_directory() {
            (
                CopyFolderView { config, stage: StageView::Directory { child_id: id }, frames },
                ActionView::CreateDirectory { name, parent_id: to_folder_id },
            )
        } else {
            (
                CopyFolderView { config, stage: StageView::Copy { name }, frames },
                ActionView::CopyFile { file_id: id, to_folder_id },
            )
        },
    }
}

/// The copy goes on with what is left in `frames`: with the next child of the
/// innermost folder that has one. A folder with no child left is closed; when
/// no folder is open any more, the copy has succeeded.
pub open spec fn advance<E>(config: ConfigView, frames: Seq<FrameView>) -> (
    CopyFolderView,
    ActionView<E>,
)
    decreases frames.len(),
{
    if frames.len() == 0 {
        finish(config, Ok(()))
    } else {
        let top = frames.last();
        let below = frames.drop_last();
        if top.rest.len() == 0 {
            advance(config, below)
        } else {
            take_up(
                config,
                top.rest.first(),
                top.to_folder_id,
                below.push(FrameView { to_folder_id: top.to_folder_id, rest: top.rest.drop_first() }),
            )
        }
    }
}

impl CopyFolderView {
    /// Whether `reply` answers what the copy last asked for.
    pub open spec fn expects<E>(self, reply: ReplyView<E>) -> bool {
        match self.stage {
            StageView::Session => reply is Session,
            StageView::Source => reply is File,
            StageView::Destination => reply is File,
            StageView::Listing { .. } => reply is Files,
            StageView::Directory { .. } => reply is File,
            StageView::Copy { .. } => reply is File,
            StageView::Rename => reply is Renamed,
            StageView::Finished => false,
        }
    }

    /// The copy turns to the children of `level.src_folder_id`: it asks for their listing.
    pub open spec fn enter<E>(self, level: CopyFolderConfigView) -> (CopyFolderView, ActionView<E>) {
        (
            CopyFolderView {
                config: self.config,
                stage: StageView::Listing { to_folder_id: level.to_folder_id },
                frames: self.frames,
            },
            list_request(level.src_folder_id),
        )
    }

    /// The state after `reply`, and the next request. It is defined for the
    /// replies that the copy expects.
    pub open spec fn step<E>(self, reply: ReplyView<E>) -> (CopyFolderView, ActionView<E>)
        recommends
            self.expects(reply),
    {
        match (self.stage, reply) {
            (StageView::Session, ReplyView::Session(Err(cause))) => finish(
                self.config,
                Err(Error::Hub(cause)),
            ),
            (StageView::Session, ReplyView::Session(Ok(_))) => (
                CopyFolderView {
                    config: self.config,
                    stage: StageView::Source,
                    frames: self.frames,
                },
                ActionView::GetFile { file_id: self.config.src_folder_id },
            ),
            (StageView::Source, ReplyView::File(Err(cause))) => finish(
                self.config,
                Err(Error::GetFile(cause)),
            ),
            (StageView::Source, ReplyView::File(Ok(source))) => if source.is_directory() {
                (
                    CopyFolderView {
                        config: self.config,
                        stage: StageView::Destination,
                        frames: self.frames,
                    },
                    ActionView::GetFile { file_id: self.config.to_folder_id },
                )
            } else {
                finish(self.config, Err(Error::SourceNotADirectory))
            },
            (StageView::Destination, ReplyView::File(Err(cause))) => finish(
                self.config,
                Err(Error::GetDestinationFolder(cause)),
            ),
            (StageView::Destination, ReplyView::File(Ok(destination))) => if destination.is_directory() {
                self.enter(
                    CopyFolderConfigView {
                        src_folder_id: self.config.src_folder_id,
                        to_folder_id: self.config.to_folder_id,
                    },
                )
            } else {
                finish(self.config, Err(Error::DestinationNotADirectory))
            },
            (StageView::Listing { to_folder_id }, ReplyView::Files(Err(cause))) => finish(
                self.config,
                Err(Error::ListFiles(cause)),
            ),
            (StageView::Listing { to_folder_id }, ReplyView::Files(Ok(children))) => advance(
                self.config,
                self.frames.push(FrameView { to_folder_id, rest: capped(children) }),
            ),
            (StageView::Directory { child_id }, ReplyView::File(Err(cause))) => finish(
                self.config,
                Err(Error::MKDirError(cause)),
            ),
            (StageView::Directory { child_id }, ReplyView::File(Ok(directory))) => match directory.id {
                Some(id) => self.enter(
                    CopyFolderConfigView { src_folder_id: child_id, to_folder_id: id },
                ),
                None => finish(self.config, Err(Error::FileWithoutId)),
            },
            (StageView::Copy { name }, ReplyView::File(Err(cause))) => finish(
                self.config,
                Err(Error::Copy(cause)),
            ),
            (StageView::Copy { name }, ReplyView::File(Ok(copy))) => match copy.id {
                Some(id) => (
                    CopyFolderView {
                        config: self.config,
                        stage: StageView::Rename,
                        frames: self.frames,
                    },
                    ActionView::Rename { file_id: id, name },
                ),
                None => finish(self.config, Err(Error::FileWithoutId)),
            },
            (StageView::Rename, ReplyView::Renamed(Err(cause))) => finish(
                self.config,
                Err(Error::RenameError(cause)),
            ),
            (StageView::Rename, ReplyView::Renamed(Ok(_))) => advance(self.config, self.frames),
            _ => arbitrary(),
        }
    }
}

} // verus!
