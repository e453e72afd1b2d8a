//! The conversation between a copy and the remote store.
//!
//! A copy never sees the remote store, only its answers. So the store is
//! described here by what it answers: a tree with one node for each child
//! that the copy may come to, holding the answer to each request that the copy
//! makes for this child. Nothing is asked of the answers: what is shown of all
//! such trees holds whether the calls succeed or fail, and whatever they report.

use crate::common::drive_file::FileHandleView;
use crate::files::copy_folder::machine::{capped, list_request, ActionView, ConfigView, ReplyView};
use crate::files::copy_folder::Error;
use vstd::prelude::*;

verus! {

/// A child of a source folder, and what the remote store answers to the
/// requests that a copy makes for it.
pub struct Child<E> {
    /// The child as the listing of its folder shows it.
    pub handle: FileHandleView,
    /// The answer to the request that creates its replica: a directory for a
    /// folder, a copy for a file.
    pub made: Result<FileHandleView, E>,
    /// For a folder, the answer to the request for its listing.
    pub listed: Result<Seq<Child<E>>, E>,
    /// For a file, the answer to the request that renames its copy.
    pub renamed: Result<(), E>,
}

/// What the remote store answers in the course of one copy.
pub struct Remote<E> {
    /// The answer to the request for the session.
    pub session: Result<(), E>,
    /// The answer to the request for the source folder.
    pub source: Result<FileHandleView, E>,
    /// The answer to the request for the destination folder.
    pub destination: Result<FileHandleView, E>,
    /// The answer to the request for the listing of the source folder.
    pub listed: Result<Seq<Child<E>>, E>,
}

/// A course of requests, the answer to each, and how it ends.
pub struct Dialogue<E> {
    pub requests: Seq<ActionView<E>>,
    pub replies: Seq<ReplyView<E>>,
    pub outcome: Result<(), Error<E>>,
}

impl<E> Dialogue<E> {
    /// Nothing is asked, and all is well.
    pub open spec fn done() -> Dialogue<E> {
        Dialogue { requests: Seq::empty(), replies: Seq::empty(), outcome: Ok(()) }
    }

    /// Nothing is asked, because of `error`.
    pub open spec fn failed(error: Error<E>) -> Dialogue<E> {
        Dialogue { requests: Seq::empty(), replies: Seq::empty(), outcome: Err(error) }
    }

    /// `request` is answered by `reply`, and `rest` follows.
    pub open spec fn after(request: ActionView<E>, reply: ReplyView<E>, rest: Dialogue<E>) -> Dialogue<
        E,
    > {
        Dialogue {
            requests: seq![request] + rest.requests,
            replies: seq![reply] + rest.replies,
            outcome: rest.outcome,
        }
    }

    /// This dialogue, and `next` after it unless this one has failed.
    pub open spec fn followed_by(self, next: Dialogue<E>) -> Dialogue<E> {
        if self.outcome is Ok {
            Dialogue {
                requests: self.requests + next.requests,
                replies: self.replies + next.replies,
                outcome: next.outcome,
            }
        } else {
            self
        }
    }
}

/// The children as their listing shows them.
pub open spec fn handles<E>(children: Seq<Child<E>>) -> Seq<FileHandleView> {
    children.map_values(|child: Child<E>| child.handle)
}

/// The dialogue that replicates `child` into the folder `to_folder_id`.
///
/// A folder: a directory of its name is created, its listing is asked for, and
/// the children that the listing shows, up to the cap, are replicated into the
/// new directory. A file: it is copied, and the copy is renamed to its name.
/// The first answer that is an error, or that lacks an id that is needed, ends it.
pub open spec fn child_dialogue<E>(child: Child<E>, to_folder_id: Seq<char>) -> Dialogue<E>
    decreases child,
{
    match (child.handle.id, child.handle.name) {
        (None, _) => Dialogue::failed(Error::FileWithoutId),
        (Some(_), None) => Dialogue::failed(Error::FileWithoutName),
        (Some(id), Some(name)) => if child.handle.is_directory() {
            let create = ActionView::CreateDirectory { name, parent_id: to_folder_id };
            match child.made {
                Err(cause) => Dialogue::after(
                    create,
                    ReplyView::File(Err(cause)),
                    Dialogue::failed(Error::MKDirError(cause)),
                ),
                Ok(directory) => Dialogue::after(
                    create,
                    ReplyView::File(Ok(directory)),
                    match directory.id {
                        None => Dialogue::failed(Error::FileWithoutId),
                        Some(directory_id) => match child.listed {
                            Err(cause) => Dialogue::after(
                                list_request(id),
                                ReplyView::Files(Err(cause)),
                                Dialogue::failed(Error::ListFiles(cause)),
                            ),
                            Ok(children) => Dialogue::after(
                                list_request(id),
                                ReplyView::Files(Ok(handles(children))),
                                children_dialogue(capped(children), directory_id),
                            ),
                        },
                    },
                ),
            }
        } else {
            let copy = ActionView::CopyFile { file_id: id, to_folder_id };
            match child.made {
                Err(cause) => Dialogue::after(
                    copy,
                    ReplyView::File(Err(cause)),
                    Dialogue::failed(Error::Copy(cause)),
                ),
                Ok(file) => Dialogue::after(
                    copy,
                    ReplyView::File(Ok(file)),
                    match file.id {
                        None => Dialogue::failed(Error::FileWithoutId),
                        Some(file_id) => {
                            let rename = ActionView::Rename { file_id, name };
                            match child.renamed {
                                Err(cause) => Dialogue::after(
                                    rename,
                                    ReplyView::Renamed(Err(cause)),
                                    Dialogue::failed(Error::RenameError(cause)),
                                ),
                                Ok(_) => Dialogue::after(
                                    rename,
                                    ReplyView::Renamed(Ok(())),
                                    Dialogue::done(),
                                ),
                            }
                        },
                    },
                ),
            }
        },
    }
}

/// The dialogue that replicates `children` into the folder `to_folder_id`: one
/// child after the other, each with all that is in it, up to the first that fails.
pub open spec fn children_dialogue<E>(children: Seq<Child<E>>, to_folder_id: Seq<char>) -> Dialogue<
    E,
>
    decreases children,
{
    if children.len() == 0 {
        Dialogue::done()
    } else {
        child_dialogue(children.first(), to_folder_id).followed_by(
            children_dialogue(children.drop_first(), to_folder_id),
        )
    }
}

/// The part of the dialogue of a copy that replicates: it begins with the
/// request for the listing of the source.
pub open spec fn replication<E>(config: ConfigView, remote: Remote<E>) -> Dialogue<E> {
    match remote.listed {
        Err(cause) => Dialogue::after(
            list_request(config.src_folder_id),
            ReplyView::Files(Err(cause)),
            Dialogue::failed(Error::ListFiles(cause)),
        ),
        Ok(children) => Dialogue::after(
            list_request(config.src_folder_id),
            ReplyView::Files(Ok(handles(children))),
            children_dialogue(capped(children), config.to_folder_id),
        ),
    }
}

/// The part of the dialogue of a copy that begins with the request for the
/// destination. Unless the destination is a folder, nothing follows.
pub open spec fn from_destination<E>(config: ConfigView, remote: Remote<E>) -> Dialogue<E> {
    let request = ActionView::GetFile { file_id: config.to_folder_id };
    match remote.destination {
        Err(cause) => Dialogue::after(
            request,
            ReplyView::File(Err(cause)),
            Dialogue::failed(Error::GetDestinationFolder(cause)),
        ),
        Ok(destination) => Dialogue::after(
            request,
            ReplyView::File(Ok(destination)),
            if destination.is_directory() {
                replication(config, remote)
            } else {
                Dialogue::failed(Error::DestinationNotADirectory)
            },
        ),
    }
}

/// The part of the dialogue of a copy that begins with the request for the
/// source. Unless the source is a folder, nothing follows.
pub open spec fn from_source<E>(config: ConfigView, remote: Remote<E>) -> Dialogue<E> {
    let request = ActionView::GetFile { file_id: config.src_folder_id };
    match remote.source {
        Err(cause) => Dialogue::after(
            request,
            ReplyView::File(Err(cause)),
            Dialogue::failed(Error::GetFile(cause)),
        ),
        Ok(source) => Dialogue::after(
            request,
            ReplyView::File(Ok(source)),
            if source.is_directory() {
                from_destination(config, remote)
            } else {
                Dialogue::failed(Error::SourceNotADirectory)
            },
        ),
    }
}

/// The dialogue of the copy from `config.src_folder_id` to `config.to_folder_id`
/// with a remote store that answers as `remote` says: the session is opened,
/// the source and then the destination are fetched, and the children that the
/// capped listing of the source shows are replicated into the destination.
pub open spec fn dialogue<E>(config: ConfigView, remote: Remote<E>) -> Dialogue<E> {
    match remote.session {
        Err(cause) => Dialogue::after(
            ActionView::OpenSession,
            ReplyView::Session(Err(cause)),
            Dialogue::failed(Error::Hub(cause)),
        ),
        Ok(_) => Dialogue::after(
            ActionView::OpenSession,
            ReplyView::Session(Ok(())),
            from_source(config, remote),
        ),
    }
}

/// Every request for a child has its reply.
pub proof fn lemma_child_dialogue_is_paired<E>(child: Child<E>, to_folder_id: Seq<char>)
    ensures
        child_dialogue(child, to_folder_id).requests.len() == child_dialogue(
            child,
            to_folder_id,
        ).replies.len(),
    decreases child,
{
    if child.handle.id is Some && child.handle.name is Some && child.handle.is_directory()
        && child.made is Ok && child.made->Ok_0.id is Some && child.listed is Ok {
        lemma_dialogue_is_paired(capped(child.listed->Ok_0), child.made->Ok_0.id->0);
    }
}

/// Every request for the children of a folder has its reply.
pub proof fn lemma_dialogue_is_paired<E>(children: Seq<Child<E>>, to_folder_id: Seq<char>)
    ensures
        children_dialogue(children, to_folder_id).requests.len() == children_dialogue(
            children,
            to_folder_id,
        ).replies.len(),
    decreases children,
{
    if children.len() > 0 {
        lemma_child_dialogue_is_paired(children.first(), to_folder_id);
        lemma_dialogue_is_paired(children.drop_first(), to_folder_id);
    }
}

} // verus!
