//! What a copy does with the answers of a remote store.

use crate::common::drive_file::FileHandleView;
use crate::files::copy_folder::machine::{
    advance, capped, finish, list_request, start, take_up, ActionView, ConfigView, CopyFolderView,
    FrameView, ReplyView, StageView,
};
use crate::files::copy_folder::remote::{
    child_dialogue, children_dialogue, dialogue, from_destination, from_source, handles,
    replication, Child, Dialogue, Remote,
};
use crate::files::copy_folder::Error;
use vstd::prelude::*;

verus! {

/// What a copy does when it is given replies, one after the other.
pub struct Course<E> {
    /// The requests that the copy makes, the first of them before any reply.
    pub requests: Seq<ActionView<E>>,
    /// Whether each reply was one that the copy expected when it came.
    pub in_turn: bool,
    /// The state of the copy after the last reply.
    pub end: CopyFolderView,
}

impl<E> Course<E> {
    /// This course, with `requests` made before it.
    pub open spec fn preceded_by(self, requests: Seq<ActionView<E>>) -> Course<E> {
        Course { requests: requests + self.requests, in_turn: self.in_turn, end: self.end }
    }

    /// The course that ends a copy with `outcome` after `requests`, every
    /// reply having come in turn.
    pub open spec fn ending(
        config: ConfigView,
        requests: Seq<ActionView<E>>,
        outcome: Result<(), Error<E>>,
    ) -> Course<E> {
        Course {
            requests: requests + seq![ActionView::Finish(outcome)],
            in_turn: true,
            end: finish(config, outcome).0,
        }
    }
}

/// The course of a copy that is in the state `at.0` and has just made the
/// request `at.1`, when `replies` come in.
pub open spec fn course<E>(at: (CopyFolderView, ActionView<E>), replies: Seq<ReplyView<E>>) -> Course<
    E,
>
    decreases replies.len(),
{
    if replies.len() == 0 {
        Course { requests: seq![at.1], in_turn: true, end: at.0 }
    } else {
        let rest = course(at.0.step(replies.first()), replies.drop_first());
        Course {
            requests: seq![at.1] + rest.requests,
            in_turn: at.0.expects(replies.first()) && rest.in_turn,
            end: rest.end,
        }
    }
}

/// The course on a first reply and those after it.
proof fn lemma_course_first<E>(
    at: (CopyFolderView, ActionView<E>),
    reply: ReplyView<E>,
    rest: Seq<ReplyView<E>>,
)
    ensures
        course(at, seq![reply] + rest) == (Course {
            requests: seq![at.1] + course(at.0.step(reply), rest).requests,
            in_turn: at.0.expects(reply) && course(at.0.step(reply), rest).in_turn,
            end: course(at.0.step(reply), rest).end,
        }),
{
    let replies = seq![reply] + rest;
    assert(replies.first() == reply);
    assert(replies.drop_first() =~= rest);
}

/// A copy that is ended makes no request but the last.
proof fn lemma_course_ended<E>(config: ConfigView, outcome: Result<(), Error<E>>)
    ensures
        course(finish(config, outcome), Seq::empty()) == Course::ending(
            config,
            Seq::empty(),
            outcome,
        ),
{
    assert(Seq::<ActionView<E>>::empty() + seq![ActionView::Finish(outcome)] =~= seq![
        ActionView::Finish(outcome),
    ]);
}

/// A folder with no child left is closed.
proof fn lemma_advance_closes<E>(config: ConfigView, below: Seq<FrameView>, to_folder_id: Seq<char>)
    ensures
        advance::<E>(config, below.push(FrameView { to_folder_id, rest: Seq::empty() }))
            == advance::<E>(config, below),
{
    let frames = below.push(FrameView { to_folder_id, rest: Seq::empty() });
    assert(frames.drop_last() =~= below);
}

/// The first child left in the innermost folder is taken up.
proof fn lemma_advance_takes_up<E>(
    config: ConfigView,
    below: Seq<FrameView>,
    to_folder_id: Seq<char>,
    child: FileHandleView,
    siblings: Seq<FileHandleView>,
)
    ensures
        advance::<E>(config, below.push(FrameView { to_folder_id, rest: seq![child] + siblings }))
            == take_up::<E>(
            config,
            child,
            to_folder_id,
            below.push(FrameView { to_folder_id, rest: siblings }),
        ),
{
    let rest = seq![child] + siblings;
    let frames = below.push(FrameView { to_folder_id, rest });
    assert(frames.drop_last() =~= below);
    assert(rest.first() == child);
    assert(rest.drop_first() =~= siblings);
}

/// Capping a listing and reading the handles off it come to the same in either order.
proof fn lemma_capped_handles<E>(children: Seq<Child<E>>)
    ensures
        capped(handles(children)) == handles(capped(children)),
{
    assert(capped(handles(children)) =~= handles(capped(children)));
}

/// A request that is answered in turn, before a course that ends the copy.
proof fn lemma_course_after<E>(
    config: ConfigView,
    at: (CopyFolderView, ActionView<E>),
    reply: ReplyView<E>,
    rest: Dialogue<E>,
)
    requires
        at.0.expects(reply),
        course(at.0.step(reply), rest.replies) == Course::ending(
            config,
            rest.requests,
            rest.outcome,
        ),
    ensures
        course(at, Dialogue::after(at.1, reply, rest).replies) == Course::ending(
            config,
            Dialogue::after(at.1, reply, rest).requests,
            rest.outcome,
        ),
{
    lemma_course_first(at, reply, rest.replies);
    assert(seq![at.1] + (rest.requests + seq![ActionView::Finish(rest.outcome)]) =~= (seq![at.1]
        + rest.requests) + seq![ActionView::Finish(rest.outcome)]);
}

/// A request that is answered in turn, before a course that goes on from `resumed`.
proof fn lemma_course_goes_on<E>(
    at: (CopyFolderView, ActionView<E>),
    reply: ReplyView<E>,
    rest: Dialogue<E>,
    more: Seq<ReplyView<E>>,
    resumed: (CopyFolderView, ActionView<E>),
)
    requires
        at.0.expects(reply),
        course(at.0.step(reply), rest.replies + more) == course(resumed, more).preceded_by(
            rest.requests,
        ),
    ensures
        course(at, Dialogue::after(at.1, reply, rest).replies + more) == course(
            resumed,
            more,
        ).preceded_by(Dialogue::after(at.1, reply, rest).requests),
{
    lemma_course_first(at, reply, rest.replies + more);
    assert((seq![reply] + rest.replies) + more =~= seq![reply] + (rest.replies + more));
    assert(seq![at.1] + (rest.requests + course(resumed, more).requests) =~= (seq![at.1]
        + rest.requests) + course(resumed, more).requests);
}

/// A course that has nothing to wait for goes on at once.
proof fn lemma_course_of_nothing<E>(
    resumed: (CopyFolderView, ActionView<E>),
    more: Seq<ReplyView<E>>,
)
    ensures
        course(resumed, Dialogue::<E>::done().replies + more) == course(resumed, more).preceded_by(
            Dialogue::<E>::done().requests,
        ),
{
    assert(Dialogue::<E>::done().replies + more =~= more);
    assert(Dialogue::<E>::done().requests + course(resumed, more).requests =~= course(
        resumed,
        more,
    ).requests);
}

/// The copy of one child follows the dialogue of that child.
///
/// The copy is inside the folders `below` and, innermost, a folder whose
/// replica is `to_folder_id` and whose children left are `child` and then
/// `siblings`. Given the replies of the dialogue of `child`, it makes the requests of
/// that dialogue. If the dialogue fails, the copy ends with its error. If not, the
/// copy goes on with `siblings`, whatever replies follow.
proof fn lemma_child_course<E>(
    config: ConfigView,
    below: Seq<FrameView>,
    to_folder_id: Seq<char>,
    child: Child<E>,
    siblings: Seq<FileHandleView>,
    more: Seq<ReplyView<E>>,
)
    ensures
        ({
            let talk = child_dialogue(child, to_folder_id);
            let begun = advance::<E>(
                config,
                below.push(FrameView { to_folder_id, rest: seq![child.handle] + siblings }),
            );
            let resumed = advance::<E>(
                config,
                below.push(FrameView { to_folder_id, rest: siblings }),
            );
            &&& talk.outcome is Ok ==> course(begun, talk.replies + more) == course(
                resumed,
                more,
            ).preceded_by(talk.requests)
            &&& talk.outcome is Err ==> course(begun, talk.replies) == Course::ending(
                config,
                talk.requests,
                talk.outcome,
            )
        }),
    decreases child,
{
    let talk = child_dialogue(child, to_folder_id);
    let around = below.push(FrameView { to_folder_id, rest: siblings });
    let begun = take_up::<E>(config, child.handle, to_folder_id, around);
    let resumed = advance::<E>(config, around);
    lemma_advance_takes_up::<E>(config, below, to_folder_id, child.handle, siblings);
    if child.handle.id is None || child.handle.name is None {
        lemma_course_ended(config, talk.outcome);
    } else if child.made is Err {
        let rest = if child.handle.is_directory() {
            Dialogue::failed(Error::MKDirError(child.made->Err_0))
        } else {
            Dialogue::failed(Error::Copy(child.made->Err_0))
        };
        lemma_course_ended(config, rest.outcome);
        lemma_course_after(config, begun, ReplyView::File(Err(child.made->Err_0)), rest);
    } else {
        let made = ReplyView::<E>::File(Ok(child.made->Ok_0));
        let second = begun.0.step(made);
        if child.made->Ok_0.id is None {
            let rest = Dialogue::failed(Error::FileWithoutId);
            lemma_course_ended(config, rest.outcome);
            lemma_course_after(config, begun, made, rest);
        } else if child.handle.is_directory() {
            let made_id = child.made->Ok_0.id->0;
            match child.listed {
                Err(cause) => {
                    let rest = Dialogue::failed(Error::ListFiles(cause));
                    let listing = ReplyView::Files(Err(cause));
                    lemma_course_ended(config, rest.outcome);
                    lemma_course_after(config, second, listing, rest);
                    lemma_course_after(config, begun, made, Dialogue::after(second.1, listing, rest));
                },
                Ok(children) => {
                    let listing = ReplyView::<E>::Files(Ok(handles(children)));
                    let inside = children_dialogue(capped(children), made_id);
                    lemma_capped_handles(children);
                    assert(handles(capped(children)) + Seq::empty() =~= capped(handles(children)));
                    lemma_children_course(
                        config,
                        around,
                        made_id,
                        capped(children),
                        Seq::empty(),
                        more,
                    );
                    lemma_advance_closes::<E>(config, around, made_id);
                    if inside.outcome is Ok {
                        lemma_course_goes_on(second, listing, inside, more, resumed);
                        lemma_course_goes_on(
                            begun,
                            made,
                            Dialogue::after(second.1, listing, inside),
                            more,
                            resumed,
                        );
                    } else {
                        lemma_course_after(config, second, listing, inside);
                        lemma_course_after(
                            config,
                            begun,
                            made,
                            Dialogue::after(second.1, listing, inside),
                        );
                    }
                },
            }
        } else {
            match child.renamed {
                Err(cause) => {
                    let rest = Dialogue::failed(Error::RenameError(cause));
                    let renaming = ReplyView::Renamed(Err(cause));
                    lemma_course_ended(config, rest.outcome);
                    lemma_course_after(config, second, renaming, rest);
                    lemma_course_after(
                        config,
                        begun,
                        made,
                        Dialogue::after(second.1, renaming, rest),
                    );
                },
                Ok(_) => {
                    let renaming = ReplyView::<E>::Renamed(Ok(()));
                    lemma_course_of_nothing(resumed, more);
                    lemma_course_goes_on(second, renaming, Dialogue::done(), more, resumed);
                    lemma_course_goes_on(
                        begun,
                        made,
                        Dialogue::after(second.1, renaming, Dialogue::done()),
                        more,
                        resumed,
                    );
                },
            }
        }
    }
}

/// The copy of the children of one folder follows their dialogue.
///
/// The copy is inside the folders `below` and, innermost, a folder whose
/// replica is `to_folder_id` and whose children left are `children` and then
/// `siblings`. Given the replies of the dialogue of `children`, it makes the
/// requests of that dialogue. If the dialogue fails, the copy ends with its error.
/// If not, the copy goes on with `siblings`, whatever replies follow.
proof fn lemma_children_course<E>(
    config: ConfigView,
    below: Seq<FrameView>,
    to_folder_id: Seq<char>,
    children: Seq<Child<E>>,
    siblings: Seq<FileHandleView>,
    more: Seq<ReplyView<E>>,
)
    ensures
        ({
            let talk = children_dialogue(children, to_folder_id);
            let begun = advance::<E>(
                config,
                below.push(FrameView { to_folder_id, rest: handles(children) + siblings }),
            );
            let resumed = advance::<E>(
                config,
                below.push(FrameView { to_folder_id, rest: siblings }),
            );
            &&& talk.outcome is Ok ==> course(begun, talk.replies + more) == course(
                resumed,
                more,
            ).preceded_by(talk.requests)
            &&& talk.outcome is Err ==> course(begun, talk.replies) == Course::ending(
                config,
                talk.requests,
                talk.outcome,
            )
        }),
    decreases children,
{
    let talk = children_dialogue(children, to_folder_id);
    let begun = advance::<E>(
        config,
        below.push(FrameView { to_folder_id, rest: handles(children) + siblings }),
    );
    let resumed = advance::<E>(config, below.push(FrameView { to_folder_id, rest: siblings }));
    if children.len() == 0 {
        assert(handles(children) + siblings =~= siblings);
        assert(talk.replies + more =~= more);
        assert(course(resumed, more).preceded_by(talk.requests).requests =~= course(
            resumed,
            more,
        ).requests);
    } else {
        let first = children.first();
        let others = children.drop_first();
        let first_talk = child_dialogue(first, to_folder_id);
        let others_talk = children_dialogue(others, to_folder_id);
        let left = handles(others) + siblings;
        assert(handles(children) + siblings =~= seq![first.handle] + left);
        if first_talk.outcome is Ok {
            if others_talk.outcome is Ok {
                lemma_child_course(
                    config,
                    below,
                    to_folder_id,
                    first,
                    left,
                    others_talk.replies + more,
                );
                lemma_children_course(config, below, to_folder_id, others, siblings, more);
                assert(talk.replies + more =~= first_talk.replies + (others_talk.replies + more));
                assert(course(begun, talk.replies + more).requests =~= talk.requests + course(
                    resumed,
                    more,
                ).requests);
            } else {
                lemma_child_course(config, below, to_folder_id, first, left, others_talk.replies);
                lemma_children_course(
                    config,
                    below,
                    to_folder_id,
                    others,
                    siblings,
                    Seq::empty(),
                );
                assert(course(begun, talk.replies).requests =~= talk.requests + seq![
                    ActionView::Finish(talk.outcome),
                ]);
            }
        } else {
            lemma_child_course(config, below, to_folder_id, first, left, Seq::empty());
        }
    }
}

/// There is one way to succeed.
pub proof fn lemma_ok_is_unit<X>(outcome: Result<(), X>)
    ensures
        outcome is Ok ==> outcome == Ok::<(), X>(()),
{
    if outcome is Ok {
        let unit = outcome->Ok_0;
        assert(unit == ());
    }
}

/// The state of a copy that waits for `stage` and is inside no folder.
spec fn outside(config: ConfigView, stage: StageView) -> CopyFolderView {
    CopyFolderView { config, stage, frames: Seq::empty() }
}

/// From the request for the listing of the source on, a copy follows the dialogue.
proof fn lemma_replication_course<E>(config: ConfigView, remote: Remote<E>)
    ensures
        ({
            let talk = replication(config, remote);
            let at = (
                outside(config, StageView::Listing { to_folder_id: config.to_folder_id }),
                list_request::<E>(config.src_folder_id),
            );
            course(at, talk.replies) == Course::ending(config, talk.requests, talk.outcome)
        }),
{
    let to_folder_id = config.to_folder_id;
    let at = (
        outside(config, StageView::Listing { to_folder_id }),
        list_request::<E>(config.src_folder_id),
    );
    match remote.listed {
        Err(cause) => {
            let rest = Dialogue::failed(Error::ListFiles(cause));
            lemma_course_ended(config, rest.outcome);
            lemma_course_after(config, at, ReplyView::Files(Err(cause)), rest);
        },
        Ok(children) => {
            let inside = children_dialogue(capped(children), to_folder_id);
            let none = Seq::<FrameView>::empty();
            let resumed = advance::<E>(config, none.push(FrameView { to_folder_id, rest: Seq::empty() }));
            lemma_capped_handles(children);
            assert(handles(capped(children)) + Seq::empty() =~= capped(handles(children)));
            lemma_children_course(
                config,
                none,
                to_folder_id,
                capped(children),
                Seq::empty(),
                Seq::<ReplyView<E>>::empty(),
            );
            if inside.outcome is Ok {
                lemma_advance_closes::<E>(config, none, to_folder_id);
                lemma_course_ended::<E>(config, Ok(()));
                lemma_ok_is_unit(inside.outcome);
                assert(inside.replies + Seq::empty() =~= inside.replies);
                assert(inside.requests + (Seq::empty() + seq![ActionView::<E>::Finish(Ok(()))])
                    =~= inside.requests + seq![ActionView::<E>::Finish(Ok(()))]);
            }
            lemma_course_after(config, at, ReplyView::Files(Ok(handles(children))), inside);
        },
    }
}

/// From the request for the destination on, a copy follows the dialogue.
proof fn lemma_destination_course<E>(config: ConfigView, remote: Remote<E>)
    ensures
        ({
            let talk = from_destination(config, remote);
            let at = (
                outside(config, StageView::Destination),
                ActionView::<E>::GetFile { file_id: config.to_folder_id },
            );
            course(at, talk.replies) == Course::ending(config, talk.requests, talk.outcome)
        }),
{
    let at = (
        outside(config, StageView::Destination),
        ActionView::<E>::GetFile { file_id: config.to_folder_id },
    );
    match remote.destination {
        Err(cause) => {
            let rest = Dialogue::failed(Error::GetDestinationFolder(cause));
            lemma_course_ended(config, rest.outcome);
            lemma_course_after(config, at, ReplyView::File(Err(cause)), rest);
        },
        Ok(destination) => {
            if destination.is_directory() {
                lemma_replication_course(config, remote);
                lemma_course_after(
                    config,
                    at,
                    ReplyView::File(Ok(destination)),
                    replication(config, remote),
                );
            } else {
                let rest = Dialogue::failed(Error::DestinationNotADirectory);
                lemma_course_ended(config, rest.outcome);
                lemma_course_after(config, at, ReplyView::File(Ok(destination)), rest);
            }
        },
    }
}

/// From the request for the source on, a copy follows the dialogue.
proof fn lemma_source_course<E>(config: ConfigView, remote: Remote<E>)
    ensures
        ({
            let talk = from_source(config, remote);
            let at = (
                outside(config, StageView::Source),
                ActionView::<E>::GetFile { file_id: config.src_folder_id },
            );
            course(at, talk.replies) == Course::ending(config, talk.requests, talk.outcome)
        }),
{
    let at = (
        outside(config, StageView::Source),
        ActionView::<E>::GetFile { file_id: config.src_folder_id },
    );
    match remote.source {
        Err(cause) => {
            let rest = Dialogue::failed(Error::GetFile(cause));
            lemma_course_ended(config, rest.outcome);
            lemma_course_after(config, at, ReplyView::File(Err(cause)), rest);
        },
        Ok(source) => {
            if source.is_directory() {
                lemma_destination_course(config, remote);
                lemma_course_after(
                    config,
                    at,
                    ReplyView::File(Ok(source)),
                    from_destination(config, remote),
                );
            } else {
                let rest = Dialogue::failed(Error::SourceNotADirectory);
                lemma_course_ended(config, rest.outcome);
                lemma_course_after(config, at, ReplyView::File(Ok(source)), rest);
            }
        },
    }
}

/// A copy follows the dialogue of its remote store.
///
/// Whatever the remote store answers, and for every source and destination:
/// a copy that is given the replies of the dialogue with that store, in their
/// order, expects each of them when it comes, makes the requests of the dialogue
/// in their order, and then ends as the dialogue does.
pub proof fn theorem_copy_follows_dialogue<E>(config: ConfigView, remote: Remote<E>)
    ensures
        course(start(config), dialogue(config, remote).replies) == Course::ending(
            config,
            dialogue(config, remote).requests,
            dialogue(config, remote).outcome,
        ),
{
    let begun = start::<E>(config);
    match remote.session {
        Err(cause) => {
            let rest = Dialogue::failed(Error::Hub(cause));
            lemma_course_ended(config, rest.outcome);
            lemma_course_after(config, begun, ReplyView::Session(Err(cause)), rest);
        },
        Ok(_) => {
            lemma_source_course(config, remote);
            lemma_course_after(
                config,
                begun,
                ReplyView::Session(Ok(())),
                from_source(config, remote),
            );
        },
    }
}

} // verus!
