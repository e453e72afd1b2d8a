//! What holds of every copy, whatever the remote store answers.
//!
//! The first statements are about the dialogue that replicates the children of
//! a folder, at whatever depth. By
//! [`theorem_copy_follows_dialogue`](crate::files::copy_folder::course::theorem_copy_follows_dialogue)
//! the requests of a dialogue are the requests that the copy makes. The
//! statements after them say the same of the copy itself: of the requests that
//! it makes when it is given the replies of its remote store.

use crate::files::copy_folder::course::{
    course, lemma_ok_is_unit, theorem_copy_follows_dialogue, Course,
};
use crate::files::copy_folder::machine::{capped, list_request, start, ActionView, ConfigView};
use crate::files::copy_folder::remote::{
    child_dialogue, children_dialogue, dialogue, Child, Dialogue, Remote,
};
use crate::files::copy_folder::Error;
use vstd::prelude::*;

verus! {

/// Doing one thing after two others is doing two things after one.
proof fn lemma_followed_by_twice<E>(first: Dialogue<E>, second: Dialogue<E>, third: Dialogue<E>)
    ensures
        first.followed_by(second).followed_by(third) == first.followed_by(
            second.followed_by(third),
        ),
{
    if first.outcome is Ok && second.outcome is Ok {
        assert((first.requests + second.requests) + third.requests =~= first.requests + (
        second.requests + third.requests));
        assert((first.replies + second.replies) + third.replies =~= first.replies + (
        second.replies + third.replies));
    }
}

/// Children are replicated one after the other: those of `before`, each with
/// all that is in it, and then those of `after`. Nothing is asked for a child of
/// `after` until the last child of `before` is done, and nothing at all if a
/// child of `before` fails.
pub proof fn theorem_children_one_after_the_other<E>(
    before: Seq<Child<E>>,
    after: Seq<Child<E>>,
    to_folder_id: Seq<char>,
)
    ensures
        children_dialogue(before + after, to_folder_id) == children_dialogue(
            before,
            to_folder_id,
        ).followed_by(children_dialogue(after, to_folder_id)),
    decreases before.len(),
{
    let later = children_dialogue(after, to_folder_id);
    if before.len() == 0 {
        assert(before + after =~= after);
        assert(Seq::<ActionView<E>>::empty() + later.requests =~= later.requests);
        assert(Seq::empty() + later.replies =~= later.replies);
    } else {
        let first = child_dialogue(before.first(), to_folder_id);
        let others = before.drop_first();
        assert((before + after).first() == before.first());
        assert((before + after).drop_first() =~= others + after);
        theorem_children_one_after_the_other(others, after, to_folder_id);
        lemma_followed_by_twice(first, children_dialogue(others, to_folder_id), later);
    }
}

/// Depth first: a folder is replicated with all that is in it before the child
/// that follows it in the listing is looked at.
///
/// When `folder` is replicated, a directory of its name is created, its
/// listing is asked for, and the children in the listing are replicated into the
/// new directory. Only then come the requests for `next`.
pub proof fn theorem_depth_first<E>(folder: Child<E>, next: Child<E>, to_folder_id: Seq<char>)
    requires
        folder.handle.is_directory(),
        child_dialogue(folder, to_folder_id).outcome is Ok,
    ensures
        child_dialogue(folder, to_folder_id).requests == seq![
            ActionView::CreateDirectory {
                name: folder.handle.name->0,
                parent_id: to_folder_id,
            },
            list_request(folder.handle.id->0),
        ] + children_dialogue(capped(folder.listed->Ok_0), folder.made->Ok_0.id->0).requests,
        children_dialogue(seq![folder, next], to_folder_id).requests == child_dialogue(
            folder,
            to_folder_id,
        ).requests + child_dialogue(next, to_folder_id).requests,
{
    let inside = children_dialogue(capped(folder.listed->Ok_0), folder.made->Ok_0.id->0);
    assert(child_dialogue(folder, to_folder_id).requests =~= seq![
        ActionView::CreateDirectory { name: folder.handle.name->0, parent_id: to_folder_id },
        list_request(folder.handle.id->0),
    ] + inside.requests);
    reveal_with_fuel(children_dialogue, 3);
    let children = seq![folder, next];
    assert(children.drop_first() =~= seq![next]);
    assert(seq![next].drop_first() =~= Seq::<Child<E>>::empty());
    let last = child_dialogue(next, to_folder_id);
    assert(children_dialogue(seq![next], to_folder_id) == last.followed_by(Dialogue::done()));
    if last.outcome is Ok {
        assert(last.requests + Seq::empty() =~= last.requests);
    }
}

/// A child without id or name ends the copy at once.
///
/// The children before it have been replicated, and what was created for them
/// stays. Nothing is asked for the child itself nor for any child after it,
/// and the copy ends with `FileWithoutId`, or with `FileWithoutName` if it is
/// only the name that is missing.
pub proof fn theorem_child_without_id_or_name<E>(
    children: Seq<Child<E>>,
    index: int,
    to_folder_id: Seq<char>,
)
    requires
        0 <= index < children.len(),
        children[index].handle.id is None || children[index].handle.name is None,
        children_dialogue(children.take(index), to_folder_id).outcome is Ok,
    ensures
        children_dialogue(children, to_folder_id).requests == children_dialogue(
            children.take(index),
            to_folder_id,
        ).requests,
        children_dialogue(children, to_folder_id).replies == children_dialogue(
            children.take(index),
            to_folder_id,
        ).replies,
        children_dialogue(children, to_folder_id).outcome == Err::<(), Error<E>>(
            if children[index].handle.id is None {
                Error::FileWithoutId
            } else {
                Error::FileWithoutName
            },
        ),
{
    let before = children.take(index);
    let from = children.skip(index);
    assert(children =~= before + from);
    theorem_children_one_after_the_other(before, from, to_folder_id);
    assert(from.first() == children[index]);
    assert(child_dialogue(children[index], to_folder_id).outcome is Err);
    assert(child_dialogue(children[index], to_folder_id).requests.len() == 0);
    assert(child_dialogue(children[index], to_folder_id).replies.len() == 0);
    assert(children_dialogue(from, to_folder_id) == child_dialogue(children[index], to_folder_id));
    let done = children_dialogue(before, to_folder_id);
    assert(done.requests + Seq::empty() =~= done.requests);
    assert(done.replies + Seq::empty() =~= done.replies);
}

/// Of a listing only the first `MAX_FILES` children are replicated, and it is
/// no error that there are more.
///
/// The requests and the outcome of a copy are those of the copy from a source
/// folder that has only these children.
pub proof fn theorem_listing_is_capped<E>(config: ConfigView, remote: Remote<E>)
    requires
        remote.listed is Ok,
    ensures
        ({
            let cut = Remote { listed: Ok(capped(remote.listed->Ok_0)), ..remote };
            &&& dialogue(config, remote).requests == dialogue(config, cut).requests
            &&& dialogue(config, remote).outcome == dialogue(config, cut).outcome
        }),
{
    let children = remote.listed->Ok_0;
    assert(capped(capped(children)) =~= capped(children));
}

/// Of the listing of a folder inside the source only the first `MAX_FILES`
/// children are replicated, and it is no error that there are more.
pub proof fn theorem_inner_listing_is_capped<E>(child: Child<E>, to_folder_id: Seq<char>)
    requires
        child.listed is Ok,
    ensures
        ({
            let cut = Child { listed: Ok(capped(child.listed->Ok_0)), ..child };
            &&& child_dialogue(child, to_folder_id).requests == child_dialogue(
                cut,
                to_folder_id,
            ).requests
            &&& child_dialogue(child, to_folder_id).outcome == child_dialogue(
                cut,
                to_folder_id,
            ).outcome
        }),
{
    let children = child.listed->Ok_0;
    assert(capped(capped(children)) =~= capped(children));
}

/// Unless the source and the destination are both folders, the copy fails
/// before it changes anything: it makes no request that creates, copies or
/// renames. A source that is no folder gives `SourceNotADirectory`, a
/// destination that is no folder `DestinationNotADirectory`.
pub proof fn theorem_no_change_unless_folders<E>(config: ConfigView, remote: Remote<E>)
    requires
        !(remote.session is Ok && remote.source is Ok && remote.source->Ok_0.is_directory()
            && remote.destination is Ok && remote.destination->Ok_0.is_directory()),
    ensures
        dialogue(config, remote).outcome is Err,
        remote.session is Ok && remote.source is Ok && !remote.source->Ok_0.is_directory()
            ==> dialogue(config, remote).outcome == Err::<(), Error<E>>(
            Error::SourceNotADirectory,
        ),
        remote.session is Ok && remote.source is Ok && remote.source->Ok_0.is_directory()
            && remote.destination is Ok ==> dialogue(config, remote).outcome == Err::<
            (),
            Error<E>,
        >(Error::DestinationNotADirectory),
        forall|i: int|
            0 <= i < dialogue(config, remote).requests.len() ==> !(#[trigger] dialogue(
                config,
                remote,
            ).requests[i]).is_mutation(),
        forall|i: int|
            0 <= i < course(start(config), dialogue(config, remote).replies).requests.len()
                ==> !(#[trigger] course(
                start(config),
                dialogue(config, remote).replies,
            ).requests[i]).is_mutation(),
{
    theorem_copy_follows_dialogue(config, remote);
}

/// The requests with which every copy begins that gets as far as to replicate:
/// for the session, for the source, for the destination, and for the listing
/// of the source.
pub open spec fn opening<E>(config: ConfigView) -> Seq<ActionView<E>> {
    seq![
        ActionView::OpenSession,
        ActionView::GetFile { file_id: config.src_folder_id },
        ActionView::GetFile { file_id: config.to_folder_id },
        list_request(config.src_folder_id),
    ]
}

/// Whether the remote store opens the session, reports source and destination
/// as folders, and lists the source.
pub open spec fn admits<E>(remote: Remote<E>) -> bool {
    &&& remote.session is Ok
    &&& remote.source is Ok
    &&& remote.source->Ok_0.is_directory()
    &&& remote.destination is Ok
    &&& remote.destination->Ok_0.is_directory()
    &&& remote.listed is Ok
}

/// Once source and destination are found to be folders and the source is
/// listed, the copy replicates the children of the capped listing into the
/// destination, and that is all it does.
pub proof fn theorem_copy_replicates_the_listing<E>(config: ConfigView, remote: Remote<E>)
    requires
        admits(remote),
    ensures
        ({
            let inside = children_dialogue(capped(remote.listed->Ok_0), config.to_folder_id);
            course(start(config), dialogue(config, remote).replies) == Course::ending(
                config,
                opening(config) + inside.requests,
                inside.outcome,
            )
        }),
{
    let inside = children_dialogue(capped(remote.listed->Ok_0), config.to_folder_id);
    theorem_copy_follows_dialogue(config, remote);
    assert(dialogue(config, remote).requests =~= opening(config) + inside.requests);
}

/// Depth first, said of the copy itself: where the source holds `folder` and
/// then `next`, the copy makes every request that replicates `folder` and what
/// is in it before the first request for `next`.
pub proof fn theorem_copy_is_depth_first<E>(
    config: ConfigView,
    remote: Remote<E>,
    folder: Child<E>,
    next: Child<E>,
)
    requires
        admits(remote),
        remote.listed->Ok_0 == seq![folder, next],
        folder.handle.is_directory(),
        child_dialogue(folder, config.to_folder_id).outcome is Ok,
    ensures
        course(start(config), dialogue(config, remote).replies) == Course::ending(
            config,
            opening(config) + child_dialogue(folder, config.to_folder_id).requests
                + child_dialogue(next, config.to_folder_id).requests,
            child_dialogue(next, config.to_folder_id).outcome,
        ),
{
    let children = seq![folder, next];
    let first = child_dialogue(folder, config.to_folder_id);
    let second = child_dialogue(next, config.to_folder_id);
    assert(capped(children) == children);
    theorem_copy_replicates_the_listing(config, remote);
    theorem_depth_first(folder, next, config.to_folder_id);
    reveal_with_fuel(children_dialogue, 3);
    assert(children.drop_first() =~= seq![next]);
    assert(seq![next].drop_first() =~= Seq::<Child<E>>::empty());
    lemma_ok_is_unit(second.outcome);
    assert(children_dialogue(children, config.to_folder_id).outcome == second.outcome);
    assert(opening(config) + (first.requests + second.requests) =~= opening(config)
        + first.requests + second.requests);
}

/// A child without id or name, said of the copy itself: the copy replicates
/// the children before it, asks nothing more, and ends with `FileWithoutId`,
/// or with `FileWithoutName` if it is only the name that is missing.
pub proof fn theorem_copy_ends_at_child_without_id_or_name<E>(
    config: ConfigView,
    remote: Remote<E>,
    index: int,
)
    requires
        admits(remote),
        0 <= index < capped(remote.listed->Ok_0).len(),
        capped(remote.listed->Ok_0)[index].handle.id is None || capped(
            remote.listed->Ok_0,
        )[index].handle.name is None,
        children_dialogue(
            capped(remote.listed->Ok_0).take(index),
            config.to_folder_id,
        ).outcome is Ok,
    ensures
        course(start(config), dialogue(config, remote).replies) == Course::ending(
            config,
            opening(config) + children_dialogue(
                capped(remote.listed->Ok_0).take(index),
                config.to_folder_id,
            ).requests,
            Err(
                if capped(remote.listed->Ok_0)[index].handle.id is None {
                    Error::FileWithoutId
                } else {
                    Error::FileWithoutName
                },
            ),
        ),
{
    theorem_copy_replicates_the_listing(config, remote);
    theorem_child_without_id_or_name(capped(remote.listed->Ok_0), index, config.to_folder_id);
}

} // verus!
