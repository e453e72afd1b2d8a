//! What a copy leaves in the remote store.
//!
//! The remote store is taken to do what it is asked: a directory that it
//! reports as created is there, under the id that the reply gives, with the
//! name and the parent that were asked for; a file that it reports as copied
//! is there, under the id and the name that the reply gives, with the content
//! of the file that was copied; a file that it reports as renamed has the new
//! name. And every object that it makes gets an id that no other object has.

use crate::files::copy_folder::course::{course, theorem_copy_follows_dialogue};
use crate::files::copy_folder::machine::{
    capped, list_request, start, ActionView, ConfigView, ReplyView,
};
use crate::files::copy_folder::remote::{
    child_dialogue, children_dialogue, dialogue, handles, lemma_child_dialogue_is_paired,
    lemma_dialogue_is_paired, Child, Remote,
};
use vstd::prelude::*;

verus! {

/// What an object of the remote store holds.
pub enum Content {
    /// Other objects: it is a folder.
    Folder,
    /// What the file with this id held when it was copied.
    CopyOf(Seq<char>),
}

/// An object of the remote store.
pub struct Entry {
    /// The name it is displayed under, if it has one.
    pub name: Option<Seq<char>>,
    /// The id of the folder it is in.
    pub parent: Seq<char>,
    pub content: Content,
}

/// The objects of a remote store, by their ids.
pub type Store = Map<Seq<char>, Entry>;

/// The store after `request` was answered by `reply`.
pub open spec fn served<E>(store: Store, request: ActionView<E>, reply: ReplyView<E>) -> Store {
    match (request, reply) {
        (ActionView::CreateDirectory { name, parent_id }, ReplyView::File(Ok(made))) => match made.id {
            Some(id) => store.insert(
                id,
                Entry { name: Some(name), parent: parent_id, content: Content::Folder },
            ),
            None => store,
        },
        (ActionView::CopyFile { file_id, to_folder_id }, ReplyView::File(Ok(made))) => match made.id {
            Some(id) => store.insert(
                id,
                Entry { name: made.name, parent: to_folder_id, content: Content::CopyOf(file_id) },
            ),
            None => store,
        },
        (ActionView::Rename { file_id, name }, ReplyView::Renamed(Ok(_))) => if store.dom().contains(
            file_id,
        ) {
            store.insert(
                file_id,
                Entry {
                    name: Some(name),
                    parent: store[file_id].parent,
                    content: store[file_id].content,
                },
            )
        } else {
            store
        },
        _ => store,
    }
}

/// The store after each of `requests` was answered by the reply at its place
/// in `replies`.
pub open spec fn served_all<E>(
    store: Store,
    requests: Seq<ActionView<E>>,
    replies: Seq<ReplyView<E>>,
) -> Store
    decreases requests.len(),
{
    if requests.len() == 0 || replies.len() == 0 {
        store
    } else {
        served_all(
            served(store, requests.first(), replies.first()),
            requests.drop_first(),
            replies.drop_first(),
        )
    }
}

/// The ids of the objects that the remote store makes for `child`: its
/// replica and, for a folder, the replicas of what is in it.
pub open spec fn made_for_child<E>(child: Child<E>) -> Set<Seq<char>>
    decreases child,
{
    if child.made is Ok && child.made->Ok_0.id is Some {
        let inside = if child.handle.is_directory() && child.listed is Ok {
            made_for(capped(child.listed->Ok_0))
        } else {
            Set::empty()
        };
        inside.insert(child.made->Ok_0.id->0)
    } else {
        Set::empty()
    }
}

/// The ids of the objects that the remote store makes for `children`.
pub open spec fn made_for<E>(children: Seq<Child<E>>) -> Set<Seq<char>>
    decreases children,
{
    if children.len() == 0 {
        Set::empty()
    } else {
        made_for_child(children.first()) + made_for(children.drop_first())
    }
}

/// The replica of `child`, and of all that is in it, gets an id that is not
/// in `taken` and that no other of them gets.
pub open spec fn fresh_for_child<E>(child: Child<E>, taken: Set<Seq<char>>) -> bool
    decreases child,
{
    child.made is Ok && child.made->Ok_0.id is Some && !taken.contains(child.made->Ok_0.id->0) && (
    child.handle.is_directory() && child.listed is Ok ==> fresh_for(
        capped(child.listed->Ok_0),
        taken.insert(child.made->Ok_0.id->0),
    ))
}

/// Every object that the remote store makes for `children` gets an id that is
/// not in `taken` and that no other of them gets.
pub open spec fn fresh_for<E>(children: Seq<Child<E>>, taken: Set<Seq<char>>) -> bool
    decreases children,
{
    children.len() == 0 || (fresh_for_child(children.first(), taken) && fresh_for(
        children.drop_first(),
        taken + made_for_child(children.first()),
    ))
}

/// `store` holds a replica of `child` in the folder `to_folder_id`: an object
/// of the same name and, for a file, with the content of `child`; for a folder,
/// a folder that holds a replica of each child that the capped listing shows.
pub open spec fn mirrors_child<E>(store: Store, child: Child<E>, to_folder_id: Seq<char>) -> bool
    decreases child,
{
    &&& child.made is Ok
    &&& child.made->Ok_0.id is Some
    &&& child.handle.name is Some
    &&& store.dom().contains(child.made->Ok_0.id->0)
    &&& store[child.made->Ok_0.id->0].name == child.handle.name
    &&& store[child.made->Ok_0.id->0].parent == to_folder_id
    &&& if child.handle.is_directory() {
        &&& store[child.made->Ok_0.id->0].content is Folder
        &&& child.listed is Ok
        &&& mirrors(store, capped(child.listed->Ok_0), child.made->Ok_0.id->0)
    } else {
        &&& child.handle.id is Some
        &&& store[child.made->Ok_0.id->0].content == Content::CopyOf(child.handle.id->0)
    }
}

/// `store` holds a replica of each of `children` in the folder `to_folder_id`.
pub open spec fn mirrors<E>(store: Store, children: Seq<Child<E>>, to_folder_id: Seq<char>) -> bool
    decreases children,
{
    children.len() == 0 || (mirrors_child(store, children.first(), to_folder_id) && mirrors(
        store,
        children.drop_first(),
        to_folder_id,
    ))
}

/// The store after a first request and reply, and others after them.
proof fn lemma_served_first<E>(
    store: Store,
    request: ActionView<E>,
    reply: ReplyView<E>,
    requests: Seq<ActionView<E>>,
    replies: Seq<ReplyView<E>>,
)
    ensures
        served_all(store, seq![request] + requests, seq![reply] + replies) == served_all(
            served(store, request, reply),
            requests,
            replies,
        ),
{
    assert((seq![request] + requests).drop_first() =~= requests);
    assert((seq![reply] + replies).drop_first() =~= replies);
}

/// The store after one paired course of requests and replies, and another after it.
proof fn lemma_served_one_after_the_other<E>(
    store: Store,
    requests: Seq<ActionView<E>>,
    replies: Seq<ReplyView<E>>,
    more_requests: Seq<ActionView<E>>,
    more_replies: Seq<ReplyView<E>>,
)
    requires
        requests.len() == replies.len(),
    ensures
        served_all(store, requests + more_requests, replies + more_replies) == served_all(
            served_all(store, requests, replies),
            more_requests,
            more_replies,
        ),
    decreases requests.len(),
{
    if requests.len() == 0 {
        assert(requests + more_requests =~= more_requests);
        assert(replies + more_replies =~= more_replies);
    } else {
        let next = served(store, requests.first(), replies.first());
        lemma_served_one_after_the_other(
            next,
            requests.drop_first(),
            replies.drop_first(),
            more_requests,
            more_replies,
        );
        assert((requests + more_requests).drop_first() =~= requests.drop_first()
            + more_requests);
        assert((replies + more_replies).drop_first() =~= replies.drop_first() + more_replies);
    }
}

/// A replica stays one as long as the objects made for it stay as they are.
proof fn lemma_child_replica_stays<E>(
    store: Store,
    later: Store,
    child: Child<E>,
    to_folder_id: Seq<char>,
)
    requires
        mirrors_child(store, child, to_folder_id),
        forall|id: Seq<char>| #[trigger]
            made_for_child(child).contains(id) ==> later.dom().contains(id) && later[id]
                == store[id],
    ensures
        mirrors_child(later, child, to_folder_id),
    decreases child,
{
    let id = child.made->Ok_0.id->0;
    assert(made_for_child(child).contains(id));
    if child.handle.is_directory() {
        let inside = capped(child.listed->Ok_0);
        assert forall|other: Seq<char>| #[trigger] made_for(inside).contains(other) implies later.dom().contains(
            other,
        ) && later[other] == store[other] by {
            assert(made_for_child(child).contains(other));
        }
        lemma_replicas_stay(store, later, inside, id);
    }
}

/// Replicas stay replicas as long as the objects made for them stay as they are.
proof fn lemma_replicas_stay<E>(
    store: Store,
    later: Store,
    children: Seq<Child<E>>,
    to_folder_id: Seq<char>,
)
    requires
        mirrors(store, children, to_folder_id),
        forall|id: Seq<char>| #[trigger]
            made_for(children).contains(id) ==> later.dom().contains(id) && later[id] == store[id],
    ensures
        mirrors(later, children, to_folder_id),
    decreases children,
{
    if children.len() > 0 {
        let first = children.first();
        let others = children.drop_first();
        assert forall|id: Seq<char>| #[trigger] made_for_child(first).contains(id) implies later.dom().contains(
            id,
        ) && later[id] == store[id] by {
            assert(made_for(children).contains(id));
        }
        assert forall|id: Seq<char>| #[trigger] made_for(others).contains(id) implies later.dom().contains(
            id,
        ) && later[id] == store[id] by {
            assert(made_for(children).contains(id));
        }
        lemma_child_replica_stays(store, later, first, to_folder_id);
        lemma_replicas_stay(store, later, others, to_folder_id);
    }
}

/// What the copy of one child leaves in the store.
proof fn lemma_child_is_replicated<E>(store: Store, child: Child<E>, to_folder_id: Seq<char>)
    requires
        child_dialogue(child, to_folder_id).outcome is Ok,
        fresh_for_child(child, store.dom()),
    ensures
        ({
            let talk = child_dialogue(child, to_folder_id);
            let left = served_all(store, talk.requests, talk.replies);
            &&& left.dom() == store.dom() + made_for_child(child)
            &&& forall|id: Seq<char>| #[trigger] store.dom().contains(id) ==> left[id] == store[id]
            &&& mirrors_child(left, child, to_folder_id)
        }),
    decreases child,
{
    let talk = child_dialogue(child, to_folder_id);
    let left = served_all(store, talk.requests, talk.replies);
    let id = child.handle.id->0;
    let name = child.handle.name->0;
    let made = child.made->Ok_0;
    let made_id = made.id->0;
    let first_reply = ReplyView::<E>::File(Ok(made));
    if child.handle.is_directory() {
        let children = child.listed->Ok_0;
        let inside = children_dialogue(capped(children), made_id);
        let create = ActionView::<E>::CreateDirectory { name, parent_id: to_folder_id };
        let list = list_request::<E>(id);
        let listing = ReplyView::<E>::Files(Ok(handles(children)));
        let created = served(store, create, first_reply);
        assert(created.dom() =~= store.dom().insert(made_id));
        lemma_served_first(
            store,
            create,
            first_reply,
            seq![list] + inside.requests,
            seq![listing] + inside.replies,
        );
        lemma_served_first(created, list, listing, inside.requests, inside.replies);
        assert(served(created, list, listing) == created);
        assert(left == served_all(created, inside.requests, inside.replies));
        lemma_children_are_replicated(created, capped(children), made_id);
        assert(left.dom() =~= store.dom() + made_for_child(child));
        assert forall|other: Seq<char>| #[trigger] store.dom().contains(other) implies left[other]
            == store[other] by {
            assert(created.dom().contains(other));
        }
        assert(created.dom().contains(made_id));
    } else {
        let copy = ActionView::<E>::CopyFile { file_id: id, to_folder_id };
        let rename = ActionView::<E>::Rename { file_id: made_id, name };
        let renamed = ReplyView::<E>::Renamed(Ok(()));
        let copied = served(store, copy, first_reply);
        lemma_served_first(store, copy, first_reply, seq![rename], seq![renamed]);
        assert(talk.requests =~= seq![copy] + seq![rename]);
        assert(talk.replies =~= seq![first_reply] + seq![renamed]);
        lemma_served_first(copied, rename, renamed, Seq::empty(), Seq::empty());
        assert(seq![rename] =~= seq![rename] + Seq::empty());
        assert(seq![renamed] =~= seq![renamed] + Seq::empty());
        assert(left == served(copied, rename, renamed));
        assert(copied.dom().contains(made_id));
        assert(left.dom() =~= store.dom() + made_for_child(child));
        assert forall|other: Seq<char>| #[trigger] store.dom().contains(other) implies left[other]
            == store[other] by {
            assert(other != made_id);
        }
    }
}

/// What the copy of the children of one folder leaves in the store.
proof fn lemma_children_are_replicated<E>(
    store: Store,
    children: Seq<Child<E>>,
    to_folder_id: Seq<char>,
)
    requires
        children_dialogue(children, to_folder_id).outcome is Ok,
        fresh_for(children, store.dom()),
    ensures
        ({
            let talk = children_dialogue(children, to_folder_id);
            let left = served_all(store, talk.requests, talk.replies);
            &&& left.dom() == store.dom() + made_for(children)
            &&& forall|id: Seq<char>| #[trigger] store.dom().contains(id) ==> left[id] == store[id]
            &&& mirrors(left, children, to_folder_id)
        }),
    decreases children,
{
    let talk = children_dialogue(children, to_folder_id);
    let left = served_all(store, talk.requests, talk.replies);
    if children.len() == 0 {
        assert(left.dom() =~= store.dom() + made_for(children));
    } else {
        let first = children.first();
        let others = children.drop_first();
        let first_talk = child_dialogue(first, to_folder_id);
        let others_talk = children_dialogue(others, to_folder_id);
        let between = served_all(store, first_talk.requests, first_talk.replies);
        lemma_child_dialogue_is_paired(first, to_folder_id);
        lemma_served_one_after_the_other(
            store,
            first_talk.requests,
            first_talk.replies,
            others_talk.requests,
            others_talk.replies,
        );
        lemma_child_is_replicated(store, first, to_folder_id);
        assert(between.dom() =~= store.dom() + made_for_child(first));
        lemma_children_are_replicated(between, others, to_folder_id);
        assert(left.dom() =~= store.dom() + made_for(children));
        assert forall|id: Seq<char>| #[trigger] store.dom().contains(id) implies left[id]
            == store[id] by {
            assert(between.dom().contains(id));
        }
        assert forall|id: Seq<char>| #[trigger] made_for_child(first).contains(id) implies left.dom().contains(
            id,
        ) && left[id] == between[id] by {
            assert(between.dom().contains(id));
        }
        lemma_child_replica_stays(between, left, first, to_folder_id);
    }
}

/// Where a store holds a replica of each of `children`, it holds one of the
/// child at `index`.
pub proof fn lemma_each_is_mirrored<E>(
    store: Store,
    children: Seq<Child<E>>,
    to_folder_id: Seq<char>,
    index: int,
)
    requires
        mirrors(store, children, to_folder_id),
        0 <= index < children.len(),
    ensures
        mirrors_child(store, children[index], to_folder_id),
    decreases index,
{
    if index > 0 {
        lemma_each_is_mirrored(store, children.drop_first(), to_folder_id, index - 1);
    }
}

/// A request that has no reply leaves the store as it is.
proof fn lemma_served_without_reply<E>(
    store: Store,
    requests: Seq<ActionView<E>>,
    replies: Seq<ReplyView<E>>,
    last: ActionView<E>,
)
    requires
        requests.len() == replies.len(),
    ensures
        served_all(store, requests + seq![last], replies) == served_all(store, requests, replies),
    decreases requests.len(),
{
    if requests.len() > 0 {
        lemma_served_without_reply(
            served(store, requests.first(), replies.first()),
            requests.drop_first(),
            replies.drop_first(),
            last,
        );
        assert((requests + seq![last]).drop_first() =~= requests.drop_first() + seq![last]);
    }
}

/// On success the destination holds a replica of the source.
///
/// Let the copy succeed with a remote store that gives every object it makes an
/// id of its own. The store then holds, in the destination folder, a replica of
/// each child that the capped listing of the source shows: an object of the same
/// name, with the same content if the child is a file, and a folder with a replica
/// of each of its children in turn if the child is a folder. The names are those
/// of the source whatever names the copies were made under. The store holds the
/// objects that it held before, unchanged, and these replicas, and nothing else.
///
/// This is said of the store after the requests of the dialogue, and these are
/// the requests that the copy makes.
pub proof fn theorem_replica_mirrors_source<E>(config: ConfigView, remote: Remote<E>, store: Store)
    requires
        dialogue(config, remote).outcome is Ok,
        fresh_for(capped(remote.listed->Ok_0), store.dom()),
    ensures
        ({
            let talk = dialogue(config, remote);
            let children = capped(remote.listed->Ok_0);
            let left = served_all(store, talk.requests, talk.replies);
            &&& left == served_all(
                store,
                course(start(config), talk.replies).requests,
                talk.replies,
            )
            &&& left.dom() == store.dom() + made_for(children)
            &&& forall|id: Seq<char>| #[trigger] store.dom().contains(id) ==> left[id] == store[id]
            &&& mirrors(left, children, config.to_folder_id)
            &&& forall|i: int|
                0 <= i < children.len() ==> mirrors_child(
                    left,
                    #[trigger] children[i],
                    config.to_folder_id,
                )
        }),
{
    let talk = dialogue(config, remote);
    let children = capped(remote.listed->Ok_0);
    let inside = children_dialogue(children, config.to_folder_id);
    let session = ReplyView::<E>::Session(Ok(()));
    let source = ReplyView::<E>::File(Ok(remote.source->Ok_0));
    let destination = ReplyView::<E>::File(Ok(remote.destination->Ok_0));
    let listing = ReplyView::<E>::Files(Ok(handles(remote.listed->Ok_0)));
    let get_source = ActionView::<E>::GetFile { file_id: config.src_folder_id };
    let get_destination = ActionView::<E>::GetFile { file_id: config.to_folder_id };
    let list = list_request::<E>(config.src_folder_id);
    lemma_served_first(
        store,
        ActionView::OpenSession,
        session,
        seq![get_source] + (seq![get_destination] + (seq![list] + inside.requests)),
        seq![source] + (seq![destination] + (seq![listing] + inside.replies)),
    );
    lemma_served_first(
        store,
        get_source,
        source,
        seq![get_destination] + (seq![list] + inside.requests),
        seq![destination] + (seq![listing] + inside.replies),
    );
    lemma_served_first(
        store,
        get_destination,
        destination,
        seq![list] + inside.requests,
        seq![listing] + inside.replies,
    );
    lemma_served_first(store, list, listing, inside.requests, inside.replies);
    lemma_children_are_replicated(store, children, config.to_folder_id);
    let left = served_all(store, talk.requests, talk.replies);
    assert forall|i: int| 0 <= i < children.len() implies mirrors_child(
        left,
        #[trigger] children[i],
        config.to_folder_id,
    ) by {
        lemma_each_is_mirrored(left, children, config.to_folder_id, i);
    }
    theorem_copy_follows_dialogue(config, remote);
    lemma_dialogue_is_paired(children, config.to_folder_id);
    lemma_served_without_reply(
        store,
        talk.requests,
        talk.replies,
        ActionView::Finish(talk.outcome),
    );
}

} // verus!
