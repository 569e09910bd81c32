//! Event adapters: stateless translators from one raw protocol event
//! to canonical store mutations.
//!
//! Adapters are tried in a fixed priority order — the edit-relation
//! check comes before generic message handling, since an edit is
//! syntactically also a content event — and the first adapter that
//! claims an event stops the pipeline. An event claimed by no adapter
//! is silently ignored.

use vstd::prelude::*;

use crate::delta::DeltaModel;
use crate::event::RawEvent;
use crate::event::RawEventModel;
use crate::ordering::CanonicalOrderingKey;
use crate::state::buffer_has;
use crate::state::has_id;
use crate::state::index_of_id;
use crate::state::is_insert_pos;
use crate::state::key_unused;
use crate::state::pending_lookup;
use crate::state::with_key;
use crate::state::CanonicalTimelineState;
use crate::state::StoreModel;
use crate::types::MessageModel;

pub mod edit;
pub mod message;

use edit::edit_effect;
use edit::EditAdapter;
use message::message_effect;
use message::MessageAdapter;

verus! {

/// True of raw events the edit adapter claims: an original message
/// event carrying a replacement relation.
pub open spec fn edit_claims(e: RawEventModel) -> bool {
    e matches RawEventModel::Message(m) && m.replaces is Some
}

/// True of raw events the message adapter claims.
pub open spec fn message_claims(e: RawEventModel) -> bool {
    match e {
        RawEventModel::Message(_) => true,
        RawEventModel::RedactedMessage(_) => true,
        RawEventModel::Encrypted(_) => true,
        RawEventModel::RedactedEncrypted(_) => true,
        RawEventModel::Redaction(_) => true,
        RawEventModel::RedactedRedaction(_) => false,
        RawEventModel::Other => false,
    }
}

/// The store transition performed by one `upsert` of `m`: an unseen
/// identity is inserted at the position its key determines and an
/// `Insert` delta is published; an existing identity is overwritten in
/// place under its preserved ordering key and an `Update` delta is
/// published.
pub open spec fn upsert_effect(pre: StoreModel, post: StoreModel, m: MessageModel) -> bool {
    &&& post.pending == pre.pending
    &&& post.next == pre.next
    &&& if has_id(pre.items, m.id) {
        let i = index_of_id(pre.items, m.id);
        let stored = with_key(m, pre.items[i].ordering_key);
        &&& post.items == pre.items.update(i, stored)
        &&& post.history == pre.history.push(
            DeltaModel::Update { position: stored.ordering_key, item: stored },
        )
    } else {
        exists|j: int|
            #[trigger] is_insert_pos(pre.items, m.ordering_key, j) && post.items
                == pre.items.insert(j, m) && post.history == pre.history.push(
                DeltaModel::Insert { position: m.ordering_key, item: m },
            )
    }
}

/// The buffer entry for `parent` gained `edit` at its end; every other
/// parent's entry is untouched.
pub open spec fn pending_added(
    pre: Seq<(Seq<char>, Seq<Seq<char>>)>,
    post: Seq<(Seq<char>, Seq<Seq<char>>)>,
    parent: Seq<char>,
    edit: Seq<char>,
) -> bool {
    &&& buffer_has(post, parent)
    &&& pending_lookup(post, parent) == pending_lookup(pre, parent).push(edit)
    &&& forall|p: Seq<char>|
        p != parent ==> buffer_has(post, p) == buffer_has(pre, p) && pending_lookup(post, p)
            == pending_lookup(pre, p)
}

/// The buffer entry for `parent` is gone; every other parent's entry
/// is untouched.
pub open spec fn pending_dropped(
    pre: Seq<(Seq<char>, Seq<Seq<char>>)>,
    post: Seq<(Seq<char>, Seq<Seq<char>>)>,
    parent: Seq<char>,
) -> bool {
    &&& !buffer_has(post, parent)
    &&& forall|p: Seq<char>|
        p != parent ==> buffer_has(post, p) == buffer_has(pre, p) && pending_lookup(post, p)
            == pending_lookup(pre, p)
}

/// Hand one raw event, with the ordering key pre-allocated for it, to
/// the adapter pipeline: the edit adapter first, then the message
/// adapter; the first adapter that claims the event stops the
/// pipeline.
pub fn process_event(
    event: &RawEvent,
    state: &mut CanonicalTimelineState,
    ordering_key: CanonicalOrderingKey,
) -> (handled: bool)
    requires
        old(state).wf(),
        key_unused(old(state).items_model(), ordering_key@),
    ensures
        final(state).wf(),
        handled == (edit_claims(event@) || message_claims(event@)),
        edit_claims(event@) ==> edit_effect(
            old(state).model(),
            final(state).model(),
            event@->Message_0,
            ordering_key@,
        ),
        !edit_claims(event@) && message_claims(event@) ==> message_effect(
            old(state).model(),
            final(state).model(),
            event@,
            ordering_key@,
        ),
        !edit_claims(event@) && !message_claims(event@) ==> final(state).model() == old(
            state,
        ).model(),
{
    let edit_adapter = EditAdapter::new();
    if edit_adapter.process(event, state, ordering_key) {
        return true;
    }
    let message_adapter = MessageAdapter::new();
    message_adapter.process(event, state, ordering_key)
}

} // verus!
