//! The edit adapter: original content events carrying a "replaces"
//! relation to a parent identity.

use vstd::prelude::*;

use crate::event::MessageEventModel;
use crate::event::RawEvent;
use crate::ordering::CanonicalOrderingKey;
use crate::state::has_id;
use crate::state::index_of_id;
use crate::state::CanonicalTimelineState;
use crate::state::StoreModel;
use crate::types::CanonicalEditState;
use crate::types::ContentAvailability;
use crate::types::ContentModel;
use crate::types::EditMetadata;
use crate::types::EditModel;
use crate::types::EditStateModel;
use crate::types::MessageModel;

use super::edit_claims;
use super::message::spec_canonical_content;
use super::message::MessageAdapter;
use super::pending_added;
use super::upsert_effect;

verus! {

/// The parent message after one accepted edit: the edit record joins
/// the chain in processing order, the latest content becomes both the
/// edit state's current content and the parent's top-level content,
/// and the parent's ordering key is untouched. The first edit creates
/// the edit state, seeding its original content with the parent's
/// pre-edit content.
pub open spec fn edited_message_model(
    parent: MessageModel,
    c: ContentModel,
    meta: EditModel,
) -> MessageModel {
    let st = match parent.edit_state {
        Some(es) => EditStateModel {
            current_content: c,
            original_content: es.original_content,
            edit_chain: es.edit_chain.push(meta),
        },
        None => EditStateModel {
            current_content: c,
            original_content: parent.content,
            edit_chain: seq![meta],
        },
    };
    MessageModel { content: c, edit_state: Some(st), ..parent }
}

/// The store transition the edit adapter performs for one claimed
/// event (an original content event whose `replaces` relation is
/// present).
///
/// An edit whose parent is absent is buffered and mutates nothing
/// else. An edit whose parent is present in redacted form is dropped:
/// redaction irreversibly clears edit history. Otherwise the parent is
/// overwritten, in place and under its own ordering key, with its
/// edited form carrying the edit event's identity, timestamp and own
/// ordering key in the chain.
pub open spec fn edit_effect(
    pre: StoreModel,
    post: StoreModel,
    e: MessageEventModel,
    key: u64,
) -> bool
    recommends
        e.replaces is Some,
{
    let repl = e.replaces->Some_0;
    if !has_id(pre.items, repl.parent_id) {
        &&& post.items == pre.items
        &&& post.next == pre.next
        &&& post.history == pre.history
        &&& pending_added(pre.pending, post.pending, repl.parent_id, e.event_id)
    } else {
        let parent = pre.items[index_of_id(pre.items, repl.parent_id)];
        if parent.availability is Redacted {
            post == pre
        } else {
            upsert_effect(
                pre,
                post,
                edited_message_model(
                    parent,
                    spec_canonical_content(repl.new_content),
                    EditModel { edit_id: e.event_id, timestamp: e.timestamp, position: key },
                ),
            )
        }
    }
}

/// Adapter for edit events (content events with a replacement
/// relation).
#[derive(Debug)]
pub struct EditAdapter;

impl EditAdapter {
    /// Create the edit adapter.
    pub fn new() -> (r: Self)
        ensures
            r == (EditAdapter {}),
    {
        EditAdapter
    }

    /// Process one raw event: mutate the store as `edit_effect`
    /// describes and report whether the event was claimed.
    pub fn process(
        &self,
        event: &RawEvent,
        state: &mut CanonicalTimelineState,
        ordering_key: CanonicalOrderingKey,
    ) -> (handled: bool)
        requires
            old(state).wf(),
        ensures
            final(state).wf(),
            handled == edit_claims(event@),
            edit_claims(event@) ==> edit_effect(
                old(state).model(),
                final(state).model(),
                event@->Message_0,
                ordering_key@,
            ),
            !edit_claims(event@) ==> final(state).model() == old(state).model(),
    {
        let ghost pre = state.model();
        match event {
            RawEvent::Message(e) => {
                match &e.replaces {
                    Some(repl) => {
                        let existing = match state.get_by_event_id(&repl.parent_id) {
                            Some(m) => Some(m.clone()),
                            None => None,
                        };
                        match existing {
                            None => {
                                // The parent does not exist yet: buffer
                                // this edit against it.
                                state.add_pending_edit(
                                    repl.parent_id.clone(),
                                    e.event_id.clone(),
                                );
                                true
                            },
                            Some(parent) => {
                                if matches!(parent.availability, ContentAvailability::Redacted) {
                                    // Redaction is irreversible: a late
                                    // edit never re-populates edit state.
                                    return true;
                                }
                                let new_content = MessageAdapter::build_content(
                                    &repl.new_content,
                                );
                                let meta = EditMetadata {
                                    edit_id: e.event_id.clone(),
                                    timestamp: e.timestamp,
                                    position: ordering_key,
                                };
                                let ghost meta_model = meta@;
                                let ghost parent_model = parent@;
                                let mut updated = parent;
                                let new_edit_state = match &updated.edit_state {
                                    Some(es) => {
                                        let mut chain = es.clone();
                                        chain.edit_chain.push(meta);
                                        chain.current_content = new_content.clone();
                                        proof {
                                            assert(chain@.edit_chain
                                                =~= parent_model.edit_state->Some_0
                                                .edit_chain.push(meta_model));
                                        }
                                        chain
                                    },
                                    None => {
                                        let mut chain: Vec<EditMetadata> = Vec::new();
                                        chain.push(meta);
                                        let st = CanonicalEditState {
                                            current_content: new_content.clone(),
                                            original_content: updated.content.clone(),
                                            edit_chain: chain,
                                        };
                                        proof {
                                            assert(st@.edit_chain =~= seq![meta_model]);
                                        }
                                        st
                                    },
                                };
                                updated.edit_state = Some(new_edit_state);
                                updated.content = new_content;
                                proof {
                                    assert(updated@ == edited_message_model(
                                        parent_model,
                                        spec_canonical_content(repl@.new_content),
                                        meta_model,
                                    ));
                                }
                                state.upsert(updated);
                                true
                            },
                        }
                    },
                    None => false,
                }
            },
            _ => false,
        }
    }
}

} // verus!
