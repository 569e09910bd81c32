//! The message adapter: plain, redacted and encrypted content events,
//! and redactions of other events.

use vstd::prelude::*;

use crate::event::EventInfoModel;
use crate::event::MessageEventModel;
use crate::event::RawContentModel;
use crate::event::RawEvent;
use crate::event::RawEventModel;
use crate::event::RawMessageContent;
use crate::event::RawMessageKind;
use crate::ordering::CanonicalOrderingKey;
use crate::state::has_id;
use crate::state::index_of_id;
use crate::state::key_unused;
use crate::state::CanonicalTimelineState;
use crate::state::StoreModel;
use crate::types::CanonicalMessage;
use crate::types::ContentAvailability;
use crate::types::ContentModel;
use crate::types::FormattedBody;
use crate::types::FormattedModel;
use crate::types::MessageContent;
use crate::types::MessageModel;
use crate::types::MessageType;
use crate::types::empty_content_model;
use crate::types::redacted_content_model;

use super::message_claims;
use super::pending_dropped;
use super::upsert_effect;

verus! {

/// The canonical message type a raw message type tag maps to: emotes
/// and notices collapse into text, as does any unmodelled tag.
pub open spec fn spec_map_message_type(k: RawMessageKind) -> MessageType {
    match k {
        RawMessageKind::Text => MessageType::Text,
        RawMessageKind::Emote => MessageType::Text,
        RawMessageKind::Notice => MessageType::Text,
        RawMessageKind::Image => MessageType::Image,
        RawMessageKind::Video => MessageType::Video,
        RawMessageKind::Audio => MessageType::Audio,
        RawMessageKind::File => MessageType::File,
        RawMessageKind::Other => MessageType::Text,
    }
}

/// The formatted body kept from a raw content payload: only textual
/// kinds carry formatting through.
pub open spec fn spec_extract_formatted(c: RawContentModel) -> Option<FormattedModel> {
    match c.kind {
        RawMessageKind::Text => c.formatted,
        RawMessageKind::Emote => c.formatted,
        RawMessageKind::Notice => c.formatted,
        _ => None,
    }
}

/// The canonical content built from a raw content payload.
pub open spec fn spec_canonical_content(c: RawContentModel) -> ContentModel {
    ContentModel {
        msg_type: spec_map_message_type(c.kind),
        body: c.body,
        formatted: spec_extract_formatted(c),
    }
}

/// The canonical message built from a plain (non-redacted,
/// non-encrypted) content event.
pub open spec fn plain_message_model(e: MessageEventModel, key: u64) -> MessageModel {
    MessageModel {
        id: e.event_id,
        sender: e.sender,
        content: spec_canonical_content(e.content),
        edit_state: None,
        ordering_key: key,
        availability: ContentAvailability::Known,
        timestamp: e.timestamp,
    }
}

/// The canonical message built from an event delivered in redacted
/// form.
pub open spec fn redacted_message_model(e: EventInfoModel, key: u64) -> MessageModel {
    MessageModel {
        id: e.event_id,
        sender: e.sender,
        content: redacted_content_model(),
        edit_state: None,
        ordering_key: key,
        availability: ContentAvailability::Redacted,
        timestamp: e.timestamp,
    }
}

/// The canonical placeholder built from an undecrypted encrypted
/// event.
pub open spec fn encrypted_message_model(e: EventInfoModel, key: u64) -> MessageModel {
    MessageModel {
        id: e.event_id,
        sender: e.sender,
        content: empty_content_model(),
        edit_state: None,
        ordering_key: key,
        availability: ContentAvailability::Encrypted { utd_cause: None },
        timestamp: e.timestamp,
    }
}

/// The redacted form of an existing canonical message: the fixed
/// redacted marker, availability `Redacted`, edit history cleared;
/// identity, sender, ordering key and timestamp untouched.
pub open spec fn redacted_form(m: MessageModel) -> MessageModel {
    MessageModel {
        content: redacted_content_model(),
        availability: ContentAvailability::Redacted,
        edit_state: None,
        ..m
    }
}

/// The store transition the message adapter performs for one claimed
/// raw event.
///
/// A plain content event builds a `Known` message and upserts it, then
/// drops this identity's buffered pending edits (their replay is the
/// caller's responsibility); when the identity already exists in
/// redacted form, the event is dropped, since redaction is
/// irreversible. An encrypted event upserts an `Encrypted` placeholder
/// unless the identity already exists with its content known or
/// redacted. Redacted events upsert the redacted form. A redaction of
/// a present target overwrites the target with its redacted form; one
/// of an absent target is dropped, not buffered.
pub open spec fn message_effect(
    pre: StoreModel,
    post: StoreModel,
    e: RawEventModel,
    key: u64,
) -> bool {
    match e {
        RawEventModel::Message(m) => {
            if has_id(pre.items, m.event_id) && pre.items[index_of_id(
                pre.items,
                m.event_id,
            )].availability is Redacted {
                post == pre
            } else {
                exists|mid: StoreModel|
                    #[trigger] upsert_effect(pre, mid, plain_message_model(m, key)) && post.items
                        == mid.items && post.next == mid.next && post.history == mid.history
                        && pending_dropped(mid.pending, post.pending, m.event_id)
            }
        },
        RawEventModel::RedactedMessage(i) => upsert_effect(pre, post, redacted_message_model(i, key)),
        RawEventModel::Encrypted(i) => {
            if has_id(pre.items, i.event_id) && !(pre.items[index_of_id(
                pre.items,
                i.event_id,
            )].availability is Encrypted) {
                post == pre
            } else {
                upsert_effect(pre, post, encrypted_message_model(i, key))
            }
        },
        RawEventModel::RedactedEncrypted(i) => upsert_effect(
            pre,
            post,
            redacted_message_model(i, key),
        ),
        RawEventModel::Redaction(r) => {
            match r.redacts {
                Some(target) => {
                    if has_id(pre.items, target) {
                        upsert_effect(
                            pre,
                            post,
                            redacted_form(pre.items[index_of_id(pre.items, target)]),
                        )
                    } else {
                        post == pre
                    }
                },
                None => post == pre,
            }
        },
        _ => post == pre,
    }
}

/// Adapter for plain, redacted and encrypted content events and for
/// redactions.
#[derive(Debug)]
pub struct MessageAdapter;

impl MessageAdapter {
    /// Create the message adapter.
    pub fn new() -> (r: Self)
        ensures
            r == (MessageAdapter {}),
    {
        MessageAdapter
    }

    /// Convert a raw message type tag to the canonical message type.
    pub fn map_message_type(kind: &RawMessageKind) -> (r: MessageType)
        ensures
            r == spec_map_message_type(*kind),
    {
        match kind {
            RawMessageKind::Text => MessageType::Text,
            RawMessageKind::Emote => MessageType::Text,
            RawMessageKind::Notice => MessageType::Text,
            RawMessageKind::Image => MessageType::Image,
            RawMessageKind::Video => MessageType::Video,
            RawMessageKind::Audio => MessageType::Audio,
            RawMessageKind::File => MessageType::File,
            RawMessageKind::Other => MessageType::Text,
        }
    }

    /// Extract the formatted body from a raw content payload, for the
    /// textual kinds that carry one.
    pub fn extract_formatted(content: &RawMessageContent) -> (r: Option<FormattedBody>)
        ensures
            match r {
                Some(f) => spec_extract_formatted(content@) == Some(f@),
                None => spec_extract_formatted(content@) is None,
            },
    {
        match content.kind {
            RawMessageKind::Text | RawMessageKind::Emote | RawMessageKind::Notice => {
                match &content.formatted {
                    Some(f) => Some(f.clone()),
                    None => None,
                }
            },
            _ => None,
        }
    }

    /// Build canonical content from a raw content payload.
    pub fn build_content(content: &RawMessageContent) -> (r: MessageContent)
        ensures
            r@ == spec_canonical_content(content@),
    {
        let msg_type = Self::map_message_type(&content.kind);
        let body = content.body.clone();
        let formatted = Self::extract_formatted(content);
        MessageContent { msg_type, body, formatted }
    }

    /// Process one raw event: mutate the store as `message_effect`
    /// describes and report whether the event was claimed.
    pub fn process(
        &self,
        event: &RawEvent,
        state: &mut CanonicalTimelineState,
        ordering_key: CanonicalOrderingKey,
    ) -> (handled: bool)
        requires
            old(state).wf(),
            key_unused(old(state).items_model(), ordering_key@),
        ensures
            final(state).wf(),
            handled == message_claims(event@),
            message_claims(event@) ==> message_effect(
                old(state).model(),
                final(state).model(),
                event@,
                ordering_key@,
            ),
            !message_claims(event@) ==> final(state).model() == old(state).model(),
    {
        let ghost pre = state.model();
        match event {
            RawEvent::Message(e) => {
                let skip = match state.get_by_event_id(&e.event_id) {
                    Some(m) => matches!(m.availability, ContentAvailability::Redacted),
                    None => false,
                };
                if skip {
                    return true;
                }
                let content = Self::build_content(&e.content);
                let message = CanonicalMessage {
                    id: e.event_id.clone(),
                    sender: e.sender.clone(),
                    content,
                    edit_state: None,  // edits are handled by the edit adapter
                    ordering_key,
                    availability: ContentAvailability::Known,
                    timestamp: e.timestamp,
                };
                proof {
                    assert(message@ == plain_message_model(e@, ordering_key@));
                }
                state.upsert(message);
                let ghost mid = state.model();
                // Pending edits buffered against this identity are taken
                // out; replaying them is the caller's responsibility.
                let _pending = state.take_pending_edits(&e.event_id);
                proof {
                    assert(upsert_effect(pre, mid, plain_message_model(e@, ordering_key@)));
                    assert(message_effect(pre, state.model(), event@, ordering_key@));
                }
                true
            },
            RawEvent::RedactedMessage(e) => {
                let message = CanonicalMessage {
                    id: e.event_id.clone(),
                    sender: e.sender.clone(),
                    content: MessageContent::redacted(),
                    edit_state: None,  // redaction clears edit state
                    ordering_key,
                    availability: ContentAvailability::Redacted,
                    timestamp: e.timestamp,
                };
                proof {
                    assert(message@ == redacted_message_model(e@, ordering_key@));
                }
                state.upsert(message);
                true
            },
            RawEvent::Encrypted(e) => {
                let skip = match state.get_by_event_id(&e.event_id) {
                    Some(m) => !matches!(
                        m.availability,
                        ContentAvailability::Encrypted { .. },
                    ),
                    None => false,
                };
                if skip {
                    return true;
                }
                let message = CanonicalMessage {
                    id: e.event_id.clone(),
                    sender: e.sender.clone(),
                    content: MessageContent::empty(),
                    edit_state: None,
                    ordering_key,
                    availability: ContentAvailability::Encrypted { utd_cause: None },
                    timestamp: e.timestamp,
                };
                proof {
                    assert(message@ == encrypted_message_model(e@, ordering_key@));
                }
                state.upsert(message);
                true
            },
            RawEvent::RedactedEncrypted(e) => {
                let message = CanonicalMessage {
                    id: e.event_id.clone(),
                    sender: e.sender.clone(),
                    content: MessageContent::redacted(),
                    edit_state: None,
                    ordering_key,
                    availability: ContentAvailability::Redacted,
                    timestamp: e.timestamp,
                };
                proof {
                    assert(message@ == redacted_message_model(e@, ordering_key@));
                }
                state.upsert(message);
                true
            },
            RawEvent::Redaction(r) => {
                match &r.redacts {
                    Some(target) => {
                        let existing = match state.get_by_event_id(target) {
                            Some(m) => Some(m.clone()),
                            None => None,
                        };
                        match existing {
                            Some(found) => {
                                let mut message = found;
                                message.content = MessageContent::redacted();
                                message.availability = ContentAvailability::Redacted;
                                message.edit_state = None;  // clear edit history
                                proof {
                                    assert(message@ == redacted_form(
                                        pre.items[index_of_id(pre.items, target@)],
                                    ));
                                }
                                state.upsert(message);
                            },
                            None => {
                                // Redactions for not-yet-seen targets are
                                // dropped, not buffered.
                            },
                        }
                        true
                    },
                    None => true,
                }
            },
            RawEvent::RedactedRedaction(_) => false,
            RawEvent::Other => false,
        }
    }
}

} // verus!
