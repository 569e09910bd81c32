//! The raw-event shapes the adapter pipeline consumes.
//!
//! A raw event is the engine's view of one already-parsed protocol
//! event: plain values only, with parsing of the wire envelope and all
//! cryptography left to the surrounding integration layer.

use vstd::prelude::*;

use crate::types::FormattedBody;
use crate::types::FormattedModel;

verus! {

/// The raw message type tag carried by a content event.
#[derive(Clone, Copy, Debug, PartialEq, Eq)]
pub enum RawMessageKind {
    /// Plain text
    Text,
    /// Emote (action) text
    Emote,
    /// Notice text
    Notice,
    /// Image attachment
    Image,
    /// Video attachment
    Video,
    /// Audio attachment
    Audio,
    /// File attachment
    File,
    /// Any message type the engine does not model
    Other,
}

/// The content payload of a raw message event.
#[derive(Clone, Debug, PartialEq, Eq)]
pub struct RawMessageContent {
    /// Raw message type tag
    pub kind: RawMessageKind,
    /// Plain text body
    pub body: String,
    /// Formatted body, if the event carried one
    pub formatted: Option<FormattedBody>,
}

/// Mathematical model of a raw content payload.
pub ghost struct RawContentModel {
    pub kind: RawMessageKind,
    pub body: Seq<char>,
    pub formatted: Option<FormattedModel>,
}

impl View for RawMessageContent {
    type V = RawContentModel;

    open spec fn view(&self) -> RawContentModel {
        RawContentModel {
            kind: self.kind,
            body: self.body@,
            formatted: match self.formatted {
                Some(f) => Some(f@),
                None => None,
            },
        }
    }
}

/// A "replaces" relation carried by an edit event: the identity of the
/// parent it edits and the replacement content.
#[derive(Clone, Debug, PartialEq, Eq)]
pub struct Replacement {
    /// Identity of the event being replaced
    pub parent_id: String,
    /// The replacement content
    pub new_content: RawMessageContent,
}

/// Mathematical model of a replacement relation.
pub ghost struct ReplacementModel {
    pub parent_id: Seq<char>,
    pub new_content: RawContentModel,
}

impl View for Replacement {
    type V = ReplacementModel;

    open spec fn view(&self) -> ReplacementModel {
        ReplacementModel { parent_id: self.parent_id@, new_content: self.new_content@ }
    }
}

/// An original (non-redacted) message event.
#[derive(Clone, Debug, PartialEq, Eq)]
pub struct MessageEvent {
    /// The event's identity
    pub event_id: String,
    /// Sender identity
    pub sender: String,
    /// Origin timestamp in milliseconds, if any
    pub timestamp: Option<u64>,
    /// The content payload
    pub content: RawMessageContent,
    /// The "replaces" relation, when this event is an edit
    pub replaces: Option<Replacement>,
}

/// Mathematical model of an original message event.
pub ghost struct MessageEventModel {
    pub event_id: Seq<char>,
    pub sender: Seq<char>,
    pub timestamp: Option<u64>,
    pub content: RawContentModel,
    pub replaces: Option<ReplacementModel>,
}

impl View for MessageEvent {
    type V = MessageEventModel;

    open spec fn view(&self) -> MessageEventModel {
        MessageEventModel {
            event_id: self.event_id@,
            sender: self.sender@,
            timestamp: self.timestamp,
            content: self.content@,
            replaces: match self.replaces {
                Some(r) => Some(r@),
                None => None,
            },
        }
    }
}

/// The envelope data every raw event carries.
#[derive(Clone, Debug, PartialEq, Eq)]
pub struct EventInfo {
    /// The event's identity
    pub event_id: String,
    /// Sender identity
    pub sender: String,
    /// Origin timestamp in milliseconds, if any
    pub timestamp: Option<u64>,
}

/// Mathematical model of an event envelope.
pub ghost struct EventInfoModel {
    pub event_id: Seq<char>,
    pub sender: Seq<char>,
    pub timestamp: Option<u64>,
}

impl View for EventInfo {
    type V = EventInfoModel;

    open spec fn view(&self) -> EventInfoModel {
        EventInfoModel { event_id: self.event_id@, sender: self.sender@, timestamp: self.timestamp }
    }
}

/// A redaction event targeting another event by identity.
#[derive(Clone, Debug, PartialEq, Eq)]
pub struct RedactionEvent {
    /// The redaction event's own identity
    pub event_id: String,
    /// Sender identity
    pub sender: String,
    /// Origin timestamp in milliseconds, if any
    pub timestamp: Option<u64>,
    /// Identity of the event to redact, if the event named one
    pub redacts: Option<String>,
}

/// Mathematical model of a redaction event.
pub ghost struct RedactionEventModel {
    pub event_id: Seq<char>,
    pub sender: Seq<char>,
    pub timestamp: Option<u64>,
    pub redacts: Option<Seq<char>>,
}

impl View for RedactionEvent {
    type V = RedactionEventModel;

    open spec fn view(&self) -> RedactionEventModel {
        RedactionEventModel {
            event_id: self.event_id@,
            sender: self.sender@,
            timestamp: self.timestamp,
            redacts: match self.redacts {
                Some(r) => Some(r@),
                None => None,
            },
        }
    }
}

/// One raw protocol event, as handed to the adapter pipeline by the
/// integration layer in arrival order.
#[derive(Clone, Debug, PartialEq, Eq)]
pub enum RawEvent {
    /// An original (non-redacted, non-encrypted) message event
    Message(MessageEvent),
    /// A message event delivered in redacted form
    RedactedMessage(EventInfo),
    /// An encrypted message event in undecrypted form
    Encrypted(EventInfo),
    /// An encrypted message event delivered in redacted form
    RedactedEncrypted(EventInfo),
    /// A redaction of another event
    Redaction(RedactionEvent),
    /// A redaction event that is itself in redacted form
    RedactedRedaction(EventInfo),
    /// Any event shape the engine does not model
    Other,
}

/// Mathematical model of a raw event.
pub ghost enum RawEventModel {
    Message(MessageEventModel),
    RedactedMessage(EventInfoModel),
    Encrypted(EventInfoModel),
    RedactedEncrypted(EventInfoModel),
    Redaction(RedactionEventModel),
    RedactedRedaction(EventInfoModel),
    Other,
}

impl View for RawEvent {
    type V = RawEventModel;

    open spec fn view(&self) -> RawEventModel {
        match self {
            RawEvent::Message(e) => RawEventModel::Message(e@),
            RawEvent::RedactedMessage(e) => RawEventModel::RedactedMessage(e@),
            RawEvent::Encrypted(e) => RawEventModel::Encrypted(e@),
            RawEvent::RedactedEncrypted(e) => RawEventModel::RedactedEncrypted(e@),
            RawEvent::Redaction(e) => RawEventModel::Redaction(e@),
            RawEvent::RedactedRedaction(e) => RawEventModel::RedactedRedaction(e@),
            RawEvent::Other => RawEventModel::Other,
        }
    }
}

} // verus!
