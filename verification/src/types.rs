//! Canonical timeline data types and their mathematical models.

use vstd::prelude::*;

use crate::ordering::CanonicalOrderingKey;

verus! {

/// Content availability state for a canonical timeline item.
///
/// Allowed transitions:
///
/// - `Encrypted` -> `Known` (on successful decryption)
/// - any -> `Redacted` (irreversible)
#[derive(Clone, Copy, Debug, PartialEq, Eq)]
pub enum ContentAvailability {
    /// Content is fully available and decrypted.
    Known,
    /// Content is encrypted, decryption pending or failed.
    Encrypted {
        /// Numeric code for the decryption-failure cause, if known.
        /// The code is assigned by the external decryption subsystem.
        utd_cause: Option<u64>,
    },
    /// Content has been redacted (removed).
    Redacted,
}

/// Message type enumeration.
#[derive(Clone, Copy, Debug, PartialEq, Eq)]
pub enum MessageType {
    /// Plain text message
    Text,
    /// Image message
    Image,
    /// File attachment
    File,
    /// Video message
    Video,
    /// Audio message
    Audio,
}

/// Formatted message body.
#[derive(Debug, PartialEq, Eq)]
pub struct FormattedBody {
    /// Format identifier (e.g. an HTML format name)
    pub format: String,
    /// Formatted content
    pub body: String,
}

/// Mathematical model of a formatted body.
pub ghost struct FormattedModel {
    pub format: Seq<char>,
    pub body: Seq<char>,
}

impl View for FormattedBody {
    type V = FormattedModel;

    open spec fn view(&self) -> FormattedModel {
        FormattedModel { format: self.format@, body: self.body@ }
    }
}

impl Clone for FormattedBody {
    fn clone(&self) -> (r: Self)
        ensures
            r@ == self@,
    {
        FormattedBody { format: self.format.clone(), body: self.body.clone() }
    }
}

/// Message content representation: the message body and type, free of
/// any wire-protocol event structure.
#[derive(Debug, PartialEq, Eq)]
pub struct MessageContent {
    /// Message type (text, image, file, etc.)
    pub msg_type: MessageType,
    /// Plain text body
    pub body: String,
    /// Formatted body, if any
    pub formatted: Option<FormattedBody>,
}

/// Mathematical model of message content.
pub ghost struct ContentModel {
    pub msg_type: MessageType,
    pub body: Seq<char>,
    pub formatted: Option<FormattedModel>,
}

impl View for MessageContent {
    type V = ContentModel;

    open spec fn view(&self) -> ContentModel {
        ContentModel {
            msg_type: self.msg_type,
            body: self.body@,
            formatted: match self.formatted {
                Some(f) => Some(f@),
                None => None,
            },
        }
    }
}

impl Clone for MessageContent {
    fn clone(&self) -> (r: Self)
        ensures
            r@ == self@,
    {
        MessageContent {
            msg_type: self.msg_type,
            body: self.body.clone(),
            formatted: match &self.formatted {
                Some(f) => Some(f.clone()),
                None => None,
            },
        }
    }
}

/// The model of the empty placeholder content used while a message
/// awaits decryption.
pub open spec fn empty_content_model() -> ContentModel {
    ContentModel { msg_type: MessageType::Text, body: Seq::<char>::empty(), formatted: None }
}

/// The model of the fixed redacted marker content.
pub open spec fn redacted_content_model() -> ContentModel {
    ContentModel { msg_type: MessageType::Text, body: "[redacted]"@, formatted: None }
}

impl MessageContent {
    /// Create an empty message content (for encrypted placeholders).
    pub fn empty() -> (r: Self)
        ensures
            r@ == empty_content_model(),
    {
        MessageContent { msg_type: MessageType::Text, body: String::new(), formatted: None }
    }

    /// Create the fixed redacted marker content.
    pub fn redacted() -> (r: Self)
        ensures
            r@ == redacted_content_model(),
    {
        MessageContent { msg_type: MessageType::Text, body: "[redacted]".to_owned(), formatted: None }
    }
}

/// Edit metadata for a single edit event.
#[derive(Debug, PartialEq, Eq)]
pub struct EditMetadata {
    /// Identity of the edit event
    pub edit_id: String,
    /// Timestamp of the edit, in milliseconds, if any
    pub timestamp: Option<u64>,
    /// Ordering key assigned when the edit event was processed; distinct
    /// from the parent's ordering key, which edits never move
    pub position: CanonicalOrderingKey,
}

/// Mathematical model of edit metadata.
pub ghost struct EditModel {
    pub edit_id: Seq<char>,
    pub timestamp: Option<u64>,
    pub position: u64,
}

impl View for EditMetadata {
    type V = EditModel;

    open spec fn view(&self) -> EditModel {
        EditModel { edit_id: self.edit_id@, timestamp: self.timestamp, position: self.position@ }
    }
}

impl Clone for EditMetadata {
    fn clone(&self) -> (r: Self)
        ensures
            r@ == self@,
    {
        EditMetadata {
            edit_id: self.edit_id.clone(),
            timestamp: self.timestamp,
            position: self.position,
        }
    }
}

/// Edit history state for a canonical message, attached only after its
/// first accepted edit.
#[derive(Debug, PartialEq, Eq)]
pub struct CanonicalEditState {
    /// Current (latest) message content
    pub current_content: MessageContent,
    /// Original (pre-edit) message content
    pub original_content: MessageContent,
    /// Edit chain metadata, in processing order
    pub edit_chain: Vec<EditMetadata>,
}

/// Mathematical model of the edit history state.
pub ghost struct EditStateModel {
    pub current_content: ContentModel,
    pub original_content: ContentModel,
    pub edit_chain: Seq<EditModel>,
}

impl View for CanonicalEditState {
    type V = EditStateModel;

    open spec fn view(&self) -> EditStateModel {
        EditStateModel {
            current_content: self.current_content@,
            original_content: self.original_content@,
            edit_chain: self.edit_chain@.map_values(|e: EditMetadata| e@),
        }
    }
}

impl Clone for CanonicalEditState {
    fn clone(&self) -> (r: Self)
        ensures
            r@ == self@,
    {
        let mut chain: Vec<EditMetadata> = Vec::new();
        let mut i: usize = 0;
        while i < self.edit_chain.len()
            invariant
                0 <= i <= self.edit_chain.len(),
                chain@.len() == i,
                forall|j: int| 0 <= j < i ==> chain@[j]@ == self.edit_chain@[j]@,
            decreases self.edit_chain.len() - i,
        {
            chain.push(self.edit_chain[i].clone());
            i += 1;
        }
        let r = CanonicalEditState {
            current_content: self.current_content.clone(),
            original_content: self.original_content.clone(),
            edit_chain: chain,
        };
        proof {
            assert(r@.edit_chain =~= self@.edit_chain);
        }
        r
    }
}

/// Canonical timeline message item: the stable, de-duplicated,
/// user-visible projection of one conversation event.
///
/// The `id`, `sender` and `ordering_key` fields are immutable once set;
/// `content`, `availability` and `edit_state` may change underneath a
/// fixed position.
#[derive(Debug, PartialEq, Eq)]
pub struct CanonicalMessage {
    /// Stable unique identity (the originating event's identifier)
    pub id: String,
    /// Sender of the message
    pub sender: String,
    /// Current displayable content
    pub content: MessageContent,
    /// Edit history (if the message has been edited)
    pub edit_state: Option<CanonicalEditState>,
    /// Stable ordering key (never changes)
    pub ordering_key: CanonicalOrderingKey,
    /// Content availability state
    pub availability: ContentAvailability,
    /// Origin timestamp in milliseconds (informational only, never used
    /// for ordering)
    pub timestamp: Option<u64>,
}

/// Mathematical model of a canonical message.
pub ghost struct MessageModel {
    pub id: Seq<char>,
    pub sender: Seq<char>,
    pub content: ContentModel,
    pub edit_state: Option<EditStateModel>,
    pub ordering_key: u64,
    pub availability: ContentAvailability,
    pub timestamp: Option<u64>,
}

impl View for CanonicalMessage {
    type V = MessageModel;

    open spec fn view(&self) -> MessageModel {
        MessageModel {
            id: self.id@,
            sender: self.sender@,
            content: self.content@,
            edit_state: match self.edit_state {
                Some(s) => Some(s@),
                None => None,
            },
            ordering_key: self.ordering_key@,
            availability: self.availability,
            timestamp: self.timestamp,
        }
    }
}

impl Clone for CanonicalMessage {
    fn clone(&self) -> (r: Self)
        ensures
            r@ == self@,
    {
        CanonicalMessage {
            id: self.id.clone(),
            sender: self.sender.clone(),
            content: self.content.clone(),
            edit_state: match &self.edit_state {
                Some(s) => Some(s.clone()),
                None => None,
            },
            ordering_key: self.ordering_key,
            availability: self.availability,
            timestamp: self.timestamp,
        }
    }
}

} // verus!
