//! A canonical event-projection engine for a chat protocol client.
//!
//! The engine consumes a stream of raw, possibly out-of-order protocol
//! events and maintains a stable, ordered, de-duplicated view of
//! user-visible conversation items, publishing incremental deltas to
//! subscribers. Item positions never move and item identity is stable
//! even as content changes underneath (decryption, edits, redaction).

pub mod adapters;
pub mod delta;
pub mod event;
pub mod laws;
pub mod ordering;
pub mod state;
pub mod types;

pub use delta::CanonicalDelta;
pub use ordering::CanonicalOrderingKey;
pub use state::CanonicalTimelineState;
pub use types::CanonicalEditState;
pub use types::CanonicalMessage;
pub use types::ContentAvailability;
pub use types::EditMetadata;
pub use types::FormattedBody;
pub use types::MessageContent;
pub use types::MessageType;
