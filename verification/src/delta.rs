//! Incremental-change notifications for timeline subscribers.

use vstd::prelude::*;

use crate::ordering::CanonicalOrderingKey;
use crate::types::CanonicalMessage;
use crate::types::MessageModel;

verus! {

/// Incremental change to the canonical timeline, published to
/// subscribers through the delta stream.
///
/// Consumers must treat `item` payloads as immutable snapshots, not
/// live references. A `Reset` supersedes any previously delivered
/// deltas: on receipt, subscribers discard prior state and re-render
/// from the carried snapshot.
#[derive(Clone, Debug)]
pub enum CanonicalDelta {
    /// New canonical item inserted into the timeline.
    Insert {
        /// Ordering position where the item was inserted
        position: CanonicalOrderingKey,
        /// The inserted canonical message
        item: CanonicalMessage,
    },
    /// Existing item updated (edit, decryption, redaction); its
    /// position is unchanged.
    Update {
        /// Ordering position of the updated item
        position: CanonicalOrderingKey,
        /// The updated canonical message
        item: CanonicalMessage,
    },
    /// Item removed from the timeline.
    Remove {
        /// Ordering position of the removed item
        position: CanonicalOrderingKey,
    },
    /// Full timeline rebuild: all canonical items, in order.
    Reset {
        /// All canonical items in ordering-key order
        items: Vec<CanonicalMessage>,
    },
}

/// Mathematical model of one published delta.
pub ghost enum DeltaModel {
    Insert { position: u64, item: MessageModel },
    Update { position: u64, item: MessageModel },
    Remove { position: u64 },
    Reset { items: Seq<MessageModel> },
}

impl View for CanonicalDelta {
    type V = DeltaModel;

    open spec fn view(&self) -> DeltaModel {
        match self {
            CanonicalDelta::Insert { position, item } => DeltaModel::Insert {
                position: position@,
                item: item@,
            },
            CanonicalDelta::Update { position, item } => DeltaModel::Update {
                position: position@,
                item: item@,
            },
            CanonicalDelta::Remove { position } => DeltaModel::Remove { position: position@ },
            CanonicalDelta::Reset { items } => DeltaModel::Reset {
                items: items@.map_values(|m: CanonicalMessage| m@),
            },
        }
    }
}

} // verus!
