//! The canonical state store: the authoritative in-memory projection.
//!
//! The store owns all canonical messages, the ordering-key allocation,
//! the buffer of edits waiting on not-yet-seen parents, and the delta
//! fan-out to subscribers. It is designed for a single writer: one
//! execution context performs all mutations sequentially.

use vstd::prelude::*;

use tokio::sync::broadcast;

use crate::delta::CanonicalDelta;
use crate::delta::DeltaModel;
use crate::ordering::CanonicalOrderingKey;
use crate::types::CanonicalMessage;
use crate::types::MessageModel;

verus! {

#[verifier::external_type_specification]
#[verifier::external_body]
#[verifier::reject_recursive_types(T)]
pub struct ExSender<T>(broadcast::Sender<T>);

#[verifier::external_type_specification]
#[verifier::external_body]
#[verifier::reject_recursive_types(T)]
pub struct ExReceiver<T>(broadcast::Receiver<T>);

/// Relies on tokio::sync::broadcast::channel: creates the fan-out
/// channel for deltas. Publishing on it never blocks; a slow subscriber
/// loses the oldest unread deltas. The call panics when `capacity` is
/// zero or exceeds `usize::MAX / 2`, so those capacities are excluded.
#[verifier::external_body]
fn new_delta_sender(capacity: usize) -> broadcast::Sender<CanonicalDelta>
    requires
        0 < capacity <= usize::MAX / 2,
{
    broadcast::channel(capacity).0
}

/// Relies on tokio::sync::broadcast::Sender::send: a non-blocking
/// publish. Its error (no live subscriber) is discarded, since
/// broadcasting to zero subscribers is a no-op by design, never a
/// failure. Nothing is promised about delivery: the channel is lossy
/// for slow subscribers, and snapshot correctness is the recovery
/// mechanism.
#[verifier::external_body]
fn send_delta(tx: &broadcast::Sender<CanonicalDelta>, delta: CanonicalDelta) {
    let _ = tx.send(delta);
}

/// Relies on tokio::sync::broadcast::Sender::subscribe: returns a new
/// receive-only handle that observes every delta published after this
/// call. The handle is opaque to the verified code; it is handed
/// straight to the caller.
#[verifier::external_body]
fn subscribe_deltas(tx: &broadcast::Sender<CanonicalDelta>) -> broadcast::Receiver<
    CanonicalDelta,
> {
    tx.subscribe()
}

/// The items of `s` are strictly ordered by their ordering keys.
pub open spec fn sorted_by_key(s: Seq<MessageModel>) -> bool {
    forall|i: int, j: int| 0 <= i < j < s.len() ==> s[i].ordering_key < s[j].ordering_key
}

/// No two items of `s` share an identity.
pub open spec fn unique_ids(s: Seq<MessageModel>) -> bool {
    forall|i: int, j: int| 0 <= i < j < s.len() ==> s[i].id != s[j].id
}

/// Some item of `s` carries the identity `id`.
pub open spec fn has_id(s: Seq<MessageModel>, id: Seq<char>) -> bool {
    exists|i: int| 0 <= i < s.len() && s[i].id == id
}

/// The index of the item of `s` carrying the identity `id`.
pub open spec fn index_of_id(s: Seq<MessageModel>, id: Seq<char>) -> int {
    choose|i: int| 0 <= i < s.len() && s[i].id == id
}

/// No item of `s` carries the ordering key `k`.
pub open spec fn key_unused(s: Seq<MessageModel>, k: u64) -> bool {
    forall|i: int| 0 <= i < s.len() ==> s[i].ordering_key != k
}

/// `j` is the unique position where an item with ordering key `k`
/// belongs in the sorted sequence `s`.
pub open spec fn is_insert_pos(s: Seq<MessageModel>, k: u64, j: int) -> bool {
    &&& 0 <= j <= s.len()
    &&& forall|i: int| 0 <= i < j ==> s[i].ordering_key < k
    &&& forall|i: int| j <= i < s.len() ==> k < s[i].ordering_key
}

/// Each parent identity has at most one entry in the pending buffer.
pub open spec fn unique_parents(p: Seq<(Seq<char>, Seq<Seq<char>>)>) -> bool {
    forall|i: int, j: int| 0 <= i < j < p.len() ==> p[i].0 != p[j].0
}

/// The pending buffer `p` holds an entry for `parent`.
pub open spec fn buffer_has(p: Seq<(Seq<char>, Seq<Seq<char>>)>, parent: Seq<char>) -> bool {
    exists|i: int| 0 <= i < p.len() && p[i].0 == parent
}

/// The edit identities the pending buffer `p` holds for `parent`, in
/// arrival order; empty if it holds no entry.
pub open spec fn pending_lookup(
    p: Seq<(Seq<char>, Seq<Seq<char>>)>,
    parent: Seq<char>,
) -> Seq<Seq<char>> {
    if buffer_has(p, parent) {
        p[choose|i: int| 0 <= i < p.len() && p[i].0 == parent].1
    } else {
        Seq::<Seq<char>>::empty()
    }
}

/// In a de-duplicated buffer, the lookup for the parent of entry `i`
/// yields exactly that entry's edits.
proof fn lemma_lookup_at(p: Seq<(Seq<char>, Seq<Seq<char>>)>, i: int)
    requires
        unique_parents(p),
        0 <= i < p.len(),
    ensures
        buffer_has(p, p[i].0),
        pending_lookup(p, p[i].0) == p[i].1,
{
    assert(buffer_has(p, p[i].0));
    let j = choose|j: int| 0 <= j < p.len() && p[j].0 == p[i].0;
    if j != i {
        assert(p[if i < j { i } else { j }].0 != p[if i < j { j } else { i }].0);
    }
}

/// Replacing entry `i` without changing its parent leaves lookups for
/// every other parent untouched.
proof fn lemma_lookup_update_other(
    p: Seq<(Seq<char>, Seq<Seq<char>>)>,
    i: int,
    e: (Seq<char>, Seq<Seq<char>>),
    parent: Seq<char>,
)
    requires
        unique_parents(p),
        0 <= i < p.len(),
        e.0 == p[i].0,
        parent != p[i].0,
    ensures
        unique_parents(p.update(i, e)),
        buffer_has(p.update(i, e), parent) == buffer_has(p, parent),
        pending_lookup(p.update(i, e), parent) == pending_lookup(p, parent),
{
    let n = p.update(i, e);
    assert(forall|j: int| 0 <= j < n.len() ==> n[j].0 == p[j].0);
    assert forall|a: int, b: int| 0 <= a < b < n.len() implies n[a].0 != n[b].0 by {
        assert(n[a].0 == p[a].0 && n[b].0 == p[b].0);
    }
    if buffer_has(p, parent) {
        let j = choose|j: int| 0 <= j < p.len() && p[j].0 == parent;
        assert(n[j].0 == parent);
        assert(buffer_has(n, parent));
    }
    if buffer_has(n, parent) {
        let j = choose|j: int| 0 <= j < n.len() && n[j].0 == parent;
        assert(p[j].0 == parent);
        assert(buffer_has(p, parent));
        let j1 = choose|j1: int| 0 <= j1 < p.len() && p[j1].0 == parent;
        if j1 != j {
            assert(p[if j < j1 { j } else { j1 }].0 != p[if j < j1 { j1 } else { j }].0);
        }
        assert(j != i);
        assert(pending_lookup(n, parent) == n[j].1);
        assert(pending_lookup(p, parent) == p[j].1);
    }
}

/// Appending an entry for a new parent leaves lookups for every other
/// parent untouched.
proof fn lemma_lookup_push_other(
    p: Seq<(Seq<char>, Seq<Seq<char>>)>,
    e: (Seq<char>, Seq<Seq<char>>),
    parent: Seq<char>,
)
    requires
        unique_parents(p),
        !buffer_has(p, e.0),
        parent != e.0,
    ensures
        unique_parents(p.push(e)),
        buffer_has(p.push(e), parent) == buffer_has(p, parent),
        pending_lookup(p.push(e), parent) == pending_lookup(p, parent),
{
    let n = p.push(e);
    assert forall|a: int, b: int| 0 <= a < b < n.len() implies n[a].0 != n[b].0 by {
        if b == p.len() {
            if p[a].0 == e.0 {
                assert(buffer_has(p, e.0));
            }
        } else {
            assert(n[a] == p[a] && n[b] == p[b]);
        }
    }
    if buffer_has(p, parent) {
        let j = choose|j: int| 0 <= j < p.len() && p[j].0 == parent;
        assert(n[j].0 == parent);
        assert(buffer_has(n, parent));
        lemma_lookup_at(p, j);
        lemma_lookup_at(n, j);
    } else {
        if buffer_has(n, parent) {
            let j = choose|j: int| 0 <= j < n.len() && n[j].0 == parent;
            assert(j == p.len());
        }
        assert(!buffer_has(n, parent));
    }
}

/// Removing entry `i` leaves lookups for every other parent untouched.
proof fn lemma_lookup_remove_other(
    p: Seq<(Seq<char>, Seq<Seq<char>>)>,
    i: int,
    parent: Seq<char>,
)
    requires
        unique_parents(p),
        0 <= i < p.len(),
        parent != p[i].0,
    ensures
        unique_parents(p.remove(i)),
        buffer_has(p.remove(i), parent) == buffer_has(p, parent),
        pending_lookup(p.remove(i), parent) == pending_lookup(p, parent),
{
    let n = p.remove(i);
    p.remove_ensures(i);
    assert forall|a: int, b: int| 0 <= a < b < n.len() implies n[a].0 != n[b].0 by {
        let oa = if a < i { a } else { a + 1 };
        let ob = if b < i { b } else { b + 1 };
        assert(n[a] == p[oa] && n[b] == p[ob]);
    }
    if buffer_has(p, parent) {
        let j = choose|j: int| 0 <= j < p.len() && p[j].0 == parent;
        assert(j != i);
        let nj = if j < i { j } else { j - 1 };
        assert(n[nj] == p[j]);
        assert(buffer_has(n, parent));
        lemma_lookup_at(n, nj);
        lemma_lookup_at(p, j);
    } else {
        if buffer_has(n, parent) {
            let j = choose|j: int| 0 <= j < n.len() && n[j].0 == parent;
            let oj = if j < i { j } else { j + 1 };
            assert(n[j] == p[oj]);
            assert(buffer_has(p, parent));
        }
    }
}

/// After the removal of entry `i`, its parent has no entry left.
proof fn lemma_lookup_remove_self(p: Seq<(Seq<char>, Seq<Seq<char>>)>, i: int)
    requires
        unique_parents(p),
        0 <= i < p.len(),
    ensures
        !buffer_has(p.remove(i), p[i].0),
{
    let n = p.remove(i);
    p.remove_ensures(i);
    if buffer_has(n, p[i].0) {
        let j = choose|j: int| 0 <= j < n.len() && n[j].0 == p[i].0;
        let oj = if j < i { j } else { j + 1 };
        assert(n[j] == p[oj]);
        assert(oj != i);
        assert(p[if oj < i { oj } else { i }].0 != p[if oj < i { i } else { oj }].0);
    }
}

/// The model of the message stored by an upsert of `m` over an
/// existing item holding the key `key`: the supplied content under the
/// preserved ordering key.
pub open spec fn with_key(m: MessageModel, key: u64) -> MessageModel {
    MessageModel { ordering_key: key, ..m }
}

/// Overwriting an item in place, preserving its identity and ordering
/// key, keeps the sequence sorted and de-duplicated.
pub(crate) proof fn lemma_update_preserves_wf(s: Seq<MessageModel>, i: int, m: MessageModel)
    requires
        sorted_by_key(s),
        unique_ids(s),
        0 <= i < s.len(),
        m.id == s[i].id,
        m.ordering_key == s[i].ordering_key,
    ensures
        sorted_by_key(s.update(i, m)),
        unique_ids(s.update(i, m)),
{
    let nm = s.update(i, m);
    assert forall|a: int, b: int| 0 <= a < b < nm.len() implies nm[a].ordering_key
        < nm[b].ordering_key by {
        assert(nm[a].ordering_key == s[a].ordering_key);
        assert(nm[b].ordering_key == s[b].ordering_key);
    }
    assert forall|a: int, b: int| 0 <= a < b < nm.len() implies nm[a].id != nm[b].id by {
        assert(nm[a].id == s[a].id);
        assert(nm[b].id == s[b].id);
    }
}

/// Inserting an item with a fresh identity at the position its (fresh)
/// ordering key determines keeps the sequence sorted and
/// de-duplicated.
#[verifier::rlimit(30)]
pub(crate) proof fn lemma_insert_preserves_wf(s: Seq<MessageModel>, j: int, m: MessageModel)
    requires
        sorted_by_key(s),
        unique_ids(s),
        is_insert_pos(s, m.ordering_key, j),
        !has_id(s, m.id),
    ensures
        sorted_by_key(s.insert(j, m)),
        unique_ids(s.insert(j, m)),
{
    let nm = s.insert(j, m);
    s.insert_ensures(j, m);
    assert forall|a: int| 0 <= a < s.len() implies s[a].id != m.id by {
        if s[a].id == m.id {
            assert(has_id(s, m.id));
        }
    }
    assert forall|a: int, b: int| 0 <= a < b < nm.len() implies nm[a].ordering_key
        < nm[b].ordering_key by {
        if b < j {
        } else if a == j {
            assert(nm[b] == s[b - 1]);
        } else if b == j {
            assert(nm[a] == s[a]);
        } else if a > j {
            assert(nm[a] == s[a - 1]);
            assert(nm[b] == s[b - 1]);
        } else {
            assert(nm[a] == s[a]);
            assert(nm[b] == s[b - 1]);
        }
    }
    assert forall|a: int, b: int| 0 <= a < b < nm.len() implies nm[a].id != nm[b].id by {
        if a != j && b != j {
            let oa = if a < j { a } else { a - 1 };
            let ob = if b < j { b } else { b - 1 };
            assert(nm[a] == s[oa]);
            assert(nm[b] == s[ob]);
        } else if a == j {
            assert(nm[b] == s[b - 1]);
        } else {
            assert(nm[a] == s[a]);
        }
    }
}

/// Replacing an entry's edits, keeping its parent, preserves parent
/// uniqueness.
proof fn lemma_unique_update(
    p: Seq<(Seq<char>, Seq<Seq<char>>)>,
    i: int,
    e: (Seq<char>, Seq<Seq<char>>),
)
    requires
        unique_parents(p),
        0 <= i < p.len(),
        e.0 == p[i].0,
    ensures
        unique_parents(p.update(i, e)),
{
    let n = p.update(i, e);
    assert forall|a: int, b: int| 0 <= a < b < n.len() implies n[a].0 != n[b].0 by {
        assert(n[a].0 == p[a].0 && n[b].0 == p[b].0);
    }
}

/// Removing an item keeps the sequence sorted and de-duplicated.
pub(crate) proof fn lemma_remove_preserves_wf(s: Seq<MessageModel>, i: int)
    requires
        sorted_by_key(s),
        unique_ids(s),
        0 <= i < s.len(),
    ensures
        sorted_by_key(s.remove(i)),
        unique_ids(s.remove(i)),
{
    let n = s.remove(i);
    s.remove_ensures(i);
    assert forall|a: int, b: int|
        0 <= a < b < n.len() implies n[a].ordering_key < n[b].ordering_key && n[a].id
        != n[b].id by {
        let oa = if a < i { a } else { a + 1 };
        let ob = if b < i { b } else { b + 1 };
        assert(n[a] == s[oa] && n[b] == s[ob]);
    }
}

/// The whole store as one mathematical value: the ordered items, the
/// pending-edit buffer, the allocation counter, and the published
/// deltas.
pub ghost struct StoreModel {
    pub items: Seq<MessageModel>,
    pub pending: Seq<(Seq<char>, Seq<Seq<char>>)>,
    pub next: u64,
    pub history: Seq<DeltaModel>,
}

/// In-memory canonical timeline state: the single source of truth for
/// the projection.
///
/// Messages are held in a vector kept strictly sorted by ordering key;
/// identity lookups scan that vector. The pending-edit buffer maps a
/// not-yet-seen parent identity to the edit identities that targeted
/// it, in arrival order.
pub struct CanonicalTimelineState {
    /// Canonical messages in ordering-key order
    items: Vec<CanonicalMessage>,
    /// Pending edits that arrived before their parent: parent identity
    /// to list of edit identities, one entry per parent
    pending_edits: Vec<(String, Vec<String>)>,
    /// Delta broadcast channel for subscribers
    delta_tx: broadcast::Sender<CanonicalDelta>,
    /// Sequence counter for ordering-key allocation
    next_sequence: u64,
    /// Every delta published so far, oldest first
    history: Ghost<Seq<DeltaModel>>,
}

impl CanonicalTimelineState {
    /// All items in ordering-key order, as mathematical models.
    pub closed spec fn items_model(self) -> Seq<MessageModel> {
        self.items@.map_values(|m: CanonicalMessage| m@)
    }

    /// The pending-edit buffer: pairs of a parent identity and the edit
    /// identities buffered against it.
    pub closed spec fn pending_model(self) -> Seq<(Seq<char>, Seq<Seq<char>>)> {
        self.pending_edits@.map_values(|e: (String, Vec<String>)| (e.0@, e.1.deep_view()))
    }

    /// The next sequence number to be allocated.
    pub closed spec fn next_seq(self) -> u64 {
        self.next_sequence
    }

    /// Every delta published so far, oldest first.
    pub closed spec fn delta_history(self) -> Seq<DeltaModel> {
        self.history@
    }

    /// Some edits are buffered against the parent identity `parent`.
    pub open spec fn has_pending(self, parent: Seq<char>) -> bool {
        buffer_has(self.pending_model(), parent)
    }

    /// The edit identities buffered against `parent`, in arrival order;
    /// empty if none.
    pub open spec fn pending_for(self, parent: Seq<char>) -> Seq<Seq<char>> {
        pending_lookup(self.pending_model(), parent)
    }

    /// The whole store as one mathematical value.
    pub open spec fn model(self) -> StoreModel {
        StoreModel {
            items: self.items_model(),
            pending: self.pending_model(),
            next: self.next_seq(),
            history: self.delta_history(),
        }
    }

    /// Well-formedness: items strictly sorted by key and de-duplicated
    /// by identity; one buffer entry per parent identity.
    pub open spec fn wf(self) -> bool {
        &&& sorted_by_key(self.items_model())
        &&& unique_ids(self.items_model())
        &&& unique_parents(self.pending_model())
    }

    /// Create a new empty canonical timeline state.
    pub fn new() -> (r: Self)
        ensures
            r.wf(),
            r.items_model() == Seq::<MessageModel>::empty(),
            r.pending_model() == Seq::<(Seq<char>, Seq<Seq<char>>)>::empty(),
            r.next_seq() == 0,
            r.delta_history() == Seq::<DeltaModel>::empty(),
    {
        let r = CanonicalTimelineState {
            items: Vec::new(),
            pending_edits: Vec::new(),
            delta_tx: new_delta_sender(128),
            next_sequence: 0,
            history: Ghost(Seq::empty()),
        };
        proof {
            assert(r.items_model() =~= Seq::<MessageModel>::empty());
            assert(r.pending_model() =~= Seq::<(Seq<char>, Seq<Seq<char>>)>::empty());
        }
        r
    }

    /// Subscribe to canonical timeline deltas published after this
    /// call. Dropping the handle unsubscribes; a slow subscriber loses
    /// the oldest unread deltas rather than blocking the writer.
    pub fn subscribe(&self) -> broadcast::Receiver<CanonicalDelta> {
        subscribe_deltas(&self.delta_tx)
    }

    /// Allocate the next ordering key: strictly greater than every key
    /// this store has allocated before.
    pub fn next_ordering_key(&mut self) -> (r: CanonicalOrderingKey)
        requires
            old(self).next_seq() < u64::MAX,
        ensures
            r@ == old(self).next_seq(),
            final(self).next_seq() == old(self).next_seq() + 1,
            final(self).items_model() == old(self).items_model(),
            final(self).pending_model() == old(self).pending_model(),
            final(self).delta_history() == old(self).delta_history(),
            old(self).wf() ==> final(self).wf(),
    {
        let seq = self.next_sequence;
        self.next_sequence = self.next_sequence + 1;
        CanonicalOrderingKey::from_sequence(seq)
    }

    /// Find the position of the item carrying the identity `id`.
    fn find_index_by_id(&self, id: &String) -> (r: Option<usize>)
        ensures
            match r {
                Some(i) => 0 <= i < self.items_model().len() && self.items_model()[i as int].id
                    == id@,
                None => !has_id(self.items_model(), id@),
            },
    {
        let n = self.items.len();
        let mut i: usize = 0;
        while i < n
            invariant
                n == self.items_model().len(),
                0 <= i <= n,
                forall|j: int| 0 <= j < i ==> self.items_model()[j].id != id@,
            decreases n - i,
        {
            if self.items[i].id == *id {
                return Some(i);
            }
            i += 1;
        }
        None
    }

    /// Find the position where an item with the (unused) ordering key
    /// `k` belongs in the sorted item vector.
    fn find_insert_pos(&self, k: u64) -> (j: usize)
        requires
            sorted_by_key(self.items_model()),
            key_unused(self.items_model(), k),
        ensures
            is_insert_pos(self.items_model(), k, j as int),
    {
        let n = self.items.len();
        let mut j: usize = 0;
        while j < n
            invariant
                n == self.items_model().len(),
                0 <= j <= n,
                sorted_by_key(self.items_model()),
                key_unused(self.items_model(), k),
                forall|a: int| 0 <= a < j ==> self.items_model()[a].ordering_key < k,
            decreases n - j,
        {
            if self.items[j].ordering_key.as_u64() > k {
                proof {
                    assert forall|i: int| j <= i < self.items_model().len() implies k
                        < self.items_model()[i].ordering_key by {
                        if i > j {
                            assert(self.items_model()[j as int].ordering_key
                                < self.items_model()[i].ordering_key);
                        }
                    }
                }
                return j;
            }
            j += 1;
        }
        j
    }

    /// Insert or update a canonical message; returns whether this was a
    /// new insertion.
    ///
    /// A message with an unseen identity is inserted at the position
    /// its ordering key determines and an `Insert` delta is published.
    /// A message sharing an existing identity overwrites that item's
    /// content and state in place: the existing item's ordering key is
    /// preserved, whatever key the supplied message carries, and an
    /// `Update` delta carrying the preserved position is published.
    pub fn upsert(&mut self, message: CanonicalMessage) -> (is_new: bool)
        requires
            old(self).wf(),
            !has_id(old(self).items_model(), message@.id) ==> key_unused(
                old(self).items_model(),
                message@.ordering_key,
            ),
        ensures
            final(self).wf(),
            is_new == !has_id(old(self).items_model(), message@.id),
            final(self).next_seq() == old(self).next_seq(),
            final(self).pending_model() == old(self).pending_model(),
            is_new ==> exists|j: int|
                #[trigger] is_insert_pos(old(self).items_model(), message@.ordering_key, j)
                    && final(self).items_model() == old(self).items_model().insert(j, message@)
                    && final(self).delta_history() == old(self).delta_history().push(
                    DeltaModel::Insert { position: message@.ordering_key, item: message@ },
                ),
            !is_new ==> ({
                let i = index_of_id(old(self).items_model(), message@.id);
                let stored = with_key(message@, old(self).items_model()[i].ordering_key);
                &&& final(self).items_model() == old(self).items_model().update(i, stored)
                &&& final(self).delta_history() == old(self).delta_history().push(
                    DeltaModel::Update { position: stored.ordering_key, item: stored },
                )
            }),
    {
        match self.find_index_by_id(&message.id) {
            Some(i) => {
                proof {
                    let om = old(self).items_model();
                    let ci = index_of_id(om, message@.id);
                    assert(om[ci].id == message@.id);
                    assert(ci == i as int) by {
                        if ci != i as int {
                            assert(om[ci].id != om[i as int].id);
                        }
                    }
                }
                let key = self.items[i].ordering_key;
                let mut stored = message;
                stored.ordering_key = key;
                let item_copy = stored.clone();
                self.items.set(i, stored);
                self.history = Ghost(
                    self.history@.push(DeltaModel::Update { position: key@, item: item_copy@ }),
                );
                proof {
                    let om = old(self).items_model();
                    assert(item_copy@ == with_key(message@, om[i as int].ordering_key));
                    assert(self.items_model() =~= om.update(i as int, item_copy@));
                    lemma_update_preserves_wf(om, i as int, item_copy@);
                }
                send_delta(
                    &self.delta_tx,
                    CanonicalDelta::Update { position: key, item: item_copy },
                );
                false
            },
            None => {
                let key = message.ordering_key;
                let j = self.find_insert_pos(key.as_u64());
                let item_copy = message.clone();
                let ghost m_model = message@;
                let ghost om = self.items_model();
                let ghost jj = j as int;
                self.items.insert(j, message);
                self.history = Ghost(
                    self.history@.push(DeltaModel::Insert { position: m_model.ordering_key, item: m_model }),
                );
                proof {
                    assert(self.items_model() =~= om.insert(jj, m_model));
                    lemma_insert_preserves_wf(om, jj, m_model);
                }
                send_delta(
                    &self.delta_tx,
                    CanonicalDelta::Insert { position: key, item: item_copy },
                );
                true
            },
        }
    }

    /// Point lookup of a canonical message by its stable identity.
    pub fn get_by_event_id(&self, event_id: &String) -> (r: Option<&CanonicalMessage>)
        requires
            self.wf(),
        ensures
            match r {
                Some(m) => has_id(self.items_model(), event_id@) && m@ == self.items_model()[
                    index_of_id(self.items_model(), event_id@)],
                None => !has_id(self.items_model(), event_id@),
            },
    {
        match self.find_index_by_id(event_id) {
            Some(i) => {
                proof {
                    let s = self.items_model();
                    let ci = index_of_id(s, event_id@);
                    assert(s[ci].id == event_id@);
                    if ci != i as int {
                        let a = if ci < i as int { ci } else { i as int };
                        let b = if ci < i as int { i as int } else { ci };
                        assert(s[a].id != s[b].id);
                    }
                }
                Some(&self.items[i])
            },
            None => None,
        }
    }

    /// All canonical messages, in ordering-key order, as an immutable
    /// snapshot.
    pub fn items(&self) -> (r: Vec<CanonicalMessage>)
        ensures
            r@.map_values(|m: CanonicalMessage| m@) == self.items_model(),
    {
        let n = self.items.len();
        let mut r: Vec<CanonicalMessage> = Vec::new();
        let mut i: usize = 0;
        while i < n
            invariant
                n == self.items_model().len(),
                0 <= i <= n,
                r@.len() == i,
                forall|j: int| 0 <= j < i ==> r@[j]@ == self.items_model()[j],
            decreases n - i,
        {
            r.push(self.items[i].clone());
            i += 1;
        }
        proof {
            assert(r@.map_values(|m: CanonicalMessage| m@) =~= self.items_model());
        }
        r
    }

    /// Find the position of the pending-buffer entry for `parent`.
    fn find_pending_index(&self, parent: &String) -> (r: Option<usize>)
        ensures
            match r {
                Some(i) => 0 <= i < self.pending_model().len() && self.pending_model()[
                    i as int].0 == parent@,
                None => !buffer_has(self.pending_model(), parent@),
            },
    {
        let n = self.pending_edits.len();
        let mut i: usize = 0;
        while i < n
            invariant
                n == self.pending_model().len(),
                0 <= i <= n,
                forall|j: int| 0 <= j < i ==> self.pending_model()[j].0 != parent@,
            decreases n - i,
        {
            if self.pending_edits[i].0 == *parent {
                return Some(i);
            }
            i += 1;
        }
        None
    }

    /// Register a pending edit that arrived before its parent: append
    /// the edit identity to the buffer entry for the parent identity,
    /// creating the entry if none exists.
    pub fn add_pending_edit(&mut self, parent_event_id: String, edit_event_id: String)
        requires
            old(self).wf(),
        ensures
            final(self).wf(),
            final(self).items_model() == old(self).items_model(),
            final(self).next_seq() == old(self).next_seq(),
            final(self).delta_history() == old(self).delta_history(),
            final(self).has_pending(parent_event_id@),
            final(self).pending_for(parent_event_id@) == old(self).pending_for(
                parent_event_id@,
            ).push(edit_event_id@),
            forall|p: Seq<char>|
                p != parent_event_id@ ==> pending_lookup(final(self).pending_model(), p)
                    == pending_lookup(old(self).pending_model(), p) && buffer_has(
                    final(self).pending_model(),
                    p,
                ) == buffer_has(old(self).pending_model(), p),
    {
        let ghost pm = self.pending_model();
        let ghost parent_view = parent_event_id@;
        let ghost edit_view = edit_event_id@;
        match self.find_pending_index(&parent_event_id) {
            Some(i) => {
                let entry = &mut self.pending_edits[i];
                entry.1.push(edit_event_id);
                proof {
                    let ghost ne = (pm[i as int].0, pm[i as int].1.push(edit_view));
                    assert(self.pending_edits@[i as int].1.deep_view() =~= ne.1);
                    assert(self.pending_model() =~= pm.update(i as int, ne));
                    lemma_unique_update(pm, i as int, ne);
                    lemma_lookup_at(pm, i as int);
                    lemma_lookup_at(pm.update(i as int, ne), i as int);
                    assert forall|p: Seq<char>|
                        p != parent_view implies self.pending_for(p) == pending_lookup(pm, p)
                        && buffer_has(pm.update(i as int, ne), p) == buffer_has(pm, p) by {
                        lemma_lookup_update_other(pm, i as int, ne, p);
                    }
                }
            },
            None => {
                let mut edits: Vec<String> = Vec::new();
                edits.push(edit_event_id);
                proof {
                    assert(edits.deep_view() =~= seq![edit_view]);
                }
                self.pending_edits.push((parent_event_id, edits));
                proof {
                    let ghost ne = (parent_view, seq![edit_view]);
                    assert(ne.1 =~= Seq::<Seq<char>>::empty().push(edit_view));
                    assert(self.pending_model() =~= pm.push(ne));
                    lemma_lookup_at(pm.push(ne), pm.len() as int);
                    assert forall|p: Seq<char>|
                        p != parent_view implies pending_lookup(pm.push(ne), p) == pending_lookup(
                        pm,
                        p,
                    ) && buffer_has(pm.push(ne), p) == buffer_has(pm, p) by {
                        lemma_lookup_push_other(pm, ne, p);
                    }
                }
            },
        }
    }

    /// Remove and return the edit identities buffered against
    /// `parent_event_id`, in arrival order; empty if none. A second
    /// call returns empty.
    pub fn take_pending_edits(&mut self, parent_event_id: &String) -> (r: Vec<String>)
        requires
            old(self).wf(),
        ensures
            final(self).wf(),
            final(self).items_model() == old(self).items_model(),
            final(self).next_seq() == old(self).next_seq(),
            final(self).delta_history() == old(self).delta_history(),
            r.deep_view() == old(self).pending_for(parent_event_id@),
            !final(self).has_pending(parent_event_id@),
            final(self).pending_for(parent_event_id@) == Seq::<Seq<char>>::empty(),
            forall|p: Seq<char>|
                p != parent_event_id@ ==> pending_lookup(final(self).pending_model(), p)
                    == pending_lookup(old(self).pending_model(), p) && buffer_has(
                    final(self).pending_model(),
                    p,
                ) == buffer_has(old(self).pending_model(), p),
    {
        let ghost pm = self.pending_model();
        let ghost parent_view = parent_event_id@;
        match self.find_pending_index(parent_event_id) {
            Some(i) => {
                let entry = self.pending_edits.remove(i);
                proof {
                    assert(self.pending_model() =~= pm.remove(i as int));
                    lemma_lookup_at(pm, i as int);
                    lemma_lookup_remove_self(pm, i as int);
                    assert forall|p: Seq<char>|
                        p != parent_view implies pending_lookup(pm.remove(i as int), p)
                        == pending_lookup(pm, p) && buffer_has(pm.remove(i as int), p)
                        == buffer_has(pm, p) by {
                        lemma_lookup_remove_other(pm, i as int, p);
                    }
                }
                entry.1
            },
            None => {
                let r: Vec<String> = Vec::new();
                proof {
                    assert(r.deep_view() =~= Seq::<Seq<char>>::empty());
                }
                r
            },
        }
    }

    /// Remove the canonical message holding the ordering key
    /// `position`, publishing a `Remove` delta; `None` and no effect
    /// when no item holds that key.
    pub fn remove(&mut self, position: CanonicalOrderingKey) -> (r: Option<CanonicalMessage>)
        requires
            old(self).wf(),
        ensures
            final(self).wf(),
            final(self).next_seq() == old(self).next_seq(),
            final(self).pending_model() == old(self).pending_model(),
            match r {
                Some(m) => exists|i: int|
                    0 <= i < old(self).items_model().len() && old(self).items_model()[i]
                        == m@ && m@.ordering_key == position@ && final(self).items_model() == old(
                        self,
                    ).items_model().remove(i) && final(self).delta_history() == old(
                        self,
                    ).delta_history().push(DeltaModel::Remove { position: position@ }),
                None => key_unused(old(self).items_model(), position@) && final(self).items_model()
                    == old(self).items_model() && final(self).delta_history() == old(
                    self,
                ).delta_history(),
            },
    {
        let k = position.as_u64();
        let n = self.items.len();
        let mut i: usize = 0;
        while i < n
            invariant
                *self == *old(self),
                self.wf(),
                n == self.items_model().len(),
                0 <= i <= n,
                forall|j: int| 0 <= j < i ==> self.items_model()[j].ordering_key != k,
                k == position@,
            decreases n - i,
        {
            if self.items[i].ordering_key.as_u64() == k {
                let ghost om = self.items_model();
                let message = self.items.remove(i);
                self.history = Ghost(
                    self.history@.push(DeltaModel::Remove { position: position@ }),
                );
                proof {
                    assert(self.items_model() =~= om.remove(i as int));
                    lemma_remove_preserves_wf(om, i as int);
                }
                send_delta(&self.delta_tx, CanonicalDelta::Remove { position });
                return Some(message);
            }
            i += 1;
        }
        None
    }

    /// Publish a `Reset` delta carrying the full ordered snapshot, for
    /// subscribers to rebuild from (e.g. after an external rebuild).
    pub fn emit_reset(&mut self)
        requires
            old(self).wf(),
        ensures
            final(self).wf(),
            final(self).items_model() == old(self).items_model(),
            final(self).next_seq() == old(self).next_seq(),
            final(self).pending_model() == old(self).pending_model(),
            final(self).delta_history() == old(self).delta_history().push(
                DeltaModel::Reset { items: old(self).items_model() },
            ),
    {
        let snapshot = self.items();
        self.history = Ghost(
            self.history@.push(
                DeltaModel::Reset { items: snapshot@.map_values(|m: CanonicalMessage| m@) },
            ),
        );
        send_delta(&self.delta_tx, CanonicalDelta::Reset { items: snapshot });
    }

    /// The sequence number the next allocation will return.
    pub fn peek_next_sequence(&self) -> (r: u64)
        ensures
            r == self.next_seq(),
    {
        self.next_sequence
    }

    /// The number of items in the timeline.
    pub fn len(&self) -> (r: usize)
        ensures
            r == self.items_model().len(),
    {
        self.items.len()
    }

    /// Whether the timeline is empty.
    pub fn is_empty(&self) -> (r: bool)
        ensures
            r == (self.items_model().len() == 0),
    {
        self.items.is_empty()
    }
}

} // verus!
