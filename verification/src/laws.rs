//! The engine's ordering and consistency guarantees, stated and proved
//! over the store and adapter transition relations.

use vstd::prelude::*;

use crate::adapters::edit::edit_effect;
use crate::adapters::edit::edited_message_model;
use crate::adapters::edit_claims;
use crate::adapters::message::encrypted_message_model;
use crate::adapters::message::message_effect;
use crate::adapters::message::plain_message_model;
use crate::adapters::message::redacted_form;
use crate::adapters::message::redacted_message_model;
use crate::adapters::message::spec_canonical_content;
use crate::adapters::message_claims;
use crate::adapters::pending_dropped;
use crate::adapters::upsert_effect;
use crate::delta::DeltaModel;
use crate::event::MessageEventModel;
use crate::event::RawEventModel;
use crate::state::buffer_has;
use crate::state::has_id;
use crate::state::index_of_id;
use crate::state::is_insert_pos;
use crate::state::lemma_insert_preserves_wf;
use crate::state::pending_lookup;
use crate::state::sorted_by_key;
use crate::state::unique_ids;
use crate::state::with_key;
use crate::state::StoreModel;
use crate::types::redacted_content_model;
use crate::types::EditModel;
use crate::types::EditStateModel;
use crate::types::MessageModel;

verus! {

/// Law (stable ordering): upserting a fresh identity whose ordering
/// key lies above every stored key appends the item at the end of the
/// snapshot. Since the store allocates strictly increasing keys, a
/// sequence of upserts on distinct identities yields a snapshot in
/// first-insertion order; the snapshot stays sorted by key under every
/// operation through the store's well-formedness invariant.
pub proof fn law_insert_appends(pre: StoreModel, post: StoreModel, m: MessageModel)
    requires
        sorted_by_key(pre.items),
        !has_id(pre.items, m.id),
        forall|i: int| 0 <= i < pre.items.len() ==> pre.items[i].ordering_key < m.ordering_key,
        upsert_effect(pre, post, m),
    ensures
        post.items == pre.items.push(m),
{
    let j = choose|j: int|
        #[trigger] is_insert_pos(pre.items, m.ordering_key, j) && post.items == pre.items.insert(
            j,
            m,
        ) && post.history == pre.history.push(
            DeltaModel::Insert { position: m.ordering_key, item: m },
        );
    let n = pre.items.len() as int;
    if j < n {
        assert(pre.items[j].ordering_key < m.ordering_key);
    }
    assert(j == n);
    assert(pre.items.insert(n, m) =~= pre.items.push(m));
}

/// Law (update preserves position): upserting a message sharing an
/// existing identity changes no item's ordering key and no item's
/// identity; every item keeps its index in the snapshot, whatever key
/// the supplied message carries.
pub proof fn law_update_preserves_positions(pre: StoreModel, post: StoreModel, m: MessageModel)
    requires
        has_id(pre.items, m.id),
        upsert_effect(pre, post, m),
    ensures
        post.items.len() == pre.items.len(),
        forall|i: int|
            0 <= i < pre.items.len() ==> post.items[i].ordering_key
                == pre.items[i].ordering_key && post.items[i].id == pre.items[i].id,
{
    let t = index_of_id(pre.items, m.id);
    assert forall|i: int|
        0 <= i < pre.items.len() implies post.items[i].ordering_key
        == pre.items[i].ordering_key && post.items[i].id == pre.items[i].id by {
        if i != t {
            assert(post.items[i] == pre.items[i]);
        }
    }
}

/// Law (edit chain monotonicity): a parent with no edit history that
/// is edited by E1 and then E2, in processing order, carries the chain
/// `[E1, E2]` in that order; its current content is E2's, its original
/// content is the parent's pre-edit content, its top-level content
/// resolves to the latest content, and its ordering key is untouched.
pub proof fn law_edit_chain(
    pre: StoreModel,
    mid: StoreModel,
    post: StoreModel,
    e1: MessageEventModel,
    e2: MessageEventModel,
    k1: u64,
    k2: u64,
)
    requires
        unique_ids(pre.items),
        e1.replaces is Some,
        e2.replaces is Some,
        e2.replaces->Some_0.parent_id == e1.replaces->Some_0.parent_id,
        has_id(pre.items, e1.replaces->Some_0.parent_id),
        !(pre.items[index_of_id(pre.items, e1.replaces->Some_0.parent_id)].availability
            is Redacted),
        pre.items[index_of_id(pre.items, e1.replaces->Some_0.parent_id)].edit_state is None,
        edit_effect(pre, mid, e1, k1),
        edit_effect(mid, post, e2, k2),
    ensures
        ({
            let pid = e1.replaces->Some_0.parent_id;
            let parent = pre.items[index_of_id(pre.items, pid)];
            let c1 = spec_canonical_content(
                e1.replaces->Some_0.new_content,
            );
            let c2 = spec_canonical_content(
                e2.replaces->Some_0.new_content,
            );
            let m1 = EditModel { edit_id: e1.event_id, timestamp: e1.timestamp, position: k1 };
            let m2 = EditModel { edit_id: e2.event_id, timestamp: e2.timestamp, position: k2 };
            let item = post.items[index_of_id(post.items, pid)];
            &&& has_id(post.items, pid)
            &&& item.edit_state == Some(
                EditStateModel {
                    current_content: c2,
                    original_content: parent.content,
                    edit_chain: seq![m1, m2],
                },
            )
            &&& item.content == c2
            &&& item.ordering_key == parent.ordering_key
            &&& item.id == parent.id
        }),
{
    let pid = e1.replaces->Some_0.parent_id;
    let i = index_of_id(pre.items, pid);
    let parent = pre.items[i];
    let c1 = spec_canonical_content(e1.replaces->Some_0.new_content);
    let c2 = spec_canonical_content(e2.replaces->Some_0.new_content);
    let m1 = EditModel { edit_id: e1.event_id, timestamp: e1.timestamp, position: k1 };
    let m2 = EditModel { edit_id: e2.event_id, timestamp: e2.timestamp, position: k2 };
    let once = edited_message_model(parent, c1, m1);
    let stored1 = with_key(once, parent.ordering_key);
    assert(stored1 == once);
    assert(mid.items == pre.items.update(i, once));
    assert forall|a: int, b: int| 0 <= a < b < mid.items.len() implies mid.items[a].id
        != mid.items[b].id by {
        assert(mid.items[a].id == pre.items[a].id && mid.items[b].id == pre.items[b].id);
    }
    assert(mid.items[i].id == pid);
    assert(has_id(mid.items, pid));
    let i2 = index_of_id(mid.items, pid);
    if i2 != i {
        assert(mid.items[if i < i2 { i } else { i2 }].id != mid.items[if i < i2 {
            i2
        } else {
            i
        }].id);
    }
    assert(i2 == i);
    let twice = edited_message_model(once, c2, m2);
    let stored2 = with_key(twice, once.ordering_key);
    assert(stored2 == twice);
    assert(post.items == mid.items.update(i, twice));
    assert forall|a: int, b: int| 0 <= a < b < post.items.len() implies post.items[a].id
        != post.items[b].id by {
        assert(post.items[a].id == mid.items[a].id && post.items[b].id == mid.items[b].id);
    }
    assert(post.items[i].id == pid);
    assert(has_id(post.items, pid));
    let i3 = index_of_id(post.items, pid);
    if i3 != i {
        assert(post.items[if i < i3 { i } else { i3 }].id != post.items[if i < i3 {
            i3
        } else {
            i
        }].id);
    }
    assert(i3 == i);
    assert(seq![m1].push(m2) =~= seq![m1, m2]);
}

/// Law (out-of-order edit buffering): an edit arriving before its
/// parent mutates no item, publishes no delta, and is recorded at the
/// end of its parent's buffer entry. Its one-time retrieval is stated
/// by `take_pending_edits`: the taken entry is emptied, so a second
/// take returns nothing.
pub proof fn law_edit_buffered(pre: StoreModel, post: StoreModel, e: MessageEventModel, key: u64)
    requires
        e.replaces is Some,
        !has_id(pre.items, e.replaces->Some_0.parent_id),
        edit_effect(pre, post, e, key),
    ensures
        post.items == pre.items,
        post.history == pre.history,
        buffer_has(post.pending, e.replaces->Some_0.parent_id),
        pending_lookup(post.pending, e.replaces->Some_0.parent_id)
            == pending_lookup(pre.pending, e.replaces->Some_0.parent_id).push(
            e.event_id,
        ),
{
}

/// An upsert whose message carries another identity leaves the item
/// with identity `id` exactly as it was, possibly at a shifted index.
proof fn lemma_upsert_preserves_other(
    pre: StoreModel,
    post: StoreModel,
    m: MessageModel,
    id: Seq<char>,
)
    requires
        sorted_by_key(pre.items),
        unique_ids(pre.items),
        has_id(pre.items, id),
        m.id != id,
        upsert_effect(pre, post, m),
    ensures
        has_id(post.items, id),
        post.items[index_of_id(post.items, id)] == pre.items[index_of_id(pre.items, id)],
{
    let i = index_of_id(pre.items, id);
    if has_id(pre.items, m.id) {
        let t = index_of_id(pre.items, m.id);
        assert(pre.items[t].id == m.id);
        assert(i != t);
        assert(post.items[i] == pre.items[i]);
        assert(has_id(post.items, id));
        assert forall|a: int, b: int| 0 <= a < b < post.items.len() implies post.items[a].id
            != post.items[b].id by {
            assert(post.items[a].id == pre.items[a].id && post.items[b].id == pre.items[b].id);
        }
        let i2 = index_of_id(post.items, id);
        if i2 != i {
            assert(post.items[if i < i2 { i } else { i2 }].id != post.items[if i < i2 {
                i2
            } else {
                i
            }].id);
        }
    } else {
        let j = choose|j: int|
            #[trigger] is_insert_pos(pre.items, m.ordering_key, j) && post.items
                == pre.items.insert(j, m) && post.history == pre.history.push(
                DeltaModel::Insert { position: m.ordering_key, item: m },
            );
        lemma_insert_preserves_wf(pre.items, j, m);
        pre.items.insert_ensures(j, m);
        let i2 = if i < j {
            i
        } else {
            i + 1
        };
        assert(post.items[i2] == pre.items[i]);
        assert(has_id(post.items, id));
        let i3 = index_of_id(post.items, id);
        if i3 != i2 {
            assert(post.items[if i2 < i3 { i2 } else { i3 }].id != post.items[if i2 < i3 {
                i3
            } else {
                i2
            }].id);
        }
    }
}

/// True of an item that is in canonical redacted form.
pub open spec fn is_redacted_item(m: MessageModel) -> bool {
    &&& m.availability is Redacted
    &&& m.content == redacted_content_model()
    &&& m.edit_state is None
}

/// Law (redaction irreversibility): once an identity is in redacted
/// form, no later adapter-pipeline step — a decryption result, a late
/// edit, another redaction, any event at all — moves it back to
/// `Known`, re-populates its edit state, or changes its content from
/// the fixed redacted marker; its ordering key is untouched.
pub proof fn law_redaction_irreversible(
    pre: StoreModel,
    post: StoreModel,
    e: RawEventModel,
    key: u64,
    id: Seq<char>,
)
    requires
        sorted_by_key(pre.items),
        unique_ids(pre.items),
        has_id(pre.items, id),
        is_redacted_item(pre.items[index_of_id(pre.items, id)]),
        edit_claims(e) ==> edit_effect(pre, post, e->Message_0, key),
        !edit_claims(e) && message_claims(e) ==> message_effect(pre, post, e, key),
        !edit_claims(e) && !message_claims(e) ==> post == pre,
    ensures
        has_id(post.items, id),
        is_redacted_item(post.items[index_of_id(post.items, id)]),
        post.items[index_of_id(post.items, id)].ordering_key == pre.items[index_of_id(
            pre.items,
            id,
        )].ordering_key,
{
    let i = index_of_id(pre.items, id);
    let item = pre.items[i];
    if edit_claims(e) {
        let m = e->Message_0;
        let repl = m.replaces->Some_0;
        if !has_id(pre.items, repl.parent_id) {
            assert(post.items == pre.items);
        } else if repl.parent_id == id {
            let pi = index_of_id(pre.items, repl.parent_id);
            assert(pre.items[pi].id == id && pre.items[i].id == id);
            if pi != i {
                assert(pre.items[if i < pi { i } else { pi }].id != pre.items[if i < pi {
                    pi
                } else {
                    i
                }].id);
            }
            assert(post == pre);
        } else {
            let parent = pre.items[index_of_id(pre.items, repl.parent_id)];
            assert(parent.id == repl.parent_id);
            if !(parent.availability is Redacted) {
                let em = edited_message_model(
                    parent,
                    spec_canonical_content(repl.new_content),
                    EditModel { edit_id: m.event_id, timestamp: m.timestamp, position: key },
                );
                lemma_upsert_preserves_other(pre, post, em, id);
            }
        }
    } else if message_claims(e) {
        match e {
            RawEventModel::Message(m) => {
                if has_id(pre.items, m.event_id) && pre.items[index_of_id(
                    pre.items,
                    m.event_id,
                )].availability is Redacted {
                    assert(post == pre);
                } else {
                    assert(m.event_id != id) by {
                        if m.event_id == id {
                            let t = index_of_id(pre.items, m.event_id);
                            assert(pre.items[t].id == id && pre.items[i].id == id);
                            if t != i {
                                assert(pre.items[if i < t { i } else { t }].id
                                    != pre.items[if i < t { t } else { i }].id);
                            }
                        }
                    }
                    let mid = choose|mid: StoreModel|
                        #[trigger] upsert_effect(
                            pre,
                            mid,
                            plain_message_model(m, key),
                        ) && post.items == mid.items && post.next == mid.next && post.history
                            == mid.history && pending_dropped(
                            mid.pending,
                            post.pending,
                            m.event_id,
                        );
                    lemma_upsert_preserves_other(
                        pre,
                        mid,
                        plain_message_model(m, key),
                        id,
                    );
                }
            },
            RawEventModel::RedactedMessage(info) => {
                law_upsert_redacted_form(
                    pre,
                    post,
                    redacted_message_model(info, key),
                    id,
                    i,
                );
            },
            RawEventModel::Encrypted(info) => {
                if has_id(pre.items, info.event_id) && !(pre.items[index_of_id(
                    pre.items,
                    info.event_id,
                )].availability is Encrypted) {
                    assert(post == pre);
                } else {
                    assert(info.event_id != id) by {
                        if info.event_id == id {
                            let t = index_of_id(pre.items, info.event_id);
                            assert(pre.items[t].id == id && pre.items[i].id == id);
                            if t != i {
                                assert(pre.items[if i < t { i } else { t }].id
                                    != pre.items[if i < t { t } else { i }].id);
                            }
                        }
                    }
                    lemma_upsert_preserves_other(
                        pre,
                        post,
                        encrypted_message_model(info, key),
                        id,
                    );
                }
            },
            RawEventModel::RedactedEncrypted(info) => {
                law_upsert_redacted_form(
                    pre,
                    post,
                    redacted_message_model(info, key),
                    id,
                    i,
                );
            },
            RawEventModel::Redaction(r) => {
                match r.redacts {
                    Some(target) => {
                        if has_id(pre.items, target) {
                            law_upsert_redacted_form(
                                pre,
                                post,
                                redacted_form(
                                    pre.items[index_of_id(pre.items, target)],
                                ),
                                id,
                                i,
                            );
                        } else {
                            assert(post == pre);
                        }
                    },
                    None => {
                        assert(post == pre);
                    },
                }
            },
            _ => {
                assert(post == pre);
            },
        }
    } else {
        assert(post == pre);
    }
}

/// An upsert whose message is itself in redacted form keeps every
/// redacted identity redacted, whether or not it is the target.
proof fn law_upsert_redacted_form(
    pre: StoreModel,
    post: StoreModel,
    m: MessageModel,
    id: Seq<char>,
    i: int,
)
    requires
        sorted_by_key(pre.items),
        unique_ids(pre.items),
        has_id(pre.items, id),
        i == index_of_id(pre.items, id),
        is_redacted_item(pre.items[i]),
        is_redacted_item(m),
        upsert_effect(pre, post, m),
    ensures
        has_id(post.items, id),
        is_redacted_item(post.items[index_of_id(post.items, id)]),
        post.items[index_of_id(post.items, id)].ordering_key == pre.items[i].ordering_key,
{
    if m.id == id {
        let t = index_of_id(pre.items, m.id);
        assert(pre.items[t].id == id && pre.items[i].id == id);
        if t != i {
            assert(pre.items[if i < t { i } else { t }].id != pre.items[if i < t {
                t
            } else {
                i
            }].id);
        }
        let stored = with_key(m, pre.items[i].ordering_key);
        assert(post.items == pre.items.update(i, stored));
        assert(post.items[i] == stored);
        assert forall|a: int, b: int| 0 <= a < b < post.items.len() implies post.items[a].id
            != post.items[b].id by {
            assert(post.items[a].id == pre.items[a].id && post.items[b].id == pre.items[b].id);
        }
        assert(has_id(post.items, id));
        let i2 = index_of_id(post.items, id);
        if i2 != i {
            assert(post.items[if i < i2 { i } else { i2 }].id != post.items[if i < i2 {
                i2
            } else {
                i
            }].id);
        }
    } else {
        lemma_upsert_preserves_other(pre, post, m, id);
    }
}

/// Law (delta fidelity): the upsert of a fresh identity publishes
/// exactly one delta, an `Insert` carrying the item's position and
/// content; a later upsert of the same identity publishes exactly one
/// `Update` carrying the same position and the overwritten content.
pub proof fn law_delta_fidelity(
    pre: StoreModel,
    mid: StoreModel,
    post: StoreModel,
    m1: MessageModel,
    m2: MessageModel,
)
    requires
        sorted_by_key(pre.items),
        unique_ids(pre.items),
        !has_id(pre.items, m1.id),
        upsert_effect(pre, mid, m1),
        m2.id == m1.id,
        upsert_effect(mid, post, m2),
    ensures
        mid.history == pre.history.push(
            DeltaModel::Insert { position: m1.ordering_key, item: m1 },
        ),
        post.history == mid.history.push(
            DeltaModel::Update {
                position: m1.ordering_key,
                item: with_key(m2, m1.ordering_key),
            },
        ),
{
    let j = choose|j: int|
        #[trigger] is_insert_pos(pre.items, m1.ordering_key, j) && mid.items == pre.items.insert(
            j,
            m1,
        ) && mid.history == pre.history.push(
            DeltaModel::Insert { position: m1.ordering_key, item: m1 },
        );
    lemma_insert_preserves_wf(pre.items, j, m1);
    pre.items.insert_ensures(j, m1);
    assert(mid.items[j] == m1);
    assert(has_id(mid.items, m2.id));
    let t = index_of_id(mid.items, m2.id);
    assert(mid.items[t].id == m1.id);
    if t != j {
        assert(mid.items[if j < t { j } else { t }].id != mid.items[if j < t { t } else { j }].id);
    }
    assert(mid.items[t].ordering_key == m1.ordering_key);
}

} // verus!
