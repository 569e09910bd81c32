use canonical_timeline::CanonicalDelta;
use canonical_timeline::CanonicalMessage;
use canonical_timeline::CanonicalOrderingKey;
use canonical_timeline::CanonicalTimelineState;
use canonical_timeline::ContentAvailability;
use canonical_timeline::MessageContent;
use canonical_timeline::MessageType;

fn create_test_message(event_id: String, body: &str, sequence: u64) -> CanonicalMessage {
    CanonicalMessage {
        id: event_id,
        sender: String::from("@alice:example.org"),
        content: MessageContent {
            msg_type: MessageType::Text,
            body: body.to_string(),
            formatted: None,
        },
        edit_state: None,
        ordering_key: CanonicalOrderingKey::from_sequence(sequence),
        availability: ContentAvailability::Known,
        timestamp: Some(1_700_000_000_000),
    }
}

#[test]
fn test_stable_ordering() {
    let mut state = CanonicalTimelineState::new();

    let msg1 = create_test_message(String::from("$event1"), "First message", 1);
    let msg2 = create_test_message(String::from("$event2"), "Second message", 2);
    let msg3 = create_test_message(String::from("$event3"), "Third message", 3);

    state.upsert(msg1.clone());
    state.upsert(msg2.clone());
    state.upsert(msg3.clone());

    let items = state.items();
    assert_eq!(items.len(), 3);
    assert_eq!(items[0].id, msg1.id);
    assert_eq!(items[1].id, msg2.id);
    assert_eq!(items[2].id, msg3.id);
}

#[test]
fn test_message_update_preserves_position() {
    let mut state = CanonicalTimelineState::new();

    let msg = create_test_message(String::from("$event1"), "Original", 1);
    state.upsert(msg.clone());

    let mut updated_msg = msg.clone();
    updated_msg.content.body = "Decrypted".to_string();
    updated_msg.availability = ContentAvailability::Known;

    state.upsert(updated_msg.clone());

    let items = state.items();
    assert_eq!(items.len(), 1);
    assert_eq!(items[0].ordering_key, msg.ordering_key);
    assert_eq!(items[0].content.body, "Decrypted");
}

#[test]
fn test_pending_edits() {
    let mut state = CanonicalTimelineState::new();

    let parent_id = String::from("$parent");
    let edit1_id = String::from("$edit1");
    let edit2_id = String::from("$edit2");

    state.add_pending_edit(parent_id.clone(), edit1_id.clone());
    state.add_pending_edit(parent_id.clone(), edit2_id.clone());

    let edits = state.take_pending_edits(&parent_id);
    assert_eq!(edits.len(), 2);
    assert_eq!(edits[0], edit1_id);
    assert_eq!(edits[1], edit2_id);

    let edits2 = state.take_pending_edits(&parent_id);
    assert!(edits2.is_empty());
}

#[test]
fn test_delta_broadcast() {
    let mut state = CanonicalTimelineState::new();
    let mut rx = state.subscribe();

    let msg = create_test_message(String::from("$event1"), "Test", 1);
    state.upsert(msg.clone());

    let delta = rx.try_recv().unwrap();
    match delta {
        CanonicalDelta::Insert { position, item } => {
            assert_eq!(position, msg.ordering_key);
            assert_eq!(item.id, msg.id);
        }
        _ => panic!("Expected Insert delta"),
    }
}

#[test]
fn test_event_id_lookup() {
    let mut state = CanonicalTimelineState::new();

    let msg = create_test_message(String::from("$event1"), "Test", 1);
    state.upsert(msg.clone());

    let found = state.get_by_event_id(&msg.id);
    assert!(found.is_some());
    assert_eq!(found.unwrap().id, msg.id);

    let not_found = state.get_by_event_id(&String::from("$notfound"));
    assert!(not_found.is_none());
}

#[test]
fn test_upsert_out_of_order_keys_sorted() {
    let mut state = CanonicalTimelineState::new();

    let msg5 = create_test_message(String::from("$e5"), "five", 5);
    let msg1 = create_test_message(String::from("$e1"), "one", 1);
    let msg3 = create_test_message(String::from("$e3"), "three", 3);

    assert!(state.upsert(msg5));
    assert!(state.upsert(msg1));
    assert!(state.upsert(msg3));

    let items = state.items();
    assert_eq!(items.len(), 3);
    assert_eq!(items[0].ordering_key.as_u64(), 1);
    assert_eq!(items[1].ordering_key.as_u64(), 3);
    assert_eq!(items[2].ordering_key.as_u64(), 5);
}

#[test]
fn test_next_ordering_key_monotonic() {
    let mut state = CanonicalTimelineState::new();
    let k0 = state.next_ordering_key();
    let k1 = state.next_ordering_key();
    let k2 = state.next_ordering_key();
    assert_eq!(k0.as_u64(), 0);
    assert_eq!(k1.as_u64(), 1);
    assert_eq!(k2.as_u64(), 2);
    assert!(k0 < k1 && k1 < k2);
}

#[test]
fn test_len_and_is_empty() {
    let mut state = CanonicalTimelineState::new();
    assert!(state.is_empty());
    assert_eq!(state.len(), 0);
    state.upsert(create_test_message(String::from("$e1"), "hi", 0));
    assert!(!state.is_empty());
    assert_eq!(state.len(), 1);
}

#[test]
fn test_remove_clears_item_and_broadcasts() {
    let mut state = CanonicalTimelineState::new();
    let msg1 = create_test_message(String::from("$e1"), "one", 1);
    let msg2 = create_test_message(String::from("$e2"), "two", 2);
    state.upsert(msg1.clone());
    state.upsert(msg2);

    let mut rx = state.subscribe();
    let removed = state.remove(CanonicalOrderingKey::from_sequence(1));
    assert!(removed.is_some());
    assert_eq!(removed.unwrap().id, msg1.id);
    assert_eq!(state.len(), 1);
    assert!(state.get_by_event_id(&msg1.id).is_none());

    match rx.try_recv().unwrap() {
        CanonicalDelta::Remove { position } => {
            assert_eq!(position.as_u64(), 1);
        }
        _ => panic!("Expected Remove delta"),
    }

    let removed_again = state.remove(CanonicalOrderingKey::from_sequence(1));
    assert!(removed_again.is_none());
}

#[test]
fn test_emit_reset_broadcasts_snapshot() {
    let mut state = CanonicalTimelineState::new();
    let msg1 = create_test_message(String::from("$e1"), "one", 1);
    let msg2 = create_test_message(String::from("$e2"), "two", 2);
    state.upsert(msg1.clone());
    state.upsert(msg2.clone());

    let mut rx = state.subscribe();
    state.emit_reset();

    match rx.try_recv().unwrap() {
        CanonicalDelta::Reset { items } => {
            assert_eq!(items.len(), 2);
            assert_eq!(items[0].id, msg1.id);
            assert_eq!(items[1].id, msg2.id);
        }
        _ => panic!("Expected Reset delta"),
    }
}

#[test]
fn test_update_broadcasts_update_with_same_position() {
    let mut state = CanonicalTimelineState::new();
    let mut rx = state.subscribe();

    let msg = create_test_message(String::from("$e1"), "first", 7);
    state.upsert(msg.clone());

    let mut second = create_test_message(String::from("$e1"), "second", 9);
    second.availability = ContentAvailability::Known;
    let is_new = state.upsert(second);
    assert!(!is_new);

    match rx.try_recv().unwrap() {
        CanonicalDelta::Insert { position, .. } => assert_eq!(position.as_u64(), 7),
        _ => panic!("Expected Insert delta"),
    }
    match rx.try_recv().unwrap() {
        CanonicalDelta::Update { position, item } => {
            assert_eq!(position.as_u64(), 7);
            assert_eq!(item.ordering_key.as_u64(), 7);
            assert_eq!(item.content.body, "second");
        }
        _ => panic!("Expected Update delta"),
    }

    let items = state.items();
    assert_eq!(items.len(), 1);
    assert_eq!(items[0].ordering_key.as_u64(), 7);
}

#[test]
fn test_take_pending_edits_unknown_parent_empty() {
    let mut state = CanonicalTimelineState::new();
    let edits = state.take_pending_edits(&String::from("$nobody"));
    assert!(edits.is_empty());
}

#[test]
fn test_pending_edits_distinct_parents() {
    let mut state = CanonicalTimelineState::new();
    state.add_pending_edit(String::from("$p1"), String::from("$e1"));
    state.add_pending_edit(String::from("$p2"), String::from("$e2"));
    state.add_pending_edit(String::from("$p1"), String::from("$e3"));

    let p1_edits = state.take_pending_edits(&String::from("$p1"));
    assert_eq!(p1_edits, vec![String::from("$e1"), String::from("$e3")]);

    let p2_edits = state.take_pending_edits(&String::from("$p2"));
    assert_eq!(p2_edits, vec![String::from("$e2")]);
}
