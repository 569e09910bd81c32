use canonical_timeline::adapters::edit::EditAdapter;
use canonical_timeline::adapters::message::MessageAdapter;
use canonical_timeline::adapters::process_event;
use canonical_timeline::event::EventInfo;
use canonical_timeline::event::MessageEvent;
use canonical_timeline::event::RawEvent;
use canonical_timeline::event::RawMessageContent;
use canonical_timeline::event::RawMessageKind;
use canonical_timeline::event::RedactionEvent;
use canonical_timeline::event::Replacement;
use canonical_timeline::CanonicalOrderingKey;
use canonical_timeline::CanonicalTimelineState;
use canonical_timeline::ContentAvailability;

fn text_content(body: &str) -> RawMessageContent {
    RawMessageContent {
        kind: RawMessageKind::Text,
        body: body.to_string(),
        formatted: None,
    }
}

fn message_event(id: &str, body: &str) -> RawEvent {
    RawEvent::Message(MessageEvent {
        event_id: id.to_string(),
        sender: String::from("@alice:example.org"),
        timestamp: Some(1_700_000_000_000),
        content: text_content(body),
        replaces: None,
    })
}

fn edit_event(id: &str, parent: &str, body: &str) -> RawEvent {
    RawEvent::Message(MessageEvent {
        event_id: id.to_string(),
        sender: String::from("@alice:example.org"),
        timestamp: Some(1_700_000_000_000),
        content: text_content(format!("* {}", body).as_str()),
        replaces: Some(Replacement {
            parent_id: parent.to_string(),
            new_content: text_content(body),
        }),
    })
}

fn info(id: &str) -> EventInfo {
    EventInfo {
        event_id: id.to_string(),
        sender: String::from("@alice:example.org"),
        timestamp: Some(1_700_000_000_000),
    }
}

fn redaction_event(id: &str, target: Option<&str>) -> RawEvent {
    RawEvent::Redaction(RedactionEvent {
        event_id: id.to_string(),
        sender: String::from("@alice:example.org"),
        timestamp: Some(1_700_000_000_000),
        redacts: target.map(|t| t.to_string()),
    })
}

fn key(state: &mut CanonicalTimelineState) -> CanonicalOrderingKey {
    state.next_ordering_key()
}

#[test]
fn test_concrete_scenario() {
    let mut state = CanonicalTimelineState::new();

    // Insert message M1 (identity "$a", body "hello", key 0).
    let k0 = key(&mut state);
    assert_eq!(k0.as_u64(), 0);
    assert!(process_event(&message_event("$a", "hello"), &mut state, k0));
    let items = state.items();
    assert_eq!(items.len(), 1);
    assert_eq!(items[0].id, "$a");
    assert_eq!(items[0].content.body, "hello");

    // Insert encrypted placeholder M2 (identity "$b", key 1).
    let k1 = key(&mut state);
    assert!(process_event(&RawEvent::Encrypted(info("$b")), &mut state, k1));
    let items = state.items();
    assert_eq!(items.len(), 2);
    assert_eq!(items[1].id, "$b");
    assert_eq!(
        items[1].availability,
        ContentAvailability::Encrypted { utd_cause: None }
    );
    assert_eq!(items[1].content.body, "");

    // Deliver an edit targeting "$a" with new body "hello world" (own key 2).
    let k2 = key(&mut state);
    assert!(process_event(&edit_event("$e1", "$a", "hello world"), &mut state, k2));
    let items = state.items();
    assert_eq!(items.len(), 2);
    assert_eq!(items[0].id, "$a");
    assert_eq!(items[0].content.body, "hello world");
    assert_eq!(items[0].ordering_key.as_u64(), 0);
    let edit_state = items[0].edit_state.as_ref().unwrap();
    assert_eq!(edit_state.original_content.body, "hello");
    assert_eq!(edit_state.current_content.body, "hello world");
    assert_eq!(edit_state.edit_chain.len(), 1);
    assert_eq!(edit_state.edit_chain[0].edit_id, "$e1");
    assert_eq!(edit_state.edit_chain[0].position.as_u64(), 2);

    // Deliver the plaintext for "$b" (key 3, reusing identity "$b").
    let k3 = key(&mut state);
    assert!(process_event(&message_event("$b", "secret"), &mut state, k3));
    let items = state.items();
    assert_eq!(items.len(), 2);
    assert_eq!(items[1].id, "$b");
    assert_eq!(items[1].availability, ContentAvailability::Known);
    assert_eq!(items[1].content.body, "secret");
    assert_eq!(items[1].ordering_key.as_u64(), 1);
}

#[test]
fn test_edit_chain_order() {
    let mut state = CanonicalTimelineState::new();
    let k0 = key(&mut state);
    process_event(&message_event("$a", "hello"), &mut state, k0);
    let k1 = key(&mut state);
    process_event(&edit_event("$e1", "$a", "first edit"), &mut state, k1);
    let k2 = key(&mut state);
    process_event(&edit_event("$e2", "$a", "second edit"), &mut state, k2);

    let items = state.items();
    assert_eq!(items.len(), 1);
    assert_eq!(items[0].content.body, "second edit");
    assert_eq!(items[0].ordering_key.as_u64(), 0);
    let edit_state = items[0].edit_state.as_ref().unwrap();
    assert_eq!(edit_state.original_content.body, "hello");
    assert_eq!(edit_state.current_content.body, "second edit");
    assert_eq!(edit_state.edit_chain.len(), 2);
    assert_eq!(edit_state.edit_chain[0].edit_id, "$e1");
    assert_eq!(edit_state.edit_chain[1].edit_id, "$e2");
}

#[test]
fn test_edit_before_parent_is_buffered() {
    let mut state = CanonicalTimelineState::new();

    // The edit arrives first: no store mutation, only the buffer entry.
    let k0 = key(&mut state);
    assert!(process_event(&edit_event("$e1", "$parent", "new body"), &mut state, k0));
    assert!(state.is_empty());

    // The parent arrives: the message adapter drains the buffer; the
    // buffered edit is not replayed (that is the caller's
    // responsibility), so the parent keeps its own content.
    let k1 = key(&mut state);
    assert!(process_event(&message_event("$parent", "original"), &mut state, k1));
    let items = state.items();
    assert_eq!(items.len(), 1);
    assert_eq!(items[0].content.body, "original");
    assert!(items[0].edit_state.is_none());
    let leftover = state.take_pending_edits(&String::from("$parent"));
    assert!(leftover.is_empty());
}

#[test]
fn test_redaction_of_present_target() {
    let mut state = CanonicalTimelineState::new();
    let k0 = key(&mut state);
    process_event(&message_event("$a", "hello"), &mut state, k0);
    let k1 = key(&mut state);
    process_event(&edit_event("$e1", "$a", "edited"), &mut state, k1);

    let k2 = key(&mut state);
    assert!(process_event(&redaction_event("$r1", Some("$a")), &mut state, k2));
    let items = state.items();
    assert_eq!(items.len(), 1);
    assert_eq!(items[0].availability, ContentAvailability::Redacted);
    assert_eq!(items[0].content.body, "[redacted]");
    assert!(items[0].edit_state.is_none());
    assert_eq!(items[0].ordering_key.as_u64(), 0);
}

#[test]
fn test_redaction_is_irreversible() {
    let mut state = CanonicalTimelineState::new();
    let k0 = key(&mut state);
    process_event(&RawEvent::Encrypted(info("$a")), &mut state, k0);
    let k1 = key(&mut state);
    process_event(&redaction_event("$r1", Some("$a")), &mut state, k1);

    // A late decryption result must not flip the item back to Known.
    let k2 = key(&mut state);
    assert!(process_event(&message_event("$a", "too late"), &mut state, k2));
    let items = state.items();
    assert_eq!(items.len(), 1);
    assert_eq!(items[0].availability, ContentAvailability::Redacted);
    assert_eq!(items[0].content.body, "[redacted]");

    // A late edit must not re-populate edit state.
    let k3 = key(&mut state);
    assert!(process_event(&edit_event("$e1", "$a", "edited"), &mut state, k3));
    let items = state.items();
    assert_eq!(items[0].availability, ContentAvailability::Redacted);
    assert_eq!(items[0].content.body, "[redacted]");
    assert!(items[0].edit_state.is_none());
    assert_eq!(items[0].ordering_key.as_u64(), 0);
}

#[test]
fn test_redaction_of_unknown_target_dropped() {
    let mut state = CanonicalTimelineState::new();
    let k0 = key(&mut state);
    assert!(process_event(&redaction_event("$r1", Some("$ghost")), &mut state, k0));
    assert!(state.is_empty());
    // Unlike edits, redactions are not buffered for later targets.
    let k1 = key(&mut state);
    process_event(&message_event("$ghost", "still here"), &mut state, k1);
    let items = state.items();
    assert_eq!(items[0].availability, ContentAvailability::Known);
    assert_eq!(items[0].content.body, "still here");
}

#[test]
fn test_redaction_without_target_claimed() {
    let mut state = CanonicalTimelineState::new();
    let k0 = key(&mut state);
    assert!(process_event(&redaction_event("$r1", None), &mut state, k0));
    assert!(state.is_empty());
}

#[test]
fn test_redacted_message_event() {
    let mut state = CanonicalTimelineState::new();
    let k0 = key(&mut state);
    assert!(process_event(&RawEvent::RedactedMessage(info("$a")), &mut state, k0));
    let items = state.items();
    assert_eq!(items.len(), 1);
    assert_eq!(items[0].availability, ContentAvailability::Redacted);
    assert_eq!(items[0].content.body, "[redacted]");
    assert!(items[0].edit_state.is_none());
}

#[test]
fn test_redacted_encrypted_event() {
    let mut state = CanonicalTimelineState::new();
    let k0 = key(&mut state);
    assert!(process_event(&RawEvent::RedactedEncrypted(info("$a")), &mut state, k0));
    let items = state.items();
    assert_eq!(items[0].availability, ContentAvailability::Redacted);
    assert_eq!(items[0].content.body, "[redacted]");
}

#[test]
fn test_redacted_redaction_declined() {
    let mut state = CanonicalTimelineState::new();
    let k0 = key(&mut state);
    assert!(!process_event(&RawEvent::RedactedRedaction(info("$r1")), &mut state, k0));
    assert!(state.is_empty());
}

#[test]
fn test_unrecognized_event_declined() {
    let mut state = CanonicalTimelineState::new();
    let k0 = key(&mut state);
    assert!(!process_event(&RawEvent::Other, &mut state, k0));
    assert!(state.is_empty());
}

#[test]
fn test_duplicate_encrypted_event_ignored_once_known() {
    let mut state = CanonicalTimelineState::new();
    let k0 = key(&mut state);
    process_event(&message_event("$a", "plain"), &mut state, k0);
    let k1 = key(&mut state);
    assert!(process_event(&RawEvent::Encrypted(info("$a")), &mut state, k1));
    let items = state.items();
    assert_eq!(items.len(), 1);
    assert_eq!(items[0].availability, ContentAvailability::Known);
    assert_eq!(items[0].content.body, "plain");
}

#[test]
fn test_edit_adapter_declines_plain_message() {
    let mut state = CanonicalTimelineState::new();
    let adapter = EditAdapter::new();
    let k0 = key(&mut state);
    assert!(!adapter.process(&message_event("$a", "hello"), &mut state, k0));
    assert!(state.is_empty());
}

#[test]
fn test_message_adapter_claims_edit_as_plain_message() {
    // Tried on its own, the message adapter treats an edit event as a
    // plain content event: the pipeline order (edit adapter first) is
    // what routes edits away from it.
    let mut state = CanonicalTimelineState::new();
    let adapter = MessageAdapter::new();
    let k0 = key(&mut state);
    assert!(adapter.process(&edit_event("$e1", "$a", "body"), &mut state, k0));
    let items = state.items();
    assert_eq!(items.len(), 1);
    assert_eq!(items[0].id, "$e1");
}

#[test]
fn test_formatted_body_carried_for_text() {
    let mut state = CanonicalTimelineState::new();
    let k0 = key(&mut state);
    let event = RawEvent::Message(MessageEvent {
        event_id: String::from("$a"),
        sender: String::from("@alice:example.org"),
        timestamp: None,
        content: RawMessageContent {
            kind: RawMessageKind::Text,
            body: String::from("hello"),
            formatted: Some(canonical_timeline::FormattedBody {
                format: String::from("org.matrix.custom.html"),
                body: String::from("<b>hello</b>"),
            }),
        },
        replaces: None,
    });
    assert!(process_event(&event, &mut state, k0));
    let items = state.items();
    let formatted = items[0].content.formatted.as_ref().unwrap();
    assert_eq!(formatted.format, "org.matrix.custom.html");
    assert_eq!(formatted.body, "<b>hello</b>");
}
