use canonical_timeline::adapters::message::MessageAdapter;
use canonical_timeline::event::RawMessageContent;
use canonical_timeline::event::RawMessageKind;
use canonical_timeline::CanonicalOrderingKey;
use canonical_timeline::FormattedBody;
use canonical_timeline::MessageContent;
use canonical_timeline::MessageType;

#[test]
fn test_ordering_key_from_sequence_round_trip() {
    let k = CanonicalOrderingKey::from_sequence(42);
    assert_eq!(k.as_u64(), 42);
}

#[test]
fn test_ordering_key_from_timestamp() {
    let k = CanonicalOrderingKey::from_timestamp(1_700_000_000_000);
    assert_eq!(k.as_u64(), 1_700_000_000_000);
}

#[test]
fn test_ordering_key_from_u64() {
    let k = CanonicalOrderingKey::from(7u64);
    assert_eq!(k.as_u64(), 7);
    assert_eq!(k, CanonicalOrderingKey::from_sequence(7));
}

#[test]
fn test_ordering_key_comparisons() {
    let a = CanonicalOrderingKey::from_sequence(1);
    let b = CanonicalOrderingKey::from_sequence(2);
    assert!(a < b);
    assert_eq!(a, a);
    assert_ne!(a, b);
}

#[test]
fn test_empty_content() {
    let c = MessageContent::empty();
    assert_eq!(c.msg_type, MessageType::Text);
    assert_eq!(c.body, "");
    assert!(c.formatted.is_none());
}

#[test]
fn test_redacted_content() {
    let c = MessageContent::redacted();
    assert_eq!(c.msg_type, MessageType::Text);
    assert_eq!(c.body, "[redacted]");
    assert!(c.formatted.is_none());
}

#[test]
fn test_map_message_type() {
    assert_eq!(MessageAdapter::map_message_type(&RawMessageKind::Text), MessageType::Text);
    assert_eq!(MessageAdapter::map_message_type(&RawMessageKind::Emote), MessageType::Text);
    assert_eq!(MessageAdapter::map_message_type(&RawMessageKind::Notice), MessageType::Text);
    assert_eq!(MessageAdapter::map_message_type(&RawMessageKind::Image), MessageType::Image);
    assert_eq!(MessageAdapter::map_message_type(&RawMessageKind::Video), MessageType::Video);
    assert_eq!(MessageAdapter::map_message_type(&RawMessageKind::Audio), MessageType::Audio);
    assert_eq!(MessageAdapter::map_message_type(&RawMessageKind::File), MessageType::File);
    assert_eq!(MessageAdapter::map_message_type(&RawMessageKind::Other), MessageType::Text);
}

#[test]
fn test_extract_formatted_textual_kinds_only() {
    let formatted = FormattedBody {
        format: String::from("org.matrix.custom.html"),
        body: String::from("<i>x</i>"),
    };
    let text = RawMessageContent {
        kind: RawMessageKind::Text,
        body: String::from("x"),
        formatted: Some(formatted.clone()),
    };
    let extracted = MessageAdapter::extract_formatted(&text).unwrap();
    assert_eq!(extracted.format, "org.matrix.custom.html");
    assert_eq!(extracted.body, "<i>x</i>");

    let image = RawMessageContent {
        kind: RawMessageKind::Image,
        body: String::from("x"),
        formatted: Some(formatted),
    };
    assert!(MessageAdapter::extract_formatted(&image).is_none());

    let bare = RawMessageContent {
        kind: RawMessageKind::Notice,
        body: String::from("x"),
        formatted: None,
    };
    assert!(MessageAdapter::extract_formatted(&bare).is_none());
}

#[test]
fn test_build_content() {
    let raw = RawMessageContent {
        kind: RawMessageKind::Emote,
        body: String::from("waves"),
        formatted: None,
    };
    let content = MessageAdapter::build_content(&raw);
    assert_eq!(content.msg_type, MessageType::Text);
    assert_eq!(content.body, "waves");
    assert!(content.formatted.is_none());
}
