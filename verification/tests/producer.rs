use chat_app::identity::{identity_of, text_of, IDENTITY_TEXT_LEN};
use chat_app::producer::{outgoing_record, partition_key, publish_result, OutgoingRecord, PublishError};
use chat_app::schema::PandaMessage;

fn message(sender_id: u128) -> PandaMessage {
    PandaMessage { chat_id: 1, sender_id, content: "hi".to_string(), message_id: 2 }
}

#[test]
fn text_of_an_identity_is_hyphenated_lowercase() {
    assert_eq!(
        text_of(0xa1a2a3a4b1b2c1c2d1d2d3d4d5d6d7d8),
        "a1a2a3a4-b1b2-c1c2-d1d2-d3d4d5d6d7d8"
    );
    assert_eq!(text_of(0), "00000000-0000-0000-0000-000000000000");
    assert_eq!(text_of(u128::MAX), "ffffffff-ffff-ffff-ffff-ffffffffffff");
    assert_eq!(text_of(0x0123456789abcdef), "00000000-0000-0000-0123-456789abcdef");
    assert_eq!(text_of(1).len(), IDENTITY_TEXT_LEN);
}

#[test]
fn identity_is_read_from_its_text() {
    assert_eq!(
        identity_of("a1a2a3a4-b1b2-c1c2-d1d2-d3d4d5d6d7d8"),
        Some(0xa1a2a3a4b1b2c1c2d1d2d3d4d5d6d7d8)
    );
    assert_eq!(identity_of("A1A2A3A4B1B2C1C2D1D2D3D4D5D6D7D8"), Some(0xa1a2a3a4b1b2c1c2d1d2d3d4d5d6d7d8));
    assert_eq!(identity_of("00000000-0000-0000-0000-000000000000"), Some(0));
    assert_eq!(identity_of(""), None);
    assert_eq!(identity_of("not an identity"), None);
    assert_eq!(identity_of("a1a2a3a4-b1b2-c1c2-d1d2-d3d4d5d6d7"), None);
}

#[test]
fn text_and_identity_round_trip() {
    for id in [0u128, 1, 0xdead_beef, u128::MAX, 1 << 127, 0x0f0f_0f0f_0f0f_0f0f_0f0f_0f0f_0f0f_0f0f] {
        assert_eq!(identity_of(&text_of(id)), Some(id));
    }
}

#[test]
fn partition_key_is_the_text_of_the_sender() {
    assert_eq!(partition_key(&message(0x5)), "00000000-0000-0000-0000-000000000005");
    assert_eq!(partition_key(&message(0x5)), partition_key(&message(0x5)));
    assert_ne!(partition_key(&message(0x5)), partition_key(&message(0x6)));
}

#[test]
fn record_carries_topic_key_and_payload() {
    let record = outgoing_record("chat-messages", &message(0xab), Some("{\"k\":1}".to_string()));
    assert_eq!(
        record,
        Ok(OutgoingRecord {
            topic: "chat-messages".to_string(),
            key: "00000000-0000-0000-0000-0000000000ab".to_string(),
            payload: "{\"k\":1}".to_string(),
        })
    );
}

#[test]
fn message_that_cannot_be_encoded_is_not_published() {
    assert_eq!(outgoing_record("chat-messages", &message(1), None), Err(PublishError::Encoding));
}

#[test]
fn publish_fails_exactly_without_acknowledgement() {
    assert_eq!(publish_result(true), Ok(()));
    assert_eq!(publish_result(false), Err(PublishError::Broker));
}
