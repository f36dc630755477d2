//! The publish path: from an accepted message to a record for the broker.
//!
//! Publishing neither persists nor delivers; both happen when the message
//! comes back through the consumer. A failure is handed to the caller as it
//! is: nothing is retried here.

use vstd::prelude::*;
use crate::identity::{identity_text, text_of};
use crate::schema::PandaMessage;

verus! {

/// Why a message was not published.
#[derive(Clone, Copy, Debug, PartialEq, Eq, Structural)]
pub enum PublishError {
    /// The message could not be encoded.
    Encoding,
    /// The broker did not acknowledge the record, or the send was abandoned.
    Broker,
}

/// A record ready to be sent to the broker.
#[derive(Debug, PartialEq, Eq)]
pub struct OutgoingRecord {
    /// The topic the record goes to.
    pub topic: String,
    /// The partition key: records with equal keys keep their order.
    pub key: String,
    /// The encoded message.
    pub payload: String,
}

/// The partition key of a message: the text of its sender's identity, so
/// that the messages of one sender stay in order.
pub fn partition_key(message: &PandaMessage) -> (key: String)
    ensures
        key@ == identity_text(message.sender_id),
{
    text_of(message.sender_id)
}

/// Builds the record for `message` from its encoding, `None` where the
/// encoding failed.
pub fn outgoing_record(topic: &str, message: &PandaMessage, encoded: Option<String>) -> (record:
    Result<OutgoingRecord, PublishError>)
    ensures
        match encoded {
            Some(payload) => {
                &&& record is Ok
                &&& record->Ok_0.topic@ == topic@
                &&& record->Ok_0.key@ == identity_text(message.sender_id)
                &&& record->Ok_0.payload == payload
            },
            None => record == Err::<OutgoingRecord, PublishError>(PublishError::Encoding),
        },
{
    match encoded {
        Some(payload) => Ok(
            OutgoingRecord { topic: topic.to_owned(), key: partition_key(message), payload },
        ),
        None => Err(PublishError::Encoding),
    }
}

/// What the caller of a publish is told, given whether the broker
/// acknowledged the record.
pub fn publish_result(acknowledged: bool) -> (result: Result<(), PublishError>)
    ensures
        result == (if acknowledged {
            Ok::<(), PublishError>(())
        } else {
            Err::<(), PublishError>(PublishError::Broker)
        }),
{
    if acknowledged {
        Ok(())
    } else {
        Err(PublishError::Broker)
    }
}

} // verus!
