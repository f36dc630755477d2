//! The bounded queue between the fanout stage and one live connection.
//!
//! A mailbox is a bounded channel of tokio: the registry keeps the sending
//! half, the transport that serves the connection keeps the receiving half.
//! What the channel holds at a given moment depends on the other half, so no
//! contract here speaks of its contents. Two things are fixed for its
//! lifetime: the bound it was opened with, and which receiving half its
//! sending half feeds.

use vstd::prelude::*;
use crate::schema::PandaMessage;

verus! {

/// The sending half of a tokio channel, carried through unread.
#[verifier::external_type_specification]
#[verifier::external_body]
#[verifier::reject_recursive_types(T)]
pub struct ExSender<T>(tokio::sync::mpsc::Sender<T>);

/// The receiving half of a tokio channel, carried through unread.
#[verifier::external_type_specification]
#[verifier::external_body]
#[verifier::reject_recursive_types(T)]
pub struct ExReceiver<T>(tokio::sync::mpsc::Receiver<T>);

/// Number of messages a mailbox holds before further ones are turned away.
pub const MAILBOX_CAPACITY: usize = 128;

/// What became of one attempt to put a message into a mailbox.
#[derive(Clone, Copy, Debug, PartialEq, Eq, Structural)]
pub enum Enqueue {
    /// The message is in the mailbox.
    Accepted,
    /// The mailbox held as many messages as it can; the message is dropped.
    Full,
    /// The receiving half is gone; the message is dropped.
    Closed,
}

/// Largest capacity a mailbox can be opened with.
pub open spec fn max_capacity() -> int {
    (usize::MAX as int) / 8
}

/// The bound that the channel of a sending half was opened with: what
/// `Sender::max_capacity` returns, whatever was sent or received since.
pub uninterp spec fn sender_capacity(sender: tokio::sync::mpsc::Sender<PandaMessage>) -> usize;

/// The bound that the channel of a receiving half was opened with: what
/// `Receiver::max_capacity` returns, whatever was sent or received since.
pub uninterp spec fn receiver_capacity(
    receiver: tokio::sync::mpsc::Receiver<PandaMessage>,
) -> usize;

/// Whether the two halves belong to one channel: what is sent through
/// `sender` is what `receiver` receives, and nothing else is.
pub uninterp spec fn feeds(
    sender: tokio::sync::mpsc::Sender<PandaMessage>,
    receiver: tokio::sync::mpsc::Receiver<PandaMessage>,
) -> bool;

/// Calls `tokio::sync::mpsc::channel`, which allocates a bounded channel and
/// returns its two halves. The call panics on a capacity of zero or above an
/// eighth of `usize::MAX`; both are excluded. Claimed of the halves: both are
/// built over the one channel that the call allocates, and both report the
/// capacity that was asked for.
#[verifier::external_body]
pub(crate) fn open_channel(capacity: usize) -> (halves: (
    tokio::sync::mpsc::Sender<PandaMessage>,
    tokio::sync::mpsc::Receiver<PandaMessage>,
))
    requires
        0 < capacity <= max_capacity(),
    ensures
        feeds(halves.0, halves.1),
        sender_capacity(halves.0) == capacity,
        receiver_capacity(halves.1) == capacity,
{
    tokio::sync::mpsc::channel(capacity)
}

/// Calls `Sender::try_send`, which never waits: it reports whether the
/// message was taken, or refused because the channel was full or closed.
/// Which of the three comes back depends on the receiving half, so nothing is
/// claimed of the result.
#[verifier::external_body]
pub(crate) fn try_enqueue(
    sender: &tokio::sync::mpsc::Sender<PandaMessage>,
    message: PandaMessage,
) -> Enqueue {
    match sender.try_send(message) {
        Ok(()) => Enqueue::Accepted,
        Err(tokio::sync::mpsc::error::TrySendError::Full(_)) => Enqueue::Full,
        Err(tokio::sync::mpsc::error::TrySendError::Closed(_)) => Enqueue::Closed,
    }
}

} // verus!
