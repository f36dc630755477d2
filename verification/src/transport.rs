//! Decisions of the loop that serves one live connection.
//!
//! The transport registers the user when the connection opens, forwards each
//! message of the mailbox to the socket, and deregisters the user when the
//! connection ends. The socket and the rendering are outside this crate:
//! their results arrive here as events.

use vstd::prelude::*;
use tokio::sync::mpsc::Receiver;
use crate::mailbox::{feeds, receiver_capacity, MAILBOX_CAPACITY};
use crate::registry::ConnectionRegistry;
use crate::schema::PandaMessage;

verus! {

/// What the socket handed to the listening side.
#[derive(Clone, Copy, Debug, PartialEq, Eq, Structural)]
pub enum Inbound {
    /// A frame other than a close.
    Frame,
    /// The client closed the connection.
    Close,
    /// Reading failed.
    Failed,
    /// The socket yields nothing more.
    Ended,
}

/// What the transport is told.
#[derive(Clone, Copy, Debug, PartialEq, Eq, Structural)]
pub enum LinkEvent {
    /// A message was taken from the mailbox; `rendered` says whether it could
    /// be rendered for the client.
    Outbound { rendered: bool },
    /// The mailbox yields nothing more: its sending half is gone.
    MailboxClosed,
    /// A write to the socket finished; `written` says whether it succeeded.
    Written { written: bool },
    /// The socket handed something to the listening side.
    Received(Inbound),
}

/// What the transport has to do.
#[derive(Clone, Copy, Debug, PartialEq, Eq, Structural)]
pub enum LinkStep {
    /// Write the rendered message to the socket.
    Write,
    /// Leave this message out and take the next one.
    Skip,
    /// Go on as before.
    Continue,
    /// Stop forwarding; keep listening to the socket.
    StopForwarding,
    /// End the connection and deregister the user.
    Disconnect,
    /// The connection is over; the event changes nothing.
    Ignore,
}

/// State of one connection.
#[derive(Clone, Copy, Debug, PartialEq, Eq, Structural)]
pub enum Link {
    /// The connection is served.
    Open,
    /// The connection is over.
    Closed,
}

/// Whether `event` ends an open connection: a close from the client, a
/// socket that failed or ended, or a write that failed.
pub open spec fn ends_link(event: LinkEvent) -> bool {
    match event {
        LinkEvent::Written { written } => !written,
        LinkEvent::Received(inbound) => inbound != Inbound::Frame,
        _ => false,
    }
}

/// What the transport has to do on `event` in the state `link`.
pub open spec fn step_for(link: Link, event: LinkEvent) -> LinkStep {
    match link {
        Link::Closed => LinkStep::Ignore,
        Link::Open => if ends_link(event) {
            LinkStep::Disconnect
        } else {
            match event {
                LinkEvent::Outbound { rendered } => if rendered {
                    LinkStep::Write
                } else {
                    LinkStep::Skip
                },
                LinkEvent::MailboxClosed => LinkStep::StopForwarding,
                _ => LinkStep::Continue,
            }
        },
    }
}

/// The state that follows `link` on `event`.
pub open spec fn next_link(link: Link, event: LinkEvent) -> Link {
    if link == Link::Open && !ends_link(event) {
        Link::Open
    } else {
        Link::Closed
    }
}

impl Link {
    /// Opens the connection of `user_id`: registers the user and returns the
    /// state of the connection with the receiving half of the new mailbox.
    /// The user's entry is the sending half of that mailbox, in place of any
    /// earlier one; the entries of all other users stay as they were.
    pub fn open(registry: &mut ConnectionRegistry, user_id: u128) -> (opened: (
        Link,
        Receiver<PandaMessage>,
    ))
        ensures
            opened.0 == Link::Open,
            final(registry).mailboxes().contains_key(user_id),
            feeds(final(registry).mailboxes()[user_id], opened.1),
            final(registry).mailboxes().remove(user_id) == old(registry).mailboxes().remove(
                user_id,
            ),
            final(registry).connected() == old(registry).connected().insert(user_id),
            receiver_capacity(opened.1) == MAILBOX_CAPACITY,
    {
        let mailbox = registry.register(user_id);
        (Link::Open, mailbox)
    }

    /// Takes one event and says what to do. A message that cannot be
    /// rendered is left out; a failed write, a close, or a socket that
    /// failed or ended ends the connection.
    pub fn handle(&mut self, event: LinkEvent) -> (step: LinkStep)
        ensures
            step == step_for(*old(self), event),
            *final(self) == next_link(*old(self), event),
    {
        match *self {
            Link::Closed => LinkStep::Ignore,
            Link::Open => match event {
                LinkEvent::Outbound { rendered } => if rendered {
                    LinkStep::Write
                } else {
                    LinkStep::Skip
                },
                LinkEvent::MailboxClosed => LinkStep::StopForwarding,
                LinkEvent::Written { written } => if written {
                    LinkStep::Continue
                } else {
                    *self = Link::Closed;
                    LinkStep::Disconnect
                },
                LinkEvent::Received(inbound) => match inbound {
                    Inbound::Frame => LinkStep::Continue,
                    _ => {
                        *self = Link::Closed;
                        LinkStep::Disconnect
                    },
                },
            },
        }
    }

    /// Ends the connection of `user_id`: removes the user's entry, if there
    /// is one. The entries of all other users stay as they were.
    pub fn close(&mut self, registry: &mut ConnectionRegistry, user_id: u128)
        ensures
            *final(self) == Link::Closed,
            final(registry).mailboxes() == old(registry).mailboxes().remove(user_id),
            final(registry).connected() == old(registry).connected().remove(user_id),
    {
        *self = Link::Closed;
        registry.deregister(user_id);
    }
}

} // verus!
