//! Which users hold a live connection, and the mailbox of each.

use vstd::prelude::*;
use std::collections::HashMap;
use tokio::sync::mpsc::{Receiver, Sender};
use crate::mailbox::{
    feeds, open_channel, receiver_capacity, sender_capacity, try_enqueue, Enqueue,
    MAILBOX_CAPACITY,
};
use crate::schema::PandaMessage;

verus! {

broadcast use vstd::std_specs::hash::group_hash_axioms;

/// Outcome of one attempt to deliver a message to one user.
#[derive(Clone, Copy, Debug, PartialEq, Eq, Structural)]
pub enum Delivery {
    /// The message is in the user's mailbox.
    Delivered,
    /// The user holds no connection.
    NotConnected,
    /// The user's mailbox was full; the message is dropped.
    MailboxFull,
    /// The user's connection no longer reads its mailbox; the message is dropped.
    MailboxClosed,
}

/// What a delivery attempt amounts to, given whether the user has an entry
/// and, if so, what the mailbox said.
pub open spec fn delivery_of(connected: bool, enqueue: Enqueue) -> Delivery {
    if !connected {
        Delivery::NotConnected
    } else {
        match enqueue {
            Enqueue::Accepted => Delivery::Delivered,
            Enqueue::Full => Delivery::MailboxFull,
            Enqueue::Closed => Delivery::MailboxClosed,
        }
    }
}

/// Whether `delivery` can be the outcome of an attempt on `user_id` while
/// `connected` are the users with an entry: `NotConnected` is the outcome
/// exactly for a user without one.
pub open spec fn possible_delivery(connected: Set<u128>, user_id: u128, delivery: Delivery) -> bool {
    (delivery == Delivery::NotConnected) <==> !connected.contains(user_id)
}

impl Delivery {
    /// Names the outcome of an attempt on a connected user's mailbox.
    pub fn from_enqueue(enqueue: Enqueue) -> (delivery: Delivery)
        ensures
            delivery == delivery_of(true, enqueue),
    {
        match enqueue {
            Enqueue::Accepted => Delivery::Delivered,
            Enqueue::Full => Delivery::MailboxFull,
            Enqueue::Closed => Delivery::MailboxClosed,
        }
    }

    /// Whether the message reached a mailbox.
    pub fn is_delivered(&self) -> (yes: bool)
        ensures
            yes == (*self == Delivery::Delivered),
    {
        match self {
            Delivery::Delivered => true,
            _ => false,
        }
    }
}

/// The entries of a registry that nobody is connected to.
pub open spec fn no_mailboxes() -> Map<u128, Sender<PandaMessage>> {
    Map::empty()
}

/// Maps each connected user to the sending half of that user's mailbox.
///
/// A user has at most one entry, and the mailbox of every entry was opened
/// with `MAILBOX_CAPACITY`. The transport registers a user when a connection
/// opens and deregisters it when the connection ends; the fanout stage only
/// reads.
pub struct ConnectionRegistry {
    senders: HashMap<u128, Sender<PandaMessage>>,
}

impl ConnectionRegistry {
    #[verifier::type_invariant]
    spec fn mailboxes_are_bounded(&self) -> bool {
        forall|user_id: u128| #[trigger]
            self.senders@.contains_key(user_id) ==> sender_capacity(self.senders@[user_id])
                == MAILBOX_CAPACITY
    }

    /// The entries: for each connected user the sending half of that user's
    /// mailbox.
    pub closed spec fn mailboxes(&self) -> Map<u128, Sender<PandaMessage>> {
        self.senders@
    }

    /// The users that have an entry.
    pub open spec fn connected(&self) -> Set<u128> {
        self.mailboxes().dom()
    }

    /// The bound of the mailbox that `user_id` has an entry for.
    pub open spec fn capacity_of(&self, user_id: u128) -> usize {
        sender_capacity(self.mailboxes()[user_id])
    }

    /// A registry without entries.
    pub fn new() -> (registry: ConnectionRegistry)
        ensures
            registry.mailboxes() == no_mailboxes(),
            registry.connected() == Set::<u128>::empty(),
    {
        ConnectionRegistry { senders: HashMap::new() }
    }

    /// Opens a fresh mailbox of `MAILBOX_CAPACITY` messages for `user_id` and
    /// installs its sending half as the user's entry, in place of the one the
    /// user had, if any: that one is no longer delivered to. The entries of
    /// all other users stay as they were. Returns the receiving half of the
    /// new mailbox.
    pub fn register(&mut self, user_id: u128) -> (mailbox: Receiver<PandaMessage>)
        ensures
            final(self).mailboxes().contains_key(user_id),
            feeds(final(self).mailboxes()[user_id], mailbox),
            final(self).mailboxes().remove(user_id) == old(self).mailboxes().remove(user_id),
            final(self).connected() == old(self).connected().insert(user_id),
            final(self).capacity_of(user_id) == MAILBOX_CAPACITY,
            receiver_capacity(mailbox) == MAILBOX_CAPACITY,
    {
        proof {
            use_type_invariant(&*self);
        }
        let (sender, receiver) = open_channel(MAILBOX_CAPACITY);
        // The map is taken out for the update, so that the registry is whole
        // at every point where the update could unwind.
        let mut senders: HashMap<u128, Sender<PandaMessage>> = HashMap::new();
        core::mem::swap(&mut self.senders, &mut senders);
        senders.insert(user_id, sender);
        core::mem::swap(&mut self.senders, &mut senders);
        proof {
            assert(self.mailboxes().remove(user_id) =~= old(self).mailboxes().remove(user_id));
            assert(self.connected() =~= old(self).connected().insert(user_id));
        }
        receiver
    }

    /// Removes the entry of `user_id`, if there is one. The entries of all
    /// other users stay as they were.
    pub fn deregister(&mut self, user_id: u128)
        ensures
            final(self).mailboxes() == old(self).mailboxes().remove(user_id),
            final(self).connected() == old(self).connected().remove(user_id),
    {
        proof {
            use_type_invariant(&*self);
        }
        let mut senders: HashMap<u128, Sender<PandaMessage>> = HashMap::new();
        core::mem::swap(&mut self.senders, &mut senders);
        senders.remove(&user_id);
        core::mem::swap(&mut self.senders, &mut senders);
        proof {
            assert(self.connected() =~= old(self).connected().remove(user_id));
        }
    }

    /// Whether `user_id` has an entry. The mailbox of an entry holds at most
    /// `MAILBOX_CAPACITY` messages, whenever it was registered.
    pub fn is_connected(&self, user_id: u128) -> (yes: bool)
        ensures
            yes == self.connected().contains(user_id),
            yes ==> self.capacity_of(user_id) == MAILBOX_CAPACITY,
    {
        proof {
            use_type_invariant(self);
        }
        self.senders.contains_key(&user_id)
    }

    /// Number of users that have an entry.
    pub fn len(&self) -> (n: usize)
        ensures
            n == self.connected().len(),
    {
        self.senders.len()
    }

    /// Tries once, without waiting, to put `message` into the mailbox of
    /// `user_id`, and says what happened. A user without an entry is
    /// `NotConnected`; for a user with one, the mailbox decides.
    pub fn try_deliver(&self, user_id: u128, message: PandaMessage) -> (delivery: Delivery)
        ensures
            possible_delivery(self.connected(), user_id, delivery),
    {
        match self.senders.get(&user_id) {
            Some(sender) => Delivery::from_enqueue(try_enqueue(sender, message)),
            None => Delivery::NotConnected,
        }
    }

    /// Tries once, without waiting, to put `message` into the mailbox of
    /// `user_id`. Returns `false`, and drops the message, when the user has no
    /// entry or the mailbox does not take it.
    pub fn deliver(&self, user_id: u128, message: PandaMessage) -> (delivered: bool)
        ensures
            delivered ==> self.connected().contains(user_id),
    {
        self.try_deliver(user_id, message).is_delivered()
    }
}

/// After a user was deregistered, an attempt to deliver to that user is
/// `NotConnected`, whichever users were connected before: the message is not
/// delivered, and nothing fails.
pub proof fn deregistered_user_gets_nothing(connected: Set<u128>, user_id: u128, delivery: Delivery)
    requires
        possible_delivery(connected.remove(user_id), user_id, delivery),
    ensures
        delivery == Delivery::NotConnected,
{
}

/// After a user was registered, an attempt to deliver to that user is
/// decided by the user's mailbox: it is delivered if the mailbox takes the
/// message, and is never `NotConnected`.
pub proof fn registered_user_is_tried(
    connected: Set<u128>,
    user_id: u128,
    enqueue: Enqueue,
    delivery: Delivery,
)
    requires
        possible_delivery(connected.insert(user_id), user_id, delivery),
    ensures
        delivery != Delivery::NotConnected,
        delivery_of(connected.insert(user_id).contains(user_id), enqueue) == delivery_of(
            true,
            enqueue,
        ),
        delivery_of(true, Enqueue::Accepted) == Delivery::Delivered,
{
}

/// Registering and deregistering one user leaves the entries of the others
/// as they were: whoever had a mailbox has the same one, and whoever had none
/// has none.
pub proof fn other_users_keep_their_entries(
    before: Map<u128, Sender<PandaMessage>>,
    after: Map<u128, Sender<PandaMessage>>,
    user_id: u128,
    other: u128,
)
    requires
        other != user_id,
        after.remove(user_id) == before.remove(user_id),
    ensures
        after.contains_key(other) == before.contains_key(other),
        before.contains_key(other) ==> after[other] == before[other],
{
    assert(after.remove(user_id).contains_key(other) == after.contains_key(other));
    assert(before.remove(user_id).contains_key(other) == before.contains_key(other));
    if before.contains_key(other) {
        assert(after.remove(user_id)[other] == after[other]);
        assert(before.remove(user_id)[other] == before[other]);
    }
}

/// The last registration wins: the entry of a user is the sending half of
/// the mailbox that the latest registration returned, whatever entry the user
/// had before, and a user has one entry at most.
pub proof fn last_registration_wins(
    before: Map<u128, Sender<PandaMessage>>,
    user_id: u128,
    first: Sender<PandaMessage>,
    second: Sender<PandaMessage>,
)
    ensures
        before.insert(user_id, first).insert(user_id, second) == before.insert(user_id, second),
        before.insert(user_id, first).insert(user_id, second)[user_id] == second,
        before.insert(user_id, second).remove(user_id) == before.remove(user_id),
{
    assert(before.insert(user_id, first).insert(user_id, second) =~= before.insert(
        user_id,
        second,
    ));
    assert(before.insert(user_id, second).remove(user_id) =~= before.remove(user_id));
}

} // verus!
