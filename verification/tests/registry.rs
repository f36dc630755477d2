use chat_app::mailbox::{Enqueue, MAILBOX_CAPACITY};
use chat_app::registry::{ConnectionRegistry, Delivery};
use chat_app::schema::PandaMessage;
use tokio::sync::mpsc::error::TryRecvError;

fn message(content: &str) -> PandaMessage {
    PandaMessage { chat_id: 10, sender_id: 20, content: content.to_string(), message_id: 30 }
}

#[test]
fn new_registry_has_no_entries() {
    let registry = ConnectionRegistry::new();
    assert_eq!(registry.len(), 0);
    assert!(!registry.is_connected(1));
}

#[test]
fn register_then_deliver_is_read_from_the_mailbox() {
    let mut registry = ConnectionRegistry::new();
    let mut mailbox = registry.register(1);
    assert!(registry.is_connected(1));
    assert!(registry.deliver(1, message("hi")));
    assert_eq!(mailbox.try_recv(), Ok(message("hi")));
    assert_eq!(mailbox.try_recv(), Err(TryRecvError::Empty));
}

#[test]
fn deregister_then_deliver_is_not_delivered() {
    let mut registry = ConnectionRegistry::new();
    let mut mailbox = registry.register(1);
    registry.deregister(1);
    assert!(!registry.is_connected(1));
    assert!(!registry.deliver(1, message("hi")));
    assert_eq!(registry.try_deliver(1, message("hi")), Delivery::NotConnected);
    assert_eq!(mailbox.try_recv(), Err(TryRecvError::Disconnected));
}

#[test]
fn deregister_of_an_absent_user_changes_nothing() {
    let mut registry = ConnectionRegistry::new();
    let _mailbox = registry.register(1);
    registry.deregister(2);
    assert_eq!(registry.len(), 1);
    assert!(registry.is_connected(1));
}

#[test]
fn deliver_to_an_unknown_user_is_not_delivered() {
    let registry = ConnectionRegistry::new();
    assert!(!registry.deliver(9, message("hi")));
    assert_eq!(registry.try_deliver(9, message("hi")), Delivery::NotConnected);
}

#[test]
fn second_registration_replaces_the_first() {
    let mut registry = ConnectionRegistry::new();
    let mut first = registry.register(1);
    let mut second = registry.register(1);
    assert_eq!(registry.len(), 1);
    assert!(registry.deliver(1, message("late")));
    assert_eq!(first.try_recv(), Err(TryRecvError::Disconnected));
    assert_eq!(second.try_recv(), Ok(message("late")));
}

#[test]
fn mailbox_is_opened_with_the_fixed_capacity() {
    let mut registry = ConnectionRegistry::new();
    let mailbox = registry.register(1);
    assert_eq!(mailbox.max_capacity(), 128);
    assert_eq!(mailbox.capacity(), 128);
    let again = registry.register(1);
    assert_eq!(again.max_capacity(), MAILBOX_CAPACITY);
}

#[test]
fn mailbox_keeps_order() {
    let mut registry = ConnectionRegistry::new();
    let mut mailbox = registry.register(1);
    assert!(registry.deliver(1, message("one")));
    assert!(registry.deliver(1, message("two")));
    assert!(registry.deliver(1, message("three")));
    assert_eq!(mailbox.try_recv(), Ok(message("one")));
    assert_eq!(mailbox.try_recv(), Ok(message("two")));
    assert_eq!(mailbox.try_recv(), Ok(message("three")));
}

#[test]
fn full_mailbox_drops_the_newest() {
    let mut registry = ConnectionRegistry::new();
    let mut mailbox = registry.register(1);
    assert_eq!(MAILBOX_CAPACITY, 128);
    for i in 0..MAILBOX_CAPACITY {
        assert!(registry.deliver(1, message(&format!("m{}", i))));
    }
    assert_eq!(registry.try_deliver(1, message("overflow")), Delivery::MailboxFull);
    assert!(!registry.deliver(1, message("overflow")));
    for i in 0..MAILBOX_CAPACITY {
        assert_eq!(mailbox.try_recv(), Ok(message(&format!("m{}", i))));
    }
    assert_eq!(mailbox.try_recv(), Err(TryRecvError::Empty));
    assert!(registry.deliver(1, message("after")));
    assert_eq!(mailbox.try_recv(), Ok(message("after")));
}

#[test]
fn closed_mailbox_is_not_delivered_to() {
    let mut registry = ConnectionRegistry::new();
    let mailbox = registry.register(1);
    drop(mailbox);
    assert_eq!(registry.try_deliver(1, message("hi")), Delivery::MailboxClosed);
    assert!(!registry.deliver(1, message("hi")));
    assert!(registry.is_connected(1));
}

#[test]
fn other_users_are_untouched() {
    let mut registry = ConnectionRegistry::new();
    let mut one = registry.register(1);
    let mut two = registry.register(2);
    registry.deregister(1);
    assert!(registry.deliver(2, message("for two")));
    assert_eq!(two.try_recv(), Ok(message("for two")));
    assert_eq!(one.try_recv(), Err(TryRecvError::Disconnected));
    assert_eq!(registry.len(), 1);
}

#[test]
fn delivery_names_each_mailbox_answer() {
    assert_eq!(Delivery::from_enqueue(Enqueue::Accepted), Delivery::Delivered);
    assert_eq!(Delivery::from_enqueue(Enqueue::Full), Delivery::MailboxFull);
    assert_eq!(Delivery::from_enqueue(Enqueue::Closed), Delivery::MailboxClosed);
    assert!(Delivery::Delivered.is_delivered());
    assert!(!Delivery::NotConnected.is_delivered());
    assert!(!Delivery::MailboxFull.is_delivered());
    assert!(!Delivery::MailboxClosed.is_delivered());
}
