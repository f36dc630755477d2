use chat_app::registry::ConnectionRegistry;
use chat_app::schema::PandaMessage;
use chat_app::transport::{Inbound, Link, LinkEvent, LinkStep};

#[test]
fn open_registers_the_user() {
    let mut registry = ConnectionRegistry::new();
    let (link, mut mailbox) = Link::open(&mut registry, 1);
    assert_eq!(link, Link::Open);
    assert!(registry.is_connected(1));
    let message = PandaMessage { chat_id: 1, sender_id: 2, content: "hi".to_string(), message_id: 3 };
    assert!(registry.deliver(1, message.clone()));
    assert_eq!(mailbox.try_recv(), Ok(message));
}

#[test]
fn rendered_message_is_written_and_the_loop_goes_on() {
    let mut link = Link::Open;
    assert_eq!(link.handle(LinkEvent::Outbound { rendered: true }), LinkStep::Write);
    assert_eq!(link.handle(LinkEvent::Written { written: true }), LinkStep::Continue);
    assert_eq!(link, Link::Open);
}

#[test]
fn message_that_cannot_be_rendered_is_left_out() {
    let mut link = Link::Open;
    assert_eq!(link.handle(LinkEvent::Outbound { rendered: false }), LinkStep::Skip);
    assert_eq!(link, Link::Open);
}

#[test]
fn failed_write_ends_the_connection() {
    let mut link = Link::Open;
    assert_eq!(link.handle(LinkEvent::Written { written: false }), LinkStep::Disconnect);
    assert_eq!(link, Link::Closed);
}

#[test]
fn close_failure_and_end_of_the_socket_end_the_connection() {
    for inbound in [Inbound::Close, Inbound::Failed, Inbound::Ended] {
        let mut link = Link::Open;
        assert_eq!(link.handle(LinkEvent::Received(inbound)), LinkStep::Disconnect);
        assert_eq!(link, Link::Closed);
    }
    let mut link = Link::Open;
    assert_eq!(link.handle(LinkEvent::Received(Inbound::Frame)), LinkStep::Continue);
    assert_eq!(link, Link::Open);
}

#[test]
fn closed_mailbox_stops_forwarding_only() {
    let mut link = Link::Open;
    assert_eq!(link.handle(LinkEvent::MailboxClosed), LinkStep::StopForwarding);
    assert_eq!(link, Link::Open);
}

#[test]
fn closed_connection_ignores_every_event() {
    for event in [
        LinkEvent::Outbound { rendered: true },
        LinkEvent::Outbound { rendered: false },
        LinkEvent::MailboxClosed,
        LinkEvent::Written { written: true },
        LinkEvent::Written { written: false },
        LinkEvent::Received(Inbound::Frame),
        LinkEvent::Received(Inbound::Close),
    ] {
        let mut link = Link::Closed;
        assert_eq!(link.handle(event), LinkStep::Ignore);
        assert_eq!(link, Link::Closed);
    }
}

#[test]
fn close_deregisters_the_user() {
    let mut registry = ConnectionRegistry::new();
    let (mut link, _mailbox) = Link::open(&mut registry, 1);
    let (_other, _other_mailbox) = Link::open(&mut registry, 2);
    link.close(&mut registry, 1);
    assert_eq!(link, Link::Closed);
    assert!(!registry.is_connected(1));
    assert!(registry.is_connected(2));
    let message = PandaMessage { chat_id: 1, sender_id: 2, content: "hi".to_string(), message_id: 3 };
    assert!(!registry.deliver(1, message));
}
