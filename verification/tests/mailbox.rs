use ockam_relay::relay::mailbox::{Mailbox, MAILBOX_CAPACITY};
use ockam_relay::{Address, RelayMessage, Route};

fn message(n: u8) -> RelayMessage {
    RelayMessage::new(
        vec![n],
        Route::from_hops(vec![Address::local("actor")]),
        Route::from_hops(vec![Address::local("caller")]),
    )
}

#[test]
fn mailbox_capacity_is_thirty_two() {
    assert_eq!(MAILBOX_CAPACITY, 32);
}

#[test]
fn mailbox_starts_empty() {
    let mut mailbox = Mailbox::new();
    assert!(mailbox.is_empty());
    assert!(!mailbox.is_full());
    assert_eq!(mailbox.len(), 0);
    assert!(mailbox.receive().is_none());
}

#[test]
fn mailbox_delivers_in_send_order() {
    let mut mailbox = Mailbox::new();
    for n in 0..10u8 {
        assert!(mailbox.try_send(message(n)).is_ok());
    }
    assert_eq!(mailbox.len(), 10);
    for n in 0..10u8 {
        assert_eq!(mailbox.receive(), Some(message(n)));
    }
    assert!(mailbox.receive().is_none());
}

#[test]
fn mailbox_keeps_order_when_sends_and_receives_alternate() {
    let mut mailbox = Mailbox::new();
    assert!(mailbox.try_send(message(1)).is_ok());
    assert!(mailbox.try_send(message(2)).is_ok());
    assert_eq!(mailbox.receive(), Some(message(1)));
    assert!(mailbox.try_send(message(3)).is_ok());
    assert_eq!(mailbox.receive(), Some(message(2)));
    assert_eq!(mailbox.receive(), Some(message(3)));
    assert!(mailbox.is_empty());
}

#[test]
fn full_mailbox_hands_the_message_back_and_drops_nothing() {
    let mut mailbox = Mailbox::new();
    for n in 0..32u8 {
        assert!(mailbox.try_send(message(n)).is_ok());
    }
    assert!(mailbox.is_full());
    assert_eq!(mailbox.len(), 32);
    assert_eq!(mailbox.try_send(message(99)), Err(message(99)));
    assert_eq!(mailbox.len(), 32);
    assert_eq!(mailbox.receive(), Some(message(0)));
    assert!(!mailbox.is_full());
    assert!(mailbox.try_send(message(99)).is_ok());
    for n in 1..32u8 {
        assert_eq!(mailbox.receive(), Some(message(n)));
    }
    assert_eq!(mailbox.receive(), Some(message(99)));
    assert!(mailbox.receive().is_none());
}
