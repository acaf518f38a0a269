use massping::channel::{Outcome, Subscriber};
use massping::instant::{RelativeInstant, Span};
use massping::ip_version::Ipv4Addr;
use massping::packet::EchoRequestPacket;
use massping::pinger::{Notification, Pinger, Receiver, RoundMessage, RttMode};
use tokio::sync::mpsc::error::TryRecvError;
use tokio::sync::mpsc::unbounded_channel;

fn moment(secs: u64, nanos: u32) -> RelativeInstant {
    RelativeInstant::after(Span::new(secs, nanos).unwrap())
}

fn reply(identifier: u16, sequence_number: u16) -> Vec<u8> {
    let request = EchoRequestPacket::<Ipv4Addr>::new(identifier, sequence_number, &[0; 64]);
    let mut bytes = request.as_bytes().to_vec();
    bytes[0] = 0;
    bytes
}

const HOST: Ipv4Addr = Ipv4Addr(0x0a00_0001);

#[test]
fn deliver_notifies_the_subscribed_round() {
    let mut receiver = Receiver::<Ipv4Addr, Subscriber<Ipv4Addr>>::new(7, RttMode::Local);
    let (sender, mut notifications) = unbounded_channel();
    let (other, mut others) = unbounded_channel();
    receiver.apply(RoundMessage::Subscribe { sequence_number: 4, sender });
    receiver.apply(RoundMessage::Subscribe { sequence_number: 5, sender: other });
    let outcome = receiver.deliver(HOST, reply(7, 4), moment(1, 2));
    assert_eq!(outcome, Outcome::Notified { sequence_number: 4 });
    assert_eq!(
        notifications.try_recv(),
        Ok(Notification { source: HOST, sent: None, received: moment(1, 2) })
    );
    assert_eq!(notifications.try_recv(), Err(TryRecvError::Empty));
    assert_eq!(others.try_recv(), Err(TryRecvError::Empty));
    assert!(receiver.is_subscribed(4));
}

#[test]
fn deliver_forgets_a_round_that_has_gone_away() {
    let mut receiver = Receiver::<Ipv4Addr, Subscriber<Ipv4Addr>>::new(7, RttMode::Local);
    let (sender, notifications) = unbounded_channel();
    let (other, _others) = unbounded_channel();
    receiver.apply(RoundMessage::Subscribe { sequence_number: 4, sender });
    receiver.apply(RoundMessage::Subscribe { sequence_number: 5, sender: other });
    drop(notifications);
    let outcome = receiver.deliver(HOST, reply(7, 4), moment(1, 2));
    assert_eq!(outcome, Outcome::Closed { sequence_number: 4 });
    assert!(!receiver.is_subscribed(4));
    assert!(receiver.is_subscribed(5));
}

#[test]
fn deliver_ignores_what_is_no_reply_to_the_engine() {
    let mut receiver = Receiver::<Ipv4Addr, Subscriber<Ipv4Addr>>::new(7, RttMode::Local);
    let (sender, mut notifications) = unbounded_channel();
    receiver.apply(RoundMessage::Subscribe { sequence_number: 4, sender });
    // Another identifier.
    assert_eq!(receiver.deliver(HOST, reply(8, 4), moment(1, 2)), Outcome::Discarded);
    // Another type: an echo request.
    let mut request = reply(7, 4);
    request[0] = 8;
    assert_eq!(receiver.deliver(HOST, request, moment(1, 2)), Outcome::Discarded);
    // A truncated header.
    assert_eq!(receiver.deliver(HOST, vec![0, 0, 0, 0, 0, 7], moment(1, 2)), Outcome::Discarded);
    assert_eq!(notifications.try_recv(), Err(TryRecvError::Empty));
    assert!(receiver.is_subscribed(4));
}

#[test]
fn an_early_reply_goes_to_the_round_that_subscribes_next() {
    let mut receiver = Receiver::<Ipv4Addr, Subscriber<Ipv4Addr>>::new(7, RttMode::Local);
    let outcome = receiver.deliver(HOST, reply(7, 4), moment(1, 2));
    let notification = match outcome {
        Outcome::Unclaimed { sequence_number: 4, notification } => notification,
        other => panic!("claimed: {:?}", other),
    };
    let (unrelated, mut unrelated_notifications) = unbounded_channel();
    let notification = receiver
        .claim(RoundMessage::Subscribe { sequence_number: 3, sender: unrelated }, 4, notification)
        .unwrap();
    let notification =
        receiver.claim(RoundMessage::Unsubscribe { sequence_number: 4 }, 4, notification).unwrap();
    let (sender, mut notifications) = unbounded_channel();
    let left =
        receiver.claim(RoundMessage::Subscribe { sequence_number: 4, sender }, 4, notification);
    assert_eq!(left, None);
    assert_eq!(
        notifications.try_recv(),
        Ok(Notification { source: HOST, sent: None, received: moment(1, 2) })
    );
    assert_eq!(unrelated_notifications.try_recv(), Err(TryRecvError::Empty));
    assert!(receiver.is_subscribed(3));
    assert!(receiver.is_subscribed(4));
}

#[test]
fn forward_reaches_only_a_subscribed_round() {
    let mut receiver = Receiver::<Ipv4Addr, Subscriber<Ipv4Addr>>::new(7, RttMode::Local);
    let (sender, mut notifications) = unbounded_channel();
    receiver.apply(RoundMessage::Subscribe { sequence_number: 4, sender });
    let first = Notification { source: HOST, sent: None, received: moment(1, 2) };
    assert!(!receiver.forward(5, first));
    let second = Notification { source: HOST, sent: None, received: moment(1, 3) };
    assert!(receiver.forward(4, second));
    assert_eq!(
        notifications.try_recv(),
        Ok(Notification { source: HOST, sent: None, received: moment(1, 3) })
    );
}

#[test]
fn a_round_subscribes_itself_when_it_starts() {
    let mut pinger = Pinger::<Ipv4Addr>::with_identifier(7, RttMode::Local);
    let (control, mut messages) = unbounded_channel();
    let (first, _) = pinger.subscribe_round(&control, vec![HOST]).unwrap();
    let (second, mut notifications) = pinger.subscribe_round(&control, vec![HOST]).unwrap();
    assert_eq!(first.sequence_number(), 0);
    assert_eq!(second.sequence_number(), 1);
    assert_eq!(second.peek(), Some(HOST));

    let mut receiver = pinger.receiver();
    assert!(matches!(messages.try_recv(), Ok(RoundMessage::Subscribe { sequence_number: 0, .. })));
    let message = messages.try_recv().unwrap();
    assert!(matches!(message, RoundMessage::Subscribe { sequence_number: 1, .. }));
    receiver.apply(message);
    assert_eq!(
        receiver.deliver(HOST, reply(7, 1), moment(3, 0)),
        Outcome::Notified { sequence_number: 1 }
    );
    assert_eq!(notifications.try_recv().map(|n| n.received), Ok(moment(3, 0)));

    assert!(second.end(&control));
    let message = messages.try_recv().unwrap();
    assert!(matches!(message, RoundMessage::Unsubscribe { sequence_number: 1 }));
    receiver.apply(message);
    assert!(!receiver.is_subscribed(1));
}

#[test]
fn no_round_starts_once_the_receive_task_has_ended() {
    let mut pinger = Pinger::<Ipv4Addr>::with_identifier(7, RttMode::Local);
    let (control, messages) = unbounded_channel();
    let (round, _notifications) = pinger.subscribe_round(&control, vec![HOST]).unwrap();
    drop(messages);
    assert!(pinger.subscribe_round(&control, vec![HOST]).is_none());
    assert!(!round.end(&control));
    // The sequence number of the round that did not start is used up.
    assert_eq!(pinger.measure_many(Vec::new()).sequence_number(), 2);
}
