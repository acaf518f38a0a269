//! The channels between the rounds and the receive task: one on which the
//! rounds subscribe, and one for each round on which it is notified.

use crate::instant::RelativeInstant;
use crate::ip_version::IpVersion;
use crate::packet::sequence_number_of;
use crate::pinger::{
    accepted, describes, round_after, Delivery, MeasureManyStream, Notification, Pinger, Receiver,
    RoundMessage, StreamView,
};
use tokio::sync::mpsc::{UnboundedReceiver, UnboundedSender};
use vstd::prelude::*;

verus! {

/// The sending half of tokio's channel without bound, of which nothing is
/// seen here.
#[verifier::external_type_specification]
#[verifier::external_body]
#[verifier::reject_recursive_types(T)]
pub struct ExUnboundedSender<T>(UnboundedSender<T>);

/// The receiving half of tokio's channel without bound, of which nothing is
/// seen here.
#[verifier::external_type_specification]
#[verifier::external_body]
#[verifier::reject_recursive_types(T)]
pub struct ExUnboundedReceiver<T>(UnboundedReceiver<T>);

/// The handle through which a round is notified.
pub type Subscriber<V> = UnboundedSender<Notification<V>>;

/// The handle through which the rounds reach the receive task.
pub type Control<V> = UnboundedSender<RoundMessage<Subscriber<V>>>;

/// What became of a datagram.
#[derive(Debug, PartialEq, Eq, Structural)]
pub enum Outcome<V> {
    /// The datagram is not a reply to this engine: it was ignored.
    Discarded,
    /// The round with this sequence number was notified.
    Notified { sequence_number: u16 },
    /// The round with this sequence number has gone away: its subscription
    /// was removed.
    Closed { sequence_number: u16 },
    /// The reply belongs to this engine, but no round with its sequence
    /// number is subscribed yet: the subscription may still be on its way.
    Unclaimed { sequence_number: u16, notification: Notification<V> },
}

/// Calls `tokio::sync::mpsc::unbounded_channel`, which makes the two halves
/// of a new channel.
#[verifier::external_body]
fn notification_channel<V: IpVersion>() -> (halves: (
    Subscriber<V>,
    UnboundedReceiver<Notification<V>>,
)) {
    tokio::sync::mpsc::unbounded_channel()
}

/// Calls `UnboundedSender::send`, which never waits. It fails where the
/// receiving half of the channel was closed or dropped, which the round
/// decides: nothing is known of the outcome.
#[verifier::external_body]
fn notify<V: IpVersion>(sender: &Subscriber<V>, notification: Notification<V>) -> (delivered: bool) {
    sender.send(notification).is_ok()
}

/// Calls `UnboundedSender::send`, which never waits. It fails where the
/// receive task has ended: nothing is known of the outcome.
#[verifier::external_body]
fn ask<V: IpVersion>(control: &Control<V>, message: RoundMessage<Subscriber<V>>) -> (delivered:
    bool) {
    control.send(message).is_ok()
}

impl<V: IpVersion> Receiver<V, Subscriber<V>> {
    /// Handles a datagram that came from `source` at `received`: a reply to
    /// this engine goes to the round that is subscribed under its sequence
    /// number, and a round that has gone away is forgotten.
    pub fn deliver(&mut self, source: V, datagram: Vec<u8>, received: RelativeInstant) -> (outcome:
        Outcome<V>)
        ensures
            final(self).spec_identifier() == old(self).spec_identifier(),
            final(self).spec_mode() == old(self).spec_mode(),
            outcome is Discarded <==> !accepted::<V>(
                old(self).spec_identifier(),
                old(self).spec_mode(),
                datagram@,
            ),
            outcome is Unclaimed <==> accepted::<V>(
                old(self).spec_identifier(),
                old(self).spec_mode(),
                datagram@,
            ) && !old(self).subscribers().contains_key(sequence_number_of(datagram@)),
            outcome matches Outcome::Unclaimed { sequence_number, notification } ==> {
                &&& sequence_number == sequence_number_of(datagram@)
                &&& describes(notification, old(self).spec_mode(), source, datagram@, received)
            },
            outcome matches Outcome::Notified { sequence_number } ==> sequence_number
                == sequence_number_of(datagram@),
            outcome matches Outcome::Closed { sequence_number } ==> sequence_number
                == sequence_number_of(datagram@),
            final(self).subscribers() == if outcome is Closed {
                old(self).subscribers().remove(sequence_number_of(datagram@))
            } else {
                old(self).subscribers()
            },
    {
        match self.on_datagram(source, datagram, received) {
            Delivery::Discard => Outcome::Discarded,
            Delivery::Unclaimed { sequence_number, notification } => Outcome::Unclaimed {
                sequence_number,
                notification,
            },
            Delivery::Forward { sequence_number, notification } => {
                if self.forward(sequence_number, notification) {
                    Outcome::Notified { sequence_number }
                } else {
                    Outcome::Closed { sequence_number }
                }
            },
        }
    }

    /// Sends `notification` to the round with this sequence number and says
    /// whether it was reached. A round that is not reached, because it is not
    /// subscribed or has gone away, is not subscribed afterwards.
    pub fn forward(&mut self, sequence_number: u16, notification: Notification<V>) -> (delivered:
        bool)
        ensures
            final(self).spec_identifier() == old(self).spec_identifier(),
            final(self).spec_mode() == old(self).spec_mode(),
            delivered ==> old(self).subscribers().contains_key(sequence_number),
            final(self).subscribers() == if delivered {
                old(self).subscribers()
            } else {
                old(self).subscribers().remove(sequence_number)
            },
    {
        let delivered = match self.subscriber(sequence_number) {
            Some(sender) => notify(sender, notification),
            None => false,
        };
        self.settle(sequence_number, delivered);
        delivered
    }

    /// Does what a round asks while the reply of the round `awaited` is at
    /// hand: where the message subscribes that round, the notification goes
    /// to it at once. Gives the notification back where it was not sent.
    pub fn claim(
        &mut self,
        message: RoundMessage<Subscriber<V>>,
        awaited: u16,
        notification: Notification<V>,
    ) -> (unclaimed: Option<Notification<V>>)
        ensures
            final(self).spec_identifier() == old(self).spec_identifier(),
            final(self).spec_mode() == old(self).spec_mode(),
            unclaimed is None <==> (message matches RoundMessage::Subscribe { sequence_number, .. }
                && sequence_number == awaited),
            unclaimed matches Some(n) ==> n == notification,
            match message {
                RoundMessage::Subscribe { sequence_number, sender } => {
                    ||| final(self).subscribers() == old(self).subscribers().insert(
                        sequence_number,
                        sender,
                    )
                    ||| sequence_number == awaited && final(self).subscribers() == old(
                        self,
                    ).subscribers().remove(sequence_number)
                },
                RoundMessage::Unsubscribe { sequence_number } => final(self).subscribers() == old(
                    self,
                ).subscribers().remove(sequence_number),
            },
    {
        if self.apply_awaited(message, awaited) {
            let ghost subscribed = self.subscribers();
            self.forward(awaited, notification);
            proof {
                assert(subscribed.remove(awaited) =~= old(self).subscribers().remove(awaited));
            }
            None
        } else {
            Some(notification)
        }
    }
}

impl<V: IpVersion> Pinger<V> {
    /// Starts a round for `addresses` and subscribes it with the receive
    /// task. Gives the round and the channel on which it is notified, or
    /// nothing where the receive task has ended. The sequence number is used
    /// up either way.
    pub fn subscribe_round(&mut self, control: &Control<V>, addresses: Vec<V>) -> (round: Option<
        (MeasureManyStream<V>, UnboundedReceiver<Notification<V>>),
    >)
        ensures
            final(self).spec_identifier() == old(self).spec_identifier(),
            final(self).spec_mode() == old(self).spec_mode(),
            final(self).spec_sequence_number() == round_after(old(self).spec_sequence_number(), 1),
            round matches Some((stream, _)) ==> stream.wf() && stream@ == (StreamView {
                identifier: old(self).spec_identifier(),
                sequence_number: old(self).spec_sequence_number(),
                mode: old(self).spec_mode(),
                probed: Seq::<V>::empty(),
                queue: addresses@,
                in_flight: Map::<u128, RelativeInstant>::empty(),
            }),
    {
        let stream = self.measure_many(addresses);
        let (sender, receiver) = notification_channel::<V>();
        if ask(control, stream.subscribe(sender)) {
            Some((stream, receiver))
        } else {
            None
        }
    }
}

impl<V: IpVersion> MeasureManyStream<V> {
    /// Tells the receive task that this round is over. Says whether the
    /// task was reached; a round can end after its engine.
    pub fn end(&self, control: &Control<V>) -> (delivered: bool) {
        ask(control, self.unsubscribe())
    }
}

} // verus!
