//! The correlation engine: which round a reply belongs to, and what the
//! round is told about it.

use crate::instant::{decoding, encoding, RelativeInstant, Span};
use crate::ip_version::{IpVersion, Ipv4Addr, Ipv6Addr};
use crate::packet::{
    identifier_of, is_echo_reply, payload_of, request_bytes, sequence_number_of, EchoReplyPacket,
    EchoRequestPacket, MAX_PAYLOAD_LEN,
};
use crate::random::{random_bytes, RandomSourceError};
use std::collections::HashMap;
use std::marker::PhantomData;
use vstd::prelude::*;

verus! {

broadcast use vstd::std_specs::hash::group_hash_axioms;

/// How the round-trip time of a reply is established.
#[derive(Clone, Copy, Debug, PartialEq, Eq, Structural)]
pub enum RttMode {
    /// Each round remembers when it sent each request. Simple, but a host
    /// that sends replies of its own making can fake the time it takes to
    /// answer.
    Local,
    /// Each request carries the time at which it was sent, and the reply
    /// brings it back. Nothing is remembered per address, but the clock
    /// reading goes over the wire.
    Embedded,
}

/// What a round is told about one reply.
#[derive(Debug, PartialEq, Eq, Structural)]
pub struct Notification<V> {
    /// The address that the reply came from.
    pub source: V,
    /// When the request was sent, as the reply itself says: set in the
    /// embedded mode only.
    pub sent: Option<RelativeInstant>,
    /// When the reply was received.
    pub received: RelativeInstant,
}

/// What the rounds ask of the receive task. `S` is the handle through which
/// a round is notified.
pub enum RoundMessage<S> {
    /// Notify `sender` of the replies with this sequence number.
    Subscribe { sequence_number: u16, sender: S },
    /// Forget the round with this sequence number.
    Unsubscribe { sequence_number: u16 },
}

/// What the receive task does with a datagram.
#[derive(Debug, PartialEq, Eq, Structural)]
pub enum Delivery<V> {
    /// The datagram is not a reply to this engine: it is ignored.
    Discard,
    /// The round with this sequence number is subscribed and gets the
    /// notification.
    Forward { sequence_number: u16, notification: Notification<V> },
    /// The reply belongs to this engine, but no round with its sequence
    /// number is subscribed yet: the subscription may still be on its way.
    Unclaimed { sequence_number: u16, notification: Notification<V> },
}

/// Whether a datagram is a reply to the engine with the given identifier: an
/// echo reply of the family that carries the identifier and, in the embedded
/// mode, starts its payload with a timestamp.
pub open spec fn accepted<V: IpVersion>(identifier: u16, mode: RttMode, datagram: Seq<u8>) -> bool {
    &&& is_echo_reply::<V>(datagram)
    &&& identifier_of(datagram) == identifier
    &&& mode == RttMode::Embedded ==> decoding(payload_of(datagram)) is Some
}

/// Whether `notification` is what a round is told about `datagram`, which
/// came from `source` and was received at `received`: in the embedded mode
/// it holds the timestamp that the payload starts with, in the local mode
/// none.
pub open spec fn describes<V: IpVersion>(
    notification: Notification<V>,
    mode: RttMode,
    source: V,
    datagram: Seq<u8>,
    received: RelativeInstant,
) -> bool {
    &&& notification.source == source
    &&& notification.received == received
    &&& match mode {
        RttMode::Local => notification.sent is None,
        RttMode::Embedded => (notification.sent matches Some(sent) && decoding(
            payload_of(datagram),
        ) == Some(sent@)),
    }
}

/// The state of the receive task: the identifier of the engine and the
/// rounds that are subscribed, by sequence number.
pub struct Receiver<V: IpVersion, S> {
    identifier: u16,
    mode: RttMode,
    subscribers: HashMap<u16, S>,
    _version: PhantomData<V>,
}

impl<V: IpVersion, S> Receiver<V, S> {
    /// The identifier that a reply must carry.
    pub closed spec fn spec_identifier(self) -> u16 {
        self.identifier
    }

    /// How round-trip times are established.
    pub closed spec fn spec_mode(self) -> RttMode {
        self.mode
    }

    /// The subscribed rounds.
    pub closed spec fn subscribers(self) -> Map<u16, S> {
        self.subscribers@
    }

    /// The state of a receive task to which no round is subscribed.
    pub fn new(identifier: u16, mode: RttMode) -> (receiver: Self)
        ensures
            receiver.spec_identifier() == identifier,
            receiver.spec_mode() == mode,
            receiver.subscribers() == Map::<u16, S>::empty(),
    {
        Self { identifier, mode, subscribers: HashMap::new(), _version: PhantomData }
    }

    /// Whether a round with this sequence number is subscribed.
    pub fn is_subscribed(&self, sequence_number: u16) -> (subscribed: bool)
        ensures
            subscribed == self.subscribers().contains_key(sequence_number),
    {
        self.subscribers.contains_key(&sequence_number)
    }

    /// The handle of the round with this sequence number.
    pub fn subscriber(&self, sequence_number: u16) -> (sender: Option<&S>)
        ensures
            match sender {
                Some(s) => self.subscribers().contains_key(sequence_number)
                    && self.subscribers()[sequence_number] == *s,
                None => !self.subscribers().contains_key(sequence_number),
            },
    {
        self.subscribers.get(&sequence_number)
    }

    /// Does what a round asks: a subscription takes the place of an earlier
    /// one with the same sequence number; to unsubscribe a round that is not
    /// subscribed changes nothing.
    pub fn apply(&mut self, message: RoundMessage<S>)
        ensures
            final(self).spec_identifier() == old(self).spec_identifier(),
            final(self).spec_mode() == old(self).spec_mode(),
            final(self).subscribers() == match message {
                RoundMessage::Subscribe { sequence_number, sender } => old(
                    self,
                ).subscribers().insert(sequence_number, sender),
                RoundMessage::Unsubscribe { sequence_number } => old(self).subscribers().remove(
                    sequence_number,
                ),
            },
    {
        match message {
            RoundMessage::Subscribe { sequence_number, sender } => {
                self.subscribers.insert(sequence_number, sender);
            },
            RoundMessage::Unsubscribe { sequence_number } => {
                self.subscribers.remove(&sequence_number);
            },
        }
    }
}

impl<V: IpVersion, S> Receiver<V, S> {
    /// Reads a datagram that came from `source` at `received`: the sequence
    /// number of the round that it answers and what that round is told, or
    /// nothing where the datagram is no reply to this engine.
    pub fn read(&self, source: V, datagram: Vec<u8>, received: RelativeInstant) -> (reading: Option<
        (u16, Notification<V>),
    >)
        ensures
            reading is Some <==> accepted::<V>(
                self.spec_identifier(),
                self.spec_mode(),
                datagram@,
            ),
            reading matches Some((sequence_number, notification)) ==> {
                &&& sequence_number == sequence_number_of(datagram@)
                &&& describes(notification, self.spec_mode(), source, datagram@, received)
            },
    {
        let reply = match EchoReplyPacket::<V>::from_reply(source, datagram) {
            Some(reply) => reply,
            None => {
                return None;
            },
        };
        if reply.identifier() != self.identifier {
            return None;
        }
        let sequence_number = reply.sequence_number();
        match self.mode {
            RttMode::Local => Some((sequence_number, Notification { source, sent: None, received })),
            RttMode::Embedded => match RelativeInstant::decode(reply.payload()) {
                Some(sent) => Some(
                    (sequence_number, Notification { source, sent: Some(sent), received }),
                ),
                None => None,
            },
        }
    }

    /// Decides what becomes of a datagram that came from `source` at
    /// `received`. The subscribed rounds stay as they are.
    pub fn on_datagram(&self, source: V, datagram: Vec<u8>, received: RelativeInstant) -> (delivery:
        Delivery<V>)
        ensures
            delivery is Discard <==> !accepted::<V>(
                self.spec_identifier(),
                self.spec_mode(),
                datagram@,
            ),
            delivery is Forward <==> accepted::<V>(
                self.spec_identifier(),
                self.spec_mode(),
                datagram@,
            ) && self.subscribers().contains_key(sequence_number_of(datagram@)),
            delivery is Unclaimed <==> accepted::<V>(
                self.spec_identifier(),
                self.spec_mode(),
                datagram@,
            ) && !self.subscribers().contains_key(sequence_number_of(datagram@)),
            delivery matches Delivery::Forward { sequence_number, notification } ==> {
                &&& sequence_number == sequence_number_of(datagram@)
                &&& describes(notification, self.spec_mode(), source, datagram@, received)
            },
            delivery matches Delivery::Unclaimed { sequence_number, notification } ==> {
                &&& sequence_number == sequence_number_of(datagram@)
                &&& describes(notification, self.spec_mode(), source, datagram@, received)
            },
    {
        match self.read(source, datagram, received) {
            None => Delivery::Discard,
            Some((sequence_number, notification)) => {
                if self.subscribers.contains_key(&sequence_number) {
                    Delivery::Forward { sequence_number, notification }
                } else {
                    Delivery::Unclaimed { sequence_number, notification }
                }
            },
        }
    }

    /// Does what a round asks, as `apply` does, and says whether this was
    /// the subscription of the round `awaited`, for which a reply is at hand.
    pub fn apply_awaited(&mut self, message: RoundMessage<S>, awaited: u16) -> (claimed: bool)
        ensures
            final(self).spec_identifier() == old(self).spec_identifier(),
            final(self).spec_mode() == old(self).spec_mode(),
            final(self).subscribers() == match message {
                RoundMessage::Subscribe { sequence_number, sender } => old(
                    self,
                ).subscribers().insert(sequence_number, sender),
                RoundMessage::Unsubscribe { sequence_number } => old(self).subscribers().remove(
                    sequence_number,
                ),
            },
            claimed <==> (message matches RoundMessage::Subscribe { sequence_number, .. }
                && sequence_number == awaited),
    {
        let claimed = match &message {
            RoundMessage::Subscribe { sequence_number, .. } => *sequence_number == awaited,
            RoundMessage::Unsubscribe { .. } => false,
        };
        self.apply(message);
        claimed
    }

    /// Takes note of how forwarding a notification to the round with this
    /// sequence number went: a round that could not be reached has gone away
    /// and is forgotten.
    pub fn settle(&mut self, sequence_number: u16, delivered: bool)
        ensures
            final(self).spec_identifier() == old(self).spec_identifier(),
            final(self).spec_mode() == old(self).spec_mode(),
            final(self).subscribers() == if delivered {
                old(self).subscribers()
            } else {
                old(self).subscribers().remove(sequence_number)
            },
    {
        if !delivered {
            self.subscribers.remove(&sequence_number);
        }
    }
}

/// The length of the payload of the requests that a round sends.
pub const PAYLOAD_LEN: usize = 64;

/// The sequence number of the round that is `n` rounds after the round
/// `first`: sequence numbers wrap.
pub open spec fn round_after(first: u16, n: nat) -> u16 {
    ((first as nat + n) % 0x1_0000) as u16
}

/// The round-trip time of a request sent at `sent` whose reply was received
/// at `received`, both in nanoseconds after the reference: no time at all
/// where the reply seems to precede the request.
pub open spec fn rtt(sent: nat, received: nat) -> nat {
    if received >= sent {
        (received - sent) as nat
    } else {
        0
    }
}

/// The payload of a request sent at `now`, in nanoseconds after the
/// reference: the filler, led in the embedded mode by the encoded time.
pub open spec fn payload_for(mode: RttMode, now: nat, filler: Seq<u8>) -> Seq<u8> {
    match mode {
        RttMode::Local => filler,
        RttMode::Embedded => encoding(now) + filler,
    }
}

/// A pinger for IPv4 addresses.
pub type V4Pinger = Pinger<Ipv4Addr>;

/// A pinger for IPv6 addresses.
pub type V6Pinger = Pinger<Ipv6Addr>;

/// The sender's side of an engine for the family `V`: the identifier that
/// its requests carry and the sequence number of its next round.
pub struct Pinger<V: IpVersion> {
    identifier: u16,
    sequence_number: u16,
    mode: RttMode,
    _version: PhantomData<V>,
}

/// What a [`MeasureManyStream`] stands for.
pub struct StreamView<V> {
    /// The identifier of the engine.
    pub identifier: u16,
    /// The sequence number of the round.
    pub sequence_number: u16,
    /// How round-trip times are established.
    pub mode: RttMode,
    /// The addresses to which a request was sent, in the order of sending.
    pub probed: Seq<V>,
    /// The addresses to which a request is still to be sent, the next one
    /// first.
    pub queue: Seq<V>,
    /// When the request was sent to each address that has not answered yet,
    /// by the bits of the address. Empty in the embedded mode.
    pub in_flight: Map<u128, RelativeInstant>,
}

/// One round of measurements: the addresses that are still to be probed and,
/// in the local mode, the probes that are still unanswered.
pub struct MeasureManyStream<V: IpVersion> {
    identifier: u16,
    sequence_number: u16,
    mode: RttMode,
    addresses: Vec<V>,
    next: usize,
    in_flight: HashMap<u128, RelativeInstant>,
}

impl<V: IpVersion> Pinger<V> {
    /// The identifier that the requests of this engine carry.
    pub closed spec fn spec_identifier(self) -> u16 {
        self.identifier
    }

    /// The sequence number of the next round.
    pub closed spec fn spec_sequence_number(self) -> u16 {
        self.sequence_number
    }

    /// How round-trip times are established.
    pub closed spec fn spec_mode(self) -> RttMode {
        self.mode
    }

    /// An engine in the local mode with a random identifier.
    pub fn new() -> (pinger: Result<Self, RandomSourceError>)
        ensures
            pinger matches Ok(p) ==> p.spec_sequence_number() == 0 && p.spec_mode()
                == RttMode::Local,
    {
        Self::with_mode(RttMode::Local)
    }

    /// An engine in the given mode with a random identifier.
    pub fn with_mode(mode: RttMode) -> (pinger: Result<Self, RandomSourceError>)
        ensures
            pinger matches Ok(p) ==> p.spec_sequence_number() == 0 && p.spec_mode() == mode,
    {
        match random_bytes(2) {
            Ok(bytes) => Ok(
                Self::with_identifier((bytes[0] as u16) << 8 | (bytes[1] as u16), mode),
            ),
            Err(error) => Err(error),
        }
    }

    /// An engine in the given mode with the given identifier.
    pub fn with_identifier(identifier: u16, mode: RttMode) -> (pinger: Self)
        ensures
            pinger.spec_identifier() == identifier,
            pinger.spec_sequence_number() == 0,
            pinger.spec_mode() == mode,
    {
        Self { identifier, sequence_number: 0, mode, _version: PhantomData }
    }

    /// The identifier that the requests of this engine carry.
    pub fn identifier(&self) -> (identifier: u16)
        ensures
            identifier == self.spec_identifier(),
    {
        self.identifier
    }

    /// How round-trip times are established.
    pub fn mode(&self) -> (mode: RttMode)
        ensures
            mode == self.spec_mode(),
    {
        self.mode
    }

    /// The state of the receive task of this engine.
    pub fn receiver<S>(&self) -> (receiver: Receiver<V, S>)
        ensures
            receiver.spec_identifier() == self.spec_identifier(),
            receiver.spec_mode() == self.spec_mode(),
            receiver.subscribers() == Map::<u16, S>::empty(),
    {
        Receiver::new(self.identifier, self.mode)
    }

    /// Starts a round for `addresses`: it takes the next sequence number, and
    /// nothing is sent yet.
    pub fn measure_many(&mut self, addresses: Vec<V>) -> (stream: MeasureManyStream<V>)
        ensures
            stream@ == (StreamView {
                identifier: old(self).spec_identifier(),
                sequence_number: old(self).spec_sequence_number(),
                mode: old(self).spec_mode(),
                probed: Seq::<V>::empty(),
                queue: addresses@,
                in_flight: Map::<u128, RelativeInstant>::empty(),
            }),
            stream.wf(),
            final(self).spec_identifier() == old(self).spec_identifier(),
            final(self).spec_mode() == old(self).spec_mode(),
            final(self).spec_sequence_number() == round_after(old(self).spec_sequence_number(), 1),
    {
        let sequence_number = self.sequence_number;
        self.sequence_number = sequence_number.wrapping_add(1);
        let stream = MeasureManyStream {
            identifier: self.identifier,
            sequence_number,
            mode: self.mode,
            addresses,
            next: 0,
            in_flight: HashMap::new(),
        };
        assert(stream@.queue =~= addresses@);
        assert(stream@.probed =~= Seq::<V>::empty());
        stream
    }
}

impl<V: IpVersion> View for MeasureManyStream<V> {
    type V = StreamView<V>;

    closed spec fn view(&self) -> StreamView<V> {
        StreamView {
            identifier: self.identifier,
            sequence_number: self.sequence_number,
            mode: self.mode,
            probed: self.addresses@.take(self.next as int),
            queue: self.addresses@.skip(self.next as int),
            in_flight: self.in_flight@,
        }
    }
}

impl<V: IpVersion> MeasureManyStream<V> {
    /// Only a probed address is in flight.
    pub closed spec fn wf(self) -> bool {
        &&& self.next <= self.addresses@.len()
        &&& forall|bits: u128| #[trigger]
            self.in_flight@.contains_key(bits) ==> exists|i: int|
                0 <= i < self.next && #[trigger] self.addresses@[i].spec_to_u128() == bits
    }
}

/// The length of the random filler in the payload of a request: what the
/// timestamp of the embedded mode leaves of the payload.
pub open spec fn filler_len(mode: RttMode) -> nat {
    match mode {
        RttMode::Local => 64,
        RttMode::Embedded => 52,
    }
}

impl<V: IpVersion> MeasureManyStream<V> {
    /// The sequence number of the round.
    pub fn sequence_number(&self) -> (sequence_number: u16)
        ensures
            sequence_number == self@.sequence_number,
    {
        self.sequence_number
    }

    /// The identifier of the engine.
    pub fn identifier(&self) -> (identifier: u16)
        ensures
            identifier == self@.identifier,
    {
        self.identifier
    }

    /// The message that subscribes this round with the receive task.
    pub fn subscribe<S>(&self, sender: S) -> (message: RoundMessage<S>)
        ensures
            message == (RoundMessage::Subscribe {
                sequence_number: self@.sequence_number,
                sender,
            }),
    {
        RoundMessage::Subscribe { sequence_number: self.sequence_number, sender }
    }

    /// The message that ends the subscription of this round.
    pub fn unsubscribe<S>(&self) -> (message: RoundMessage<S>)
        ensures
            message == (RoundMessage::<S>::Unsubscribe { sequence_number: self@.sequence_number }),
    {
        RoundMessage::Unsubscribe { sequence_number: self.sequence_number }
    }

    /// The address to which the next request goes.
    pub fn peek(&self) -> (addr: Option<V>)
        requires
            self.wf(),
        ensures
            addr == if self@.queue.len() > 0 {
                Some(self@.queue[0])
            } else {
                None
            },
    {
        if self.next < self.addresses.len() {
            Some(self.addresses[self.next])
        } else {
            None
        }
    }

    /// The payload of a request sent at `now` with the given filler.
    pub fn payload(&self, now: RelativeInstant, filler: &[u8]) -> (payload: Vec<u8>)
        ensures
            payload@ == payload_for(self@.mode, now@, filler@),
    {
        let mut payload: Vec<u8> = Vec::new();
        match self.mode {
            RttMode::Local => {},
            RttMode::Embedded => {
                let stamp = now.encode();
                payload.extend_from_slice(stamp.as_slice());
            },
        }
        payload.extend_from_slice(filler);
        assert(payload@ =~= payload_for(self@.mode, now@, filler@));
        payload
    }

    /// The request of this round that is sent at `now` with the given filler.
    pub fn request(&self, now: RelativeInstant, filler: &[u8]) -> (packet: EchoRequestPacket<V>)
        requires
            filler@.len() + 12 <= MAX_PAYLOAD_LEN,
        ensures
            packet@ == request_bytes::<V>(
                self@.identifier,
                self@.sequence_number,
                payload_for(self@.mode, now@, filler@),
            ),
    {
        let payload = self.payload(now, filler);
        EchoRequestPacket::new(self.identifier, self.sequence_number, payload.as_slice())
    }

    /// The next address and the request for it, sent at `now` with a random
    /// filler; nothing where every address was probed.
    pub fn next_request(&self, now: RelativeInstant) -> (next: Result<
        Option<(V, EchoRequestPacket<V>)>,
        RandomSourceError,
    >)
        requires
            self.wf(),
        ensures
            next matches Ok(None) ==> self@.queue.len() == 0,
            next matches Ok(Some((addr, packet))) ==> {
                &&& self@.queue.len() > 0
                &&& addr == self@.queue[0]
                &&& exists|filler: Seq<u8>|
                    filler.len() == filler_len(self@.mode) && #[trigger] request_bytes::<V>(
                        self@.identifier,
                        self@.sequence_number,
                        payload_for(self@.mode, now@, filler),
                    ) == packet@
            },
            next is Err ==> self@.queue.len() > 0,
    {
        let addr = match self.peek() {
            Some(addr) => addr,
            None => {
                return Ok(None);
            },
        };
        let len: usize = match self.mode {
            RttMode::Local => PAYLOAD_LEN,
            RttMode::Embedded => PAYLOAD_LEN - RelativeInstant::ENCODED_LEN,
        };
        match random_bytes(len) {
            Ok(filler) => {
                let packet = self.request(now, filler.as_slice());
                Ok(Some((addr, packet)))
            },
            Err(error) => Err(error),
        }
    }

    /// Takes note that the request to the next address was sent at `sent_at`:
    /// the address leaves the queue and, in the local mode, is in flight from
    /// then on. Gives the address, or nothing where none was left.
    pub fn record_sent(&mut self, sent_at: RelativeInstant) -> (addr: Option<V>)
        requires
            old(self).wf(),
        ensures
            final(self).wf(),
            old(self)@.queue.len() == 0 ==> addr is None && final(self)@ == old(self)@,
            old(self)@.queue.len() > 0 ==> {
                let head = old(self)@.queue[0];
                &&& addr == Some(head)
                &&& final(self)@ == (StreamView {
                    probed: old(self)@.probed.push(head),
                    queue: old(self)@.queue.skip(1),
                    in_flight: match old(self)@.mode {
                        RttMode::Local => old(self)@.in_flight.insert(
                            head.spec_to_u128(),
                            sent_at,
                        ),
                        RttMode::Embedded => old(self)@.in_flight,
                    },
                    ..old(self)@
                })
            },
    {
        if self.next >= self.addresses.len() {
            return None;
        }
        let addr = self.addresses[self.next];
        match self.mode {
            RttMode::Local => {
                self.in_flight.insert(addr.to_u128(), sent_at);
            },
            RttMode::Embedded => {},
        }
        self.next = self.next + 1;
        proof {
            assert(self@.probed =~= old(self)@.probed.push(addr));
            assert(self@.queue =~= old(self)@.queue.skip(1));
            assert(self.addresses@[self.next - 1].spec_to_u128() == addr.spec_to_u128());
        }
        Some(addr)
    }

    /// Takes note of a reply. In the local mode, a reply from an address in
    /// flight ends its flight and gives the address with the time since its
    /// request was sent; one from any other address is ignored. In the
    /// embedded mode the notification itself says when the request was sent.
    pub fn on_notification(&mut self, notification: Notification<V>) -> (answer: Option<(V, Span)>)
        requires
            old(self).wf(),
        ensures
            final(self).wf(),
            final(self)@ == (StreamView {
                in_flight: match old(self)@.mode {
                    RttMode::Local => old(self)@.in_flight.remove(
                        notification.source.spec_to_u128(),
                    ),
                    RttMode::Embedded => old(self)@.in_flight,
                },
                ..old(self)@
            }),
            old(self)@.mode == RttMode::Local && answer is Some ==> old(self)@.probed.contains(
                notification.source,
            ),
            answer is Some <==> match old(self)@.mode {
                RttMode::Local => old(self)@.in_flight.contains_key(
                    notification.source.spec_to_u128(),
                ),
                RttMode::Embedded => notification.sent is Some,
            },
            answer matches Some((addr, span)) ==> {
                &&& addr == notification.source
                &&& span@ == rtt(
                    match old(self)@.mode {
                        RttMode::Local => old(self)@.in_flight[notification.source.spec_to_u128()]@,
                        RttMode::Embedded => notification.sent->0@,
                    },
                    notification.received@,
                )
            },
    {
        proof {
            lemma_in_flight_probed(*self, notification.source);
        }
        let sent = match self.mode {
            RttMode::Local => self.in_flight.remove(&notification.source.to_u128()),
            RttMode::Embedded => notification.sent,
        };
        match sent {
            Some(sent) => Some((notification.source, notification.received - sent)),
            None => None,
        }
    }
}

/// In a round, only an address that was probed is in flight.
pub proof fn lemma_in_flight_probed<V: IpVersion>(round: MeasureManyStream<V>, addr: V)
    requires
        round.wf(),
    ensures
        round@.in_flight.contains_key(addr.spec_to_u128()) ==> round@.probed.contains(addr),
{
    if round@.in_flight.contains_key(addr.spec_to_u128()) {
        let i = choose|i: int|
            0 <= i < round.next && #[trigger] round.addresses@[i].spec_to_u128()
                == addr.spec_to_u128();
        V::lemma_u128(round.addresses@[i], addr);
        assert(round@.probed[i] == addr);
    }
}

/// Sequence numbers come back only after all the others were used: of two
/// rounds that an engine starts fewer than 65536 rounds apart, each has a
/// sequence number of its own.
pub proof fn lemma_rounds_distinct(first: u16, i: nat, j: nat)
    requires
        i < j < i + 0x1_0000,
    ensures
        round_after(first, i) != round_after(first, j),
{
    let a = first as nat + i;
    let b = first as nat + j;
    if a % 0x1_0000 == b % 0x1_0000 {
        assert(b - a == 0x1_0000 * (b / 0x1_0000 - a / 0x1_0000)) by {
            assert(a == 0x1_0000 * (a / 0x1_0000) + a % 0x1_0000);
            assert(b == 0x1_0000 * (b / 0x1_0000) + b % 0x1_0000);
        }
        assert(false);
    }
}

/// The round that is started `n` rounds after one that was itself started
/// `m` rounds after `first` is the one started `m + n` rounds after `first`.
pub proof fn lemma_round_after_sum(first: u16, m: nat, n: nat)
    ensures
        round_after(round_after(first, m), n) == round_after(first, m + n),
{
    let a = first as nat + m;
    assert(a == 0x1_0000 * (a / 0x1_0000) + a % 0x1_0000);
    let b = a % 0x1_0000 + n;
    let c = a + n;
    assert(b == 0x1_0000 * (b / 0x1_0000) + b % 0x1_0000);
    assert(c == 0x1_0000 * (c / 0x1_0000) + c % 0x1_0000);
    assert(c - b == 0x1_0000 * (a / 0x1_0000));
}

} // verus!
