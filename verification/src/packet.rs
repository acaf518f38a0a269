//! ICMP echo messages in their wire form.
//!
//! An echo message is an 8-byte header and a payload:
//!
//! ```text
//! +-+-+-+-+-+-+-+-+-+-+-+-+-+-+-+-+-+-+-+-+-+-+-+-+-+-+-+-+-+-+-+-+
//! |     Type      |     Code      |          Checksum             |
//! +-+-+-+-+-+-+-+-+-+-+-+-+-+-+-+-+-+-+-+-+-+-+-+-+-+-+-+-+-+-+-+-+
//! |           Identifier          |        Sequence Number        |
//! +-+-+-+-+-+-+-+-+-+-+-+-+-+-+-+-+-+-+-+-+-+-+-+-+-+-+-+-+-+-+-+-+
//! |     Payload ...
//! +-+-+-+-+-
//! ```

use crate::ip_version::IpVersion;
use crate::wire::{lemma_u16_be_roundtrip, u16_from_be, u16_to_be};
use std::marker::PhantomData;
use vstd::prelude::*;

verus! {

/// The length of the header of an echo message.
pub const HEADER_LEN: usize = 8;

/// The longest payload that an echo message can carry in one IP datagram.
pub const MAX_PAYLOAD_LEN: usize = 65_527;

/// The ICMP type of an echo request of the family `V`.
pub open spec fn request_type<V: IpVersion>() -> u8 {
    if V::spec_is_v4() {
        8
    } else {
        128
    }
}

/// The ICMP type of an echo reply of the family `V`.
pub open spec fn reply_type<V: IpVersion>() -> u8 {
    if V::spec_is_v4() {
        0
    } else {
        129
    }
}

/// The bytes of an echo message: type, code 0, checksum, identifier and
/// sequence number in network order, then the payload.
pub open spec fn echo_bytes(
    icmp_type: u8,
    checksum: u16,
    identifier: u16,
    sequence_number: u16,
    payload: Seq<u8>,
) -> Seq<u8> {
    seq![icmp_type, 0u8] + u16_to_be(checksum) + u16_to_be(identifier) + u16_to_be(
        sequence_number,
    ) + payload
}

/// What `pnet_packet::util::checksum` computes for `data` when the 16-bit
/// word at offset `skipword` is left out: the Internet checksum.
pub uninterp spec fn internet_checksum(data: Seq<u8>, skipword: usize) -> u16;

/// The bytes of the echo request of the family `V` with the given fields: the
/// checksum is that of the whole message, taken with the checksum field left
/// out.
pub open spec fn request_bytes<V: IpVersion>(
    identifier: u16,
    sequence_number: u16,
    payload: Seq<u8>,
) -> Seq<u8> {
    let unsummed = echo_bytes(request_type::<V>(), 0, identifier, sequence_number, payload);
    echo_bytes(
        request_type::<V>(),
        internet_checksum(unsummed, 1),
        identifier,
        sequence_number,
        payload,
    )
}

/// Whether `bytes` hold an echo reply of the family `V`: a whole header whose
/// type is that of a reply.
pub open spec fn is_echo_reply<V: IpVersion>(bytes: Seq<u8>) -> bool {
    bytes.len() >= 8 && bytes[0] == reply_type::<V>()
}

/// The identifier in the header of an echo message.
pub open spec fn identifier_of(bytes: Seq<u8>) -> u16
    recommends
        bytes.len() >= 8,
{
    u16_from_be(bytes[4], bytes[5])
}

/// The sequence number in the header of an echo message.
pub open spec fn sequence_number_of(bytes: Seq<u8>) -> u16
    recommends
        bytes.len() >= 8,
{
    u16_from_be(bytes[6], bytes[7])
}

/// What follows the header of an echo message.
pub open spec fn payload_of(bytes: Seq<u8>) -> Seq<u8>
    recommends
        bytes.len() >= 8,
{
    bytes.subrange(8, bytes.len() as int)
}

/// Calls `pnet_packet::util::checksum`, which adds up the 16-bit words of
/// `data` but the one at `skipword` and folds the sum. It adds in 32 bits,
/// which is enough for any buffer of the length asked for here.
#[verifier::external_body]
fn checksum(data: &[u8], skipword: usize) -> (sum: u16)
    requires
        data@.len() <= 0xffff,
    ensures
        sum == internet_checksum(data@, skipword),
{
    pnet_packet::util::checksum(data, skipword)
}

/// An ICMP echo request packet.
///
/// Its view is its bytes.
pub struct EchoRequestPacket<V: IpVersion> {
    buf: Vec<u8>,
    _version: PhantomData<V>,
}

/// An ICMP echo reply packet, with the address it came from.
pub struct EchoReplyPacket<V: IpVersion> {
    source: V,
    buf: Vec<u8>,
}

impl<V: IpVersion> View for EchoRequestPacket<V> {
    type V = Seq<u8>;

    closed spec fn view(&self) -> Seq<u8> {
        self.buf@
    }
}

impl<V: IpVersion> EchoRequestPacket<V> {
    /// Builds the echo request with the given fields and the checksum that
    /// belongs to them.
    pub fn new(identifier: u16, sequence_number: u16, payload: &[u8]) -> (packet: Self)
        requires
            payload@.len() <= MAX_PAYLOAD_LEN,
        ensures
            packet@ == request_bytes::<V>(identifier, sequence_number, payload@),
    {
        let mut packet = Self::with_checksum(identifier, sequence_number, payload, 0);
        let sum = checksum(packet.as_bytes(), 1);
        packet.set_checksum(sum);
        packet
    }

    /// Builds the echo request with the given fields, among them the
    /// checksum.
    pub fn with_checksum(
        identifier: u16,
        sequence_number: u16,
        payload: &[u8],
        checksum: u16,
    ) -> (packet: Self)
        requires
            payload@.len() <= MAX_PAYLOAD_LEN,
        ensures
            packet@ == echo_bytes(
                request_type::<V>(),
                checksum,
                identifier,
                sequence_number,
                payload@,
            ),
    {
        let mut buf: Vec<u8> = Vec::with_capacity(HEADER_LEN + payload.len());
        buf.push(if V::is_v4() { 8 } else { 128 });
        buf.push(0);
        buf.push((checksum >> 8) as u8);
        buf.push(checksum as u8);
        buf.push((identifier >> 8) as u8);
        buf.push(identifier as u8);
        buf.push((sequence_number >> 8) as u8);
        buf.push(sequence_number as u8);
        buf.extend_from_slice(payload);
        assert(buf@ =~= echo_bytes(
            request_type::<V>(),
            checksum,
            identifier,
            sequence_number,
            payload@,
        ));
        Self::from_buf(buf)
    }

    /// Writes `checksum` into the checksum field.
    pub fn set_checksum(&mut self, checksum: u16)
        requires
            old(self)@.len() >= 8,
        ensures
            final(self)@ == old(self)@.update(2, u16_to_be(checksum)[0]).update(
                3,
                u16_to_be(checksum)[1],
            ),
    {
        self.buf.set(2, (checksum >> 8) as u8);
        self.buf.set(3, checksum as u8);
    }

    /// The bytes of the packet.
    pub fn as_bytes(&self) -> (bytes: &[u8])
        ensures
            bytes@ == self@,
    {
        self.buf.as_slice()
    }

    /// Takes `buf` for the bytes of a packet.
    pub fn from_buf(buf: Vec<u8>) -> (packet: Self)
        ensures
            packet@ == buf@,
    {
        Self { buf, _version: PhantomData }
    }
}

impl<V: IpVersion> EchoReplyPacket<V> {
    /// Every reply has a whole header with the type of a reply of its
    /// family.
    #[verifier::type_invariant]
    pub closed spec fn wf(self) -> bool {
        is_echo_reply::<V>(self.buf@)
    }

    /// The bytes of the packet.
    pub closed spec fn bytes(self) -> Seq<u8> {
        self.buf@
    }

    /// The address that the packet came from.
    pub closed spec fn spec_source(self) -> V {
        self.source
    }

    /// Parses an ICMP echo reply packet that came from `source`: `None` where
    /// `buf` is too short for a header or holds another type of message.
    pub fn from_reply(source: V, buf: Vec<u8>) -> (reply: Option<Self>)
        ensures
            reply is Some <==> is_echo_reply::<V>(buf@),
            reply matches Some(r) ==> r.bytes() == buf@ && r.spec_source() == source,
    {
        if buf.len() >= HEADER_LEN && buf[0] == (if V::is_v4() { 0 } else { 129 }) {
            Some(Self::from_reply_unchecked(source, buf))
        } else {
            None
        }
    }

    /// Takes `buf` for an echo reply that came from `source`, without looking
    /// at it.
    pub fn from_reply_unchecked(source: V, buf: Vec<u8>) -> (reply: Self)
        requires
            is_echo_reply::<V>(buf@),
        ensures
            reply.bytes() == buf@,
            reply.spec_source() == source,
    {
        Self { source, buf }
    }

    /// Get the source IP address.
    pub fn source(&self) -> (source: V)
        ensures
            source == self.spec_source(),
    {
        self.source
    }

    /// Get the ICMP packet identifier.
    pub fn identifier(&self) -> (identifier: u16)
        ensures
            identifier == identifier_of(self.bytes()),
    {
        proof {
            use_type_invariant(self);
        }
        (self.buf[4] as u16) << 8 | (self.buf[5] as u16)
    }

    /// Get the ICMP packet sequence number.
    pub fn sequence_number(&self) -> (sequence_number: u16)
        ensures
            sequence_number == sequence_number_of(self.bytes()),
    {
        proof {
            use_type_invariant(self);
        }
        (self.buf[6] as u16) << 8 | (self.buf[7] as u16)
    }

    /// Get the ICMP packet payload.
    pub fn payload(&self) -> (payload: &[u8])
        ensures
            payload@ == payload_of(self.bytes()),
    {
        proof {
            use_type_invariant(self);
        }
        let bytes = self.buf.as_slice();
        &bytes[HEADER_LEN..bytes.len()]
    }

    /// The bytes of the packet.
    pub fn as_bytes(&self) -> (bytes: &[u8])
        ensures
            bytes@ == self.bytes(),
    {
        self.buf.as_slice()
    }
}

/// An echo request whose type is changed into that of a reply parses as a
/// reply with the identifier, the sequence number and the payload that the
/// request was built with.
pub proof fn lemma_request_echoed<V: IpVersion>(
    identifier: u16,
    sequence_number: u16,
    payload: Seq<u8>,
)
    ensures
        ({
            let request = request_bytes::<V>(identifier, sequence_number, payload);
            let reply = request.update(0, reply_type::<V>());
            &&& is_echo_reply::<V>(reply)
            &&& identifier_of(reply) == identifier
            &&& sequence_number_of(reply) == sequence_number
            &&& payload_of(reply) == payload
        }),
{
    let request = request_bytes::<V>(identifier, sequence_number, payload);
    let reply = request.update(0, reply_type::<V>());
    lemma_u16_be_roundtrip(identifier);
    lemma_u16_be_roundtrip(sequence_number);
    assert(payload_of(reply) =~= payload);
}

} // verus!
