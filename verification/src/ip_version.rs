//! The two address families.

use vstd::prelude::*;

pub(crate) mod private;

verus! {

/// An IPv4 address, held as its 32 bits in network order.
#[derive(Clone, Copy, Debug, PartialEq, Eq, Hash, Structural)]
pub struct Ipv4Addr(pub u32);

/// An IPv6 address, held as its 128 bits in network order.
#[derive(Clone, Copy, Debug, PartialEq, Eq, Hash, Structural)]
pub struct Ipv6Addr(pub u128);

/// An address of either family.
#[derive(Clone, Copy, Debug, PartialEq, Eq, Hash, Structural)]
pub enum IpAddr {
    V4(Ipv4Addr),
    V6(Ipv6Addr),
}

impl Ipv4Addr {
    /// The address `a.b.c.d`.
    pub fn new(a: u8, b: u8, c: u8, d: u8) -> (addr: Ipv4Addr)
        ensures
            addr.0 == (a as u32) << 24 | (b as u32) << 16 | (c as u32) << 8 | (d as u32),
    {
        Ipv4Addr((a as u32) << 24 | (b as u32) << 16 | (c as u32) << 8 | (d as u32))
    }

    /// The address with the given bits.
    pub fn from_bits(bits: u32) -> (addr: Ipv4Addr)
        ensures
            addr.0 == bits,
    {
        Ipv4Addr(bits)
    }

    /// The bits of the address.
    pub fn to_bits(self) -> (bits: u32)
        ensures
            bits == self.0,
    {
        self.0
    }
}

impl Ipv6Addr {
    /// The address with the given bits.
    pub fn from_bits(bits: u128) -> (addr: Ipv6Addr)
        ensures
            addr.0 == bits,
    {
        Ipv6Addr(bits)
    }

    /// The bits of the address.
    pub fn to_bits(self) -> (bits: u128)
        ensures
            bits == self.0,
    {
        self.0
    }
}

/// Either an [`Ipv4Addr`] or an [`Ipv6Addr`].
pub trait IpVersion: Copy + private::Sealed {
    /// Whether the family is IPv4. Where it is not, it is IPv6.
    spec fn spec_is_v4() -> bool;

    /// Whether the family is IPv4. Where it is not, it is IPv6.
    fn is_v4() -> (v4: bool)
        ensures
            v4 == Self::spec_is_v4(),
    ;

    /// The address as one of either family.
    spec fn spec_to_ip_addr(self) -> IpAddr;

    /// The address, where it is of this family.
    spec fn spec_from_ip_addr(addr: IpAddr) -> Option<Self>;

    /// The bits of the address as a number of 128 bits.
    spec fn spec_to_u128(self) -> u128;

    /// The address as one of either family.
    fn to_ip_addr(self) -> (addr: IpAddr)
        ensures
            addr == self.spec_to_ip_addr(),
    ;

    /// The address, where it is of this family.
    fn from_ip_addr(addr: IpAddr) -> (own: Option<Self>)
        ensures
            own == Self::spec_from_ip_addr(addr),
    ;

    /// The bits of the address as a number of 128 bits.
    fn to_u128(self) -> (bits: u128)
        ensures
            bits == self.spec_to_u128(),
    ;

    /// An address of this family is found again in the address of either
    /// family that it was turned into, and in no address of the other family.
    proof fn lemma_ip_addr(self, addr: IpAddr)
        ensures
            Self::spec_from_ip_addr(addr) == Some(self) <==> addr == self.spec_to_ip_addr(),
            Self::spec_is_v4() <==> self.spec_to_ip_addr() is V4,
    ;

    /// Two addresses of one family with the same bits are the same address.
    proof fn lemma_u128(self, other: Self)
        ensures
            self.spec_to_u128() == other.spec_to_u128() <==> self == other,
    ;
}

impl IpVersion for Ipv4Addr {
    open spec fn spec_is_v4() -> bool {
        true
    }

    fn is_v4() -> (v4: bool) {
        true
    }

    open spec fn spec_to_ip_addr(self) -> IpAddr {
        IpAddr::V4(self)
    }

    open spec fn spec_from_ip_addr(addr: IpAddr) -> Option<Self> {
        match addr {
            IpAddr::V4(v4) => Some(v4),
            IpAddr::V6(_) => None,
        }
    }

    open spec fn spec_to_u128(self) -> u128 {
        self.0 as u128
    }

    fn to_ip_addr(self) -> (addr: IpAddr) {
        IpAddr::V4(self)
    }

    fn from_ip_addr(addr: IpAddr) -> (own: Option<Self>) {
        match addr {
            IpAddr::V4(v4) => Some(v4),
            IpAddr::V6(_) => None,
        }
    }

    fn to_u128(self) -> (bits: u128) {
        self.0 as u128
    }

    proof fn lemma_ip_addr(self, addr: IpAddr) {
    }

    proof fn lemma_u128(self, other: Self) {
    }
}

impl IpVersion for Ipv6Addr {
    open spec fn spec_is_v4() -> bool {
        false
    }

    fn is_v4() -> (v4: bool) {
        false
    }

    open spec fn spec_to_ip_addr(self) -> IpAddr {
        IpAddr::V6(self)
    }

    open spec fn spec_from_ip_addr(addr: IpAddr) -> Option<Self> {
        match addr {
            IpAddr::V4(_) => None,
            IpAddr::V6(v6) => Some(v6),
        }
    }

    open spec fn spec_to_u128(self) -> u128 {
        self.0
    }

    fn to_ip_addr(self) -> (addr: IpAddr) {
        IpAddr::V6(self)
    }

    fn from_ip_addr(addr: IpAddr) -> (own: Option<Self>) {
        match addr {
            IpAddr::V4(_) => None,
            IpAddr::V6(v6) => Some(v6),
        }
    }

    fn to_u128(self) -> (bits: u128) {
        self.0
    }

    proof fn lemma_ip_addr(self, addr: IpAddr) {
    }

    proof fn lemma_u128(self, other: Self) {
    }
}

} // verus!
