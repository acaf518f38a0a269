//! Keeps the set of address families closed.

use super::{Ipv4Addr, Ipv6Addr};
use vstd::prelude::*;

verus! {

/// Implemented for the two address types of this crate and, being out of
/// reach from outside, for no other type.
pub trait Sealed {

}

impl Sealed for Ipv4Addr {

}

impl Sealed for Ipv6Addr {

}

} // verus!
