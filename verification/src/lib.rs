//! ICMP echo measurement: the packet and timestamp codecs, and the rules by
//! which replies are matched to the rounds that asked for them.
//!
//! An engine sends echo requests to many addresses over one socket and
//! measures the time until each is answered. All requests of an engine carry
//! its identifier, and all requests of one round the sequence number of the
//! round. A receive task reads every reply and passes it on to the round
//! that is subscribed under its sequence number.
//!
//! Nothing here opens a socket or waits: the caller sends what the rounds
//! build and hands in what it receives.

pub use self::{
    ip_version::IpVersion,
    pinger::{MeasureManyStream, Pinger, V4Pinger, V6Pinger},
};

pub mod channel;
pub mod instant;
pub mod ip_version;
pub mod packet;
pub mod pinger;
pub mod random;
pub mod wire;
