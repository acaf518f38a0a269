//! Monotonic clock readings and their fixed-width wire encoding.

use crate::wire::{
    lemma_u32_be_roundtrip, lemma_u64_be_roundtrip, u32_from_be, u32_to_be, u64_from_be,
    u64_to_be,
};
use std::ops::Sub;
use std::time::{Duration, Instant};
use vstd::prelude::*;
use vstd::std_specs::ops::SubSpecImpl;

verus! {

/// Nanoseconds in one second.
pub const NANOS_PER_SEC: u32 = 1_000_000_000;

/// The largest amount of time, in nanoseconds, that a [`Span`] can hold: all
/// the seconds of a `u64` and a fraction just below one second.
pub open spec fn max_nanos() -> nat {
    0xffff_ffff_ffff_ffff * 1_000_000_000 + 999_999_999
}

/// A reading of std's monotonic clock, of which nothing is seen here.
#[verifier::external_type_specification]
#[verifier::external_body]
pub struct ExInstant(Instant);

/// `Instant::now` reads the monotonic clock: nothing is known of the reading.
pub assume_specification[ Instant::now ]() -> Instant;

/// `Instant::elapsed` measures the time since the reading was taken: nothing
/// is known of the amount.
pub assume_specification[ Instant::elapsed ](start: &Instant) -> Duration;

/// `Duration::as_secs` gives the whole seconds of a duration.
pub assume_specification[ Duration::as_secs ](duration: &Duration) -> u64;

/// `Duration::subsec_nanos` gives the fractional part of a duration in
/// nanoseconds, which std documents to be less than one second.
pub assume_specification[ Duration::subsec_nanos ](duration: &Duration) -> (nanos: u32)
    ensures
        nanos < NANOS_PER_SEC,
;

/// A non-negative amount of time with nanosecond resolution.
///
/// Its view is the amount in nanoseconds.
#[derive(Clone, Copy, Debug, PartialEq, Eq, Structural)]
pub struct Span {
    secs: u64,
    nanos: u32,
}

impl View for Span {
    type V = nat;

    closed spec fn view(&self) -> nat {
        (self.secs as nat) * (NANOS_PER_SEC as nat) + (self.nanos as nat)
    }
}

impl Span {
    /// The fraction is kept below one second, so that every amount has one
    /// representation.
    #[verifier::type_invariant]
    pub closed spec fn wf(self) -> bool {
        self.nanos < NANOS_PER_SEC
    }

    /// No time at all.
    pub fn zero() -> (span: Span)
        ensures
            span@ == 0,
    {
        Span { secs: 0, nanos: 0 }
    }

    /// The span of `secs` seconds and `nanos` nanoseconds, where `nanos` may
    /// itself exceed one second. `None` where the sum is more than a span can
    /// hold.
    pub fn new(secs: u64, nanos: u32) -> (span: Option<Span>)
        ensures
            span is None <==> secs as nat * 1_000_000_000 + nanos as nat > max_nanos(),
            span matches Some(s) ==> s@ == secs as nat * 1_000_000_000 + nanos as nat,
    {
        let carry: u32 = nanos / NANOS_PER_SEC;
        let rest: u32 = nanos % NANOS_PER_SEC;
        match secs.checked_add(carry as u64) {
            Some(whole) => Some(Span { secs: whole, nanos: rest }),
            None => None,
        }
    }

    /// The whole seconds of the span.
    pub fn as_secs(&self) -> (secs: u64)
        ensures
            secs == self@ / 1_000_000_000,
    {
        proof {
            use_type_invariant(self);
        }
        self.secs
    }

    /// The part of the span below one second, in nanoseconds.
    pub fn subsec_nanos(&self) -> (nanos: u32)
        ensures
            nanos == self@ % 1_000_000_000,
    {
        proof {
            use_type_invariant(self);
        }
        self.nanos
    }

    /// `self - rhs`, or no time at all where `rhs` is the longer one.
    pub closed spec fn spec_saturating_sub(self, rhs: Span) -> Span {
        if self.secs < rhs.secs || (self.secs == rhs.secs && self.nanos < rhs.nanos) {
            Span { secs: 0, nanos: 0 }
        } else if self.nanos >= rhs.nanos {
            Span { secs: (self.secs - rhs.secs) as u64, nanos: (self.nanos - rhs.nanos) as u32 }
        } else {
            Span {
                secs: (self.secs - rhs.secs - 1) as u64,
                nanos: (self.nanos + NANOS_PER_SEC - rhs.nanos) as u32,
            }
        }
    }

    /// `self - rhs`, or no time at all where `rhs` is the longer one.
    pub fn saturating_sub(self, rhs: Span) -> (span: Span)
        ensures
            span == self.spec_saturating_sub(rhs),
            span@ == if self@ >= rhs@ {
                self@ - rhs@
            } else {
                0
            },
    {
        proof {
            use_type_invariant(self);
            use_type_invariant(rhs);
        }
        if self.secs < rhs.secs || (self.secs == rhs.secs && self.nanos < rhs.nanos) {
            Span { secs: 0, nanos: 0 }
        } else if self.nanos >= rhs.nanos {
            Span { secs: self.secs - rhs.secs, nanos: self.nanos - rhs.nanos }
        } else {
            Span { secs: self.secs - rhs.secs - 1, nanos: self.nanos + NANOS_PER_SEC - rhs.nanos }
        }
    }
}

/// Every span is at most `max_nanos()` long.
pub proof fn lemma_span_bounded(span: Span)
    requires
        span.wf(),
    ensures
        span@ <= max_nanos(),
{
}

/// Two spans of the same length are the same span.
pub proof fn lemma_span_unique(a: Span, b: Span)
    requires
        a.wf(),
        b.wf(),
        a@ == b@,
    ensures
        a == b,
{
}

/// The clock reading against which the others are measured.
#[derive(Debug, Clone, Copy)]
pub struct ReferenceInstant {
    instant: Instant,
}

/// A clock reading, held as the time that had passed since the reference.
///
/// Its view is that time in nanoseconds.
#[derive(Clone, Copy, Debug, PartialEq, Eq, Structural)]
pub struct RelativeInstant {
    relative: Span,
}

impl ReferenceInstant {
    /// Takes the reference reading from the monotonic clock.
    pub fn new() -> Self {
        Self { instant: Instant::now() }
    }

    /// Reads the monotonic clock: the reading is the time that has passed
    /// since the reference, whole seconds and the fraction of the last one.
    pub fn now(&self) -> (reading: RelativeInstant)
        ensures
            reading.wf(),
    {
        let elapsed = self.instant.elapsed();
        let secs = elapsed.as_secs();
        let nanos = elapsed.subsec_nanos();
        RelativeInstant { relative: Span { secs, nanos } }
    }
}

impl View for RelativeInstant {
    type V = nat;

    closed spec fn view(&self) -> nat {
        self.relative@
    }
}

/// The bytes that stand for a reading taken `nanos` nanoseconds after the
/// reference: the whole seconds in eight bytes, then the rest in four, each
/// most significant byte first.
pub open spec fn encoding(nanos: nat) -> Seq<u8> {
    u64_to_be((nanos / 1_000_000_000) as u64) + u32_to_be((nanos % 1_000_000_000) as u32)
}

/// The reading that the first twelve bytes of a buffer stand for, in
/// nanoseconds after the reference. There is none where the buffer is
/// shorter, or where its seconds and nanoseconds add up to more than a
/// reading can hold.
pub open spec fn decoding(bytes: Seq<u8>) -> Option<nat> {
    if bytes.len() < 12 {
        None
    } else {
        let secs = u64_from_be(bytes.subrange(0, 8));
        let nanos = u32_from_be(bytes.subrange(8, 12));
        let total = secs as nat * 1_000_000_000 + nanos as nat;
        if total > max_nanos() {
            None
        } else {
            Some(total)
        }
    }
}

impl RelativeInstant {
    /// The number of bytes of an encoded reading.
    pub const ENCODED_LEN: usize = 12;

    /// Whether the reading is one that the clock can give.
    pub closed spec fn wf(self) -> bool {
        self.relative.wf()
    }

    /// The reading taken `relative` after the reference.
    pub fn after(relative: Span) -> (reading: RelativeInstant)
        ensures
            reading@ == relative@,
    {
        RelativeInstant { relative }
    }

    /// The time between the reference and this reading.
    pub fn relative(&self) -> (relative: Span)
        ensures
            relative@ == self@,
    {
        self.relative
    }

    /// Writes the reading in its wire form.
    pub fn encode(&self) -> (bytes: [u8; 12])
        ensures
            bytes@ == encoding(self@),
    {
        let secs = self.relative.as_secs();
        let nanos = self.relative.subsec_nanos();
        let bytes = [
            (secs >> 56) as u8,
            (secs >> 48) as u8,
            (secs >> 40) as u8,
            (secs >> 32) as u8,
            (secs >> 24) as u8,
            (secs >> 16) as u8,
            (secs >> 8) as u8,
            secs as u8,
            (nanos >> 24) as u8,
            (nanos >> 16) as u8,
            (nanos >> 8) as u8,
            nanos as u8,
        ];
        assert(bytes@ =~= encoding(self@));
        bytes
    }

    /// Reads a reading from the first bytes of `buf`.
    pub fn decode(buf: &[u8]) -> (reading: Option<RelativeInstant>)
        ensures
            match reading {
                Some(r) => decoding(buf@) == Some(r@),
                None => decoding(buf@) is None,
            },
            buf@.len() < 12 ==> reading is None,
            buf@.len() >= 12 && u64_from_be(buf@.subrange(0, 8)) as nat * 1_000_000_000
                + u32_from_be(buf@.subrange(8, 12)) as nat > max_nanos() ==> reading is None,
    {
        if buf.len() < 12 {
            return None;
        }
        let secs = (buf[0] as u64) << 56 | (buf[1] as u64) << 48 | (buf[2] as u64) << 40 | (
        buf[3] as u64) << 32 | (buf[4] as u64) << 24 | (buf[5] as u64) << 16 | (buf[6] as u64) << 8
            | (buf[7] as u64);
        let nanos = (buf[8] as u32) << 24 | (buf[9] as u32) << 16 | (buf[10] as u32) << 8 | (
        buf[11] as u32);
        proof {
            let head = buf@.subrange(0, 8);
            let tail = buf@.subrange(8, 12);
            assert(forall|i: int| 0 <= i < 8 ==> head[i] == buf@[i]);
            assert(forall|i: int| 0 <= i < 4 ==> tail[i] == buf@[8 + i]);
            assert(secs == u64_from_be(head));
            assert(nanos == u32_from_be(tail));
        }
        match Span::new(secs, nanos) {
            Some(relative) => Some(RelativeInstant { relative }),
            None => None,
        }
    }
}

impl SubSpecImpl for RelativeInstant {
    open spec fn obeys_sub_spec() -> bool {
        true
    }

    open spec fn sub_req(self, rhs: RelativeInstant) -> bool {
        true
    }

    closed spec fn sub_spec(self, rhs: RelativeInstant) -> Span {
        self.relative.spec_saturating_sub(rhs.relative)
    }
}

impl Sub for RelativeInstant {
    type Output = Span;

    /// The time from `rhs` to `self`, or none at all where `rhs` is the later
    /// reading.
    fn sub(self, rhs: RelativeInstant) -> (span: Span)
        ensures
            span@ == if self@ >= rhs@ {
                self@ - rhs@
            } else {
                0
            },
    {
        self.relative.saturating_sub(rhs.relative)
    }
}

/// Two readings at the same distance from the reference are the same
/// reading.
pub proof fn lemma_reading_unique(a: RelativeInstant, b: RelativeInstant)
    requires
        a.wf(),
        b.wf(),
        a@ == b@,
    ensures
        a == b,
{
    lemma_span_unique(a.relative, b.relative);
}

/// A reading that is written and read back is the same reading.
pub proof fn lemma_decode_encode(nanos: nat)
    requires
        nanos <= max_nanos(),
    ensures
        decoding(encoding(nanos)) == Some(nanos),
{
    let secs = (nanos / 1_000_000_000) as u64;
    let rest = (nanos % 1_000_000_000) as u32;
    let bytes = encoding(nanos);
    assert(bytes.subrange(0, 8) =~= u64_to_be(secs));
    assert(bytes.subrange(8, 12) =~= u32_to_be(rest));
    lemma_u64_be_roundtrip(secs);
    lemma_u32_be_roundtrip(rest);
}

/// Every reading is read back from the bytes that it is written as.
pub proof fn lemma_reading_round_trip(reading: RelativeInstant)
    requires
        reading.wf(),
    ensures
        decoding(encoding(reading@)) == Some(reading@),
{
    lemma_span_bounded(reading.relative);
    lemma_decode_encode(reading@);
}

} // verus!
