//! Points in time and spans of time, counted in nanoseconds.

use std::time::Duration;
use std::time::UNIX_EPOCH;
use vstd::prelude::*;

verus! {

/// Nanoseconds in one second.
pub const NANOS_PER_SEC: u128 = 1_000_000_000;

/// The nanoseconds in `secs` whole seconds and `nanos` nanoseconds.
pub open spec fn nanos_of(secs: u64, nanos: u32) -> nat {
    (secs * 1_000_000_000 + nanos) as nat
}

/// The latest instant that the system clock can show.
pub open spec fn clock_max() -> nat {
    nanos_of(u64::MAX, 999_999_999)
}

/// How long a key stays valid once it was handed out.
#[derive(Clone, Copy, Debug)]
pub struct Validity {
    secs: u64,
    nanos: u32,
}

impl View for Validity {
    type V = nat;

    /// The span in nanoseconds.
    closed spec fn view(&self) -> nat {
        nanos_of(self.secs, self.nanos)
    }
}

impl Validity {
    /// A span of `secs` seconds and `nanos` nanoseconds.
    pub fn new(secs: u64, nanos: u32) -> (v: Self)
        ensures
            v@ == nanos_of(secs, nanos),
    {
        Validity { secs, nanos }
    }

    /// A span of `secs` whole seconds.
    pub fn from_secs(secs: u64) -> (v: Self)
        ensures
            v@ == nanos_of(secs, 0),
    {
        Validity { secs, nanos: 0 }
    }

    /// The span in nanoseconds.
    pub fn as_nanos(&self) -> (n: u128)
        ensures
            n == self@,
    {
        let secs: u128 = self.secs as u128;
        let nanos: u128 = self.nanos as u128;
        secs * NANOS_PER_SEC + nanos
    }

    /// No span is longer than `u64::MAX` seconds and `u32::MAX` nanoseconds.
    pub proof fn lemma_bounded(self)
        ensures
            self@ <= nanos_of(u64::MAX, u32::MAX),
    {
    }
}

/// A point in time, as the nanoseconds that have passed since the UNIX epoch.
#[derive(Clone, Copy, Debug, PartialEq, Eq, Structural)]
pub struct Timestamp {
    nanos: u128,
}

impl View for Timestamp {
    type V = nat;

    /// The nanoseconds since the UNIX epoch.
    closed spec fn view(&self) -> nat {
        self.nanos as nat
    }
}

impl Timestamp {
    /// Whether the system clock can show this instant.
    pub open spec fn on_clock(self) -> bool {
        self@ <= clock_max()
    }

    /// The instant `secs` seconds and `nanos` nanoseconds after the UNIX epoch.
    pub fn from_unix(secs: u64, nanos: u32) -> (t: Self)
        ensures
            t@ == nanos_of(secs, nanos),
    {
        let s: u128 = secs as u128;
        let n: u128 = nanos as u128;
        Timestamp { nanos: s * NANOS_PER_SEC + n }
    }

    /// The nanoseconds since the UNIX epoch.
    pub fn as_nanos(&self) -> (n: u128)
        ensures
            n == self@,
    {
        self.nanos
    }

    /// The whole seconds since the UNIX epoch; what is left of a second is
    /// dropped.
    pub fn unix_secs(&self) -> (secs: u128)
        ensures
            secs == self@ / 1_000_000_000,
    {
        self.nanos / NANOS_PER_SEC
    }

    /// Whether this instant lies strictly before `other`.
    pub fn is_before(&self, other: &Timestamp) -> (b: bool)
        ensures
            b == (self@ < other@),
    {
        self.nanos < other.nanos
    }

    /// The instant that lies `validity` after this one.
    pub fn plus(&self, validity: Validity) -> (t: Self)
        requires
            self@ + validity@ <= u128::MAX,
        ensures
            t@ == self@ + validity@,
    {
        Timestamp { nanos: self.nanos + validity.as_nanos() }
    }

    /// Reads the system clock. A clock that is set before the UNIX epoch
    /// reads as the epoch itself.
    pub fn now() -> (t: Self)
        ensures
            t.on_clock(),
    {
        let ahead = match epoch_elapsed() {
            Some(d) => Some((d.as_secs(), d.subsec_nanos())),
            None => None,
        };
        Timestamp::from_elapsed(ahead)
    }

    /// The instant that a clock shows which is ahead of the UNIX epoch by
    /// `ahead`, given in whole seconds and the nanoseconds beyond them. A
    /// clock that is behind the epoch, `None`, reads as the epoch itself.
    pub fn from_elapsed(ahead: Option<(u64, u32)>) -> (t: Self)
        ensures
            t@ == match ahead {
                Some((secs, nanos)) => nanos_of(secs, nanos),
                None => 0,
            },
    {
        match ahead {
            Some((secs, nanos)) => Timestamp::from_unix(secs, nanos),
            None => Timestamp { nanos: 0 },
        }
    }
}

/// `SystemTime::elapsed` on `UNIX_EPOCH`: the time by which the system clock
/// is ahead of the epoch, or `None` where the clock is behind it. Nothing is
/// claimed of the span that comes back.
#[verifier::external_body]
fn epoch_elapsed() -> Option<Duration> {
    match UNIX_EPOCH.elapsed() {
        Ok(d) => Some(d),
        Err(_) => None,
    }
}

/// `Duration::as_secs`: the whole seconds of a span. Nothing is claimed of
/// the number.
pub assume_specification[ Duration::as_secs ](d: &Duration) -> (secs: u64);

/// `Duration::subsec_nanos`: the part of a span below one second, in
/// nanoseconds, which is always less than one billion.
pub assume_specification[ Duration::subsec_nanos ](d: &Duration) -> (nanos: u32)
    ensures
        nanos < 1_000_000_000,
;

} // verus!
