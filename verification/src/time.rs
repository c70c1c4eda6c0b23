//! Timestamps carried in requests.

use vstd::prelude::*;

verus! {

/// The largest valid nanoseconds part of a timestamp.
pub const MAX_NANOS: u32 = 999_999_999;

/// A point in time, as seconds and nanoseconds since the Unix epoch.
///
/// The nanoseconds part is always at most [`MAX_NANOS`].
#[derive(Clone, Copy, Debug, PartialEq, Eq, Structural, Hash, PartialOrd, Ord)]
pub struct UnixTime {
    seconds: i64,
    nanos: u32,
}

impl UnixTime {
    #[verifier::type_invariant]
    spec fn valid(self) -> bool {
        self.nanos <= MAX_NANOS
    }

    /// The seconds part.
    pub closed spec fn spec_seconds(self) -> i64 {
        self.seconds
    }

    /// The nanoseconds part.
    pub closed spec fn spec_nanos(self) -> u32 {
        self.nanos
    }

    /// The time `seconds` plus `nanos` nanoseconds, if `nanos` is at most
    /// [`MAX_NANOS`].
    pub fn new(seconds: i64, nanos: u32) -> (r: Option<UnixTime>)
        ensures
            r is Some <==> nanos <= MAX_NANOS,
            r matches Some(t) ==> t.spec_seconds() == seconds && t.spec_nanos() == nanos,
    {
        if nanos > MAX_NANOS {
            None
        } else {
            Some(UnixTime { seconds, nanos })
        }
    }

    /// The time held in a request's timestamp fields: the seconds field read
    /// as a signed number.
    pub fn from_timespec(seconds: u64, nanos: u32) -> (r: Option<UnixTime>)
        ensures
            r is Some <==> nanos <= MAX_NANOS,
            r matches Some(t) ==> t.spec_seconds() == seconds as i64 && t.spec_nanos() == nanos,
    {
        UnixTime::new(seconds as i64, nanos)
    }

    /// The seconds part.
    pub fn timestamp_seconds(&self) -> (r: i64)
        ensures
            r == self.spec_seconds(),
    {
        self.seconds
    }

    /// The nanoseconds part; at most [`MAX_NANOS`].
    pub fn timestamp_subsec_nanos(&self) -> (r: u32)
        ensures
            r == self.spec_nanos(),
            r <= MAX_NANOS,
    {
        proof {
            use_type_invariant(self);
        }
        self.nanos
    }
}

} // verus!
