use crate::error::{failure, Error, ErrorCode};
use vstd::prelude::*;

verus! {

/// The earliest second since the Unix epoch that a timestamp can hold
/// (the first second of the year -262143).
pub const MIN_TIMESTAMP_SECS: i64 = -8_334_601_315_200i64;

/// The latest second since the Unix epoch that a timestamp can hold
/// (the last second of the year 262142).
pub const MAX_TIMESTAMP_SECS: i64 = 8_210_266_876_799i64;

/// A point in time in UTC: whole seconds since the Unix epoch and the
/// nanoseconds within that second. In the last second of a minute the
/// nanoseconds may run on to just under two seconds, which is how a leap second
/// is written (as chrono writes it).
#[derive(Clone, Copy, Debug, PartialEq, Eq, Structural)]
pub struct Timestamp {
    secs: i64,
    nanos: u32,
}

/// `chrono::Utc::now`, taken apart into seconds since the Unix epoch and
/// nanoseconds within the second. The value depends on the clock, so only its
/// range is stated: chrono reads the system time as a duration since the epoch
/// (and panics on a clock set before it), so the seconds are not negative, the
/// nanoseconds are those of a duration, and the date is one chrono represents.
#[verifier::external_body]
fn utc_now() -> (r: (i64, u32))
    ensures
        0 <= r.0 <= MAX_TIMESTAMP_SECS,
        r.1 < 1_000_000_000,
{
    let now = chrono::Utc::now();
    (now.timestamp(), now.timestamp_subsec_nanos())
}

/// Whether `nanos` nanoseconds may follow second `secs`: less than a second,
/// or, in the last second of a minute, less than two seconds (a leap second).
pub open spec fn valid_nanos(secs: int, nanos: int) -> bool {
    ||| 0 <= nanos < 1_000_000_000
    ||| (1_000_000_000 <= nanos < 2_000_000_000 && secs % 60 == 59)
}

/// Whether second `secs` is the last second of a minute. The earliest second
/// that a timestamp can hold starts a minute, so the count from it tells.
fn is_last_second_of_minute(secs: i64) -> (b: bool)
    requires
        MIN_TIMESTAMP_SECS <= secs <= MAX_TIMESTAMP_SECS,
    ensures
        b == (secs % 60 == 59),
{
    let offset = (secs - MIN_TIMESTAMP_SECS) as u64;
    proof {
        assert(MIN_TIMESTAMP_SECS % 60 == 0);
        assert(offset as int == secs - MIN_TIMESTAMP_SECS);
        assert((secs - MIN_TIMESTAMP_SECS) % 60 == secs % 60) by {
            assert(MIN_TIMESTAMP_SECS == -138_910_021_920 * 60);
            vstd::arithmetic::div_mod::lemma_mod_add_multiples_vanish(secs as int, 60);
            lemma_mod_shift(secs as int, 138_910_021_920);
        }
    }
    offset % 60 == 59
}

proof fn lemma_mod_shift(x: int, k: nat)
    ensures
        (x + k * 60) % 60 == x % 60,
    decreases k,
{
    if k > 0 {
        lemma_mod_shift(x, (k - 1) as nat);
        vstd::arithmetic::div_mod::lemma_mod_add_multiples_vanish(x + (k - 1) * 60, 60);
        assert(x + k * 60 == (x + (k - 1) * 60) + 60);
    }
}

/// Whether seconds and nanoseconds make a timestamp: the second in range and
/// nanoseconds that may follow it.
fn parts_valid(secs: i64, nanos: u32) -> (b: bool)
    ensures
        b == (MIN_TIMESTAMP_SECS <= secs <= MAX_TIMESTAMP_SECS && valid_nanos(secs as int, nanos as int)),
{
    if secs < MIN_TIMESTAMP_SECS || secs > MAX_TIMESTAMP_SECS {
        return false;
    }
    if nanos < 1_000_000_000 {
        true
    } else if nanos < 2_000_000_000 {
        is_last_second_of_minute(secs)
    } else {
        false
    }
}

impl Timestamp {
    #[verifier::type_invariant]
    spec fn inv(self) -> bool {
        &&& MIN_TIMESTAMP_SECS <= self.secs <= MAX_TIMESTAMP_SECS
        &&& valid_nanos(self.secs as int, self.nanos as int)
    }

    /// Whole seconds since the Unix epoch.
    pub closed spec fn spec_secs(self) -> int {
        self.secs as int
    }

    /// Nanoseconds within the second.
    pub closed spec fn spec_nanos(self) -> int {
        self.nanos as int
    }

    /// Milliseconds since the Unix epoch.
    pub open spec fn spec_millis(self) -> int {
        self.spec_secs() * 1000 + self.spec_nanos() / 1_000_000
    }

    /// Seconds and nanoseconds that the wire form of a timestamp may carry: a
    /// second in range and nanoseconds that may follow it.
    pub open spec fn wire_valid(seconds: int, nanos: int) -> bool {
        &&& MIN_TIMESTAMP_SECS <= seconds <= MAX_TIMESTAMP_SECS
        &&& valid_nanos(seconds, nanos)
    }

    /// The timestamp that wire seconds and nanoseconds give, if any.
    pub closed spec fn spec_from_wire(seconds: int, nanos: int) -> Option<Timestamp> {
        if Self::wire_valid(seconds, nanos) {
            Some(Timestamp { secs: seconds as i64, nanos: nanos as u32 })
        } else {
            None
        }
    }

    /// The seconds and nanoseconds of the wire form of this timestamp.
    pub open spec fn wire_of(self) -> (int, int) {
        (self.spec_secs(), self.spec_nanos())
    }

    /// The timestamp of the seconds and nanoseconds that the wire carries;
    /// negative nanoseconds, a second of nanoseconds or more (two seconds or
    /// more in the last second of a minute), and seconds out of range are
    /// refused, as chrono refuses them.
    pub fn from_wire(seconds: i64, nanos: i32) -> (r: Result<Timestamp, Error>)
        ensures
            match r {
                Ok(t) => Self::spec_from_wire(seconds as int, nanos as int) == Some(t),
                Err(e) => Self::spec_from_wire(seconds as int, nanos as int) is None && failure(e)
                    == (ErrorCode::Internal, "Failed to convert timestamp"@),
            },
    {
        if 0 <= nanos && parts_valid(seconds, nanos as u32) {
            Ok(Timestamp { secs: seconds, nanos: nanos as u32 })
        } else {
            Err(Error::internal("Failed to convert timestamp"))
        }
    }

    /// The seconds and nanoseconds that the wire carries for this timestamp.
    pub fn to_wire(&self) -> (w: (i64, i32))
        ensures
            (w.0 as int, w.1 as int) == self.wire_of(),
            Self::wire_valid(w.0 as int, w.1 as int),
    {
        proof {
            use_type_invariant(self);
        }
        (self.secs, self.nanos as i32)
    }

    proof fn lemma_from_wire_of(t: Timestamp)
        requires
            Self::wire_valid(t.spec_secs(), t.spec_nanos()),
        ensures
            Self::spec_from_wire(t.wire_of().0, t.wire_of().1) == Some(t),
    {
        assert((t.secs as int) as i64 == t.secs);
        assert((t.nanos as int) as u32 == t.nanos);
    }

    /// The timestamp with the given seconds and nanoseconds, if they make one.
    pub fn from_parts(secs: i64, nanos: u32) -> (r: Option<Timestamp>)
        ensures
            r is Some <==> (MIN_TIMESTAMP_SECS <= secs <= MAX_TIMESTAMP_SECS && valid_nanos(
                secs as int,
                nanos as int,
            )),
            r matches Some(t) ==> t.spec_secs() == secs && t.spec_nanos() == nanos,
    {
        if parts_valid(secs, nanos) {
            Some(Timestamp { secs, nanos })
        } else {
            None
        }
    }

    /// Whole seconds since the Unix epoch.
    pub fn seconds(&self) -> (s: i64)
        ensures
            s == self.spec_secs(),
            MIN_TIMESTAMP_SECS <= s <= MAX_TIMESTAMP_SECS,
    {
        proof {
            use_type_invariant(self);
        }
        self.secs
    }

    /// Nanoseconds within the second.
    pub fn subsec_nanos(&self) -> (n: u32)
        ensures
            n == self.spec_nanos(),
            valid_nanos(self.spec_secs(), n as int),
    {
        proof {
            use_type_invariant(self);
        }
        self.nanos
    }

    /// Milliseconds since the Unix epoch.
    pub fn millis(&self) -> (m: i64)
        ensures
            m == self.spec_millis(),
            MIN_TIMESTAMP_SECS * 1000 <= m < MAX_TIMESTAMP_SECS * 1000 + 2000,
    {
        proof {
            use_type_invariant(self);
        }
        self.secs * 1000 + (self.nanos / 1_000_000) as i64
    }

    /// The current time, cut to whole microseconds.
    pub fn now() -> (t: Timestamp)
        ensures
            t.spec_secs() >= 0,
            t.spec_nanos() % 1000 == 0,
    {
        let (secs, nanos) = utc_now();
        Timestamp { secs, nanos: nanos / 1_000 * 1_000 }
    }
}

/// A timestamp sent over the wire and read back is the same timestamp.
pub proof fn law_wire_round_trip(t: Timestamp)
    requires
        Timestamp::wire_valid(t.spec_secs(), t.spec_nanos()),
    ensures
        Timestamp::spec_from_wire(t.wire_of().0, t.wire_of().1) == Some(t),
{
    Timestamp::lemma_from_wire_of(t);
}

/// Wire nanoseconds below zero give no timestamp.
pub proof fn law_negative_nanos_refused(seconds: int, nanos: int)
    requires
        nanos < 0,
    ensures
        Timestamp::spec_from_wire(seconds, nanos) is None,
{
}

/// The claims of an authentication token: the user it was issued to and the
/// second since the Unix epoch at which it expires.
#[derive(Clone, Debug)]
pub struct Auth {
    pub user_id: String,
    pub exp: u64,
}

} // verus!
