//! Instants on the UTC time line, held as whole seconds since the Unix epoch
//! plus a sub-second nanosecond part, within the range that `chrono` can
//! represent.
use vstd::prelude::*;

verus! {

/// Earliest representable second (the first second of year -262143).
pub const MIN_UNIX_SECS: i64 = -8334601315200;

/// Latest representable second (the last second of year 262142).
pub const MAX_UNIX_SECS: i64 = 8210266876799;

/// Nanoseconds in one second.
pub const NANOS_PER_SEC: u32 = 1_000_000_000;

/// Nanoseconds in one minute, as a mathematical integer.
pub open spec fn nanos_per_minute() -> int {
    60int * 1_000_000_000
}

/// The earliest instant, in nanoseconds since the epoch.
pub open spec fn min_instant() -> int {
    MIN_UNIX_SECS * 1_000_000_000
}

/// The latest instant, in nanoseconds since the epoch.
pub open spec fn max_instant() -> int {
    MAX_UNIX_SECS * 1_000_000_000 + 999_999_999
}

/// Whole seconds in a span of `d` nanoseconds, rounded toward zero.
pub open spec fn trunc_seconds(d: int) -> int {
    if d >= 0 {
        d / 1_000_000_000
    } else {
        -((-d) / 1_000_000_000)
    }
}

/// A point in time. Its view is the number of nanoseconds since the Unix epoch.
#[derive(Clone, Copy, Debug, PartialEq, Eq, Structural)]
pub struct Timestamp {
    secs: i64,
    nanos: u32,
}

impl View for Timestamp {
    type V = int;

    closed spec fn view(&self) -> int {
        self.secs * 1_000_000_000 + self.nanos
    }
}

/// Reads the system clock: whole seconds since the epoch and the sub-second
/// nanoseconds. Calls `chrono::Utc::now`, which panics before the epoch and
/// builds its value with `DateTime::from_timestamp(.., subsec_nanos).unwrap()`,
/// so the seconds are in range and the nanoseconds below one second. Nothing
/// else is claimed: the value depends on the clock.
#[verifier::external_body]
fn clock_now_parts() -> (r: (i64, u32))
    ensures
        0 <= r.0 <= MAX_UNIX_SECS,
        r.1 < NANOS_PER_SEC,
{
    let now = chrono::Utc::now();
    (now.timestamp(), now.timestamp_subsec_nanos())
}

impl Timestamp {
    /// The instant `minutes` minutes after `self`.
    pub closed spec fn after_minutes(self, minutes: int) -> Timestamp {
        Timestamp { secs: (self.secs + minutes * 60) as i64, nanos: self.nanos }
    }

    /// Moving `minutes` minutes later adds that many minutes to the view,
    /// whenever the result stays in the representable range.
    pub broadcast proof fn lemma_after_minutes(self, minutes: int)
        requires
            0 <= minutes,
            self@ + minutes * nanos_per_minute() <= max_instant(),
            min_instant() <= self@,
        ensures
            #[trigger] self.after_minutes(minutes)@ == self@ + minutes * nanos_per_minute(),
    {
        let s = self.secs as int;
        let n = self.nanos as int;
        assert(s * 1_000_000_000 + n + minutes * nanos_per_minute() == (s + minutes * 60)
            * 1_000_000_000 + n) by (nonlinear_arith);
        assert(s + minutes * 60 <= i64::MAX) by (nonlinear_arith)
            requires
                (s + minutes * 60) * 1_000_000_000 + n <= MAX_UNIX_SECS * 1_000_000_000 + 999_999_999,
                0 <= n,
        ;
        assert(s + minutes * 60 >= i64::MIN) by (nonlinear_arith)
            requires
                s * 1_000_000_000 + n >= MIN_UNIX_SECS * 1_000_000_000,
                n <= 4294967295,
                0 <= minutes,
        ;
    }

    #[verifier::type_invariant]
    closed spec fn well_formed(self) -> bool {
        &&& MIN_UNIX_SECS <= self.secs <= MAX_UNIX_SECS
        &&& self.nanos < NANOS_PER_SEC
    }

    /// The instant `secs` seconds plus `nanos` nanoseconds after the epoch, if
    /// `secs` lies in the representable range and `nanos` is below one second.
    pub fn from_unix(secs: i64, nanos: u32) -> (r: Option<Timestamp>)
        ensures
            r is Some <==> (MIN_UNIX_SECS <= secs <= MAX_UNIX_SECS && nanos < NANOS_PER_SEC),
            r matches Some(t) ==> t@ == secs * 1_000_000_000 + nanos,
    {
        if MIN_UNIX_SECS <= secs && secs <= MAX_UNIX_SECS && nanos < NANOS_PER_SEC {
            Some(Timestamp { secs, nanos })
        } else {
            None
        }
    }

    /// The current time, read from the system clock.
    pub fn now() -> (r: Timestamp)
        ensures
            0 <= r@ <= max_instant(),
    {
        let (secs, nanos) = clock_now_parts();
        Timestamp { secs, nanos }
    }

    /// Whole seconds since the epoch (rounded down).
    pub fn unix_seconds(&self) -> (r: i64)
        ensures
            r * 1_000_000_000 <= self@ < r * 1_000_000_000 + 1_000_000_000,
    {
        proof { use_type_invariant(self); }
        self.secs
    }

    /// Nanoseconds past the last whole second.
    pub fn subsec_nanos(&self) -> (r: u32)
        ensures
            r < NANOS_PER_SEC,
            self@ == self.unix_seconds_spec() * 1_000_000_000 + r,
    {
        proof { use_type_invariant(self); }
        self.nanos
    }

    /// Whole seconds since the epoch, in specifications.
    pub closed spec fn unix_seconds_spec(self) -> int {
        self.secs as int
    }

    /// Every instant lies in the representable range (what
    /// `lemma_after_minutes` asks of it).
    pub fn check_range(&self)
        ensures
            min_instant() <= self@ <= max_instant(),
    {
        proof { use_type_invariant(self); }
    }

    /// Whether `self` is strictly later than `other`.
    pub fn is_after(&self, other: &Timestamp) -> (r: bool)
        ensures
            r == (self@ > other@),
    {
        proof {
            use_type_invariant(self);
            use_type_invariant(other);
        }
        self.secs > other.secs || (self.secs == other.secs && self.nanos > other.nanos)
    }

    /// The signed span from `earlier` to `self`, in nanoseconds.
    pub fn nanos_since(&self, earlier: &Timestamp) -> (r: i128)
        ensures
            r == self@ - earlier@,
    {
        proof {
            use_type_invariant(self);
            use_type_invariant(earlier);
        }
        let a: i128 = (self.secs as i128) * 1_000_000_000 + (self.nanos as i128);
        let b: i128 = (earlier.secs as i128) * 1_000_000_000 + (earlier.nanos as i128);
        a - b
    }

    /// Whole seconds from `earlier` to `self`, rounded toward zero.
    pub fn whole_seconds_since(&self, earlier: &Timestamp) -> (r: i64)
        ensures
            r == trunc_seconds(self@ - earlier@),
    {
        proof {
            use_type_invariant(self);
            use_type_invariant(earlier);
        }
        let d = self.nanos_since(earlier);
        if d >= 0 {
            let q: u128 = (d as u128) / 1_000_000_000u128;
            assert(q <= 20_000_000_000_000u128);
            q as i64
        } else {
            let q: u128 = ((-d) as u128) / 1_000_000_000u128;
            assert(q <= 20_000_000_000_000u128);
            -(q as i64)
        }
    }

    /// Whether the instant `minutes` minutes after `self` is representable.
    pub fn can_add_minutes(&self, minutes: u16) -> (r: bool)
        ensures
            r == (self@ + minutes * nanos_per_minute() <= max_instant()),
    {
        proof {
            use_type_invariant(self);
            let s = self.secs as int;
            let n = self.nanos as int;
            let m = minutes as int;
            assert(s * 1_000_000_000 + n + m * nanos_per_minute() == (s + m * 60) * 1_000_000_000 + n)
                by (nonlinear_arith);
            assert((s + m * 60 <= MAX_UNIX_SECS) == ((s + m * 60) * 1_000_000_000 + n
                <= MAX_UNIX_SECS * 1_000_000_000 + 999_999_999)) by (nonlinear_arith)
                requires
                    0 <= n < 1_000_000_000,
            ;
        }
        self.secs <= MAX_UNIX_SECS - (minutes as i64) * 60
    }

    /// The instant `minutes` minutes after `self`.
    pub fn plus_minutes(&self, minutes: u16) -> (r: Timestamp)
        requires
            self@ + minutes * nanos_per_minute() <= max_instant(),
        ensures
            r == self.after_minutes(minutes as int),
            r@ == self@ + minutes * nanos_per_minute(),
    {
        proof {
            use_type_invariant(self);
            let s = self.secs as int;
            let n = self.nanos as int;
            let m = minutes as int;
            assert(s * 1_000_000_000 + n + m * nanos_per_minute() == (s + m * 60) * 1_000_000_000 + n)
                by (nonlinear_arith);
            assert(s + m * 60 <= MAX_UNIX_SECS) by (nonlinear_arith)
                requires
                    (s + m * 60) * 1_000_000_000 + n <= MAX_UNIX_SECS * 1_000_000_000 + 999_999_999,
                    0 <= n,
            ;
        }
        let secs = self.secs + (minutes as i64) * 60;
        Timestamp { secs, nanos: self.nanos }
    }
}

} // verus!
