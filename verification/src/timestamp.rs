use vstd::prelude::*;

use crate::div_toward_zero;

verus! {

/// Earliest UNIX second that a UTC date-time can hold (January 1, 262144 BCE).
pub const MIN_TIMESTAMP_SECS: i64 = -8_334_601_228_800;

/// Latest UNIX second that a UTC date-time can hold (December 31, 262142 CE, 23:59:59).
pub const MAX_TIMESTAMP_SECS: i64 = 8_210_266_876_799;

pub const NANOS_PER_SEC: u32 = 1_000_000_000;

pub const NANOS_PER_MILLI: u32 = 1_000_000;

pub const SECS_PER_DAY: i64 = 86_400;

/// An instant in UTC: whole seconds since the UNIX epoch plus a fraction in nanoseconds.
/// A fraction of one second or more (below two seconds) marks an instant inside a leap
/// second, which can only follow the 59th second of a minute.
#[derive(Clone, Copy, Debug, PartialEq, Eq, Structural)]
pub struct Timestamp {
    pub secs: i64,
    pub nanos: u32,
}

impl Timestamp {
    /// The instant exists as a UTC date-time.
    pub open spec fn is_valid(self) -> bool {
        &&& MIN_TIMESTAMP_SECS <= self.secs <= MAX_TIMESTAMP_SECS
        &&& self.nanos < 2 * NANOS_PER_SEC
        &&& self.nanos >= NANOS_PER_SEC ==> self.secs % 60 == 59
    }

    /// Builds the instant `secs` seconds and `nanos` nanoseconds after the UNIX epoch,
    /// or `None` where no UTC date-time has these components.
    pub fn new(secs: i64, nanos: u32) -> (r: Option<Timestamp>)
        ensures
            r is Some <==> (Timestamp { secs, nanos }).is_valid(),
            r matches Some(t) ==> t.secs == secs && t.nanos == nanos,
    {
        let t = Timestamp { secs, nanos };
        if secs < MIN_TIMESTAMP_SECS || secs > MAX_TIMESTAMP_SECS {
            return None;
        }
        if nanos >= 2 * NANOS_PER_SEC {
            return None;
        }
        let rem = secs % 60;
        let second_of_minute = if rem < 0 {
            rem + 60
        } else {
            rem
        };
        if nanos >= NANOS_PER_SEC && second_of_minute != 59 {
            return None;
        }
        Some(t)
    }
}

/// Signed length in nanoseconds of the span from `earlier` to `later`, measured as chrono
/// measures it: the difference of the whole seconds and of the fractions, plus one second
/// where `earlier` lies inside a leap second and `later` has a later time of day, minus one
/// second in the mirrored case.
pub open spec fn nanos_between(later: Timestamp, earlier: Timestamp) -> int {
    let later_tod = later.secs % SECS_PER_DAY;
    let earlier_tod = earlier.secs % SECS_PER_DAY;
    let leap_adjust: int = if later_tod > earlier_tod && earlier.nanos >= NANOS_PER_SEC {
        1
    } else if later_tod < earlier_tod && later.nanos >= NANOS_PER_SEC {
        -1
    } else {
        0
    };
    (later.secs - earlier.secs + leap_adjust) * NANOS_PER_SEC + later.nanos - earlier.nanos
}

/// Signed whole milliseconds from `earlier` to `later`, the fraction dropped toward zero.
pub open spec fn millis_between(later: Timestamp, earlier: Timestamp) -> int {
    div_toward_zero(nanos_between(later, earlier), NANOS_PER_MILLI as int)
}

/// Between two valid instants the span in milliseconds fits an `i64` (it is at most about
/// 1.7e16 either way), so a gap measured as `i64` loses nothing.
pub proof fn lemma_millis_between_fits(later: Timestamp, earlier: Timestamp)
    requires
        later.is_valid(),
        earlier.is_valid(),
    ensures
        -20_000_000_000_000_000 <= millis_between(later, earlier) <= 20_000_000_000_000_000,
        i64::MIN <= millis_between(later, earlier) <= i64::MAX,
{
    let n = nanos_between(later, earlier);
    let ls = later.secs as int;
    let es = earlier.secs as int;
    assert(-20_000_000_000_000_000_000_000 <= n <= 20_000_000_000_000_000_000_000) by (
    nonlinear_arith)
        requires
            n == (ls - es + (if ls % 86_400 > es % 86_400 && earlier.nanos >= 1_000_000_000 {
                1int
            } else if ls % 86_400 < es % 86_400 && later.nanos >= 1_000_000_000 {
                -1int
            } else {
                0int
            })) * 1_000_000_000 + later.nanos - earlier.nanos,
            -8_334_601_228_800 <= ls <= 8_210_266_876_799,
            -8_334_601_228_800 <= es <= 8_210_266_876_799,
            later.nanos < 2_000_000_000,
            earlier.nanos < 2_000_000_000,
    ;
    if n >= 0 {
        assert(n / 1_000_000 <= 20_000_000_000_000_000) by (nonlinear_arith)
            requires
                0 <= n <= 20_000_000_000_000_000_000_000,
        ;
    } else {
        assert((-n) / 1_000_000 <= 20_000_000_000_000_000) by (nonlinear_arith)
            requires
                0 < -n <= 20_000_000_000_000_000_000_000,
        ;
    }
}

/// Milliseconds from `earlier` to `later` as chrono computes them:
/// `DateTime::signed_duration_since` followed by `TimeDelta::num_milliseconds`, on the
/// date-times that `DateTime::from_timestamp` builds from the two instants (it builds one
/// for every valid instant). The contract claims that chrono measures the span as
/// `nanos_between` states and drops the sub-millisecond part toward zero.
#[verifier::external_body]
pub(crate) fn chrono_millis_between(later: Timestamp, earlier: Timestamp) -> (r: i64)
    requires
        later.is_valid(),
        earlier.is_valid(),
    ensures
        r == millis_between(later, earlier),
{
    let later = chrono::DateTime::from_timestamp(later.secs, later.nanos).expect("valid instant");
    let earlier = chrono::DateTime::from_timestamp(earlier.secs, earlier.nanos).expect(
        "valid instant",
    );
    later.signed_duration_since(earlier).num_milliseconds()
}

/// The current instant from chrono's `Utc::now`. The contract claims only that the
/// instant is a valid non-leap instant at or after the epoch; which instant it is
/// depends on the clock. (`Utc::now` panics on a clock set before the epoch.)
#[verifier::external_body]
pub(crate) fn chrono_now() -> (r: Timestamp)
    ensures
        r.is_valid(),
        r.secs >= 0,
        r.nanos < NANOS_PER_SEC,
{
    let now = chrono::Utc::now();
    Timestamp { secs: now.timestamp(), nanos: now.timestamp_subsec_nanos() }
}

} // verus!
