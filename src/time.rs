use vstd::prelude::*;

verus! {

pub const NANOS_PER_SECOND: i64 = 1_000_000_000;

/// A date-time shown in a local offset: a UTC instant (whole seconds since
/// the Unix epoch and a sub-second part) and the offset east of UTC, in
/// seconds, that it is shown in.
#[derive(Clone, Copy, Debug, PartialEq, Eq, Structural)]
pub struct LocalDateTime {
    pub seconds: i64,
    pub nanos: u32,
    pub offset_seconds: i32,
}

impl LocalDateTime {
    /// The instant as nanoseconds since the epoch.
    pub open spec fn nanos_since_epoch(self) -> int {
        self.seconds * NANOS_PER_SECOND + self.nanos
    }

    pub fn timestamp(&self) -> (r: i64)
        ensures
            r == self.seconds,
    {
        self.seconds
    }

    pub fn timestamp_subsec_nanos(&self) -> (r: u32)
        ensures
            r == self.nanos,
    {
        self.nanos
    }

    /// The instant as nanoseconds since the epoch, where that fits an `i64`.
    pub fn timestamp_nanos(&self) -> (r: Option<i64>)
        ensures
            r is Some <==> (i64::MIN as int) <= self.nanos_since_epoch() <= (i64::MAX as int),
            r is Some ==> r->0 == self.nanos_since_epoch(),
    {
        let s = self.seconds as i128;
        let total: i128 = s * 1_000_000_000i128 + self.nanos as i128;
        if total < i64::MIN as i128 || total > i64::MAX as i128 {
            None
        } else {
            Some(total as i64)
        }
    }
}

/// Splits nanoseconds since the epoch into whole seconds (rounded down) and
/// the remaining nanoseconds.
pub open spec fn split_nanos(ns: int, offset_seconds: i32) -> LocalDateTime {
    LocalDateTime {
        seconds: (ns / NANOS_PER_SECOND as int) as i64,
        nanos: (ns % NANOS_PER_SECOND as int) as u32,
        offset_seconds,
    }
}

/// chrono represents every instant at most this many seconds from the epoch.
pub const CHRONO_SURE_SECONDS: i64 = 8_000_000_000_000;

/// chrono represents no instant more than this many seconds from the epoch.
pub const CHRONO_MAX_SECONDS: i64 = 9_000_000_000_000;

/// Whether chrono can represent the UTC instant.
pub uninterp spec fn utc_representable(seconds: i64, nanos: u32) -> bool;

/// Relies on `chrono::DateTime::from_timestamp`, which returns `None` for an
/// instant out of its range or an invalid sub-second part. Its dates run
/// from the year -262143 to the year 262142, that is from about
/// -8.33 * 10^12 to about 8.21 * 10^12 seconds from the epoch.
#[verifier::external_body]
fn representable(seconds: i64, nanos: u32) -> (r: bool)
    ensures
        r == utc_representable(seconds, nanos),
        -CHRONO_SURE_SECONDS <= seconds <= CHRONO_SURE_SECONDS && nanos < 1_000_000_000 ==> r,
        r ==> -CHRONO_MAX_SECONDS <= seconds <= CHRONO_MAX_SECONDS,
{
    chrono::DateTime::from_timestamp(seconds, nanos).is_some()
}

/// Relies on `chrono::Local::now` and `FixedOffset::local_minus_utc`: the
/// machine's current offset from UTC, which chrono keeps within a day.
#[verifier::external_body]
pub(crate) fn local_offset_now() -> (r: i32)
    ensures
        -86400 < r < 86400,
{
    chrono::Local::now().offset().local_minus_utc()
}

/// Relies on `chrono::Local::now` and `DateTime::timestamp`: the current
/// time in whole seconds since the epoch.
#[verifier::external_body]
pub(crate) fn now_seconds() -> (r: i64) {
    chrono::Local::now().timestamp()
}

/// The date-time of an instant given in nanoseconds since the epoch, shown
/// in the given offset: whole seconds rounded down, and the remaining
/// nanoseconds.
pub fn from_nanos(ns: i64, offset_seconds: i32) -> (r: LocalDateTime)
    ensures
        r == split_nanos(ns as int, offset_seconds),
        r.nanos < NANOS_PER_SECOND,
        r.nanos_since_epoch() == ns,
{
    let secs: i64 = ns / NANOS_PER_SECOND;
    let rem: i64 = ns % NANOS_PER_SECOND;
    let (secs, rem) = if rem < 0 {
        (secs - 1, rem + NANOS_PER_SECOND)
    } else {
        (secs, rem)
    };
    proof {
        lemma_split_nanos(ns as int, offset_seconds);
        assert(secs as int == ns as int / NANOS_PER_SECOND as int);
        assert(rem as int == ns as int % NANOS_PER_SECOND as int);
    }
    LocalDateTime { seconds: secs, nanos: rem as u32, offset_seconds }
}

/// The date-time of an instant given in whole seconds since the epoch,
/// shown in the given offset; `None` where chrono cannot represent it,
/// which is never within 8 * 10^12 seconds of the epoch.
pub fn from_seconds(seconds: i64, offset_seconds: i32) -> (r: Option<LocalDateTime>)
    ensures
        r is Some <==> utc_representable(seconds, 0),
        -CHRONO_SURE_SECONDS <= seconds <= CHRONO_SURE_SECONDS ==> r is Some,
        r is Some ==> -CHRONO_MAX_SECONDS <= seconds <= CHRONO_MAX_SECONDS,
        r is Some ==> r->0 == (LocalDateTime { seconds, nanos: 0, offset_seconds }),
        r is Some ==> r->0.nanos_since_epoch() == seconds * NANOS_PER_SECOND,
{
    if representable(seconds, 0) {
        Some(LocalDateTime { seconds, nanos: 0, offset_seconds })
    } else {
        None
    }
}

/// Splitting nanoseconds since the epoch into seconds and a sub-second part
/// and joining them again gives the same number, with the sub-second part
/// below one second.
pub proof fn lemma_split_nanos(ns: int, offset_seconds: i32)
    requires
        (i64::MIN as int) <= ns <= (i64::MAX as int),
    ensures
        split_nanos(ns, offset_seconds).nanos_since_epoch() == ns,
        0 <= ns % (NANOS_PER_SECOND as int) < NANOS_PER_SECOND,
{
    vstd::arithmetic::div_mod::lemma_fundamental_div_mod(ns, NANOS_PER_SECOND as int);
    vstd::arithmetic::div_mod::lemma_mod_bound(ns, NANOS_PER_SECOND as int);
    vstd::arithmetic::div_mod::lemma_div_is_ordered(i64::MIN as int, ns, NANOS_PER_SECOND as int);
    vstd::arithmetic::div_mod::lemma_div_is_ordered(ns, i64::MAX as int, NANOS_PER_SECOND as int);
    assert((i64::MIN as int) / (NANOS_PER_SECOND as int) == -9223372037);
    assert((i64::MAX as int) / (NANOS_PER_SECOND as int) == 9223372036);
}

} // verus!
