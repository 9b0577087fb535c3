//! Instants in time as the renderers see them: seconds and nanoseconds since
//! the Unix epoch, within the range that `chrono::DateTime<Utc>` can hold.

use vstd::prelude::*;

verus! {

/// The earliest second `chrono::DateTime::from_timestamp` accepts (the start of
/// January 2 of year -262143; it refuses every second of the day before).
pub open spec fn min_secs() -> int {
    -8334601228800
}

/// The latest second `chrono::DateTime<Utc>` can hold (December 31 of year 262142).
pub open spec fn max_secs() -> int {
    8210266876799
}

/// A UTC instant: whole seconds since the Unix epoch and the nanoseconds
/// past that second.
#[derive(Clone, Copy, Debug, PartialEq, Eq)]
pub struct Timestamp {
    pub secs: i64,
    pub nanos: u32,
}

impl Timestamp {
    /// In the range of `chrono::DateTime<Utc>`, and not inside a leap second.
    pub open spec fn wf(self) -> bool {
        &&& min_secs() <= self.secs <= max_secs()
        &&& self.nanos < 1_000_000_000
    }

    /// The instant as a number of nanoseconds since the epoch.
    pub open spec fn total_nanos(self) -> int {
        self.secs * 1_000_000_000 + self.nanos
    }

    /// An instant from its parts.
    pub fn new(secs: i64, nanos: u32) -> (t: Timestamp)
        ensures
            t.secs == secs,
            t.nanos == nanos,
    {
        Timestamp { secs, nanos }
    }

    /// Whether the instant is one `chrono::DateTime<Utc>` can hold outside a
    /// leap second.
    pub fn is_valid(&self) -> (b: bool)
        ensures
            b == self.wf(),
    {
        -8334601228800 <= self.secs && self.secs <= 8210266876799 && self.nanos < 1_000_000_000
    }
}

/// `(now - t).num_seconds()`: the time from `t` to `now` in whole seconds,
/// rounded toward zero.
pub open spec fn seconds_between(t: Timestamp, now: Timestamp) -> int {
    let d = now.total_nanos() - t.total_nanos();
    if d >= 0 {
        d / 1_000_000_000
    } else {
        -((-d) / 1_000_000_000)
    }
}

/// The whole seconds from `t` to `now`, rounded toward zero.
pub fn seconds_since(t: Timestamp, now: Timestamp) -> (r: i64)
    requires
        t.wf(),
        now.wf(),
    ensures
        r == seconds_between(t, now),
{
    let s: i64 = now.secs - t.secs;
    let n: i64 = now.nanos as i64 - t.nanos as i64;
    let ghost d = now.total_nanos() - t.total_nanos();
    assert(d == s * 1_000_000_000 + n);
    if s > 0 && n < 0 {
        assert((s - 1) * 1_000_000_000 <= d < s * 1_000_000_000);
        assert(d / 1_000_000_000 == s - 1) by (nonlinear_arith)
            requires
                (s - 1) * 1_000_000_000 <= d < s * 1_000_000_000,
        ;
        s - 1
    } else if s < 0 && n > 0 {
        assert(-d == (-s) * 1_000_000_000 - n);
        assert(((-s) - 1) * 1_000_000_000 < -d <= (-s) * 1_000_000_000);
        assert((-d) / 1_000_000_000 == (-s) - 1) by (nonlinear_arith)
            requires
                ((-s) - 1) * 1_000_000_000 < -d < (-s) * 1_000_000_000,
        ;
        s + 1
    } else if s == 0 && n < 0 {
        assert(0 < -d < 1_000_000_000);
        assert((-d) / 1_000_000_000 == 0);
        s
    } else if s >= 0 {
        assert(s * 1_000_000_000 <= d < (s + 1) * 1_000_000_000);
        assert(d / 1_000_000_000 == s) by (nonlinear_arith)
            requires
                s * 1_000_000_000 <= d < (s + 1) * 1_000_000_000,
        ;
        s
    } else {
        assert(-d == (-s) * 1_000_000_000 - n);
        assert((-s) * 1_000_000_000 <= -d < ((-s) + 1) * 1_000_000_000);
        assert((-d) / 1_000_000_000 == -s) by (nonlinear_arith)
            requires
                (-s) * 1_000_000_000 <= -d < ((-s) + 1) * 1_000_000_000,
        ;
        s
    }
}

/// What `DateTime::format(fmt).to_string()` gives for the instant
/// `secs`/`nanos`: the instant written out as the `strftime`-style pattern
/// `fmt` says.
pub uninterp spec fn chrono_formatted(secs: int, nanos: int, fmt: Seq<char>) -> Seq<char>;

/// The `strftime`-style patterns this library formats instants with.
pub open spec fn known_pattern(fmt: Seq<char>) -> bool {
    ||| fmt == "%b %d, %Y"@
    ||| fmt == "%Y-%m-%d %H:%M"@
    ||| fmt == "%b %d, %Y %H:%M UTC"@
}

/// `chrono::DateTime::<Utc>::from_timestamp(secs, nanos)` then
/// `format(fmt).to_string()`.
/// Trusted: the instant exists for every `Timestamp` within `wf`, and the
/// patterns of `known_pattern` are valid, so neither step fails; the text is
/// `chrono_formatted` of the arguments.
#[verifier::external_body]
pub(crate) fn format_instant(t: Timestamp, fmt: &str) -> (r: String)
    requires
        t.wf(),
        known_pattern(fmt@),
    ensures
        r@ == chrono_formatted(t.secs as int, t.nanos as int, fmt@),
{
    chrono::DateTime::from_timestamp(t.secs, t.nanos).unwrap().format(fmt).to_string()
}

} // verus!
