//! The unit ladder: an ordered, closed set of time units, magnitude-aware
//! selection of a readable unit, and compound pretty-printing of
//! millisecond totals.

use vstd::prelude::*;
use crate::numtext::dec_spec;
use crate::numtext::dec_string;

verus! {

/// A time unit of the monotonic ladder, nanoseconds through days.
#[derive(Clone, Copy, Debug, PartialEq, Eq, Structural)]
pub enum TimeUnit {
    Nanos,
    Micros,
    Millis,
    Seconds,
    Minutes,
    Hours,
    Days,
}

/// How many nanoseconds one `u` lasts.
pub open spec fn unit_nanos(u: TimeUnit) -> int {
    match u {
        TimeUnit::Nanos => 1,
        TimeUnit::Micros => 1_000,
        TimeUnit::Millis => 1_000_000,
        TimeUnit::Seconds => 1_000_000_000,
        TimeUnit::Minutes => 60_000_000_000,
        TimeUnit::Hours => 3_600_000_000_000,
        TimeUnit::Days => 86_400_000_000_000,
    }
}

/// The position of `u` on the ladder, nanoseconds first.
pub open spec fn unit_rank(u: TimeUnit) -> int {
    match u {
        TimeUnit::Nanos => 0,
        TimeUnit::Micros => 1,
        TimeUnit::Millis => 2,
        TimeUnit::Seconds => 3,
        TimeUnit::Minutes => 4,
        TimeUnit::Hours => 5,
        TimeUnit::Days => 6,
    }
}

/// The display label of `u`.
pub open spec fn unit_label(u: TimeUnit) -> Seq<char> {
    match u {
        TimeUnit::Nanos => "ns"@,
        TimeUnit::Micros => "us"@,
        TimeUnit::Millis => "ms"@,
        TimeUnit::Seconds => "s"@,
        TimeUnit::Minutes => "m"@,
        TimeUnit::Hours => "h"@,
        TimeUnit::Days => "d"@,
    }
}

/// The unit in which a positive time per item of `num / den` nanoseconds is
/// displayed: the largest unit whose magnitude does not exceed the value,
/// falling back to nanoseconds for sub-nanosecond values.
pub open spec fn auto_time_unit(num: int, den: int) -> TimeUnit {
    if num >= 86_400_000_000_000 * den {
        TimeUnit::Days
    } else if num >= 3_600_000_000_000 * den {
        TimeUnit::Hours
    } else if num >= 60_000_000_000 * den {
        TimeUnit::Minutes
    } else if num >= 1_000_000_000 * den {
        TimeUnit::Seconds
    } else if num >= 1_000_000 * den {
        TimeUnit::Millis
    } else if num >= 1_000 * den {
        TimeUnit::Micros
    } else {
        TimeUnit::Nanos
    }
}

/// The unit in which the speed inverse to a positive time per item of
/// `num / den` nanoseconds is displayed: the smallest unit in which at
/// least one whole item passes, falling back to days for the slowest rates.
pub open spec fn auto_speed_unit(num: int, den: int) -> TimeUnit {
    if den >= num {
        TimeUnit::Nanos
    } else if 1_000 * den >= num {
        TimeUnit::Micros
    } else if 1_000_000 * den >= num {
        TimeUnit::Millis
    } else if 1_000_000_000 * den >= num {
        TimeUnit::Seconds
    } else if 60_000_000_000 * den >= num {
        TimeUnit::Minutes
    } else if 3_600_000_000_000 * den >= num {
        TimeUnit::Hours
    } else {
        TimeUnit::Days
    }
}

/// Returns `unit_nanos(u)`.
pub fn unit_nanos_u128(u: TimeUnit) -> (r: u128)
    ensures
        r == unit_nanos(u),
{
    match u {
        TimeUnit::Nanos => 1,
        TimeUnit::Micros => 1_000,
        TimeUnit::Millis => 1_000_000,
        TimeUnit::Seconds => 1_000_000_000,
        TimeUnit::Minutes => 60_000_000_000,
        TimeUnit::Hours => 3_600_000_000_000,
        TimeUnit::Days => 86_400_000_000_000,
    }
}

/// Returns the label of `u`.
pub fn unit_label_str(u: TimeUnit) -> (r: &'static str)
    ensures
        r@ == unit_label(u),
{
    match u {
        TimeUnit::Nanos => "ns",
        TimeUnit::Micros => "us",
        TimeUnit::Millis => "ms",
        TimeUnit::Seconds => "s",
        TimeUnit::Minutes => "m",
        TimeUnit::Hours => "h",
        TimeUnit::Days => "d",
    }
}

/// Selects the display unit for a time per item of `num / den` nanoseconds.
pub fn nice_time_unit(num: u128, den: u128) -> (r: TimeUnit)
    requires
        1 <= den <= 0xFFFF_FFFF_FFFF_FFFF,
        num <= 0xFFFF_FFFF_FFFF_FFFF * 1_000_000,
    ensures
        r == auto_time_unit(num as int, den as int),
{
    if num >= 86_400_000_000_000 * den {
        TimeUnit::Days
    } else if num >= 3_600_000_000_000 * den {
        TimeUnit::Hours
    } else if num >= 60_000_000_000 * den {
        TimeUnit::Minutes
    } else if num >= 1_000_000_000 * den {
        TimeUnit::Seconds
    } else if num >= 1_000_000 * den {
        TimeUnit::Millis
    } else if num >= 1_000 * den {
        TimeUnit::Micros
    } else {
        TimeUnit::Nanos
    }
}

/// Selects the display unit for the speed inverse to a time per item of
/// `num / den` nanoseconds.
pub fn nice_speed_unit(num: u128, den: u128) -> (r: TimeUnit)
    requires
        1 <= den <= 0xFFFF_FFFF_FFFF_FFFF,
        num <= 0xFFFF_FFFF_FFFF_FFFF * 1_000_000,
    ensures
        r == auto_speed_unit(num as int, den as int),
{
    if den >= num {
        TimeUnit::Nanos
    } else if 1_000 * den >= num {
        TimeUnit::Micros
    } else if 1_000_000 * den >= num {
        TimeUnit::Millis
    } else if 1_000_000_000 * den >= num {
        TimeUnit::Seconds
    } else if 60_000_000_000 * den >= num {
        TimeUnit::Minutes
    } else if 3_600_000_000_000 * den >= num {
        TimeUnit::Hours
    } else {
        TimeUnit::Days
    }
}

/// A total of `ms` milliseconds pretty-printed as a compound string,
/// largest nonzero component first, e.g. the digits of "1d 2h 3m 4s 5ms".
pub open spec fn pretty_millis_spec(ms: nat) -> Seq<char> {
    let d = ms / 86_400_000;
    let h = (ms / 3_600_000) % 24;
    let m = (ms / 60_000) % 60;
    let s = (ms / 1_000) % 60;
    let r = ms % 1_000;
    if ms >= 86_400_000 {
        dec_spec(d) + "d "@ + dec_spec(h) + "h "@ + dec_spec(m) + "m "@ + dec_spec(s) + "s "@
            + dec_spec(r) + "ms"@
    } else if ms >= 3_600_000 {
        dec_spec(h) + "h "@ + dec_spec(m) + "m "@ + dec_spec(s) + "s "@ + dec_spec(r) + "ms"@
    } else if ms >= 60_000 {
        dec_spec(m) + "m "@ + dec_spec(s) + "s "@ + dec_spec(r) + "ms"@
    } else if ms >= 1_000 {
        dec_spec(s) + "s "@ + dec_spec(r) + "ms"@
    } else {
        dec_spec(r) + "ms"@
    }
}

/// Pretty-prints `ms` milliseconds as a compound string.
pub fn pretty_millis_string(ms: u128) -> (r: String)
    ensures
        r@ == pretty_millis_spec(ms as nat),
{
    let d = ms / 86_400_000;
    let h = (ms / 3_600_000) % 24;
    let m = (ms / 60_000) % 60;
    let s = (ms / 1_000) % 60;
    let rem = ms % 1_000;
    if ms >= 86_400_000 {
        let mut out = dec_string(d);
        out.append("d ");
        out.append(dec_string(h).as_str());
        out.append("h ");
        out.append(dec_string(m).as_str());
        out.append("m ");
        out.append(dec_string(s).as_str());
        out.append("s ");
        out.append(dec_string(rem).as_str());
        out.append("ms");
        out
    } else if ms >= 3_600_000 {
        let mut out = dec_string(h);
        out.append("h ");
        out.append(dec_string(m).as_str());
        out.append("m ");
        out.append(dec_string(s).as_str());
        out.append("s ");
        out.append(dec_string(rem).as_str());
        out.append("ms");
        out
    } else if ms >= 60_000 {
        let mut out = dec_string(m);
        out.append("m ");
        out.append(dec_string(s).as_str());
        out.append("s ");
        out.append(dec_string(rem).as_str());
        out.append("ms");
        out
    } else if ms >= 1_000 {
        let mut out = dec_string(s);
        out.append("s ");
        out.append(dec_string(rem).as_str());
        out.append("ms");
        out
    } else {
        let mut out = dec_string(rem);
        out.append("ms");
        out
    }
}

} // verus!
