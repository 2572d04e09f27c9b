//! Pure rendering of a status line from a snapshot of the tracker state:
//! counts, rates with unit selection, completion percentage, time to end,
//! and humanized memory figures.

use vstd::prelude::*;
use crate::numtext::dec_spec;
use crate::numtext::dec_string;
use crate::numtext::fixed2_spec;
use crate::numtext::fixed2_string;
use crate::numtext::group_spec;
use crate::numtext::round_div;
use crate::numtext::round_div_u128;
use crate::numtext::sat_sub;
use crate::outside::grouped_string;
use crate::units::auto_speed_unit;
use crate::units::auto_time_unit;
use crate::units::nice_speed_unit;
use crate::units::nice_time_unit;
use crate::units::pretty_millis_spec;
use crate::units::pretty_millis_string;
use crate::units::unit_label;
use crate::units::unit_label_str;
use crate::units::unit_nanos;
use crate::units::unit_nanos_u128;
use crate::units::TimeUnit;

verus! {

/// Memory figures read from the probe, in bytes. A `resident` of `None`
/// records that the process could not be resolved.
#[derive(Clone, Copy, Debug)]
pub struct MemFigures {
    pub resident: Option<u64>,
    pub available: u64,
    pub free: u64,
    pub total: u64,
}

/// The snapshot of a tracker that rendering reads: configuration, the
/// lifecycle timestamps in milliseconds, and the counters.
pub struct LineState {
    pub item: Seq<char>,
    pub expected: Option<nat>,
    pub tu: Option<TimeUnit>,
    pub local_speed: bool,
    pub start: Option<nat>,
    pub stop: Option<nat>,
    pub count: nat,
    pub last_count: nat,
    pub last_log: nat,
}

/// `b` bytes with a binary-magnitude prefix chosen to keep the displayed
/// number in a readable range, to two decimals.
pub open spec fn humanize_spec(b: nat) -> Seq<char> {
    if b >= 1_152_921_504_606_846_976 {
        fixed2_spec(round_div(100 * b as int, 1_152_921_504_606_846_976) as nat) + "Ei"@
    } else if b >= 1_125_899_906_842_624 {
        fixed2_spec(round_div(100 * b as int, 1_125_899_906_842_624) as nat) + "Pi"@
    } else if b >= 1_099_511_627_776 {
        fixed2_spec(round_div(100 * b as int, 1_099_511_627_776) as nat) + "Ti"@
    } else if b >= 1_073_741_824 {
        fixed2_spec(round_div(100 * b as int, 1_073_741_824) as nat) + "Gi"@
    } else if b >= 1_048_576 {
        fixed2_spec(round_div(100 * b as int, 1_048_576) as nat) + "Mi"@
    } else if b >= 1_024 {
        fixed2_spec(round_div(100 * b as int, 1_024) as nat) + "Ki"@
    } else {
        fixed2_spec(100 * b)
    }
}

/// Renders `b` bytes with a binary-magnitude prefix.
pub fn humanize_string(b: u64) -> (r: String)
    ensures
        r@ == humanize_spec(b as nat),
{
    let h = 100 * (b as u128);
    if b >= 1_152_921_504_606_846_976 {
        let mut s = fixed2_string(round_div_u128(h, 1_152_921_504_606_846_976));
        s.append("Ei");
        s
    } else if b >= 1_125_899_906_842_624 {
        let mut s = fixed2_string(round_div_u128(h, 1_125_899_906_842_624));
        s.append("Pi");
        s
    } else if b >= 1_099_511_627_776 {
        let mut s = fixed2_string(round_div_u128(h, 1_099_511_627_776));
        s.append("Ti");
        s
    } else if b >= 1_073_741_824 {
        let mut s = fixed2_string(round_div_u128(h, 1_073_741_824));
        s.append("Gi");
        s
    } else if b >= 1_048_576 {
        let mut s = fixed2_string(round_div_u128(h, 1_048_576));
        s.append("Mi");
        s
    } else if b >= 1_024 {
        let mut s = fixed2_string(round_div_u128(h, 1_024));
        s.append("Ki");
        s
    } else {
        fixed2_string(h)
    }
}

/// The resident-memory figure, or the substitute text where the process
/// could not be resolved.
pub open spec fn resident_text_spec(r: Option<u64>) -> Seq<char> {
    match r {
        Some(b) => humanize_spec(b as nat),
        None => "N/A"@,
    }
}

/// The memory suffix of a status line: empty when memory display is off,
/// else the four humanized figures.
pub open spec fn mem_part_spec(mem: Option<MemFigures>) -> Seq<char> {
    match mem {
        None => Seq::empty(),
        Some(m) => "; used/avail/free/total mem "@ + resident_text_spec(m.resident) + "B/"@
            + humanize_spec(m.available as nat) + "B/"@ + humanize_spec(m.free as nat) + "B/"@
            + humanize_spec(m.total as nat) + "B"@,
    }
}

/// Renders the memory suffix.
pub fn mem_part_string(mem: Option<MemFigures>) -> (r: String)
    ensures
        r@ == mem_part_spec(mem),
{
    match mem {
        None => String::new(),
        Some(m) => {
            let mut s = String::from_str("; used/avail/free/total mem ");
            match m.resident {
                Some(b) => s.append(humanize_string(b).as_str()),
                None => s.append("N/A"),
            }
            s.append("B/");
            s.append(humanize_string(m.available).as_str());
            s.append("B/");
            s.append(humanize_string(m.free).as_str());
            s.append("B/");
            s.append(humanize_string(m.total).as_str());
            s.append("B");
            s
        }
    }
}

/// The unit in which the time per item is displayed: the pinned unit when
/// one is configured, else the automatic choice, taking an infinite time
/// per item (no items) to the top of the ladder and a zero one to the
/// bottom.
pub open spec fn chosen_time_unit(elapsed_ms: nat, count: nat, tu: Option<TimeUnit>) -> TimeUnit {
    match tu {
        Some(u) => u,
        None => if count == 0 {
            TimeUnit::Days
        } else if elapsed_ms == 0 {
            TimeUnit::Nanos
        } else {
            auto_time_unit(elapsed_ms as int * 1_000_000, count as int)
        },
    }
}

/// The unit in which the speed is displayed, chosen like `chosen_time_unit`
/// with the fallbacks mirrored: a zero speed goes to the top of the ladder,
/// an unbounded one to the bottom.
pub open spec fn chosen_speed_unit(elapsed_ms: nat, count: nat, tu: Option<TimeUnit>) -> TimeUnit {
    match tu {
        Some(u) => u,
        None => if count == 0 {
            TimeUnit::Days
        } else if elapsed_ms == 0 {
            TimeUnit::Nanos
        } else {
            auto_speed_unit(elapsed_ms as int * 1_000_000, count as int)
        },
    }
}

/// The time per item in unit `u`, to two decimals; "inf" where no items
/// were counted.
pub open spec fn time_per_item_text(elapsed_ms: nat, count: nat, u: TimeUnit) -> Seq<char> {
    if count == 0 {
        "inf"@
    } else if elapsed_ms == 0 {
        "0.00"@
    } else {
        fixed2_spec(round_div(100 * elapsed_ms as int * 1_000_000, count as int * unit_nanos(u)) as nat)
    }
}

/// The items per unit `u`, to two decimals; "inf" where items were counted
/// in no measurable time, "0.00" where no items were counted.
pub open spec fn speed_text(elapsed_ms: nat, count: nat, u: TimeUnit) -> Seq<char> {
    if count == 0 {
        "0.00"@
    } else if elapsed_ms == 0 {
        "inf"@
    } else {
        fixed2_spec(round_div(100 * (count as int * unit_nanos(u)), elapsed_ms as int * 1_000_000) as nat)
    }
}

/// The timing and speed clause: time per item, then items per time, each
/// with its unit label; `item` is the configured noun as given, `plural`
/// its plural form as the pluralizer returned it.
pub open spec fn rate_clause_spec(
    elapsed_ms: nat,
    count: nat,
    tu: Option<TimeUnit>,
    item: Seq<char>,
    plural: Seq<char>,
) -> Seq<char> {
    time_per_item_text(elapsed_ms, count, chosen_time_unit(elapsed_ms, count, tu)) + " "@
        + unit_label(chosen_time_unit(elapsed_ms, count, tu)) + "/"@ + item + ", "@ + speed_text(
        elapsed_ms,
        count,
        chosen_speed_unit(elapsed_ms, count, tu),
    ) + " "@ + plural + "/"@ + unit_label(chosen_speed_unit(elapsed_ms, count, tu))
}

/// Renders the timing and speed clause.
pub fn rate_clause_string(
    elapsed_ms: u64,
    count: usize,
    tu: Option<TimeUnit>,
    item: &str,
    plural: &str,
) -> (r: String)
    ensures
        r@ == rate_clause_spec(elapsed_ms as nat, count as nat, tu, item@, plural@),
{
    let num: u128 = (elapsed_ms as u128) * 1_000_000;
    let den: u128 = count as u128;
    let ut: TimeUnit = match tu {
        Some(u) => u,
        None => if count == 0 {
            TimeUnit::Days
        } else if elapsed_ms == 0 {
            TimeUnit::Nanos
        } else {
            nice_time_unit(num, den)
        },
    };
    let us: TimeUnit = match tu {
        Some(u) => u,
        None => if count == 0 {
            TimeUnit::Days
        } else if elapsed_ms == 0 {
            TimeUnit::Nanos
        } else {
            nice_speed_unit(num, den)
        },
    };
    let mut s: String;
    if count == 0 {
        s = String::from_str("inf");
    } else if elapsed_ms == 0 {
        s = String::from_str("0.00");
    } else {
        proof {
            assert(1 <= (count as u128) * (unit_nanos(ut) as u128) <= 0xFFFF_FFFF_FFFF_FFFF
                * 86_400_000_000_000) by (nonlinear_arith)
                requires
                    1 <= count as u128 <= 0xFFFF_FFFF_FFFF_FFFF,
                    1 <= unit_nanos(ut) as u128 <= 86_400_000_000_000,
            ;
        }
        s = fixed2_string(round_div_u128(100 * num, den * unit_nanos_u128(ut)));
    }
    s.append(" ");
    s.append(unit_label_str(ut));
    s.append("/");
    s.append(item);
    s.append(", ");
    if count == 0 {
        s.append("0.00");
    } else if elapsed_ms == 0 {
        s.append("inf");
    } else {
        proof {
            assert(1 <= (count as u128) * (unit_nanos(us) as u128) <= 0xFFFF_FFFF_FFFF_FFFF
                * 86_400_000_000_000) by (nonlinear_arith)
                requires
                    1 <= count as u128 <= 0xFFFF_FFFF_FFFF_FFFF,
                    1 <= unit_nanos(us) as u128 <= 86_400_000_000_000,
            ;
        }
        s.append(fixed2_string(round_div_u128(100 * (den * unit_nanos_u128(us)), num)).as_str());
    }
    s.append(" ");
    s.append(plural);
    s.append("/");
    s.append(unit_label_str(us));
    s
}

/// The milliseconds projected to remain: the outstanding items times the
/// elapsed time per item, the denominator bumped by one to damp early
/// estimates; zero where the count has already passed the expectation.
pub open spec fn eta_millis_spec(expected: nat, count: nat, elapsed_ms: nat) -> nat {
    (sat_sub(expected, count) * elapsed_ms) / (count + 1)
}

/// The completion percentage in hundredths, to two decimals; "inf" where
/// the expectation is zero.
pub open spec fn percent_text_spec(expected: nat, count: nat) -> Seq<char> {
    if expected == 0 {
        "inf"@
    } else {
        fixed2_spec(round_div(10_000 * count as int, expected as int) as nat)
    }
}

/// The progress suffix: empty when no total is expected, else the
/// percentage done and the projected time to the end.
pub open spec fn progress_part_spec(
    expected: Option<nat>,
    count: nat,
    elapsed_ms: nat,
) -> Seq<char> {
    match expected {
        None => Seq::empty(),
        Some(e) => "; "@ + percent_text_spec(e, count) + "% done, "@ + pretty_millis_spec(
            eta_millis_spec(e, count, elapsed_ms),
        ) + " to end"@,
    }
}

/// Renders the progress suffix.
pub fn progress_part_string(expected: Option<usize>, count: usize, elapsed_ms: u64) -> (r: String)
    ensures
        r@ == progress_part_spec(
            match expected {
                Some(e) => Some(e as nat),
                None => None,
            },
            count as nat,
            elapsed_ms as nat,
        ),
{
    match expected {
        None => String::new(),
        Some(e) => {
            let mut s = String::from_str("; ");
            if e == 0 {
                s.append("inf");
            } else {
                s.append(fixed2_string(round_div_u128(10_000 * (count as u128), e as u128)).as_str());
            }
            s.append("% done, ");
            let remaining: u128 = if e >= count {
                (e - count) as u128
            } else {
                0
            };
            proof {
                assert(remaining * (elapsed_ms as u128) <= 0xFFFF_FFFF_FFFF_FFFF
                    * 0xFFFF_FFFF_FFFF_FFFF) by (nonlinear_arith)
                    requires
                        remaining <= 0xFFFF_FFFF_FFFF_FFFF,
                        elapsed_ms as u128 <= 0xFFFF_FFFF_FFFF_FFFF,
                ;
            }
            let eta: u128 = (remaining * (elapsed_ms as u128)) / (count as u128 + 1);
            s.append(pretty_millis_string(eta).as_str());
            s.append(" to end");
            s
        }
    }
}

/// The counter text: locale-grouped digits, except plain digits when a
/// fixed unit is pinned, so that scripted consumers get a stable column.
pub open spec fn count_text_spec(count: nat, fixed: bool) -> Seq<char> {
    if fixed {
        dec_spec(count)
    } else {
        group_spec(dec_spec(count))
    }
}

/// Renders the counter text.
pub fn count_text_string(count: usize, fixed: bool) -> (r: String)
    ensures
        r@ == count_text_spec(count as nat, fixed),
{
    if fixed {
        dec_string(count as u128)
    } else {
        grouped_string(count)
    }
}

/// The bracketed clause of the speed over the last interval alone: empty
/// unless enabled.
pub open spec fn local_part_spec(
    enabled: bool,
    interval_ms: nat,
    delta: nat,
    tu: Option<TimeUnit>,
    item: Seq<char>,
    plural: Seq<char>,
) -> Seq<char> {
    if enabled {
        " ["@ + rate_clause_spec(interval_ms, delta, tu, item, plural) + "]"@
    } else {
        Seq::empty()
    }
}

/// Renders the interval-speed clause.
pub fn local_part_string(
    enabled: bool,
    interval_ms: u64,
    delta: usize,
    tu: Option<TimeUnit>,
    item: &str,
    plural: &str,
) -> (r: String)
    ensures
        r@ == local_part_spec(enabled, interval_ms as nat, delta as nat, tu, item@, plural@),
{
    if enabled {
        let mut s = String::from_str(" [");
        s.append(rate_clause_string(interval_ms, delta, tu, item, plural).as_str());
        s.append("]");
        s
    } else {
        String::new()
    }
}

/// The bracketed tail of a stopped line: the count and its noun, and the
/// rate clause — the latter omitted entirely when nothing was counted,
/// since a rate of no items is undefined. `noun` is the noun form the
/// pluralizer returned for the count, `plural` its plural form.
pub open spec fn stopped_tail_spec(
    v: LineState,
    elapsed_ms: nat,
    noun: Seq<char>,
    plural: Seq<char>,
) -> Seq<char> {
    if v.count == 0 {
        " ["@ + count_text_spec(v.count, v.tu is Some) + " "@ + noun + "]"@
    } else {
        " ["@ + count_text_spec(v.count, v.tu is Some) + " "@ + noun + ", "@ + rate_clause_spec(
            elapsed_ms,
            v.count,
            v.tu,
            v.item,
            plural,
        ) + "]"@
    }
}

/// The whole status line for snapshot `v` at instant `now`, with the
/// memory figures `mem` when memory display is enabled. `noun` is the
/// noun text for the count and `plural` the plural noun text, both as the
/// pluralizer returned them.
///
/// Before a start the line is a fixed text. While running, the elapsed
/// time is measured up to `now`; a stopped line instead freezes it at the
/// stop instant, and never carries a progress suffix, since stopping
/// clears the expectation.
pub open spec fn line_spec(
    v: LineState,
    now: nat,
    noun: Seq<char>,
    plural: Seq<char>,
    mem: Option<MemFigures>,
) -> Seq<char> {
    match v.start {
        None => "ProgressLogger not started"@,
        Some(s) => match v.stop {
            Some(st) => "Elapsed: "@ + pretty_millis_spec(sat_sub(st, s)) + stopped_tail_spec(
                v,
                sat_sub(st, s),
                noun,
                plural,
            ) + mem_part_spec(mem),
            None => count_text_spec(v.count, v.tu is Some) + " "@ + noun + ", "@
                + pretty_millis_spec(sat_sub(now, s)) + ", "@ + rate_clause_spec(
                sat_sub(now, s),
                v.count,
                v.tu,
                v.item,
                plural,
            ) + progress_part_spec(v.expected, v.count, sat_sub(now, s)) + local_part_spec(
                v.local_speed,
                sat_sub(now, v.last_log),
                sat_sub(v.count, v.last_count),
                v.tu,
                v.item,
                plural,
            ) + mem_part_spec(mem),
        },
    }
}

} // verus!
