//! The stateful progress tracker: the lifecycle state machine, the item
//! counter, the throttle that decides when a status line is due, and the
//! public counting surface.

use vstd::prelude::*;
use crate::numtext::sat_add_u64;
use crate::numtext::sat_sub;
use crate::numtext::sat_add64;
use crate::numtext::sat_sub64;
use crate::outside::available_memory;
use crate::outside::current_pid;
use crate::outside::emit_info;
use crate::outside::free_memory;
use crate::outside::instant_now;
use crate::outside::millis_between;
use crate::outside::new_memory_system;
use crate::outside::pluralized;
use crate::outside::process_entry;
use crate::outside::process_memory;
use crate::outside::refresh_memory;
use crate::outside::refresh_process;
use crate::outside::total_memory;
use crate::render::count_text_string;
use crate::render::line_spec;
use crate::render::mem_part_string;
use crate::render::progress_part_string;
use crate::render::local_part_string;
use crate::render::rate_clause_string;
use crate::render::LineState;
use crate::render::MemFigures;
use crate::units::pretty_millis_string;
use crate::units::TimeUnit;

verus! {

/// Calls to `light_update` consult the clock only when the count is a
/// multiple of this mask plus one.
pub const LIGHT_UPDATE_MASK: usize = 0xF_FFFF;

/// The fields of `b` that only explicit configuration or a lifecycle
/// transition may change are as they are in `a`.
pub open spec fn same_shape(a: LineState, b: LineState) -> bool {
    &&& b.item == a.item
    &&& b.expected == a.expected
    &&& b.tu == a.tu
    &&& b.local_speed == a.local_speed
    &&& b.start == a.start
    &&& b.stop == a.stop
}

/// A progress tracker for a long-running, item-oriented activity.
///
/// Drive it with `start`, then `update` once per item; a status line is
/// emitted whenever one is due, and `stop` or `done` freezes the final
/// figures. Timestamps are whole milliseconds on the tracker's own
/// monotonic clock.
pub struct ProgressLogger {
    /// The name of an item. Defaults to "item".
    pub item_name: String,
    /// The minimum number of milliseconds between two emitted status
    /// lines. Defaults to ten seconds.
    pub log_interval: u64,
    /// The expected number of updates. When set, status lines carry the
    /// percentage of completion and a projected time to the end.
    pub expected_updates: Option<usize>,
    /// A pinned time unit. When set, speed and timing are always displayed
    /// in this unit and the counter is not thousands-grouped, which keeps
    /// the output machine-parseable.
    pub time_unit: Option<TimeUnit>,
    /// Display additionally the speed achieved over the last log interval.
    pub local_speed: bool,
    origin: std::time::Instant,
    start_time: Option<u64>,
    last_log_time: u64,
    next_log_time: u64,
    stop_time: Option<u64>,
    count: usize,
    last_count: usize,
    system: Option<sysinfo::System>,
    pid: Option<sysinfo::Pid>,
}

impl View for ProgressLogger {
    type V = LineState;

    closed spec fn view(&self) -> LineState {
        LineState {
            item: self.item_name@,
            expected: match self.expected_updates {
                Some(e) => Some(e as nat),
                None => None,
            },
            tu: self.time_unit,
            local_speed: self.local_speed,
            start: match self.start_time {
                Some(t) => Some(t as nat),
                None => None,
            },
            stop: match self.stop_time {
                Some(t) => Some(t as nat),
                None => None,
            },
            count: self.count as nat,
            last_count: self.last_count as nat,
            last_log: self.last_log_time as nat,
        }
    }
}

impl Default for ProgressLogger {
    /// A fresh tracker: not started, counting items called "item", with a
    /// ten-second log interval and every option off.
    fn default() -> (r: Self)
        ensures
            r@ == (LineState {
                item: "item"@,
                expected: None,
                tu: None,
                local_speed: false,
                start: None,
                stop: None,
                count: 0,
                last_count: 0,
                last_log: 0,
            }),
            r.spec_interval() == 10_000,
            r.spec_next_log() == 0,
            !r.mem_enabled(),
    {
        ProgressLogger {
            item_name: String::from_str("item"),
            log_interval: 10_000,
            expected_updates: None,
            time_unit: None,
            local_speed: false,
            origin: instant_now(),
            start_time: None,
            last_log_time: 0,
            next_log_time: 0,
            stop_time: None,
            count: 0,
            last_count: 0,
            system: None,
            pid: None,
        }
    }
}

impl ProgressLogger {
    /// The configured log interval, in milliseconds.
    pub closed spec fn spec_interval(&self) -> nat {
        self.log_interval as nat
    }

    /// The instant the next status line is due, in milliseconds.
    pub closed spec fn spec_next_log(&self) -> nat {
        self.next_log_time as nat
    }

    /// Whether memory display was requested.
    pub closed spec fn mem_enabled(&self) -> bool {
        self.system is Some
    }

    /// The present instant on the tracker's clock, in milliseconds.
    fn now_ms(&self) -> u64 {
        let now = instant_now();
        millis_between(&self.origin, &now)
    }

    /// Chainable setter enabling memory display.
    pub fn display_memory(self) -> (r: Self)
        ensures
            r@ == self@,
            r.spec_next_log() == self.spec_next_log(),
            r.spec_interval() == self.spec_interval(),
            r.mem_enabled(),
    {
        let mut this = self;
        if this.system.is_none() {
            this.system = Some(new_memory_system());
            this.pid = current_pid();
        }
        this
    }

    /// Refreshes the memory figures, where memory display was requested.
    /// Needed only before rendering manually: the throttled path refreshes
    /// by itself.
    pub fn refresh(&mut self)
        ensures
            final(self)@ == old(self)@,
            final(self).spec_next_log() == old(self).spec_next_log(),
            final(self).spec_interval() == old(self).spec_interval(),
            final(self).mem_enabled() == old(self).mem_enabled(),
    {
        let pid = self.pid;
        match &mut self.system {
            Some(system) => {
                refresh_memory(system);
                match pid {
                    Some(p) => {
                        let _ = refresh_process(system, p);
                    }
                    None => {}
                }
            }
            None => {}
        }
    }

    /// Reads the cached memory figures, where memory display is enabled.
    pub fn memory_figures(&self) -> (r: Option<MemFigures>)
        ensures
            r is Some <==> self.mem_enabled(),
    {
        match &self.system {
            Some(system) => {
                let resident = match self.pid {
                    Some(pid) => match process_entry(system, pid) {
                        Some(process) => Some(process_memory(process)),
                        None => None,
                    },
                    None => None,
                };
                Some(
                    MemFigures {
                        resident,
                        available: available_memory(system),
                        free: free_memory(system),
                        total: total_memory(system),
                    },
                )
            }
            None => None,
        }
    }

    /// The status line of this tracker as of instant `now`, suffixed with
    /// the given memory figures, if any; `noun` is the noun text for the
    /// current count and `plural` the plural noun text, as the pluralizer
    /// returned them.
    pub fn status_line_with_nouns(
        &self,
        now: u64,
        noun: &str,
        plural: &str,
        mem: Option<MemFigures>,
    ) -> (r: String)
        ensures
            r@ == line_spec(self@, now as nat, noun@, plural@, mem),
    {
        match self.start_time {
            None => String::from_str("ProgressLogger not started"),
            Some(start) => match self.stop_time {
                Some(stop) => {
                    let elapsed = sat_sub64(stop, start);
                    let mut out = String::from_str("Elapsed: ");
                    out.append(pretty_millis_string(elapsed as u128).as_str());
                    let mut tail = String::from_str(" [");
                    tail.append(count_text_string(self.count, self.time_unit.is_some()).as_str());
                    tail.append(" ");
                    tail.append(noun);
                    if self.count != 0 {
                        tail.append(", ");
                        tail.append(
                            rate_clause_string(
                                elapsed,
                                self.count,
                                self.time_unit,
                                self.item_name.as_str(),
                                plural,
                            ).as_str(),
                        );
                    }
                    tail.append("]");
                    out.append(tail.as_str());
                    out.append(mem_part_string(mem).as_str());
                    out
                }
                None => {
                    let elapsed = sat_sub64(now, start);
                    let mut out = count_text_string(self.count, self.time_unit.is_some());
                    out.append(" ");
                    out.append(noun);
                    out.append(", ");
                    out.append(pretty_millis_string(elapsed as u128).as_str());
                    out.append(", ");
                    out.append(
                        rate_clause_string(
                            elapsed,
                            self.count,
                            self.time_unit,
                            self.item_name.as_str(),
                            plural,
                        ).as_str(),
                    );
                    out.append(
                        progress_part_string(self.expected_updates, self.count, elapsed).as_str(),
                    );
                    out.append(
                        local_part_string(
                            self.local_speed,
                            sat_sub64(now, self.last_log_time),
                            if self.count >= self.last_count {
                                self.count - self.last_count
                            } else {
                                0
                            },
                            self.time_unit,
                            self.item_name.as_str(),
                            plural,
                        ).as_str(),
                    );
                    out.append(mem_part_string(mem).as_str());
                    out
                }
            },
        }
    }

    /// The status line as of instant `now`, with the noun texts fetched
    /// from the pluralizer. Those texts can differ per call — the
    /// pluralizer's rule tables are process-global — so the line is only
    /// pinned up to whatever the pluralizer returned.
    pub fn status_line(&self, now: u64, mem: Option<MemFigures>) -> (r: String)
        ensures
            exists|noun: Seq<char>, plural: Seq<char>|
                r@ == line_spec(self@, now as nat, noun, plural, mem),
    {
        let noun = pluralized(self.item_name.as_str(), self.count);
        let plural = pluralized(self.item_name.as_str(), 2);
        let r = self.status_line_with_nouns(now, noun.as_str(), plural.as_str(), mem);
        proof {
            assert(r@ == line_spec(self@, now as nat, noun@, plural@, mem));
        }
        r
    }

    /// Starts the activity as of instant `now`, emitting `msg`: the
    /// counters are reset, any previous stop time is cleared, and the next
    /// status line is due one interval after `now`.
    pub fn start_at(&mut self, now: u64, msg: &str)
        ensures
            final(self)@ == (LineState {
                start: Some(now as nat),
                stop: None,
                count: 0,
                last_count: 0,
                last_log: now as nat,
                ..old(self)@
            }),
            final(self).spec_next_log() == sat_add_u64(now as nat, old(self).spec_interval()),
            final(self).spec_interval() == old(self).spec_interval(),
            final(self).mem_enabled() == old(self).mem_enabled(),
    {
        self.start_time = Some(now);
        self.stop_time = None;
        self.count = 0;
        self.last_count = 0;
        self.last_log_time = now;
        self.next_log_time = sat_add64(now, self.log_interval);
        emit_info(msg);
    }

    /// Refreshes memory, renders and emits a status line as of `now`, then
    /// snapshots the counter and re-arms the throttle.
    fn log_at(&mut self, now: u64)
        ensures
            final(self)@ == (LineState {
                last_count: old(self)@.count,
                last_log: now as nat,
                ..old(self)@
            }),
            final(self).spec_next_log() == sat_add_u64(now as nat, old(self).spec_interval()),
            final(self).spec_interval() == old(self).spec_interval(),
            final(self).mem_enabled() == old(self).mem_enabled(),
    {
        self.refresh();
        let mem = self.memory_figures();
        let line = self.status_line(now, mem);
        emit_info(line.as_str());
        self.last_count = self.count;
        self.last_log_time = now;
        self.next_log_time = sat_add64(now, self.log_interval);
    }

    /// Emits a status line as of `now` exactly where one is due.
    fn log_if_at(&mut self, now: u64)
        ensures
            final(self)@.count == old(self)@.count,
            same_shape(old(self)@, final(self)@),
            final(self).spec_interval() == old(self).spec_interval(),
            final(self).mem_enabled() == old(self).mem_enabled(),
            (now as nat) < old(self).spec_next_log() ==> (final(self)@.last_count == old(self)@.last_count && final(self)@.last_log == old(self)@.last_log && final(self).spec_next_log() == old(self).spec_next_log()),
            (now as nat) >= old(self).spec_next_log() ==> (final(self)@.last_count == final(self)@.count && final(self)@.last_log == now as nat && final(self).spec_next_log()
                == sat_add_u64(now as nat, old(self).spec_interval())),
    {
        if now >= self.next_log_time {
            self.log_at(now);
        }
    }

    /// Counts one item as of instant `now` and, where a status line is
    /// due, emits it.
    pub fn update_at(&mut self, now: u64)
        requires
            old(self)@.count < usize::MAX as nat,
        ensures
            final(self)@.count == old(self)@.count + 1,
            same_shape(old(self)@, final(self)@),
            final(self).spec_interval() == old(self).spec_interval(),
            final(self).mem_enabled() == old(self).mem_enabled(),
            (now as nat) < old(self).spec_next_log() ==> (final(self)@.last_count == old(self)@.last_count && final(self)@.last_log == old(self)@.last_log && final(self).spec_next_log() == old(self).spec_next_log()),
            (now as nat) >= old(self).spec_next_log() ==> (final(self)@.last_count == final(self)@.count && final(self)@.last_log == now as nat && final(self).spec_next_log()
                == sat_add_u64(now as nat, old(self).spec_interval())),
    {
        self.count = self.count + 1;
        self.log_if_at(now);
    }

    /// Counts `count` further items as of instant `now` and, where a
    /// status line is due, emits it.
    pub fn update_with_count_at(&mut self, count: usize, now: u64)
        requires
            old(self)@.count + count as nat <= usize::MAX as nat,
        ensures
            final(self)@.count == old(self)@.count + count as nat,
            same_shape(old(self)@, final(self)@),
            final(self).spec_interval() == old(self).spec_interval(),
            final(self).mem_enabled() == old(self).mem_enabled(),
            (now as nat) < old(self).spec_next_log() ==> (final(self)@.last_count == old(self)@.last_count && final(self)@.last_log == old(self)@.last_log && final(self).spec_next_log() == old(self).spec_next_log()),
            (now as nat) >= old(self).spec_next_log() ==> (final(self)@.last_count == final(self)@.count && final(self)@.last_log == now as nat && final(self).spec_next_log()
                == sat_add_u64(now as nat, old(self).spec_interval())),
    {
        self.count = self.count + count;
        self.log_if_at(now);
    }

    /// Counts one item as of instant `now`, but consults the throttle only
    /// when the new count is a multiple of `LIGHT_UPDATE_MASK + 1`: for
    /// activities whose per-item cost is comparable to reading the clock.
    /// A due status line can thus run that many items late.
    pub fn light_update_at(&mut self, now: u64)
        requires
            old(self)@.count < usize::MAX as nat,
        ensures
            final(self)@.count == old(self)@.count + 1,
            same_shape(old(self)@, final(self)@),
            final(self).spec_interval() == old(self).spec_interval(),
            final(self).mem_enabled() == old(self).mem_enabled(),
            final(self)@.count % 0x10_0000 != 0 ==> (final(self)@.last_count == old(self)@.last_count && final(self)@.last_log == old(self)@.last_log && final(self).spec_next_log() == old(self).spec_next_log()),
            (final(self)@.count % 0x10_0000 == 0 && (now as nat) < old(self).spec_next_log())
                ==> (final(self)@.last_count == old(self)@.last_count && final(self)@.last_log
                == old(self)@.last_log && final(self).spec_next_log() == old(self).spec_next_log()),
            (final(self)@.count % 0x10_0000 == 0 && (now as nat) >= old(self).spec_next_log())
                ==> (final(self)@.last_count == final(self)@.count && final(self)@.last_log == now
                as nat && final(self).spec_next_log() == sat_add_u64(
                now as nat,
                old(self).spec_interval(),
            )),
    {
        self.count = self.count + 1;
        let c: u64 = self.count as u64;
        proof {
            assert((c & 0xF_FFFF) == (c % 0x10_0000)) by (bit_vector);
        }
        if (c & 0xF_FFFF) == 0 {
            self.log_if_at(now);
        }
    }

    /// Counts one item and unconditionally renders and emits a status line
    /// as of instant `now`, bypassing the throttle.
    pub fn update_and_display_at(&mut self, now: u64)
        requires
            old(self)@.count < usize::MAX as nat,
        ensures
            final(self)@.count == old(self)@.count + 1,
            same_shape(old(self)@, final(self)@),
            final(self).spec_interval() == old(self).spec_interval(),
            final(self).mem_enabled() == old(self).mem_enabled(),
            final(self)@.last_count == final(self)@.count,
            final(self)@.last_log == now as nat,
            final(self).spec_next_log() == sat_add_u64(now as nat, old(self).spec_interval()),
    {
        self.count = self.count + 1;
        self.log_at(now);
    }

    /// Stops the activity as of instant `now`, freezing the timing basis
    /// and clearing the expected number of updates, which would otherwise
    /// leak a stale projection into later renders.
    pub fn stop_at(&mut self, now: u64)
        ensures
            final(self)@ == (LineState {
                stop: Some(now as nat),
                expected: None,
                ..old(self)@
            }),
            final(self).spec_next_log() == old(self).spec_next_log(),
            final(self).spec_interval() == old(self).spec_interval(),
            final(self).mem_enabled() == old(self).mem_enabled(),
    {
        self.stop_time = Some(now);
        self.expected_updates = None;
    }

    /// Stops as of instant `now`, emits the completion marker, and emits
    /// the final stats.
    pub fn done_at(&mut self, now: u64)
        ensures
            final(self)@ == (LineState {
                stop: Some(now as nat),
                expected: None,
                ..old(self)@
            }),
            final(self).spec_next_log() == old(self).spec_next_log(),
            final(self).spec_interval() == old(self).spec_interval(),
            final(self).mem_enabled() == old(self).mem_enabled(),
    {
        self.stop_at(now);
        emit_info("Completed.");
        let mem = self.memory_figures();
        let line = self.status_line(now, mem);
        emit_info(line.as_str());
    }

    /// Sets the count to an exact final value, then stops as `done_at`
    /// does: for reconciling an approximate running tally, or for using
    /// the tracker as a plain timer.
    pub fn done_with_count_at(&mut self, count: usize, now: u64)
        ensures
            final(self)@ == (LineState {
                count: count as nat,
                last_count: old(self)@.last_count,
                stop: Some(now as nat),
                expected: None,
                ..old(self)@
            }),
            final(self).spec_next_log() == old(self).spec_next_log(),
            final(self).spec_interval() == old(self).spec_interval(),
            final(self).mem_enabled() == old(self).mem_enabled(),
    {
        self.count = count;
        self.done_at(now);
    }

    /// The milliseconds from the start to instant `now`, or `None` where
    /// the tracker was never started.
    pub fn elapsed_at(&self, now: u64) -> (r: Option<u64>)
        ensures
            r == (match self@.start {
                None => None::<u64>,
                Some(s) => Some(sat_sub(now as nat, s) as u64),
            }),
    {
        match self.start_time {
            None => None,
            Some(s) => Some(sat_sub64(now, s)),
        }
    }

    /// Starts the activity now, displaying `msg`.
    pub fn start(&mut self, msg: &str)
        ensures
            final(self)@ == (LineState {
                start: Some(final(self)@.last_log),
                stop: None,
                count: 0,
                last_count: 0,
                last_log: final(self)@.last_log,
                ..old(self)@
            }),
            final(self).spec_next_log() == sat_add_u64(
                final(self)@.last_log,
                old(self).spec_interval(),
            ),
            final(self).spec_interval() == old(self).spec_interval(),
            final(self).mem_enabled() == old(self).mem_enabled(),
    {
        let now = self.now_ms();
        self.start_at(now, msg);
    }

    /// Counts one item and, where a status line is due, emits it.
    pub fn update(&mut self)
        requires
            old(self)@.count < usize::MAX as nat,
        ensures
            final(self)@.count == old(self)@.count + 1,
            same_shape(old(self)@, final(self)@),
            final(self).spec_interval() == old(self).spec_interval(),
            final(self).mem_enabled() == old(self).mem_enabled(),
            (final(self)@.last_count == old(self)@.last_count && final(self)@.last_log == old(
                self)@.last_log && final(self).spec_next_log() == old(self).spec_next_log())
                || (final(self)@.last_count == final(self)@.count && final(self).spec_next_log()
                == sat_add_u64(final(self)@.last_log, old(self).spec_interval())),
    {
        let now = self.now_ms();
        self.update_at(now);
    }

    /// Counts `count` further items and, where a status line is due,
    /// emits it.
    pub fn update_with_count(&mut self, count: usize)
        requires
            old(self)@.count + count as nat <= usize::MAX as nat,
        ensures
            final(self)@.count == old(self)@.count + count as nat,
            same_shape(old(self)@, final(self)@),
            final(self).spec_interval() == old(self).spec_interval(),
            final(self).mem_enabled() == old(self).mem_enabled(),
            (final(self)@.last_count == old(self)@.last_count && final(self)@.last_log == old(
                self)@.last_log && final(self).spec_next_log() == old(self).spec_next_log())
                || (final(self)@.last_count == final(self)@.count && final(self).spec_next_log()
                == sat_add_u64(final(self)@.last_log, old(self).spec_interval())),
    {
        let now = self.now_ms();
        self.update_with_count_at(count, now);
    }

    /// Counts one item, reading the clock and consulting the throttle
    /// only once every `LIGHT_UPDATE_MASK + 1` calls: for activities whose
    /// per-item cost is comparable to a clock read. A due status line can
    /// thus run that many items late.
    pub fn light_update(&mut self)
        requires
            old(self)@.count < usize::MAX as nat,
        ensures
            final(self)@.count == old(self)@.count + 1,
            same_shape(old(self)@, final(self)@),
            final(self).spec_interval() == old(self).spec_interval(),
            final(self).mem_enabled() == old(self).mem_enabled(),
            final(self)@.count % 0x10_0000 != 0 ==> (final(self)@.last_count == old(self)@.last_count && final(self)@.last_log == old(self)@.last_log && final(self).spec_next_log() == old(self).spec_next_log()),
    {
        self.count = self.count + 1;
        let c: u64 = self.count as u64;
        proof {
            assert((c & 0xF_FFFF) == (c % 0x10_0000)) by (bit_vector);
        }
        if (c & 0xF_FFFF) == 0 {
            let now = self.now_ms();
            self.log_if_at(now);
        }
    }

    /// Counts one item and unconditionally renders and emits a status
    /// line, bypassing the throttle.
    pub fn update_and_display(&mut self)
        requires
            old(self)@.count < usize::MAX as nat,
        ensures
            final(self)@.count == old(self)@.count + 1,
            same_shape(old(self)@, final(self)@),
            final(self).spec_interval() == old(self).spec_interval(),
            final(self).mem_enabled() == old(self).mem_enabled(),
            final(self)@.last_count == final(self)@.count,
    {
        let now = self.now_ms();
        self.update_and_display_at(now);
    }

    /// Stops the activity, freezing the final time and clearing the
    /// expected number of updates.
    pub fn stop(&mut self)
        ensures
            final(self)@ == (LineState {
                stop: final(self)@.stop,
                expected: None,
                ..old(self)@
            }),
            final(self)@.stop is Some,
            final(self).spec_next_log() == old(self).spec_next_log(),
            final(self).spec_interval() == old(self).spec_interval(),
            final(self).mem_enabled() == old(self).mem_enabled(),
    {
        let now = self.now_ms();
        self.stop_at(now);
    }

    /// Stops the activity, emits the completion marker, and emits the
    /// final stats.
    pub fn done(&mut self)
        ensures
            final(self)@ == (LineState {
                stop: final(self)@.stop,
                expected: None,
                ..old(self)@
            }),
            final(self)@.stop is Some,
            final(self).spec_next_log() == old(self).spec_next_log(),
            final(self).spec_interval() == old(self).spec_interval(),
            final(self).mem_enabled() == old(self).mem_enabled(),
    {
        let now = self.now_ms();
        self.done_at(now);
    }

    /// Sets the count to an exact final value, then stops and emits the
    /// final stats as `done` does.
    pub fn done_with_count(&mut self, count: usize)
        ensures
            final(self)@ == (LineState {
                count: count as nat,
                last_count: old(self)@.last_count,
                stop: final(self)@.stop,
                expected: None,
                ..old(self)@
            }),
            final(self)@.stop is Some,
            final(self).spec_next_log() == old(self).spec_next_log(),
            final(self).spec_interval() == old(self).spec_interval(),
            final(self).mem_enabled() == old(self).mem_enabled(),
    {
        let now = self.now_ms();
        self.done_with_count_at(count, now);
    }

    /// The milliseconds since the tracker was started, or `None` where it
    /// never was.
    pub fn elapsed(&self) -> (r: Option<u64>)
        ensures
            r is Some <==> self@.start is Some,
    {
        let now = self.now_ms();
        self.elapsed_at(now)
    }

    /// Renders the status line as of now, with the cached memory figures
    /// where memory display is enabled; call `refresh` first for
    /// up-to-date figures.
    pub fn render(&self) -> (r: String)
        ensures
            exists|now: nat, noun: Seq<char>, plural: Seq<char>, mem: Option<MemFigures>|
                r@ == line_spec(self@, now, noun, plural, mem) && ((mem is Some)
                    <==> self.mem_enabled()),
    {
        let now = self.now_ms();
        let mem = self.memory_figures();
        let noun = pluralized(self.item_name.as_str(), self.count);
        let plural = pluralized(self.item_name.as_str(), 2);
        let line = self.status_line_with_nouns(now, noun.as_str(), plural.as_str(), mem);
        proof {
            assert(line@ == line_spec(self@, now as nat, noun@, plural@, mem) && ((mem is Some)
                <==> self.mem_enabled()));
        }
        line
    }

    /// Sets the item noun used in status lines.
    pub fn set_item_name(&mut self, item_name: String)
        ensures
            final(self)@ == (LineState { item: item_name@, ..old(self)@ }),
            final(self).spec_next_log() == old(self).spec_next_log(),
            final(self).spec_interval() == old(self).spec_interval(),
            final(self).mem_enabled() == old(self).mem_enabled(),
    {
        self.item_name = item_name;
    }

    /// Sets the minimum number of milliseconds between two emitted status
    /// lines; the new spacing takes effect at the next emission.
    pub fn set_log_interval(&mut self, log_interval: u64)
        ensures
            final(self)@ == old(self)@,
            final(self).spec_interval() == log_interval as nat,
            final(self).spec_next_log() == old(self).spec_next_log(),
            final(self).mem_enabled() == old(self).mem_enabled(),
    {
        self.log_interval = log_interval;
    }

    /// Sets or clears the expected number of updates.
    pub fn set_expected_updates(&mut self, expected_updates: Option<usize>)
        ensures
            final(self)@ == (LineState {
                expected: match expected_updates {
                    Some(e) => Some(e as nat),
                    None => None,
                },
                ..old(self)@
            }),
            final(self).spec_next_log() == old(self).spec_next_log(),
            final(self).spec_interval() == old(self).spec_interval(),
            final(self).mem_enabled() == old(self).mem_enabled(),
    {
        self.expected_updates = expected_updates;
    }

    /// Pins or unpins the time unit used in status lines.
    pub fn set_time_unit(&mut self, time_unit: Option<TimeUnit>)
        ensures
            final(self)@ == (LineState { tu: time_unit, ..old(self)@ }),
            final(self).spec_next_log() == old(self).spec_next_log(),
            final(self).spec_interval() == old(self).spec_interval(),
            final(self).mem_enabled() == old(self).mem_enabled(),
    {
        self.time_unit = time_unit;
    }

    /// Turns the additional last-interval speed clause on or off.
    pub fn set_local_speed(&mut self, local_speed: bool)
        ensures
            final(self)@ == (LineState { local_speed: local_speed, ..old(self)@ }),
            final(self).spec_next_log() == old(self).spec_next_log(),
            final(self).spec_interval() == old(self).spec_interval(),
            final(self).mem_enabled() == old(self).mem_enabled(),
    {
        self.local_speed = local_speed;
    }
}

} // verus!
