//! The collaborators this library consumes — the log sink, the monotonic
//! clock, the pluralizer, locale digit grouping and the memory probe —
//! each behind one trusted item whose contract Verus believes.

use std::io::Write;
use vstd::prelude::*;
use crate::numtext::dec_spec;
use crate::numtext::group_spec;

verus! {

#[verifier::external_type_specification]
#[verifier::external_body]
pub struct ExInstant(std::time::Instant);

#[verifier::external_type_specification]
#[verifier::external_body]
pub struct ExSystem(sysinfo::System);

#[verifier::external_type_specification]
#[verifier::external_body]
pub struct ExPid(sysinfo::Pid);

#[verifier::external_type_specification]
#[verifier::external_body]
pub struct ExProcess(sysinfo::Process);

/// Relies on std::time::Instant::now: an opaque reading of the monotonic
/// clock, used only as the origin that later readings are measured from.
#[verifier::external_body]
pub(crate) fn instant_now() -> std::time::Instant {
    std::time::Instant::now()
}

/// Relies on std::time::Instant::saturating_duration_since: the whole
/// milliseconds from `origin` to `now`, zero where `now` lies earlier,
/// capped at the largest 64-bit value. Nothing is promised of the result:
/// the instants are opaque.
#[verifier::external_body]
pub(crate) fn millis_between(origin: &std::time::Instant, now: &std::time::Instant) -> u64 {
    let elapsed = now.saturating_duration_since(*origin);
    u64::try_from(elapsed.as_millis()).unwrap_or(u64::MAX)
}

/// Relies on std::io::Stderr::lock and std::io::Write::write_fmt: writes
/// `line`, an informational status line, to the standard error stream.
#[verifier::external_body]
pub(crate) fn emit_info(line: &str) {
    let _ = writeln!(std::io::stderr().lock(), "{}", line);
}

/// Relies on pluralizer::pluralize, asked not to prepend the count: the
/// singular or plural form of `word`, depending on `count`. The crate
/// draws on process-global rule tables that any host may extend at any
/// time, so two calls on the same arguments need not agree and nothing is
/// promised of the result: rendering takes the returned noun texts as
/// arguments and is exact over whatever came back.
#[verifier::external_body]
pub(crate) fn pluralized(word: &str, count: usize) -> String {
    pluralizer::pluralize(word, count as isize, false)
}

/// Relies on num_format::ToFormattedString::to_formatted_string with
/// num_format::Locale::en: the decimal digits of `n` grouped in threes
/// by commas.
#[verifier::external_body]
pub(crate) fn grouped_string(n: usize) -> (r: String)
    ensures
        r@ == group_spec(dec_spec(n as nat)),
{
    num_format::ToFormattedString::to_formatted_string(&n, &num_format::Locale::en)
}

/// Relies on sysinfo::System::new_with_specifics, called with a
/// sysinfo::RefreshKind that asks for memory figures only.
#[verifier::external_body]
pub(crate) fn new_memory_system() -> sysinfo::System {
    sysinfo::SystemExt::new_with_specifics(sysinfo::RefreshKind::new().with_memory())
}

/// Relies on sysinfo::get_current_pid: the identifier of the running
/// process, absent where the platform cannot resolve it.
#[verifier::external_body]
pub(crate) fn current_pid() -> Option<sysinfo::Pid> {
    sysinfo::get_current_pid().ok()
}

/// Relies on sysinfo::SystemExt::refresh_memory: refreshes the cached
/// system-wide memory figures.
#[verifier::external_body]
pub(crate) fn refresh_memory(system: &mut sysinfo::System) {
    sysinfo::SystemExt::refresh_memory(system);
}

/// Relies on sysinfo::SystemExt::refresh_process: refreshes the cached
/// figures of the process `pid`, reporting whether it could be read.
#[verifier::external_body]
pub(crate) fn refresh_process(system: &mut sysinfo::System, pid: sysinfo::Pid) -> bool {
    sysinfo::SystemExt::refresh_process(system, pid)
}

/// Relies on sysinfo::SystemExt::process: the cached entry of the process
/// `pid`, absent when the process is not resolvable.
#[verifier::external_body]
pub(crate) fn process_entry<'a>(
    system: &'a sysinfo::System,
    pid: sysinfo::Pid,
) -> Option<&'a sysinfo::Process> {
    sysinfo::SystemExt::process(system, pid)
}

/// Relies on sysinfo::ProcessExt::memory: the cached resident memory of
/// the process, in bytes.
#[verifier::external_body]
pub(crate) fn process_memory(process: &sysinfo::Process) -> u64 {
    sysinfo::ProcessExt::memory(process)
}

/// Relies on sysinfo::SystemExt::available_memory: the cached figure of
/// available system memory, in bytes.
#[verifier::external_body]
pub(crate) fn available_memory(system: &sysinfo::System) -> u64 {
    sysinfo::SystemExt::available_memory(system)
}

/// Relies on sysinfo::SystemExt::free_memory: the cached figure of free
/// system memory, in bytes.
#[verifier::external_body]
pub(crate) fn free_memory(system: &sysinfo::System) -> u64 {
    sysinfo::SystemExt::free_memory(system)
}

/// Relies on sysinfo::SystemExt::total_memory: the cached figure of total
/// system memory, in bytes.
#[verifier::external_body]
pub(crate) fn total_memory(system: &sysinfo::System) -> u64 {
    sysinfo::SystemExt::total_memory(system)
}

} // verus!
