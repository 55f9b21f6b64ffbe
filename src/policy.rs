use vstd::prelude::*;

verus! {

/// The shortest deadline, in milliseconds: smaller requests are clamped up
/// to it.
pub const MIN_TIMEOUT_MS: u64 = 1;

/// Sentinel exit status meaning "no real status available".
pub const NO_STATUS: i32 = -1;

/// Whether a signed port number names a TCP port.
pub open spec fn port_in_range(port: int) -> bool {
    0 <= port <= 65535
}

/// Converts a requested port to a TCP port; `None` for anything outside
/// `[0, 65535]`.
pub fn parse_port(port: i32) -> (r: Option<u16>)
    ensures
        port_in_range(port as int) <==> r is Some,
        r is Some ==> r->0 as int == port as int,
{
    if 0 <= port && port <= 65535 {
        Some(port as u16)
    } else {
        None
    }
}

/// The deadline, in milliseconds, that a requested timeout stands for:
/// nonpositive requests are clamped up to one millisecond.
pub open spec fn clamped_timeout(ms: int) -> int {
    if ms < 1 { 1 } else { ms }
}

/// Clamps a requested timeout to at least one millisecond.
pub fn clamp_timeout_ms(ms: i32) -> (r: u64)
    ensures
        r as int == clamped_timeout(ms as int),
{
    if ms < 1 {
        MIN_TIMEOUT_MS
    } else {
        ms as u64
    }
}

/// The signed status reported for a remote exit code: the code itself when
/// it fits in `i32`, else the sentinel.
pub open spec fn reported_status(code: int) -> int {
    if code <= i32::MAX as int { code } else { NO_STATUS as int }
}

/// Coerces a remote exit code to a signed status.
pub fn exit_status_from(code: u32) -> (r: i32)
    ensures
        r as int == reported_status(code as int),
{
    if code <= i32::MAX as u32 {
        code as i32
    } else {
        NO_STATUS
    }
}

} // verus!
