//! The integer side of flow-control tuning: the bounds a window target is
//! held to, and the windows a QUIC transport is configured with.
use vstd::prelude::*;

verus! {

/// The smallest window the tuner asks for by default: 256 KiB.
pub const DEFAULT_MIN_WINDOW: u64 = 262144;

/// The largest window the tuner asks for by default: 256 MiB.
pub const DEFAULT_MAX_WINDOW: u64 = 268435456;

/// The largest value a QUIC variable-length integer can carry: 2^62 - 1.
pub const VARINT_MAX: u64 = 0x3fff_ffff_ffff_ffff;

/// `value` held to `[lo, hi]`.
pub open spec fn spec_clamp(value: int, lo: int, hi: int) -> int {
    if value < lo {
        lo
    } else if value > hi {
        hi
    } else {
        value
    }
}

/// `value` held to `[min_window, max_window]`.
pub fn clamp_target(min_window: u64, max_window: u64, value: u64) -> (r: u64)
    requires
        min_window <= max_window,
    ensures
        r == spec_clamp(value as int, min_window as int, max_window as int),
{
    if value < min_window {
        min_window
    } else if value > max_window {
        max_window
    } else {
        value
    }
}

/// The window asked for with a target of `target_inflight`: raised to the
/// minimum first, then cut to the maximum (so the maximum wins when the
/// bounds cross).
pub open spec fn spec_current_target(target_inflight: u64, min_window: u64, max_window: u64) -> u64 {
    let raised = if target_inflight >= min_window {
        target_inflight
    } else {
        min_window
    };
    if raised <= max_window {
        raised
    } else {
        max_window
    }
}

/// The window asked for with a target of `target_inflight`.
pub fn current_target(target_inflight: u64, min_window: u64, max_window: u64) -> (r: u64)
    ensures
        r == spec_current_target(target_inflight, min_window, max_window),
{
    let raised = if target_inflight >= min_window {
        target_inflight
    } else {
        min_window
    };
    if raised <= max_window {
        raised
    } else {
        max_window
    }
}

/// The windows of a transport tuned to `target`: the receive windows (per
/// stream and per connection), which a QUIC integer must carry, and the send
/// window.
pub fn flow_windows(min_window: u64, max_window: u64, target: u64) -> (r: (u64, u64))
    requires
        min_window <= max_window,
    ensures
        r.1 == spec_clamp(target as int, min_window as int, max_window as int),
        r.0 == (if r.1 <= VARINT_MAX {
            r.1
        } else {
            VARINT_MAX
        }),
{
    let clamped = clamp_target(min_window, max_window, target);
    let receive = if clamped <= VARINT_MAX {
        clamped
    } else {
        VARINT_MAX
    };
    (receive, clamped)
}

/// A clamped window lies within its bounds, and clamping it again changes
/// nothing.
pub proof fn lemma_clamp_within(value: int, lo: int, hi: int)
    requires
        lo <= hi,
    ensures
        lo <= spec_clamp(value, lo, hi) <= hi,
        spec_clamp(spec_clamp(value, lo, hi), lo, hi) == spec_clamp(value, lo, hi),
        lo <= value <= hi ==> spec_clamp(value, lo, hi) == value,
{
}

/// With ordered bounds the window asked for is the clamped target; a fresh
/// tuner, whose target is the minimum, asks for the minimum.
pub proof fn lemma_current_target_clamps(target_inflight: u64, min_window: u64, max_window: u64)
    requires
        min_window <= max_window,
    ensures
        spec_current_target(target_inflight, min_window, max_window) == spec_clamp(
            target_inflight as int,
            min_window as int,
            max_window as int,
        ),
        spec_current_target(min_window, min_window, max_window) == min_window,
{
}

} // verus!
