//! Keeping a connection alive while the network changes: how often the
//! public endpoint is observed, and how reconnect attempts back off.
use vstd::prelude::*;

use crate::stun::SockAddr;

verus! {

/// The longest span a `Duration` holds, in nanoseconds.
pub const MAX_SPAN_NANOS: u128 = 18_446_744_073_709_551_615_999_999_999;

/// A length of time in nanoseconds, within the range of a `Duration`.
#[derive(Debug, Clone, Copy, PartialEq, Eq, Structural)]
pub struct Span {
    pub nanos: u128,
}

impl Span {
    /// `secs` seconds.
    pub fn from_secs(secs: u64) -> (s: Span)
        ensures
            s.nanos == secs * 1_000_000_000,
    {
        Span { nanos: secs as u128 * 1_000_000_000 }
    }

    /// `ms` milliseconds.
    pub fn from_millis(ms: u64) -> (s: Span)
        ensures
            s.nanos == ms * 1_000_000,
    {
        Span { nanos: ms as u128 * 1_000_000 }
    }
}

/// How a node follows network changes: whether it watches its public
/// endpoint and how often, whether and how it reconnects, and after how
/// many failed attempts it binds a fresh socket.
#[derive(Debug, Clone, Copy)]
pub struct MobilityConfig {
    pub enabled: bool,
    pub observe_interval: Span,
    pub reconnect_enabled: bool,
    pub reconnect_initial: Span,
    pub reconnect_max: Span,
    pub rebind_after_failures: u32,
}

impl MobilityConfig {
    /// The defaults: watch every 10 s, reconnect starting at 500 ms and
    /// backing off up to 10 s, never rebind.
    pub fn defaults() -> (c: MobilityConfig)
        ensures
            c.enabled,
            c.observe_interval.nanos == 10_000_000_000,
            c.reconnect_enabled,
            c.reconnect_initial.nanos == 500_000_000,
            c.reconnect_max.nanos == 10_000_000_000,
            c.rebind_after_failures == 0,
    {
        MobilityConfig {
            enabled: true,
            observe_interval: Span::from_secs(10),
            reconnect_enabled: true,
            reconnect_initial: Span::from_millis(500),
            reconnect_max: Span::from_secs(10),
            rebind_after_failures: 0,
        }
    }

    /// Whether to bind a fresh socket after `failures` failed attempts:
    /// once the threshold is reached, and never when the threshold is 0.
    pub fn should_rebind(&self, failures: u32) -> (b: bool)
        ensures
            b == (self.rebind_after_failures > 0 && failures >= self.rebind_after_failures),
    {
        self.rebind_after_failures > 0 && failures >= self.rebind_after_failures
    }

    /// The wait before the next attempt: twice the current one, capped at
    /// the longest.
    pub fn next_backoff(&self, current: Span) -> (r: Span)
        requires
            current.nanos * 2 <= MAX_SPAN_NANOS,
        ensures
            r.nanos == if current.nanos * 2 <= self.reconnect_max.nanos {
                current.nanos * 2
            } else {
                self.reconnect_max.nanos as int
            },
            r.nanos <= self.reconnect_max.nanos,
            current.nanos <= self.reconnect_max.nanos ==> current.nanos <= r.nanos,
    {
        let doubled = current.nanos * 2;
        if doubled <= self.reconnect_max.nanos {
            Span { nanos: doubled }
        } else {
            self.reconnect_max
        }
    }
}

/// A peer being reconnected to: the current wait and how many attempts
/// failed.
#[derive(Debug)]
pub struct ReconnectState {
    pub peer: SockAddr,
    pub backoff: Span,
    pub failures: u32,
}

impl ReconnectState {
    /// After a failed attempt: one more failure (held at the greatest
    /// `u32`), and the wait backs off.
    pub fn bump_backoff(&mut self, mobility: &MobilityConfig)
        requires
            old(self).backoff.nanos * 2 <= MAX_SPAN_NANOS,
        ensures
            final(self).peer == old(self).peer,
            final(self).failures == if old(self).failures == u32::MAX {
                u32::MAX as int
            } else {
                old(self).failures + 1
            },
            final(self).backoff.nanos == if old(self).backoff.nanos * 2 <= mobility.reconnect_max.nanos {
                old(self).backoff.nanos * 2
            } else {
                mobility.reconnect_max.nanos as int
            },
    {
        self.failures = self.failures.saturating_add(1);
        self.backoff = mobility.next_backoff(self.backoff);
    }
}

/// How a QUIC connection is opened: the name the peer's certificate is
/// checked against, and how long to wait.
#[derive(Debug, Clone)]
pub struct ConnectOptions {
    pub server_name: &'static str,
    pub timeout: Span,
}

impl ConnectOptions {
    /// The defaults: `p2p.local`, waiting 4 s.
    pub fn defaults() -> (o: ConnectOptions)
        ensures
            o.server_name == "p2p.local",
            o.timeout.nanos == 4_000_000_000,
    {
        ConnectOptions { server_name: "p2p.local", timeout: Span::from_secs(4) }
    }
}

/// How a reachability probe connects: the certificate name, and how long to
/// wait.
#[derive(Debug, Clone)]
pub struct ProbeOptions {
    pub server_name: &'static str,
    pub timeout: Span,
}

impl ProbeOptions {
    /// The defaults: `p2p.local`, waiting 2 s.
    pub fn defaults() -> (o: ProbeOptions)
        ensures
            o.server_name == "p2p.local",
            o.timeout.nanos == 2_000_000_000,
    {
        ProbeOptions { server_name: "p2p.local", timeout: Span::from_secs(2) }
    }
}

} // verus!
