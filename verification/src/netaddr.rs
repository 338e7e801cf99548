//! Which of the machine's own addresses a node offers: the first usable
//! IPv4 address, and a global IPv6 address before a unique-local one.
use vstd::prelude::*;

verus! {

/// An interface address as the system lists it (octets in network order,
/// as one integer).
#[derive(Debug, Clone, Copy, PartialEq, Eq, Structural)]
pub enum IfIp {
    V4(u32),
    V6(u128),
}

/// The addresses a node offers.
#[derive(Debug, Clone, Copy, PartialEq, Eq, Structural)]
pub struct LocalIps {
    pub v4: Option<u32>,
    pub v6: Option<u128>,
}

impl LocalIps {
    /// Whether an IPv4 address is offered.
    pub fn has_v4(&self) -> (b: bool)
        ensures
            b == self.v4 is Some,
    {
        self.v4.is_some()
    }

    /// Whether an IPv6 address is offered.
    pub fn has_v6(&self) -> (b: bool)
        ensures
            b == self.v6 is Some,
    {
        self.v6.is_some()
    }
}

/// An IPv4 address not to offer: loopback (127/8), link-local
/// (169.254/16) or the broadcast address.
pub open spec fn v4_unusable(a: u32) -> bool {
    (a >> 24u32) == 127 || (a >> 16u32) == 0xa9fe || a == 0xffff_ffff
}

/// The first 16 bits of an IPv6 address.
pub open spec fn v6_head(a: u128) -> u128 {
    a >> 112u128
}

/// An IPv6 address not to offer at all: loopback, multicast (ff00::/8),
/// unspecified or unicast link-local (fe80::/10).
pub open spec fn v6_unusable(a: u128) -> bool {
    a == 1 || (v6_head(a) >> 8u128) == 0xff || a == 0 || (v6_head(a) >> 6u128) == (0xfe80u128 >> 6u128)
}

/// A unique-local IPv6 address (fc00::/7).
pub open spec fn v6_unique_local(a: u128) -> bool {
    (v6_head(a) >> 9u128) == (0xfc00u128 >> 9u128)
}

/// A globally reachable IPv6 address: none of loopback, multicast,
/// unspecified, link-local or unique-local.
pub open spec fn spec_is_global_ipv6(a: u128) -> bool {
    !v6_unusable(a) && !v6_unique_local(a)
}

/// Whether an IPv6 address is globally reachable (see
/// `spec_is_global_ipv6`).
pub fn is_global_ipv6(a: u128) -> (b: bool)
    ensures
        b == spec_is_global_ipv6(a),
{
    let head = a >> 112u128;
    let unusable = a == 1 || (head >> 8u128) == 0xff || a == 0 || (head >> 6u128) == (0xfe80u128 >> 6u128);
    let unique_local = (head >> 9u128) == (0xfc00u128 >> 9u128);
    !unusable && !unique_local
}

/// The first usable IPv4 address among the first `n`.
pub open spec fn first_v4(ips: Seq<IfIp>, n: int) -> Option<u32>
    decreases n,
{
    if n <= 0 {
        None
    } else {
        match first_v4(ips, n - 1) {
            Some(a) => Some(a),
            None => match ips[n - 1] {
                IfIp::V4(a) => if !v4_unusable(a) {
                    Some(a)
                } else {
                    None
                },
                IfIp::V6(_) => None,
            },
        }
    }
}

/// The first IPv6 address among the first `n` that is usable and, when
/// `unique_local` is set, unique-local, else global.
pub open spec fn first_v6(ips: Seq<IfIp>, n: int, unique_local: bool) -> Option<u128>
    decreases n,
{
    if n <= 0 {
        None
    } else {
        match first_v6(ips, n - 1, unique_local) {
            Some(a) => Some(a),
            None => match ips[n - 1] {
                IfIp::V6(a) => if !v6_unusable(a) && v6_unique_local(a) == unique_local {
                    Some(a)
                } else {
                    None
                },
                IfIp::V4(_) => None,
            },
        }
    }
}

/// The addresses offered among `ips`: the first usable IPv4 address, and
/// the first global IPv6 address, else the first unique-local one.
pub open spec fn spec_select_local_ips(ips: Seq<IfIp>) -> LocalIps {
    let n = ips.len() as int;
    LocalIps {
        v4: first_v4(ips, n),
        v6: match first_v6(ips, n, false) {
            Some(a) => Some(a),
            None => first_v6(ips, n, true),
        },
    }
}

/// The addresses offered among the machine's interface addresses (see
/// `spec_select_local_ips`).
pub fn select_local_ips(ips: &Vec<IfIp>) -> (r: LocalIps)
    ensures
        r == spec_select_local_ips(ips@),
{
    let mut best_v4: Option<u32> = None;
    let mut best_v6_global: Option<u128> = None;
    let mut best_v6_local: Option<u128> = None;
    let mut i: usize = 0;
    while i < ips.len()
        invariant
            i <= ips@.len(),
            best_v4 == first_v4(ips@, i as int),
            best_v6_global == first_v6(ips@, i as int, false),
            best_v6_local == first_v6(ips@, i as int, true),
        decreases ips@.len() - i,
    {
        match ips[i] {
            IfIp::V4(a) => {
                let unusable = (a >> 24u32) == 127 || (a >> 16u32) == 0xa9fe || a == 0xffff_ffff;
                if !unusable && best_v4.is_none() {
                    best_v4 = Some(a);
                }
            },
            IfIp::V6(a) => {
                let head = a >> 112u128;
                let unusable = a == 1 || (head >> 8u128) == 0xff || a == 0 || (head >> 6u128) == (
                0xfe80u128 >> 6u128);
                let unique_local = (head >> 9u128) == (0xfc00u128 >> 9u128);
                if !unusable {
                    if unique_local {
                        if best_v6_local.is_none() {
                            best_v6_local = Some(a);
                        }
                    } else if best_v6_global.is_none() {
                        best_v6_global = Some(a);
                    }
                }
            },
        }
        i = i + 1;
    }
    LocalIps {
        v4: best_v4,
        v6: match best_v6_global {
            Some(a) => Some(a),
            None => best_v6_local,
        },
    }
}

} // verus!
