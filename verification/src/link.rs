//! The life of a link between two nodes: how messages are framed, how the
//! heartbeat notices a silent peer, and how a node keeps track of its
//! peers and of the peers it is to reconnect to.
use vstd::prelude::*;

use crate::bytes::be32_at;
use crate::mobility::{MobilityConfig, ReconnectState, Span, MAX_SPAN_NANOS};
use crate::stun::SockAddr;

verus! {

/// The longest message a peer may announce: 16 MiB.
pub const MAX_FRAME_LEN: u32 = 16 * 1024 * 1024;

/// Why a frame was refused.
#[derive(Debug, Clone, Copy, PartialEq, Eq, Structural)]
pub enum FrameError {
    /// The announced length is above 16 MiB.
    TooLarge,
}

/// The length a frame's 4-byte big-endian prefix announces, refused above
/// 16 MiB.
pub fn frame_len(prefix: [u8; 4]) -> (r: Result<usize, FrameError>)
    ensures
        be32_at(prefix@, 0) > MAX_FRAME_LEN ==> r == Err::<usize, FrameError>(FrameError::TooLarge),
        be32_at(prefix@, 0) <= MAX_FRAME_LEN ==> r == Ok::<usize, FrameError>(be32_at(prefix@, 0) as usize),
{
    let v: u32 = ((prefix[0] as u32 * 256 + prefix[1] as u32) * 256 + prefix[2] as u32) * 256
        + prefix[3] as u32;
    if v > MAX_FRAME_LEN {
        Err(FrameError::TooLarge)
    } else {
        Ok(v as usize)
    }
}

/// The 4-byte big-endian prefix of a message of `len` bytes (the length
/// taken modulo 2^32, as a `u32` holds it).
pub fn frame_prefix(len: usize) -> (p: [u8; 4])
    ensures
        be32_at(p@, 0) == (len as int) % 0x1_0000_0000,
{
    let v = len as u32;
    let b0 = (v >> 24u32) as u8;
    let b1 = ((v >> 16u32) & 0xff) as u8;
    let b2 = ((v >> 8u32) & 0xff) as u8;
    let b3 = (v & 0xff) as u8;
    assert(((b0 as int * 256 + b1 as int) * 256 + b2 as int) * 256 + b3 as int == v as int) by (bit_vector)
        requires
            b0 == (v >> 24u32) as u8,
            b1 == ((v >> 16u32) & 0xff) as u8,
            b2 == ((v >> 8u32) & 0xff) as u8,
            b3 == (v & 0xff) as u8,
    ;
    assert(v as int == (len as int) % 0x1_0000_0000) by (bit_vector)
        requires
            v == len as u32,
    ;
    [b0, b1, b2, b3]
}

/// The heartbeat of a link: the nonce of the last ping, and how many pings
/// are still unanswered.
#[derive(Debug, Clone, Copy, PartialEq, Eq, Structural)]
pub struct Heartbeat {
    pub nonce: u64,
    pub pending_pings: u32,
    pub max_misses: u32,
}

/// What a heartbeat tick does.
#[derive(Debug, Clone, Copy, PartialEq, Eq, Structural)]
pub enum Beat {
    /// Too many pings went unanswered: the peer is gone.
    TimedOut,
    /// Send a ping with this nonce.
    Ping(u64),
}

impl Heartbeat {
    /// A fresh heartbeat that gives up after `max_misses` unanswered pings.
    pub fn new(max_misses: u32) -> (h: Heartbeat)
        ensures
            h == (Heartbeat { nonce: 0, pending_pings: 0, max_misses }),
    {
        Heartbeat { nonce: 0, pending_pings: 0, max_misses }
    }

    /// A tick: with `max_misses` pings unanswered the peer has timed out;
    /// otherwise the next ping (the nonce wraps around) is sent and counted.
    pub fn on_tick(&mut self) -> (b: Beat)
        ensures
            old(self).pending_pings >= old(self).max_misses ==> b == Beat::TimedOut && *final(self)
                == *old(self),
            old(self).pending_pings < old(self).max_misses ==> {
                &&& final(self).nonce == (old(self).nonce + 1) % 0x1_0000_0000_0000_0000
                &&& b == Beat::Ping(final(self).nonce)
                &&& final(self).pending_pings == old(self).pending_pings + 1
                &&& final(self).max_misses == old(self).max_misses
            },
    {
        if self.pending_pings >= self.max_misses {
            return Beat::TimedOut;
        }
        self.nonce = self.nonce.wrapping_add(1);
        self.pending_pings = self.pending_pings + 1;
        Beat::Ping(self.nonce)
    }

    /// An answer to a ping: nothing is pending any more.
    pub fn on_pong(&mut self)
        ensures
            final(self).pending_pings == 0,
            final(self).nonce == old(self).nonce,
            final(self).max_misses == old(self).max_misses,
    {
        self.pending_pings = 0;
    }
}

/// A heartbeat message from the peer.
#[derive(Debug, Clone, Copy, PartialEq, Eq, Structural)]
pub enum PeerBeat {
    Ping(u64),
    Pong(u64),
}

impl Heartbeat {
    /// A heartbeat message from the peer: a ping is answered by a pong with
    /// the same nonce; a pong (whatever its nonce) clears the pending pings.
    pub fn on_message(&mut self, m: PeerBeat) -> (reply: Option<u64>)
        ensures
            match m {
                PeerBeat::Ping(n) => reply == Some(n) && *final(self) == *old(self),
                PeerBeat::Pong(_) => reply is None && *final(self) == (Heartbeat {
                    pending_pings: 0,
                    ..*old(self)
                }),
            },
    {
        match m {
            PeerBeat::Ping(n) => Some(n),
            PeerBeat::Pong(_) => {
                self.on_pong();
                None
            },
        }
    }
}

/// A silent peer is given up after exactly `max_misses` ticks: the ticks
/// before send a ping each, the next one reports the time-out.
pub proof fn lemma_heartbeat_gives_up(h: Heartbeat, k: nat)
    requires
        h.pending_pings == 0,
        k <= h.max_misses,
    ensures
        ({
            let after = Heartbeat { pending_pings: k as u32, ..h };
            &&& (k < h.max_misses ==> after.pending_pings < after.max_misses)
            &&& (k == h.max_misses ==> after.pending_pings >= after.max_misses)
        }),
{
}

/// A peer the node has a link with.
#[derive(Debug, Clone)]
pub struct PeerEntry {
    pub addr: SockAddr,
    pub peer_id: Option<String>,
    pub verified: bool,
}

/// A peer the node is to reconnect to, and when (in nanoseconds on the
/// node's clock).
#[derive(Debug)]
pub struct RetryEntry {
    pub state: ReconnectState,
    pub retry_at: u128,
}

/// What the node reports to its user about a peer.
#[derive(Debug, Clone)]
pub enum NodeNotice {
    PeerVerified { peer: SockAddr, peer_id: String },
    PeerAuthFailed { peer: SockAddr },
    PeerTimeout(SockAddr),
    PeerDisconnected(SockAddr),
}

/// A node's peers and pending reconnects.
#[derive(Debug)]
pub struct NodeBook {
    pub peers: Vec<PeerEntry>,
    pub retries: Vec<RetryEntry>,
}

/// The index of the peer at `addr`, if any.
pub open spec fn peer_index(peers: Seq<PeerEntry>, addr: SockAddr) -> Option<int> {
    if exists|i: int| 0 <= i < peers.len() && (#[trigger] peers[i]).addr == addr {
        Some(choose|i: int| 0 <= i < peers.len() && (#[trigger] peers[i]).addr == addr)
    } else {
        None
    }
}

/// The index of the reconnect to `addr`, if any.
pub open spec fn retry_index(retries: Seq<RetryEntry>, addr: SockAddr) -> Option<int> {
    if exists|i: int| 0 <= i < retries.len() && (#[trigger] retries[i]).state.peer == addr {
        Some(choose|i: int| 0 <= i < retries.len() && (#[trigger] retries[i]).state.peer == addr)
    } else {
        None
    }
}

/// The addresses of the verified peers among the first `n`, in order.
pub open spec fn verified_addrs(peers: Seq<PeerEntry>, n: int) -> Seq<SockAddr>
    decreases n,
{
    if n <= 0 {
        seq![]
    } else if peers[n - 1].verified {
        verified_addrs(peers, n - 1).push(peers[n - 1].addr)
    } else {
        verified_addrs(peers, n - 1)
    }
}

proof fn lemma_verified_addrs(peers: Seq<PeerEntry>, n: int)
    requires
        0 <= n <= peers.len(),
        forall|i: int, j: int| 0 <= i < j < peers.len() ==> (#[trigger] peers[i]).addr != (#[trigger] peers[j]).addr,
    ensures
        verified_addrs(peers, n).no_duplicates(),
        forall|a: SockAddr|
            #[trigger] verified_addrs(peers, n).contains(a) <==> exists|i: int|
                0 <= i < n && (#[trigger] peers[i]).verified && peers[i].addr == a,
    decreases n,
{
    if n > 0 {
        lemma_verified_addrs(peers, n - 1);
        let prev = verified_addrs(peers, n - 1);
        if peers[n - 1].verified {
            let cur = prev.push(peers[n - 1].addr);
            assert forall|a: SockAddr| #[trigger] cur.contains(a) <==> exists|i: int|
                0 <= i < n && (#[trigger] peers[i]).verified && peers[i].addr == a by {
                if cur.contains(a) {
                    let k = choose|k: int| 0 <= k < cur.len() && cur[k] == a;
                    if k == prev.len() {
                        assert(peers[n - 1].verified && peers[n - 1].addr == a);
                    } else {
                        assert(prev[k] == a);
                        assert(prev.contains(a));
                    }
                }
                if exists|i: int| 0 <= i < n && (#[trigger] peers[i]).verified && peers[i].addr == a {
                    let i = choose|i: int| 0 <= i < n && (#[trigger] peers[i]).verified && peers[i].addr == a;
                    if i == n - 1 {
                        assert(cur[prev.len() as int] == a);
                    } else {
                        assert(prev.contains(a));
                        let k = choose|k: int| 0 <= k < prev.len() && prev[k] == a;
                        assert(cur[k] == a);
                    }
                }
            }
            assert forall|x: int, y: int| 0 <= x < y < cur.len() implies cur[x] != cur[y] by {
                if y == prev.len() {
                    assert(prev.contains(cur[x]));
                    if cur[x] == cur[y] {
                        let i = choose|i: int| 0 <= i < n - 1 && (#[trigger] peers[i]).verified && peers[i].addr == cur[x];
                        assert(peers[i].addr != peers[n - 1].addr);
                    }
                }
            }
        }
    }
}

impl NodeBook {
    /// Each peer and each reconnect is listed once.
    pub open spec fn wf(&self) -> bool {
        &&& forall|i: int, j: int|
            0 <= i < j < self.peers@.len() ==> (#[trigger] self.peers@[i]).addr != (
            #[trigger] self.peers@[j]).addr
        &&& forall|i: int, j: int|
            0 <= i < j < self.retries@.len() ==> (#[trigger] self.retries@[i]).state.peer != (
            #[trigger] self.retries@[j]).state.peer
    }

    /// The node has a link with `addr`.
    pub open spec fn has_peer(&self, addr: SockAddr) -> bool {
        peer_index(self.peers@, addr) is Some
    }

    /// The peers a broadcast goes to: every verified peer, once each, in
    /// the order they are listed; peers still in the handshake get nothing.
    pub fn broadcast_targets(&self) -> (r: Vec<SockAddr>)
        requires
            self.wf(),
        ensures
            r@ == verified_addrs(self.peers@, self.peers@.len() as int),
            r@.no_duplicates(),
            forall|a: SockAddr|
                #[trigger] r@.contains(a) <==> exists|i: int|
                    0 <= i < self.peers@.len() && (#[trigger] self.peers@[i]).verified && self.peers@[i].addr == a,
    {
        let mut r: Vec<SockAddr> = Vec::new();
        let mut i: usize = 0;
        while i < self.peers.len()
            invariant
                i <= self.peers@.len(),
                r@ == verified_addrs(self.peers@, i as int),
            decreases self.peers@.len() - i,
        {
            if self.peers[i].verified {
                r.push(self.peers[i].addr);
            }
            i = i + 1;
        }
        proof {
            lemma_verified_addrs(self.peers@, self.peers@.len() as int);
        }
        r
    }

    /// An empty book.
    pub fn new() -> (b: NodeBook)
        ensures
            b.wf(),
            b.peers@.len() == 0,
            b.retries@.len() == 0,
    {
        NodeBook { peers: Vec::new(), retries: Vec::new() }
    }

    fn find_peer(&self, addr: SockAddr) -> (r: Option<usize>)
        requires
            self.wf(),
        ensures
            match r {
                Some(i) => i < self.peers@.len() && self.peers@[i as int].addr == addr && peer_index(
                    self.peers@,
                    addr,
                ) == Some(i as int),
                None => peer_index(self.peers@, addr) is None,
            },
    {
        let mut i: usize = 0;
        while i < self.peers.len()
            invariant
                self.wf(),
                i <= self.peers@.len(),
                forall|j: int| 0 <= j < i ==> (#[trigger] self.peers@[j]).addr != addr,
            decreases self.peers@.len() - i,
        {
            if self.peers[i].addr == addr {
                proof {
                    let k = choose|k: int| 0 <= k < self.peers@.len() && (#[trigger] self.peers@[k]).addr == addr;
                    if k != i {
                        if k < i {
                            assert(self.peers@[k].addr != addr);
                        } else {
                            assert(self.peers@[i as int].addr != self.peers@[k].addr);
                        }
                    }
                }
                return Some(i);
            }
            i = i + 1;
        }
        None
    }

    fn find_retry(&self, addr: SockAddr) -> (r: Option<usize>)
        requires
            self.wf(),
        ensures
            match r {
                Some(i) => i < self.retries@.len() && self.retries@[i as int].state.peer == addr
                    && retry_index(self.retries@, addr) == Some(i as int),
                None => retry_index(self.retries@, addr) is None,
            },
    {
        let mut i: usize = 0;
        while i < self.retries.len()
            invariant
                self.wf(),
                i <= self.retries@.len(),
                forall|j: int| 0 <= j < i ==> (#[trigger] self.retries@[j]).state.peer != addr,
            decreases self.retries@.len() - i,
        {
            if self.retries[i].state.peer == addr {
                proof {
                    let k = choose|k: int| 0 <= k < self.retries@.len() && (#[trigger] self.retries@[k]).state.peer == addr;
                    if k != i {
                        if k < i {
                            assert(self.retries@[k].state.peer != addr);
                        } else {
                            assert(self.retries@[i as int].state.peer != self.retries@[k].state.peer);
                        }
                    }
                }
                return Some(i);
            }
            i = i + 1;
        }
        None
    }

    /// Whether a connection to `addr` is to be opened: not while the node
    /// has a link with it.
    pub fn should_connect(&self, addr: SockAddr) -> (b: bool)
        requires
            self.wf(),
        ensures
            b == !self.has_peer(addr),
    {
        self.find_peer(addr).is_none()
    }

    /// A link with `addr` is up: the peer is listed, not yet verified
    /// (replacing an earlier entry for it).
    pub fn register(&mut self, addr: SockAddr)
        requires
            old(self).wf(),
        ensures
            final(self).wf(),
            final(self).retries@ == old(self).retries@,
            final(self).has_peer(addr),
            ({
                let i = peer_index(final(self).peers@, addr)->0;
                final(self).peers@[i].peer_id is None && !final(self).peers@[i].verified
            }),
            forall|a: SockAddr| a != addr ==> (#[trigger] final(self).has_peer(a) <==> old(self).has_peer(a)),
    {
        let entry = PeerEntry { addr, peer_id: None, verified: false };
        match self.find_peer(addr) {
            Some(i) => {
                self.peers.set(i, entry);
                proof {
                    self.lemma_index_of(i as int);
                    self.lemma_has_peer_same(old(self).peers@, i as int);
                }
            },
            None => {
                let ghost before = self.peers@;
                self.peers.push(entry);
                proof {
                    assert forall|x: int, y: int| 0 <= x < y < self.peers@.len() implies (
                    #[trigger] self.peers@[x]).addr != (#[trigger] self.peers@[y]).addr by {
                        if y == before.len() {
                            assert(before[x].addr != addr);
                        }
                    }
                    self.lemma_index_of((self.peers@.len() - 1) as int);
                    assert forall|a: SockAddr| a != addr implies (#[trigger] self.has_peer(a) <==> old(
                        self,
                    ).has_peer(a)) by {
                        if self.has_peer(a) {
                            let k = choose|k: int| 0 <= k < self.peers@.len() && (#[trigger] self.peers@[k]).addr == a;
                            assert(k < before.len());
                            assert(before[k].addr == a);
                        }
                        if old(self).has_peer(a) {
                            let k = choose|k: int| 0 <= k < before.len() && (#[trigger] before[k]).addr == a;
                            assert(self.peers@[k].addr == a);
                        }
                    }
                }
            },
        }
    }

    proof fn lemma_index_of(&self, i: int)
        requires
            self.wf(),
            0 <= i < self.peers@.len(),
        ensures
            peer_index(self.peers@, self.peers@[i].addr) == Some(i),
    {
        let a = self.peers@[i].addr;
        let k = choose|k: int| 0 <= k < self.peers@.len() && (#[trigger] self.peers@[k]).addr == a;
        if k < i {
            assert(self.peers@[k].addr != self.peers@[i].addr);
        } else if k > i {
            assert(self.peers@[i].addr != self.peers@[k].addr);
        }
    }

    proof fn lemma_has_peer_same(&self, before: Seq<PeerEntry>, i: int)
        requires
            before.len() == self.peers@.len(),
            0 <= i < before.len(),
            forall|j: int| 0 <= j < before.len() ==> (#[trigger] before[j]).addr == self.peers@[j].addr,
        ensures
            forall|a: SockAddr| (#[trigger] peer_index(self.peers@, a) is Some) <==> peer_index(before, a) is Some,
    {
        assert forall|a: SockAddr| (#[trigger] peer_index(self.peers@, a) is Some) <==> peer_index(before, a) is Some by {
            if peer_index(self.peers@, a) is Some {
                let k = choose|k: int| 0 <= k < self.peers@.len() && (#[trigger] self.peers@[k]).addr == a;
                assert(before[k].addr == a);
            }
            if peer_index(before, a) is Some {
                let k = choose|k: int| 0 <= k < before.len() && (#[trigger] before[k]).addr == a;
                assert(self.peers@[k].addr == a);
            }
        }
    }
}

/// A reconnect state after one more failure (see
/// `ReconnectState::bump_backoff`).
pub open spec fn bumped(st: ReconnectState, m: MobilityConfig) -> ReconnectState {
    ReconnectState {
        peer: st.peer,
        failures: if st.failures == u32::MAX {
            u32::MAX
        } else {
            (st.failures + 1) as u32
        },
        backoff: Span {
            nanos: if st.backoff.nanos * 2 <= m.reconnect_max.nanos {
                (st.backoff.nanos * 2) as u128
            } else {
                m.reconnect_max.nanos
            },
        },
    }
}

/// The earliest reconnect time among the first `n` reconnects.
pub open spec fn earliest(retries: Seq<RetryEntry>, n: int) -> Option<u128>
    decreases n,
{
    if n <= 0 {
        None
    } else {
        let e = retries[n - 1].retry_at;
        match earliest(retries, n - 1) {
            None => Some(e),
            Some(m) => Some(if e < m {
                e
            } else {
                m
            }),
        }
    }
}

/// How long the node waits before it next looks at its reconnects when
/// nothing is scheduled: an hour.
pub const IDLE_WAKE_NANOS: u128 = 3_600_000_000_000;

impl NodeBook {
    /// Every reconnect backs off by at most `cap` nanoseconds.
    pub open spec fn backoffs_within(&self, cap: u128) -> bool {
        forall|i: int| 0 <= i < self.retries@.len() ==> (#[trigger] self.retries@[i]).state.backoff.nanos <= cap
    }

    proof fn lemma_remove_keeps_distinct_peers(s: Seq<PeerEntry>, i: int)
        requires
            0 <= i < s.len(),
            forall|x: int, y: int| 0 <= x < y < s.len() ==> (#[trigger] s[x]).addr != (#[trigger] s[y]).addr,
        ensures
            forall|x: int, y: int|
                0 <= x < y < s.remove(i).len() ==> (#[trigger] s.remove(i)[x]).addr != (
                #[trigger] s.remove(i)[y]).addr,
    {
        let r = s.remove(i);
        assert forall|x: int, y: int| 0 <= x < y < r.len() implies (#[trigger] r[x]).addr != (
        #[trigger] r[y]).addr by {
            let xx = if x < i { x } else { x + 1 };
            let yy = if y < i { y } else { y + 1 };
            assert(r[x] == s[xx]);
            assert(r[y] == s[yy]);
        }
    }

    proof fn lemma_remove_keeps_distinct_retries(s: Seq<RetryEntry>, i: int)
        requires
            0 <= i < s.len(),
            forall|x: int, y: int|
                0 <= x < y < s.len() ==> (#[trigger] s[x]).state.peer != (#[trigger] s[y]).state.peer,
        ensures
            forall|x: int, y: int|
                0 <= x < y < s.remove(i).len() ==> (#[trigger] s.remove(i)[x]).state.peer != (
                #[trigger] s.remove(i)[y]).state.peer,
    {
        let r = s.remove(i);
        assert forall|x: int, y: int| 0 <= x < y < r.len() implies (#[trigger] r[x]).state.peer != (
        #[trigger] r[y]).state.peer by {
            let xx = if x < i { x } else { x + 1 };
            let yy = if y < i { y } else { y + 1 };
            assert(r[x] == s[xx]);
            assert(r[y] == s[yy]);
        }
    }

    /// A peer passed the handshake: it is marked verified under its name,
    /// any reconnect to it is dropped, and the user is told.
    pub fn on_peer_ready(&mut self, addr: SockAddr, peer_id: String) -> (n: NodeNotice)
        requires
            old(self).wf(),
        ensures
            final(self).wf(),
            n matches NodeNotice::PeerVerified { peer, peer_id: id } && peer == addr && id@ == peer_id@,
            match peer_index(old(self).peers@, addr) {
                Some(i) => {
                    &&& final(self).peers@.len() == old(self).peers@.len()
                    &&& final(self).peers@[i].addr == addr
                    &&& final(self).peers@[i].verified
                    &&& (final(self).peers@[i].peer_id matches Some(id) && id@ == peer_id@)
                    &&& forall|j: int|
                        0 <= j < old(self).peers@.len() && j != i ==> #[trigger] final(self).peers@[j]
                            == old(self).peers@[j]
                },
                None => final(self).peers@ == old(self).peers@,
            },
            match retry_index(old(self).retries@, addr) {
                Some(i) => final(self).retries@ == old(self).retries@.remove(i),
                None => final(self).retries@ == old(self).retries@,
            },
    {
        let id_copy = peer_id.clone();
        match self.find_peer(addr) {
            Some(i) => {
                self.peers.set(i, PeerEntry { addr, peer_id: Some(peer_id), verified: true });
                proof {
                    assert forall|x: int, y: int| 0 <= x < y < self.peers@.len() implies (
                    #[trigger] self.peers@[x]).addr != (#[trigger] self.peers@[y]).addr by {
                        assert(self.peers@[x].addr == old(self).peers@[x].addr);
                        assert(self.peers@[y].addr == old(self).peers@[y].addr);
                    }
                }
            },
            None => {},
        }
        match self.find_retry(addr) {
            Some(i) => {
                let ghost before = self.retries@;
                self.retries.remove(i);
                proof {
                    Self::lemma_remove_keeps_distinct_retries(before, i as int);
                }
            },
            None => {},
        }
        NodeNotice::PeerVerified { peer: addr, peer_id: id_copy }
    }

    /// A peer failed the handshake: it is dropped and the user is told.
    pub fn on_peer_failed(&mut self, addr: SockAddr) -> (n: NodeNotice)
        requires
            old(self).wf(),
        ensures
            final(self).wf(),
            n matches NodeNotice::PeerAuthFailed { peer } && peer == addr,
            !final(self).has_peer(addr),
            match peer_index(old(self).peers@, addr) {
                Some(i) => final(self).peers@ == old(self).peers@.remove(i),
                None => final(self).peers@ == old(self).peers@,
            },
            final(self).retries@ == old(self).retries@,
    {
        self.drop_peer(addr);
        NodeNotice::PeerAuthFailed { peer: addr }
    }

    fn drop_peer(&mut self, addr: SockAddr)
        requires
            old(self).wf(),
        ensures
            final(self).wf(),
            !final(self).has_peer(addr),
            match peer_index(old(self).peers@, addr) {
                Some(i) => final(self).peers@ == old(self).peers@.remove(i),
                None => final(self).peers@ == old(self).peers@,
            },
            final(self).retries@ == old(self).retries@,
    {
        match self.find_peer(addr) {
            Some(i) => {
                let ghost before = self.peers@;
                self.peers.remove(i);
                proof {
                    Self::lemma_remove_keeps_distinct_peers(before, i as int);
                    if self.has_peer(addr) {
                        let k = choose|k: int| 0 <= k < self.peers@.len() && (#[trigger] self.peers@[k]).addr == addr;
                        let kk = if k < i { k } else { k + 1 };
                        assert(self.peers@[k] == before[kk]);
                        if kk < i {
                            assert(before[kk].addr != before[i as int].addr);
                        } else {
                            assert(before[i as int].addr != before[kk].addr);
                        }
                    }
                }
            },
            None => {},
        }
    }

    /// A peer's link went down: it is dropped and the user is told whether
    /// it timed out. When reconnecting is on, a first reconnect to it is due
    /// after the initial wait; when a reconnect to it was already under way
    /// (that attempt failed), it backs off once more and is due after the
    /// longer wait. The earliest due reconnect is returned.
    pub fn on_peer_gone(
        &mut self,
        addr: SockAddr,
        timed_out: bool,
        now: u128,
        mobility: &MobilityConfig,
        cap: u128,
    ) -> (r: (NodeNotice, Option<u128>))
        requires
            old(self).wf(),
            old(self).backoffs_within(cap),
            mobility.reconnect_initial.nanos <= cap,
            mobility.reconnect_max.nanos <= cap,
            cap * 2 <= MAX_SPAN_NANOS,
            now + cap <= u128::MAX,
        ensures
            final(self).wf(),
            final(self).backoffs_within(cap),
            !final(self).has_peer(addr),
            match peer_index(old(self).peers@, addr) {
                Some(i) => final(self).peers@ == old(self).peers@.remove(i),
                None => final(self).peers@ == old(self).peers@,
            },
            timed_out ==> (r.0 matches NodeNotice::PeerTimeout(p) && p == addr),
            !timed_out ==> (r.0 matches NodeNotice::PeerDisconnected(p) && p == addr),
            !mobility.reconnect_enabled ==> final(self).retries@ == old(self).retries@ && r.1 is None,
            mobility.reconnect_enabled ==> {
                let st = match retry_index(old(self).retries@, addr) {
                    Some(i) => bumped(old(self).retries@[i].state, *mobility),
                    None => ReconnectState { peer: addr, backoff: mobility.reconnect_initial, failures: 0 },
                };
                let e = RetryEntry { state: st, retry_at: (now + st.backoff.nanos) as u128 };
                &&& match retry_index(old(self).retries@, addr) {
                    Some(i) => final(self).retries@ == old(self).retries@.update(i, e),
                    None => final(self).retries@ == old(self).retries@.push(e),
                }
                &&& r.1 == earliest(final(self).retries@, final(self).retries@.len() as int)
            },
    {
        self.drop_peer(addr);
        let notice = if timed_out {
            NodeNotice::PeerTimeout(addr)
        } else {
            NodeNotice::PeerDisconnected(addr)
        };
        if !mobility.reconnect_enabled {
            return (notice, None);
        }
        let ghost before = self.retries@;
        match self.find_retry(addr) {
            Some(i) => {
                let mut st = ReconnectState {
                    peer: self.retries[i].state.peer,
                    backoff: self.retries[i].state.backoff,
                    failures: self.retries[i].state.failures,
                };
                assert(st.backoff.nanos <= cap);
                st.bump_backoff(mobility);
                let at = now + st.backoff.nanos;
                self.retries.set(i, RetryEntry { state: st, retry_at: at });
                proof {
                    assert forall|x: int, y: int| 0 <= x < y < self.retries@.len() implies (
                    #[trigger] self.retries@[x]).state.peer != (#[trigger] self.retries@[y]).state.peer by {
                        assert(self.retries@[x].state.peer == before[x].state.peer);
                        assert(self.retries@[y].state.peer == before[y].state.peer);
                    }
                }
            },
            None => {
                let st = ReconnectState { peer: addr, backoff: mobility.reconnect_initial, failures: 0 };
                let at = now + st.backoff.nanos;
                self.retries.push(RetryEntry { state: st, retry_at: at });
                proof {
                    assert forall|x: int, y: int| 0 <= x < y < self.retries@.len() implies (
                    #[trigger] self.retries@[x]).state.peer != (#[trigger] self.retries@[y]).state.peer by {
                        if y == before.len() {
                            assert(before[x].state.peer != addr);
                        }
                    }
                }
            },
        }
        let wake = self.earliest_retry();
        (notice, wake)
    }

    /// The earliest time a reconnect is due, if any is scheduled.
    pub fn earliest_retry(&self) -> (r: Option<u128>)
        ensures
            r == earliest(self.retries@, self.retries@.len() as int),
    {
        let mut best: Option<u128> = None;
        let mut i: usize = 0;
        while i < self.retries.len()
            invariant
                i <= self.retries@.len(),
                best == earliest(self.retries@, i as int),
            decreases self.retries@.len() - i,
        {
            let e = self.retries[i].retry_at;
            best = match best {
                None => Some(e),
                Some(m) => Some(if e < m {
                    e
                } else {
                    m
                }),
            };
            i = i + 1;
        }
        best
    }

    /// How long to wait from `now` until the next reconnect is due (0 when
    /// one is overdue), or an hour when none is scheduled.
    pub fn next_wake(&self, now: u128) -> (d: u128)
        ensures
            d == match earliest(self.retries@, self.retries@.len() as int) {
                None => IDLE_WAKE_NANOS,
                Some(t) => if t >= now {
                    (t - now) as u128
                } else {
                    0
                },
            },
    {
        match self.earliest_retry() {
            None => IDLE_WAKE_NANOS,
            Some(t) => if t >= now {
                t - now
            } else {
                0
            },
        }
    }

    /// The peers among the first `n` reconnects that are due at `now` and
    /// have no link, in the order of the reconnects.
    pub open spec fn due_addrs(&self, n: int, now: u128) -> Seq<SockAddr>
        decreases n,
    {
        if n <= 0 {
            seq![]
        } else {
            let e = self.retries@[n - 1];
            let prev = self.due_addrs(n - 1, now);
            if e.retry_at <= now && !self.has_peer(e.state.peer) {
                prev.push(e.state.peer)
            } else {
                prev
            }
        }
    }

    /// The peers whose reconnect is due at `now` and that have no link,
    /// in the order they were scheduled, each once.
    pub fn due_reconnects(&self, now: u128) -> (r: Vec<SockAddr>)
        requires
            self.wf(),
        ensures
            r@ == self.due_addrs(self.retries@.len() as int, now),
            r@.no_duplicates(),
            forall|a: SockAddr|
                r@.contains(a) <==> exists|i: int|
                    0 <= i < self.retries@.len() && (#[trigger] self.retries@[i]).state.peer == a
                        && self.retries@[i].retry_at <= now && !self.has_peer(a),
    {
        let mut out: Vec<SockAddr> = Vec::new();
        let mut i: usize = 0;
        while i < self.retries.len()
            invariant
                self.wf(),
                i <= self.retries@.len(),
                out@ == self.due_addrs(i as int, now),
                out@.no_duplicates(),
                forall|a: SockAddr|
                    out@.contains(a) <==> exists|j: int|
                        0 <= j < i && (#[trigger] self.retries@[j]).state.peer == a
                            && self.retries@[j].retry_at <= now && !self.has_peer(a),
            decreases self.retries@.len() - i,
        {
            let e = &self.retries[i];
            let a = e.state.peer;
            let ghost before = out@;
            if e.retry_at <= now && self.should_connect(a) {
                proof {
                    if before.contains(a) {
                        let j = choose|j: int|
                            0 <= j < i && (#[trigger] self.retries@[j]).state.peer == a
                                && self.retries@[j].retry_at <= now && !self.has_peer(a);
                        assert(self.retries@[j].state.peer != self.retries@[i as int].state.peer);
                    }
                }
                out.push(a);
                proof {
                    assert forall|x: int, y: int| 0 <= x < y < out@.len() implies out@[x] != out@[y] by {
                        if y == before.len() {
                            assert(before.contains(out@[x]));
                        } else {
                            assert(before[x] != before[y]);
                        }
                    }
                    assert forall|b: SockAddr| out@.contains(b) <==> exists|j: int|
                        0 <= j < i + 1 && (#[trigger] self.retries@[j]).state.peer == b
                            && self.retries@[j].retry_at <= now && !self.has_peer(b) by {
                        if out@.contains(b) {
                            let k = choose|k: int| 0 <= k < out@.len() && out@[k] == b;
                            if k < before.len() {
                                assert(before.contains(b));
                            } else {
                                assert(self.retries@[i as int].state.peer == b);
                            }
                        }
                        if exists|j: int|
                            0 <= j < i + 1 && (#[trigger] self.retries@[j]).state.peer == b
                                && self.retries@[j].retry_at <= now && !self.has_peer(b) {
                            let j = choose|j: int|
                                0 <= j < i + 1 && (#[trigger] self.retries@[j]).state.peer == b
                                    && self.retries@[j].retry_at <= now && !self.has_peer(b);
                            if j < i {
                                assert(before.contains(b));
                                let k = choose|k: int| 0 <= k < before.len() && before[k] == b;
                                assert(out@[k] == b);
                            } else {
                                assert(out@[before.len() as int] == b);
                            }
                        }
                    }
                }
            } else {
                proof {
                    assert forall|b: SockAddr| out@.contains(b) <==> exists|j: int|
                        0 <= j < i + 1 && (#[trigger] self.retries@[j]).state.peer == b
                            && self.retries@[j].retry_at <= now && !self.has_peer(b) by {
                        if exists|j: int|
                            0 <= j < i + 1 && (#[trigger] self.retries@[j]).state.peer == b
                                && self.retries@[j].retry_at <= now && !self.has_peer(b) {
                            let j = choose|j: int|
                                0 <= j < i + 1 && (#[trigger] self.retries@[j]).state.peer == b
                                    && self.retries@[j].retry_at <= now && !self.has_peer(b);
                            if j == i {
                                assert(false);
                            }
                        }
                    }
                }
            }
            i = i + 1;
        }
        out
    }
}


/// A frame's prefix reads back as the frame's length, for every length up
/// to 16 MiB: the bytes `frame_prefix` gives for `len` are the bytes on
/// which `frame_len` answers `Ok(len)`.
pub proof fn lemma_frame_read_back(len: usize, prefix: Seq<u8>)
    requires
        len <= MAX_FRAME_LEN,
        prefix.len() == 4,
        be32_at(prefix, 0) == (len as int) % 0x1_0000_0000,
    ensures
        be32_at(prefix, 0) <= MAX_FRAME_LEN,
        be32_at(prefix, 0) as usize == len,
{
}


/// Whether a new flow-control window is worth applying: always after none,
/// else when it moved more than a tenth away from the current one.
pub fn should_refresh_window(previous: u64, new_value: u64) -> (b: bool)
    requires
        previous + previous / 10 <= u64::MAX,
    ensures
        b == (previous == 0 || new_value < previous - previous / 10 || new_value > previous + previous
            / 10),
{
    if previous == 0 {
        return true;
    }
    let lower = previous - previous / 10;
    let upper = previous + previous / 10;
    new_value < lower || new_value > upper
}

} // verus!
