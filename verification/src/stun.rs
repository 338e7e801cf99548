//! STUN (RFC 5389) binding request encoding and binding response decoding,
//! plus the decisions of the public-endpoint probe that do not touch a socket.
use vstd::prelude::*;

use crate::text::{spec_hex, to_hex};
use crate::bytes::{be16_at, be32_at, be_int, lemma_be_int_bound, lemma_pow256_15, lemma_pow256_mono, pow256, read_be_u128};

verus! {

pub const STUN_MAGIC_COOKIE: u32 = 0x2112A442;

pub const STUN_BINDING_REQUEST: u16 = 0x0001;

pub const STUN_BINDING_SUCCESS: u16 = 0x0101;

pub const STUN_ATTR_MAPPED_ADDRESS: u16 = 0x0001;

pub const STUN_ATTR_XOR_MAPPED_ADDRESS: u16 = 0x0020;

/// A transport address: an IP address (as the integer its octets spell in
/// network order) and a port.  `V6` keeps the flow label and scope id that a
/// socket address carries.
#[allow(inconsistent_fields)]
#[derive(Clone, Copy, Debug, PartialEq, Eq, Structural)]
pub enum SockAddr {
    V4 { ip: u32, port: u16 },
    V6 { ip: u128, port: u16, flowinfo: u32, scope_id: u32 },
}

impl SockAddr {
    pub open spec fn spec_is_v4(&self) -> bool {
        self is V4
    }

    #[verifier::when_used_as_spec(spec_is_v4)]
    pub fn is_ipv4(&self) -> (b: bool)
        ensures
            b == self.spec_is_v4(),
    {
        match self {
            SockAddr::V4 { .. } => true,
            SockAddr::V6 { .. } => false,
        }
    }

    pub fn is_ipv6(&self) -> (b: bool)
        ensures
            b == !self.spec_is_v4(),
    {
        !self.is_ipv4()
    }
}

/// The `i`-th byte of the magic cookie in network order.
pub open spec fn cookie_byte(i: int) -> u8 {
    if i == 0 {
        0x21u8
    } else if i == 1 {
        0x12u8
    } else if i == 2 {
        0xA4u8
    } else {
        0x42u8
    }
}

/// The XOR mask of an XOR-MAPPED-ADDRESS: the magic cookie followed by the
/// transaction id.
pub open spec fn xor_mask(txid: Seq<u8>, i: int) -> u8 {
    if i < 4 {
        cookie_byte(i)
    } else {
        txid[i - 4]
    }
}

/// The `n` address bytes of an XOR-MAPPED-ADDRESS value, unmasked.
pub open spec fn unmasked(v: Seq<u8>, txid: Seq<u8>, n: nat) -> Seq<u8> {
    Seq::new(n, |i: int| v[4 + i] ^ xor_mask(txid, i))
}

/// The address that a MAPPED-ADDRESS attribute value denotes, if it is
/// well formed (family 1 with 4 address bytes, or family 2 with 16).
pub open spec fn spec_mapped_address(v: Seq<u8>) -> Option<SockAddr> {
    if v.len() < 4 {
        None
    } else if v[1] == 1 {
        if v.len() < 8 {
            None
        } else {
            Some(SockAddr::V4 { ip: be_int(v.subrange(4, 8)) as u32, port: be16_at(v, 2) as u16 })
        }
    } else if v[1] == 2 {
        if v.len() < 20 {
            None
        } else {
            Some(
                SockAddr::V6 {
                    ip: be_int(v.subrange(4, 20)) as u128,
                    port: be16_at(v, 2) as u16,
                    flowinfo: 0,
                    scope_id: 0,
                },
            )
        }
    } else {
        None
    }
}

/// The address that an XOR-MAPPED-ADDRESS attribute value denotes: the port
/// is XOR-ed with the cookie's high half, the address bytes with the cookie
/// (IPv4) or with the cookie and the transaction id (IPv6).
pub open spec fn spec_xor_mapped_address(v: Seq<u8>, txid: Seq<u8>) -> Option<SockAddr> {
    if v.len() < 4 {
        None
    } else if v[1] == 1 {
        if v.len() < 8 {
            None
        } else {
            Some(
                SockAddr::V4 {
                    ip: be_int(unmasked(v, txid, 4)) as u32,
                    port: (be16_at(v, 2) as u16) ^ 0x2112u16,
                },
            )
        }
    } else if v[1] == 2 {
        if v.len() < 20 {
            None
        } else {
            Some(
                SockAddr::V6 {
                    ip: be_int(unmasked(v, txid, 16)) as u128,
                    port: (be16_at(v, 2) as u16) ^ 0x2112u16,
                    flowinfo: 0,
                    scope_id: 0,
                },
            )
        }
    } else {
        None
    }
}

/// The four bytes of the magic cookie 0x2112A442 followed by the
/// transaction id: the mask of the address bytes of an XOR-MAPPED-ADDRESS.
pub open spec fn cookie_then_txid(txid: Seq<u8>) -> Seq<u8> {
    seq![0x21u8, 0x12u8, 0xa4u8, 0x42u8] + txid
}

/// The XOR-MAPPED-ADDRESS value a server sends for an address spelt by the
/// bytes `addr` (network order; 4 bytes for family 1, 16 for family 2) and
/// `port`: the family, the port XOR-ed with 0x2112, and each address byte
/// XOR-ed with the matching byte of the cookie and transaction id.
pub open spec fn xor_mapped_value(family: u8, addr: Seq<u8>, port: u16, txid: Seq<u8>) -> Seq<u8> {
    let xp = port ^ 0x2112u16;
    let m = cookie_then_txid(txid);
    seq![0u8, family, (xp >> 8u16) as u8, (xp & 0xffu16) as u8] + Seq::new(
        addr.len(),
        |i: int| addr[i] ^ m[i],
    )
}

proof fn lemma_xor_twice(b: u8, m: u8)
    ensures
        (b ^ m) ^ m == b,
{
    assert((b ^ m) ^ m == b) by (bit_vector);
}

proof fn lemma_port_bytes(port: u16)
    ensures
        ({
            let xp = port ^ 0x2112u16;
            (((xp >> 8u16) as u8 as int * 256 + (xp & 0xffu16) as u8 as int) as u16) ^ 0x2112u16
                == port
        }),
{
    let xp = port ^ 0x2112u16;
    assert(((xp >> 8u16) as u8 as u16) * 256 + ((xp & 0xffu16) as u8 as u16) == xp) by (bit_vector);
    assert(xp ^ 0x2112u16 == port) by (bit_vector)
        requires
            xp == port ^ 0x2112u16,
    ;
}

/// Decoding what a server encodes gives the address back: the XOR-MAPPED-
/// ADDRESS value of an IPv6 address (16 bytes) or IPv4 address (4 bytes)
/// and port, masked with the cookie and the transaction id, reads as that
/// address and port for the same transaction id.
pub proof fn lemma_xor_mapped_round_trip(addr: Seq<u8>, port: u16, txid: Seq<u8>)
    requires
        txid.len() == 12,
        addr.len() == 16 || addr.len() == 4,
    ensures
        addr.len() == 16 ==> spec_xor_mapped_address(xor_mapped_value(2, addr, port, txid), txid)
            == Some(SockAddr::V6 { ip: be_int(addr) as u128, port, flowinfo: 0, scope_id: 0 }),
        addr.len() == 4 ==> spec_xor_mapped_address(xor_mapped_value(1, addr, port, txid), txid)
            == Some(SockAddr::V4 { ip: be_int(addr) as u32, port }),
{
    let family: u8 = if addr.len() == 16 { 2 } else { 1 };
    let v = xor_mapped_value(family, addr, port, txid);
    let m = cookie_then_txid(txid);
    let n = addr.len();
    assert(v.len() == 4 + n);
    assert forall|i: int| 0 <= i < n implies #[trigger] m[i] == xor_mask(txid, i) by {
        if i >= 4 {
            assert(m[i] == txid[i - 4]);
        }
    }
    let u = unmasked(v, txid, n);
    assert forall|i: int| 0 <= i < n implies #[trigger] u[i] == addr[i] by {
        assert(v[4 + i] == addr[i] ^ m[i]);
        lemma_xor_twice(addr[i], m[i]);
    }
    assert(u =~= addr);
    lemma_port_bytes(port);
}

/// An attribute length rounded up to the 4-byte boundary.
pub open spec fn padded(l: int) -> int {
    (l + 3) / 4 * 4
}

/// The address carried by the first attribute, from byte `off` on and within
/// `end`, that is a well-formed (XOR-)MAPPED-ADDRESS; `None` when none is, or
/// when an attribute's value runs past `end`.
pub open spec fn spec_walk_attrs(d: Seq<u8>, off: int, end: int, txid: Seq<u8>) -> Option<SockAddr>
    decreases end + 4 - off,
{
    if off < 0 || off + 4 > end || end > d.len() {
        None
    } else {
        let t = be16_at(d, off);
        let l = be16_at(d, off + 2);
        let vs = off + 4;
        let ve = vs + l;
        if ve > end {
            None
        } else {
            let value = d.subrange(vs, ve);
            let a = if t == STUN_ATTR_XOR_MAPPED_ADDRESS {
                spec_xor_mapped_address(value, txid)
            } else if t == STUN_ATTR_MAPPED_ADDRESS {
                spec_mapped_address(value)
            } else {
                None
            };
            if a is Some {
                a
            } else {
                spec_walk_attrs(d, vs + padded(l), end, txid)
            }
        }
    }
}

/// What a datagram says as a STUN binding success response: its transaction
/// id and the mapped address of its first usable address attribute.
pub open spec fn spec_parse_stun_response(d: Seq<u8>) -> Option<(Seq<u8>, SockAddr)> {
    if d.len() < 20 {
        None
    } else if be16_at(d, 0) != STUN_BINDING_SUCCESS {
        None
    } else if d.len() < 20 + be16_at(d, 2) {
        None
    } else if be32_at(d, 4) != STUN_MAGIC_COOKIE {
        None
    } else {
        match spec_walk_attrs(d, 20, 20 + be16_at(d, 2), d.subrange(8, 20)) {
            Some(a) => Some((d.subrange(8, 20), a)),
            None => None,
        }
    }
}

/// A binding success response for transaction `txid` whose one attribute
/// is the XOR-MAPPED-ADDRESS of the address spelt by `addr` (16 bytes for
/// IPv6, 4 for IPv4) and `port`.
pub open spec fn binding_success_with(addr: Seq<u8>, port: u16, txid: Seq<u8>) -> Seq<u8> {
    let family: u8 = if addr.len() == 16 { 2 } else { 1 };
    let vlen: u8 = (4 + addr.len()) as u8;
    seq![0x01u8, 0x01u8, 0x00u8, (vlen + 4) as u8, 0x21u8, 0x12u8, 0xa4u8, 0x42u8] + txid + seq![
        0x00u8,
        0x20u8,
        0x00u8,
        vlen,
    ] + xor_mapped_value(family, addr, port, txid)
}

/// A binding success response carrying the XOR-MAPPED-ADDRESS of an
/// address and port parses to its transaction id and that address.
pub proof fn lemma_binding_success_parses(addr: Seq<u8>, port: u16, txid: Seq<u8>)
    requires
        txid.len() == 12,
        addr.len() == 16 || addr.len() == 4,
    ensures
        addr.len() == 16 ==> spec_parse_stun_response(binding_success_with(addr, port, txid)) == Some(
            (txid, SockAddr::V6 { ip: be_int(addr) as u128, port, flowinfo: 0, scope_id: 0 }),
        ),
        addr.len() == 4 ==> spec_parse_stun_response(binding_success_with(addr, port, txid)) == Some(
            (txid, SockAddr::V4 { ip: be_int(addr) as u32, port }),
        ),
{
    let family: u8 = if addr.len() == 16 { 2 } else { 1 };
    let vlen: u8 = (4 + addr.len()) as u8;
    let d = binding_success_with(addr, port, txid);
    let value = xor_mapped_value(family, addr, port, txid);
    assert(d.len() == 24 + vlen);
    assert(be16_at(d, 0) == 0x0101);
    assert(be16_at(d, 2) == vlen + 4);
    assert(be32_at(d, 4) == STUN_MAGIC_COOKIE);
    assert(d.subrange(8, 20) =~= txid);
    assert(be16_at(d, 20) == STUN_ATTR_XOR_MAPPED_ADDRESS);
    assert(be16_at(d, 22) == vlen);
    assert(d.subrange(24, 24 + vlen) =~= value);
    lemma_xor_mapped_round_trip(addr, port, txid);
}

/// The 20-byte binding request header for a transaction id.
pub open spec fn spec_stun_request(txid: Seq<u8>) -> Seq<u8> {
    seq![0x00u8, 0x01u8, 0x00u8, 0x00u8, 0x21u8, 0x12u8, 0xA4u8, 0x42u8] + txid
}

proof fn lemma_be_int_step(s: Seq<u8>, i: int)
    requires
        0 <= i < s.len(),
    ensures
        be_int(s.take(i + 1)) == be_int(s.take(i)) * 256 + s[i] as nat,
{
    assert(s.take(i + 1).drop_last() =~= s.take(i));
}

fn xor_mask_at(txid: &[u8; 12], i: usize) -> (m: u8)
    requires
        i < 16,
    ensures
        m == xor_mask(txid@, i as int),
{
    if i == 0 {
        0x21
    } else if i == 1 {
        0x12
    } else if i == 2 {
        0xA4
    } else if i == 3 {
        0x42
    } else {
        txid[i - 4]
    }
}

/// Reads the `n` address bytes at `d[start + 4..]`, unmasked.
fn read_unmasked(d: &[u8], start: usize, n: usize, txid: &[u8; 12]) -> (r: u128)
    requires
        n <= 16,
        start + 4 + n <= d@.len(),
    ensures
        r == be_int(unmasked(d@.subrange(start as int, d@.len() as int), txid@, n as nat)),
{
    let ghost v = d@.subrange(start as int, d@.len() as int);
    let ghost u = unmasked(v, txid@, n as nat);
    let _len = d.len();
    let mut acc: u128 = 0;
    let mut i: usize = 0;
    while i < n
        invariant
            i <= n <= 16,
            start + 4 + n <= d@.len(),
            _len == d@.len(),
            v == d@.subrange(start as int, d@.len() as int),
            u == unmasked(v, txid@, n as nat),
            acc == be_int(u.take(i as int)),
        decreases n - i,
    {
        proof {
            lemma_be_int_bound(u.take(i as int));
            lemma_pow256_mono(i as nat, 15);
            lemma_pow256_15();
            lemma_be_int_step(u, i as int);
        }
        let b = d[start + 4 + i] ^ xor_mask_at(txid, i);
        acc = acc * 256 + b as u128;
        i = i + 1;
    }
    assert(u.take(n as int) =~= u);
    acc
}

/// Decodes a MAPPED-ADDRESS value stored at `d[start..]`.
fn parse_mapped_address_at(d: &[u8], start: usize) -> (r: Option<SockAddr>)
    requires
        start <= d@.len(),
    ensures
        r == spec_mapped_address(d@.subrange(start as int, d@.len() as int)),
{
    let ghost v = d@.subrange(start as int, d@.len() as int);
    let len = d.len() - start;
    if len < 4 {
        return None;
    }
    let family = d[start + 1];
    let port = (d[start + 2] as u16) * 256 + d[start + 3] as u16;
    if family == 1 {
        if len < 8 {
            return None;
        }
        let ip = read_be_u128(d, start + 4, 4);
        proof {
            assert(d@.subrange(start + 4, start + 8) =~= v.subrange(4, 8));
            lemma_be_int_bound(v.subrange(4, 8));
            reveal_with_fuel(pow256, 5);
        }
        Some(SockAddr::V4 { ip: ip as u32, port })
    } else if family == 2 {
        if len < 20 {
            return None;
        }
        let ip = read_be_u128(d, start + 4, 16);
        proof {
            assert(d@.subrange(start + 4, start + 20) =~= v.subrange(4, 20));
        }
        Some(SockAddr::V6 { ip, port, flowinfo: 0, scope_id: 0 })
    } else {
        None
    }
}

/// Decodes an XOR-MAPPED-ADDRESS value stored at `d[start..]`.
fn parse_xor_mapped_address_at(d: &[u8], start: usize, txid: &[u8; 12]) -> (r: Option<SockAddr>)
    requires
        start <= d@.len(),
    ensures
        r == spec_xor_mapped_address(d@.subrange(start as int, d@.len() as int), txid@),
{
    let ghost v = d@.subrange(start as int, d@.len() as int);
    let len = d.len() - start;
    if len < 4 {
        return None;
    }
    let family = d[start + 1];
    let raw_port = (d[start + 2] as u16) * 256 + d[start + 3] as u16;
    let port = raw_port ^ 0x2112u16;
    if family == 1 {
        if len < 8 {
            return None;
        }
        let ip = read_unmasked(d, start, 4, txid);
        proof {
            lemma_be_int_bound(unmasked(v, txid@, 4));
            reveal_with_fuel(pow256, 5);
        }
        Some(SockAddr::V4 { ip: ip as u32, port })
    } else if family == 2 {
        if len < 20 {
            return None;
        }
        let ip = read_unmasked(d, start, 16, txid);
        Some(SockAddr::V6 { ip, port, flowinfo: 0, scope_id: 0 })
    } else {
        None
    }
}

/// Decodes a MAPPED-ADDRESS attribute value.
pub fn parse_mapped_address(value: &[u8]) -> (r: Option<SockAddr>)
    ensures
        r == spec_mapped_address(value@),
{
    assert(value@.subrange(0, value@.len() as int) =~= value@);
    parse_mapped_address_at(value, 0)
}

/// Decodes an XOR-MAPPED-ADDRESS attribute value of the transaction `txid`.
pub fn parse_xor_mapped_address(value: &[u8], txid: &[u8; 12]) -> (r: Option<SockAddr>)
    ensures
        r == spec_xor_mapped_address(value@, txid@),
{
    assert(value@.subrange(0, value@.len() as int) =~= value@);
    parse_xor_mapped_address_at(value, 0, txid)
}


/// Builds the binding request for transaction `txid`.
pub fn build_stun_request(txid: [u8; 12]) -> (buf: [u8; 20])
    ensures
        buf@ == spec_stun_request(txid@),
{
    let mut buf = [0u8; 20];
    buf[1] = 0x01;
    buf[4] = 0x21;
    buf[5] = 0x12;
    buf[6] = 0xA4;
    buf[7] = 0x42;
    let mut i: usize = 0;
    while i < 12
        invariant
            i <= 12,
            buf@.len() == 20,
            buf@.subrange(0, 8) =~= seq![0x00u8, 0x01u8, 0x00u8, 0x00u8, 0x21u8, 0x12u8, 0xA4u8, 0x42u8],
            forall|j: int| 0 <= j < i ==> buf@[8 + j] == txid@[j],
        decreases 12 - i,
    {
        buf[8 + i] = txid[i];
        i = i + 1;
    }
    assert(buf@ =~= spec_stun_request(txid@));
    buf
}

/// The transaction id a seed stands for: the seed's low 96 bits in network
/// order.
pub open spec fn spec_txid_of_seed(seed: u128) -> Seq<u8> {
    Seq::new(12, |i: int| ((seed as int / pow256((11 - i) as nat) as int) % 256) as u8)
}

/// Advances the seed (wrapping) and returns the transaction id of the new
/// seed.
pub fn next_transaction_id(seed: &mut u128) -> (id: [u8; 12])
    ensures
        *final(seed) == old(seed).wrapping_add(1),
        id@ == spec_txid_of_seed(*final(seed)),
{
    *seed = seed.wrapping_add(1);
    let s = *seed;
    let mut id = [0u8; 12];
    let mut i: usize = 0;
    let mut rest: u128 = s;
    assert(pow256(0) == 1);
    assert(s as int / 1 == s as int);
    while i < 12
        invariant
            i <= 12,
            id@.len() == 12,
            rest as int == s as int / pow256(i as nat) as int,
            forall|j: int| 11 - i < j < 12 ==> #[trigger] id@[j] == spec_txid_of_seed(s)[j],
        decreases 12 - i,
    {
        proof {
            lemma_div_step(s as int, i as nat);
        }
        id[11 - i] = (rest % 256) as u8;
        rest = rest / 256;
        i = i + 1;
    }
    assert(id@ =~= spec_txid_of_seed(s));
    id
}

proof fn lemma_div_step(s: int, i: nat)
    requires
        s >= 0,
    ensures
        s / pow256(i) as int / 256 == s / pow256(i + 1) as int,
        pow256(i) > 0,
{
    lemma_pow256_pos(i);
    assert(pow256(i + 1) == pow256(i) * 256);
    vstd::arithmetic::div_mod::lemma_div_denominator(s, pow256(i) as int, 256);
}

proof fn lemma_pow256_pos(i: nat)
    ensures
        pow256(i) > 0,
    decreases i,
{
    if i > 0 {
        lemma_pow256_pos((i - 1) as nat);
    }
}

/// Decodes a datagram as a binding success response: the transaction id and
/// the first well-formed (XOR-)MAPPED-ADDRESS among its attributes.
pub fn parse_stun_response(data: &[u8]) -> (r: Option<([u8; 12], SockAddr)>)
    ensures
        match r {
            Some((txid, addr)) => spec_parse_stun_response(data@) == Some((txid@, addr)),
            None => spec_parse_stun_response(data@) is None,
        },
{
    let dlen = data.len();
    if dlen < 20 {
        return None;
    }
    let msg_type = (data[0] as u16) * 256 + data[1] as u16;
    if msg_type != STUN_BINDING_SUCCESS {
        return None;
    }
    let msg_len = (data[2] as usize) * 256 + data[3] as usize;
    let end = 20 + msg_len;
    if dlen < end {
        return None;
    }
    let magic = (((data[4] as u32) * 256 + data[5] as u32) * 256 + data[6] as u32) * 256
        + data[7] as u32;
    if magic != STUN_MAGIC_COOKIE {
        return None;
    }
    let mut txid = [0u8; 12];
    let mut k: usize = 0;
    while k < 12
        invariant
            k <= 12,
            dlen == data@.len(),
            dlen >= 20,
            txid@.len() == 12,
            forall|j: int| 0 <= j < k ==> txid@[j] == data@[8 + j],
        decreases 12 - k,
    {
        txid[k] = data[8 + k];
        k = k + 1;
    }
    assert(txid@ =~= data@.subrange(8, 20));
    let ghost t = txid@;
    let mut offset: usize = 20;
    while offset + 4 <= end
        invariant
            20 <= offset <= end + 3,
            end <= dlen,
            end <= 20 + 65535,
            data@.len() >= 20,
            be16_at(data@, 0) == STUN_BINDING_SUCCESS,
            be32_at(data@, 4) == STUN_MAGIC_COOKIE,
            dlen == data@.len(),
            end == 20 + be16_at(data@, 2),
            t == txid@,
            t == data@.subrange(8, 20),
            spec_walk_attrs(data@, 20, end as int, t) == spec_walk_attrs(
                data@,
                offset as int,
                end as int,
                t,
            ),
        decreases end + 4 - offset,
    {
        let attr_type = (data[offset] as u16) * 256 + data[offset + 1] as u16;
        let attr_len = (data[offset + 2] as usize) * 256 + data[offset + 3] as usize;
        let value_start = offset + 4;
        let value_end = value_start + attr_len;
        if value_end > end {
            return None;
        }
        let ghost value = data@.subrange(value_start as int, value_end as int);
        let addr = if attr_type == STUN_ATTR_XOR_MAPPED_ADDRESS {
            let a = parse_xor_mapped_window(data, value_start, value_end, &txid);
            a
        } else if attr_type == STUN_ATTR_MAPPED_ADDRESS {
            let a = parse_mapped_window(data, value_start, value_end);
            a
        } else {
            None
        };
        proof {
            assert(attr_type as int == be16_at(data@, offset as int));
            assert(attr_len as int == be16_at(data@, offset + 2));
            assert(value == data@.subrange(value_start as int, value_end as int));
        }
        match addr {
            Some(a) => {
                assert(spec_walk_attrs(data@, offset as int, end as int, t) == Some(a));
                return Some((txid, a));
            },
            None => {},
        }
        offset = value_start + (attr_len + 3) / 4 * 4;
    }
    None
}

/// Decodes the MAPPED-ADDRESS value `d[start..end]`.
fn parse_mapped_window(d: &[u8], start: usize, end: usize) -> (r: Option<SockAddr>)
    requires
        start <= end <= d@.len(),
    ensures
        r == spec_mapped_address(d@.subrange(start as int, end as int)),
{
    let v = slice_window(d, start, end);
    parse_mapped_address(v)
}

/// Decodes the XOR-MAPPED-ADDRESS value `d[start..end]`.
fn parse_xor_mapped_window(d: &[u8], start: usize, end: usize, txid: &[u8; 12]) -> (r: Option<
    SockAddr,
>)
    requires
        start <= end <= d@.len(),
    ensures
        r == spec_xor_mapped_address(d@.subrange(start as int, end as int), txid@),
{
    let v = slice_window(d, start, end);
    parse_xor_mapped_address(v, txid)
}

fn slice_window(d: &[u8], start: usize, end: usize) -> (v: &[u8])
    requires
        start <= end <= d@.len(),
    ensures
        v@ == d@.subrange(start as int, end as int),
{
    vstd::slice::slice_subrange(d, start, end)
}

/// An IPv6 address of the form `::ffff:a.b.c.d`.
pub open spec fn is_v4_mapped(ip: u128) -> bool {
    ip as int / 0x1_0000_0000 == 0xffff
}

/// What a resolved STUN server address becomes for a socket of the wanted
/// family: IPv4 addresses (and IPv4-mapped IPv6 ones, unmapped) for IPv4;
/// IPv6 addresses that are not IPv4-mapped for IPv6.
pub open spec fn stun_candidate(a: SockAddr, want_v4: bool) -> Option<SockAddr> {
    match a {
        SockAddr::V4 { .. } => if want_v4 {
            Some(a)
        } else {
            None
        },
        SockAddr::V6 { ip, port, .. } => if want_v4 {
            if is_v4_mapped(ip) {
                Some(SockAddr::V4 { ip: (ip as int % 0x1_0000_0000) as u32, port })
            } else {
                None
            }
        } else {
            if is_v4_mapped(ip) {
                None
            } else {
                Some(a)
            }
        },
    }
}

/// The candidates of `addrs` in order, each kept at its first occurrence.
pub open spec fn spec_select_stun_addrs(addrs: Seq<SockAddr>, want_v4: bool) -> Seq<SockAddr>
    decreases addrs.len(),
{
    if addrs.len() == 0 {
        Seq::empty()
    } else {
        let prev = spec_select_stun_addrs(addrs.drop_last(), want_v4);
        match stun_candidate(addrs.last(), want_v4) {
            Some(c) => if prev.contains(c) {
                prev
            } else {
                prev.push(c)
            },
            None => prev,
        }
    }
}

fn stun_candidate_exec(a: SockAddr, want_v4: bool) -> (r: Option<SockAddr>)
    ensures
        r == stun_candidate(a, want_v4),
{
    match a {
        SockAddr::V4 { .. } => if want_v4 {
            Some(a)
        } else {
            None
        },
        SockAddr::V6 { ip, port, .. } => {
            let mapped = ip / 0x1_0000_0000u128 == 0xffff;
            if want_v4 {
                if mapped {
                    Some(SockAddr::V4 { ip: (ip % 0x1_0000_0000u128) as u32, port })
                } else {
                    None
                }
            } else {
                if mapped {
                    None
                } else {
                    Some(a)
                }
            }
        },
    }
}

fn contains_addr(v: &Vec<SockAddr>, a: SockAddr) -> (b: bool)
    ensures
        b == v@.contains(a),
{
    let mut i: usize = 0;
    while i < v.len()
        invariant
            i <= v@.len(),
            forall|j: int| 0 <= j < i ==> v@[j] != a,
        decreases v@.len() - i,
    {
        if v[i] == a {
            return true;
        }
        i = i + 1;
    }
    false
}

/// The addresses a STUN request may be sent to from a socket of the wanted
/// family, without repeats, in the order the resolver gave them.
pub fn select_stun_addrs(addrs: &Vec<SockAddr>, want_v4: bool) -> (selected: Vec<SockAddr>)
    ensures
        selected@ == spec_select_stun_addrs(addrs@, want_v4),
{
    let mut selected: Vec<SockAddr> = Vec::new();
    let mut i: usize = 0;
    while i < addrs.len()
        invariant
            i <= addrs@.len(),
            selected@ == spec_select_stun_addrs(addrs@.take(i as int), want_v4),
        decreases addrs@.len() - i,
    {
        assert(addrs@.take(i + 1).drop_last() =~= addrs@.take(i as int));
        let c = stun_candidate_exec(addrs[i], want_v4);
        match c {
            Some(c) => {
                if !contains_addr(&selected, c) {
                    selected.push(c);
                }
            },
            None => {},
        }
        i = i + 1;
    }
    assert(addrs@.take(addrs@.len() as int) =~= addrs@);
    selected
}

/// Every address the selection keeps is of the wanted family, and no
/// address is kept twice.
pub proof fn lemma_select_stun_addrs_family(addrs: Seq<SockAddr>, want_v4: bool)
    ensures
        forall|i: int|
            0 <= i < spec_select_stun_addrs(addrs, want_v4).len() ==> (
            #[trigger] spec_select_stun_addrs(addrs, want_v4)[i]).spec_is_v4() == want_v4,
        forall|i: int, j: int|
            0 <= i < j < spec_select_stun_addrs(addrs, want_v4).len() ==> spec_select_stun_addrs(
                addrs,
                want_v4,
            )[i] != spec_select_stun_addrs(addrs, want_v4)[j],
    decreases addrs.len(),
{
    if addrs.len() > 0 {
        lemma_select_stun_addrs_family(addrs.drop_last(), want_v4);
        let prev = spec_select_stun_addrs(addrs.drop_last(), want_v4);
        let cur = spec_select_stun_addrs(addrs, want_v4);
        match stun_candidate(addrs.last(), want_v4) {
            Some(c) => {
                assert(c.spec_is_v4() == want_v4);
                if !prev.contains(c) {
                    assert(cur == prev.push(c));
                    assert forall|i: int, j: int| 0 <= i < j < cur.len() implies cur[i] != cur[j] by {
                        if j == prev.len() {
                            assert(cur[i] == prev[i]);
                        }
                    }
                }
            },
            None => {},
        }
    }
}

/// A request that was sent during a probe: the server name it was for, the
/// address it went to, and its transaction id.
#[derive(Clone, Debug)]
pub struct SentRequest {
    pub server: String,
    pub addr: SockAddr,
    pub txid: [u8; 12],
}

/// Compares two transaction ids.
pub fn txid_eq(a: &[u8; 12], b: &[u8; 12]) -> (r: bool)
    ensures
        r == (a@ == b@),
{
    let mut i: usize = 0;
    while i < 12
        invariant
            i <= 12,
            a@.len() == 12,
            b@.len() == 12,
            forall|j: int| 0 <= j < i ==> a@[j] == b@[j],
        decreases 12 - i,
    {
        if a[i] != b[i] {
            return false;
        }
        i = i + 1;
    }
    assert(a@ =~= b@);
    true
}

/// The index of the first sent request with transaction id `t`.
pub open spec fn first_sent_with_txid(sent: Seq<SentRequest>, t: Seq<u8>) -> Option<int> {
    if exists|i: int| 0 <= i < sent.len() && (#[trigger] sent[i]).txid@ == t {
        let i = choose|i: int|
            0 <= i < sent.len() && (#[trigger] sent[i]).txid@ == t && forall|j: int|
                0 <= j < i ==> (#[trigger] sent[j]).txid@ != t;
        Some(i)
    } else {
        None
    }
}

/// What a received datagram settles during a probe: the public endpoint
/// (with the index of the request it answers) when it is a binding success
/// response to one of the sent requests whose mapped address has the family
/// of the bound socket.
pub open spec fn spec_match_stun_reply(sent: Seq<SentRequest>, data: Seq<u8>, bind_v4: bool) -> Option<
    (int, SockAddr),
> {
    match spec_parse_stun_response(data) {
        Some((t, endpoint)) => match first_sent_with_txid(sent, t) {
            Some(i) => if endpoint.spec_is_v4() == bind_v4 {
                Some((i, endpoint))
            } else {
                None
            },
            None => None,
        },
        None => None,
    }
}

/// Decides what a received datagram means for a probe (see
/// `spec_match_stun_reply`).
pub fn match_stun_reply(sent: &Vec<SentRequest>, data: &[u8], bind_v4: bool) -> (r: Option<
    (usize, SockAddr),
>)
    ensures
        match r {
            Some((i, a)) => spec_match_stun_reply(sent@, data@, bind_v4) == Some((i as int, a)),
            None => spec_match_stun_reply(sent@, data@, bind_v4) is None,
        },
{
    let parsed = parse_stun_response(data);
    match parsed {
        None => None,
        Some((txid, endpoint)) => {
            let mut i: usize = 0;
            while i < sent.len()
                invariant
                    i <= sent@.len(),
                    spec_parse_stun_response(data@) == Some((txid@, endpoint)),
                    forall|j: int| 0 <= j < i ==> (#[trigger] sent@[j]).txid@ != txid@,
                decreases sent@.len() - i,
            {
                if txid_eq(&sent[i].txid, &txid) {
                    proof {
                        let k = choose|k: int|
                            0 <= k < sent@.len() && (#[trigger] sent@[k]).txid@ == txid@ && forall|
                                j: int,
                            | 0 <= j < k ==> (#[trigger] sent@[j]).txid@ != txid@;
                        assert(k == i) by {
                            if k < i {
                            } else if k > i {
                                assert(sent@[i as int].txid@ == txid@);
                            }
                        }
                    }
                    if endpoint.is_ipv4() == bind_v4 {
                        return Some((i, endpoint));
                    } else {
                        return None;
                    }
                }
                i = i + 1;
            }
            assert(first_sent_with_txid(sent@, txid@) is None);
            None
        },
    }
}

/// A transaction id in lower-case hexadecimal (24 digits).
pub fn fmt_txid(txid: &[u8; 12]) -> (s: String)
    ensures
        s@ == spec_hex(txid@),
{
    to_hex(vstd::array::array_as_slice(txid))
}

/// What the header of a datagram that did not decode as a binding response
/// shows, field by field as far as the datagram is long enough to hold it.
#[derive(Clone, Copy, Debug)]
pub struct DatagramSummary {
    pub len: usize,
    /// Present when the datagram has at least 4 bytes.
    pub msg_type: Option<u16>,
    /// Present when the datagram has at least 4 bytes.
    pub msg_len: Option<u16>,
    /// Present when the datagram has at least 8 bytes.
    pub cookie: Option<u32>,
    /// Present when the datagram has at least 20 bytes.
    pub txid: Option<[u8; 12]>,
}

/// Reads the STUN header fields of a datagram, for a diagnostic line.
pub fn describe_stun_datagram(data: &[u8]) -> (r: DatagramSummary)
    ensures
        r.len == data@.len(),
        r.msg_type == (if data@.len() >= 4 {
            Some(be16_at(data@, 0) as u16)
        } else {
            None::<u16>
        }),
        r.msg_len == (if data@.len() >= 4 {
            Some(be16_at(data@, 2) as u16)
        } else {
            None::<u16>
        }),
        r.cookie == (if data@.len() >= 8 {
            Some(be32_at(data@, 4) as u32)
        } else {
            None::<u32>
        }),
        r.txid is Some <==> data@.len() >= 20,
        r.txid matches Some(t) ==> t@ == data@.subrange(8, 20),
{
    let len = data.len();
    if len < 4 {
        return DatagramSummary { len, msg_type: None, msg_len: None, cookie: None, txid: None };
    }
    let msg_type = (data[0] as u16) * 256 + data[1] as u16;
    let msg_len = (data[2] as u16) * 256 + data[3] as u16;
    if len < 8 {
        return DatagramSummary {
            len,
            msg_type: Some(msg_type),
            msg_len: Some(msg_len),
            cookie: None,
            txid: None,
        };
    }
    let cookie = (((data[4] as u32) * 256 + data[5] as u32) * 256 + data[6] as u32) * 256
        + data[7] as u32;
    if len < 20 {
        return DatagramSummary {
            len,
            msg_type: Some(msg_type),
            msg_len: Some(msg_len),
            cookie: Some(cookie),
            txid: None,
        };
    }
    let mut txid = [0u8; 12];
    let mut k: usize = 0;
    while k < 12
        invariant
            k <= 12,
            len == data@.len(),
            len >= 20,
            txid@.len() == 12,
            forall|j: int| 0 <= j < k ==> txid@[j] == data@[8 + j],
        decreases 12 - k,
    {
        txid[k] = data[8 + k];
        k = k + 1;
    }
    assert(txid@ =~= data@.subrange(8, 20));
    DatagramSummary {
        len,
        msg_type: Some(msg_type),
        msg_len: Some(msg_len),
        cookie: Some(cookie),
        txid: Some(txid),
    }
}

/// Why a probe ended before any request could be sent.
#[derive(Clone, Debug, PartialEq, Eq)]
pub enum StunSendFailure {
    /// Every server failed to resolve, and DNS itself was unavailable for at
    /// least one of them.
    DnsUnavailable,
    /// Every server resolved only to addresses of the other family.
    NoAddressOfFamily { want_v4: bool },
    /// The last error seen, with the number of servers tried when there
    /// were any.
    LastError { message: String, servers_tried: Option<usize> },
    /// There was no server at all and no error.
    NoServers,
}

/// The failure a probe reports when none of its requests could be sent,
/// given how the resolution of the `total_servers` servers went.
pub fn send_phase_failure(
    resolve_failures: usize,
    dns_failures: usize,
    family_mismatch_failures: usize,
    total_servers: usize,
    last_err: Option<String>,
    bind_v4: bool,
) -> (r: StunSendFailure)
    ensures
        (resolve_failures == total_servers && dns_failures > 0) ==> r == StunSendFailure::DnsUnavailable,
        !(resolve_failures == total_servers && dns_failures > 0) && resolve_failures == total_servers
            && family_mismatch_failures == total_servers && total_servers > 0 ==> r
            == (StunSendFailure::NoAddressOfFamily { want_v4: bind_v4 }),
        !(resolve_failures == total_servers && dns_failures > 0) && !(resolve_failures
            == total_servers && family_mismatch_failures == total_servers && total_servers > 0)
            ==> r == (match last_err {
            Some(m) => StunSendFailure::LastError {
                message: m,
                servers_tried: if total_servers > 0 {
                    Some(total_servers)
                } else {
                    None
                },
            },
            None => StunSendFailure::NoServers,
        }),
{
    if resolve_failures == total_servers && dns_failures > 0 {
        return StunSendFailure::DnsUnavailable;
    }
    if resolve_failures == total_servers && family_mismatch_failures == total_servers
        && total_servers > 0 {
        return StunSendFailure::NoAddressOfFamily { want_v4: bind_v4 };
    }
    match last_err {
        Some(m) => StunSendFailure::LastError {
            message: m,
            servers_tried: if total_servers > 0 {
                Some(total_servers)
            } else {
                None
            },
        },
        None => StunSendFailure::NoServers,
    }
}
} // verus!
