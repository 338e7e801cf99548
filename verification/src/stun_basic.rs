//! The game's own lightweight STUN client: requests carry xorshift-generated
//! transaction ids, and a response only counts when it answers a request that
//! went to the address it came from.
use vstd::prelude::*;

use crate::bytes::{be16_at, be32_at};
use crate::stun::{
    parse_mapped_address, parse_xor_mapped_address, padded, spec_mapped_address,
    spec_stun_request, spec_xor_mapped_address, txid_eq, SentRequest, SockAddr,
    STUN_ATTR_MAPPED_ADDRESS, STUN_ATTR_XOR_MAPPED_ADDRESS, STUN_BINDING_SUCCESS,
    STUN_MAGIC_COOKIE,
};

verus! {

/// Builds the 20-byte binding request for transaction `txid`.
pub fn build_stun_request(txid: [u8; 12]) -> (buf: Vec<u8>)
    ensures
        buf@ == spec_stun_request(txid@),
{
    let mut buf: Vec<u8> = Vec::new();
    buf.push(0x00);
    buf.push(0x01);
    buf.push(0x00);
    buf.push(0x00);
    buf.push(0x21);
    buf.push(0x12);
    buf.push(0xA4);
    buf.push(0x42);
    let mut i: usize = 0;
    while i < 12
        invariant
            i <= 12,
            buf@ =~= seq![0x00u8, 0x01u8, 0x00u8, 0x00u8, 0x21u8, 0x12u8, 0xA4u8, 0x42u8]
                + txid@.take(i as int),
        decreases 12 - i,
    {
        buf.push(txid[i]);
        i = i + 1;
    }
    assert(txid@.take(12) =~= txid@);
    buf
}

/// One xorshift64 step with shifts 13, 7 and 17.
pub open spec fn xorshift64_step(x: u64) -> u64 {
    let a = x ^ (x << 13u64);
    let b = a ^ (a >> 7u64);
    b ^ (b << 17u64)
}

/// The seed after `n` steps.
pub open spec fn xorshift64_iter(x: u64, n: nat) -> u64
    decreases n,
{
    if n == 0 {
        x
    } else {
        xorshift64_step(xorshift64_iter(x, (n - 1) as nat))
    }
}

/// The four bytes of the low 32 bits of a seed, in network order.
pub open spec fn low32_be(x: u64) -> Seq<u8> {
    let v = x as u32;
    seq![(v >> 24u32) as u8, (v >> 16u32) as u8, (v >> 8u32) as u8, v as u8]
}

/// The transaction id drawn from a seed: three xorshift steps, each
/// contributing the low 32 bits of the new seed.
pub open spec fn spec_basic_txid(seed: u64) -> Seq<u8> {
    low32_be(xorshift64_iter(seed, 1)) + low32_be(xorshift64_iter(seed, 2)) + low32_be(
        xorshift64_iter(seed, 3),
    )
}

/// Draws a transaction id from the seed and advances the seed by three
/// xorshift steps.
pub fn next_transaction_id(seed: &mut u64) -> (out: [u8; 12])
    ensures
        *final(seed) == xorshift64_iter(*old(seed), 3),
        out@ == spec_basic_txid(*old(seed)),
{
    let ghost s0 = *seed;
    let mut out = [0u8; 12];
    let mut k: usize = 0;
    while k < 3
        invariant
            k <= 3,
            out@.len() == 12,
            *seed == xorshift64_iter(s0, k as nat),
            forall|j: int|
                0 <= j < 4 * k ==> #[trigger] out@[j] == spec_basic_txid(s0)[j],
        decreases 3 - k,
    {
        let mut x = *seed;
        x = x ^ (x << 13u64);
        x = x ^ (x >> 7u64);
        x = x ^ (x << 17u64);
        *seed = x;
        let v = x as u32;
        out[4 * k] = (v >> 24u32) as u8;
        out[4 * k + 1] = (v >> 16u32) as u8;
        out[4 * k + 2] = (v >> 8u32) as u8;
        out[4 * k + 3] = v as u8;
        proof {
            assert(x == xorshift64_iter(s0, (k + 1) as nat));
            assert(low32_be(x) == spec_basic_txid(s0).subrange(4 * k, 4 * k + 4));
        }
        k = k + 1;
    }
    assert(out@ =~= spec_basic_txid(s0));
    out
}

/// The address carried by the first usable address attribute from byte
/// `idx` on; attributes start before `total`, and a value may run up to the
/// end of the datagram but not past it.
pub open spec fn spec_basic_walk(d: Seq<u8>, idx: int, total: int, txid: Seq<u8>) -> Option<
    SockAddr,
>
    decreases d.len() + 4 - idx,
{
    if idx < 0 || idx + 4 > total || total > d.len() {
        None
    } else {
        let t = be16_at(d, idx);
        let l = be16_at(d, idx + 2);
        let vs = idx + 4;
        if vs + l > d.len() {
            None
        } else {
            let value = d.subrange(vs, vs + l);
            let m = if t == STUN_ATTR_MAPPED_ADDRESS {
                spec_mapped_address(value)
            } else if t == STUN_ATTR_XOR_MAPPED_ADDRESS {
                spec_xor_mapped_address(value, txid)
            } else {
                None
            };
            if m is Some {
                m
            } else {
                spec_basic_walk(d, vs + padded(l), total, txid)
            }
        }
    }
}

/// Some sent request has transaction id `t` and went to `from`.
pub open spec fn answers_sent(sent: Seq<SentRequest>, t: Seq<u8>, from: SockAddr) -> bool {
    exists|i: int| 0 <= i < sent.len() && (#[trigger] sent[i]).txid@ == t && sent[i].addr == from
}

/// The public endpoint a datagram from `from` reports: it must be a binding
/// success response with the magic cookie, answer a request sent to `from`,
/// and carry a usable address attribute within the declared length.
pub open spec fn spec_basic_parse(d: Seq<u8>, sent: Seq<SentRequest>, from: SockAddr) -> Option<
    SockAddr,
> {
    if d.len() < 20 {
        None
    } else if be16_at(d, 0) != STUN_BINDING_SUCCESS {
        None
    } else if be32_at(d, 4) != STUN_MAGIC_COOKIE {
        None
    } else if !answers_sent(sent, d.subrange(8, 20), from) {
        None
    } else {
        let msg_len = be16_at(d, 2);
        let total = 20 + if msg_len < d.len() - 20 {
            msg_len
        } else {
            d.len() - 20
        };
        spec_basic_walk(d, 20, total, d.subrange(8, 20))
    }
}

fn answers_sent_exec(sent: &Vec<SentRequest>, txid: &[u8; 12], from: SockAddr) -> (b: bool)
    ensures
        b == answers_sent(sent@, txid@, from),
{
    let mut i: usize = 0;
    while i < sent.len()
        invariant
            i <= sent@.len(),
            forall|j: int|
                0 <= j < i ==> !((#[trigger] sent@[j]).txid@ == txid@ && sent@[j].addr == from),
        decreases sent@.len() - i,
    {
        if txid_eq(&sent[i].txid, txid) && sent[i].addr == from {
            return true;
        }
        i = i + 1;
    }
    false
}

/// Decodes a datagram received from `from` (see `spec_basic_parse`).
pub fn parse_stun_response(payload: &[u8], sent: &Vec<SentRequest>, from: SockAddr) -> (r: Option<
    SockAddr,
>)
    ensures
        r == spec_basic_parse(payload@, sent@, from),
{
    let dlen = payload.len();
    if dlen < 20 {
        return None;
    }
    let msg_type = (payload[0] as u16) * 256 + payload[1] as u16;
    if msg_type != STUN_BINDING_SUCCESS {
        return None;
    }
    let msg_len = (payload[2] as usize) * 256 + payload[3] as usize;
    let cookie = (((payload[4] as u32) * 256 + payload[5] as u32) * 256 + payload[6] as u32)
        * 256 + payload[7] as u32;
    if cookie != STUN_MAGIC_COOKIE {
        return None;
    }
    let mut txid = [0u8; 12];
    let mut k: usize = 0;
    while k < 12
        invariant
            k <= 12,
            dlen == payload@.len(),
            dlen >= 20,
            txid@.len() == 12,
            forall|j: int| 0 <= j < k ==> txid@[j] == payload@[8 + j],
        decreases 12 - k,
    {
        txid[k] = payload[8 + k];
        k = k + 1;
    }
    assert(txid@ =~= payload@.subrange(8, 20));
    if !answers_sent_exec(sent, &txid, from) {
        return None;
    }
    let ghost t = txid@;
    let rest = dlen - 20;
    let total = 20 + if msg_len < rest {
        msg_len
    } else {
        rest
    };
    let mut idx: usize = 20;
    while idx + 4 <= total
        invariant
            20 <= idx <= dlen + 3,
            idx <= total + 65542,
            total <= dlen,
            total <= 20 + 65535,
            dlen == payload@.len(),
            t == txid@,
            spec_basic_parse(payload@, sent@, from) == spec_basic_walk(
                payload@,
                idx as int,
                total as int,
                t,
            ),
        decreases dlen + 4 - idx,
    {
        let attr_type = (payload[idx] as u16) * 256 + payload[idx + 1] as u16;
        let attr_len = (payload[idx + 2] as usize) * 256 + payload[idx + 3] as usize;
        let vs = idx + 4;
        if vs + attr_len > dlen {
            return None;
        }
        let value = vstd::slice::slice_subrange(payload, vs, vs + attr_len);
        let mapped = if attr_type == STUN_ATTR_MAPPED_ADDRESS {
            parse_mapped_address(value)
        } else if attr_type == STUN_ATTR_XOR_MAPPED_ADDRESS {
            parse_xor_mapped_address(value, &txid)
        } else {
            None
        };
        proof {
            assert(attr_type as int == be16_at(payload@, idx as int));
            assert(attr_len as int == be16_at(payload@, idx + 2));
        }
        if mapped.is_some() {
            return mapped;
        }
        idx = vs + (attr_len + 3) / 4 * 4;
    }
    None
}

} // verus!
