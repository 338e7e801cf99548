use vstd::prelude::*;

verus! {

/// The unsigned integer that a sequence of bytes spells in big-endian order.
pub open spec fn be_int(s: Seq<u8>) -> nat
    decreases s.len(),
{
    if s.len() == 0 {
        0
    } else {
        be_int(s.drop_last()) * 256 + s.last() as nat
    }
}

/// Big-endian 16-bit value stored at `d[i..i + 2]`.
pub open spec fn be16_at(d: Seq<u8>, i: int) -> int {
    d[i] as int * 256 + d[i + 1] as int
}

/// Big-endian 32-bit value stored at `d[i..i + 4]`.
pub open spec fn be32_at(d: Seq<u8>, i: int) -> int {
    ((d[i] as int * 256 + d[i + 1] as int) * 256 + d[i + 2] as int) * 256 + d[i + 3] as int
}

/// A sequence of `n` bytes spells a number below `256^n`.
pub proof fn lemma_be_int_bound(s: Seq<u8>)
    ensures
        be_int(s) < pow256(s.len()),
    decreases s.len(),
{
    if s.len() > 0 {
        lemma_be_int_bound(s.drop_last());
        assert(pow256(s.len() as nat) == pow256((s.len() - 1) as nat) * 256);
    }
}

/// `256^n`.
pub open spec fn pow256(n: nat) -> nat
    decreases n,
{
    if n == 0 {
        1
    } else {
        pow256((n - 1) as nat) * 256
    }
}

/// Reads `d[start..start + n]` as a big-endian number.
pub fn read_be_u128(d: &[u8], start: usize, n: usize) -> (r: u128)
    requires
        n <= 16,
        start + n <= d@.len(),
    ensures
        r == be_int(d@.subrange(start as int, start + n)),
{
    let _len = d.len();
    let mut acc: u128 = 0;
    let mut i: usize = 0;
    while i < n
        invariant
            i <= n <= 16,
            start + n <= d@.len(),
            _len == d@.len(),
            acc == be_int(d@.subrange(start as int, start + i)),
        decreases n - i,
    {
        proof {
            lemma_be_int_bound(d@.subrange(start as int, start + i));
            lemma_pow256_mono(i as nat, 15);
            lemma_pow256_15();
            assert(d@.subrange(start as int, start + i + 1).drop_last() =~= d@.subrange(
                start as int,
                start + i,
            ));
        }
        acc = acc * 256 + d[start + i] as u128;
        i = i + 1;
    }
    acc
}

/// `256^15 = 2^120`.
pub proof fn lemma_pow256_15()
    ensures
        pow256(15) == 0x1000000000000000000000000000000,
{
    reveal_with_fuel(pow256, 16);
}

/// `256^n` grows with `n`.
pub proof fn lemma_pow256_mono(a: nat, b: nat)
    requires
        a <= b,
    ensures
        pow256(a) <= pow256(b),
    decreases b,
{
    if a < b {
        lemma_pow256_mono(a, (b - 1) as nat);
    }
}

} // verus!
