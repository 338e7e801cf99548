//! Save slots and wave checkpoints: the names of slots and files, and the
//! records a checkpoint holds.
use vstd::prelude::*;

use crate::text::string_push;

verus! {

/// The character `sanitize` keeps for `c`, if any: ASCII letters and digits
/// in lower case, and `_` for a space, `-` or `_`.
pub open spec fn sanitized_char(c: char) -> Option<char> {
    if ('a' <= c && c <= 'z') || ('0' <= c && c <= '9') {
        Some(c)
    } else if 'A' <= c && c <= 'Z' {
        Some(((c as u32) + 32) as char)
    } else if c == ' ' || c == '-' || c == '_' {
        Some('_')
    } else {
        None
    }
}

/// The kept characters of `s`, in order.
pub open spec fn sanitized(s: Seq<char>) -> Seq<char>
    decreases s.len(),
{
    if s.len() == 0 {
        seq![]
    } else {
        let r = sanitized(s.drop_last());
        match sanitized_char(s.last()) {
            Some(c) => r.push(c),
            None => r,
        }
    }
}

/// A name safe for a directory: the kept characters of `s` (see
/// `sanitized_char`), or `save` when none is kept.
pub fn sanitize(s: &str) -> (r: String)
    ensures
        r@ == if sanitized(s@).len() == 0 {
            "save"@
        } else {
            sanitized(s@)
        },
{
    broadcast use vstd::string::axiom_spec_iter;
    let mut out = String::new();
    let mut kept = false;
    for ch in it: s.chars()
        invariant
            it.seq() == s@,
            out@ == sanitized(it.seq().take(it.index())),
            kept == (out@.len() > 0),
    {
        assert(it.seq().take(it.index() + 1).drop_last() =~= it.seq().take(it.index()));
        if ('a' <= ch && ch <= 'z') || ('0' <= ch && ch <= '9') {
            string_push(&mut out, ch);
            kept = true;
        } else if 'A' <= ch && ch <= 'Z' {
            let lower = ((ch as u8) + 32) as char;
            string_push(&mut out, lower);
            kept = true;
        } else if ch == ' ' || ch == '-' || ch == '_' {
            string_push(&mut out, '_');
            kept = true;
        }
    }
    assert(s@.take(s@.len() as int) =~= s@);
    if !kept {
        proof {
            reveal_strlit("save");
        }
        "save".to_owned()
    } else {
        out
    }
}

/// The save format version.
pub const SAVE_VERSION: u32 = 1;

/// A slot's record: who made it, when, and on which map.
#[derive(Debug, Clone)]
pub struct SaveMeta {
    pub version: u32,
    pub id: String,
    pub created_at: u64,
    pub map_name: String,
    pub dev_mode: bool,
}

/// A tower kind as saved.
#[derive(Debug, Clone, Copy, PartialEq, Eq, Structural)]
pub enum TowerKindSave {
    Basic,
    Sniper,
    Rapid,
    Cannon,
    Tesla,
    Frost,
}

/// A target mode as saved.
#[derive(Debug, Clone, Copy, PartialEq, Eq, Structural)]
pub enum TargetModeSave {
    Primeiro,
    Ultimo,
    MaisForte,
    MaisFraco,
    MaisRapido,
    MaisLento,
    MaisPerigoso,
    MaisCurador,
}

/// A tower as saved.
#[derive(Debug, Clone, Copy)]
pub struct SaveTower {
    pub x: u16,
    pub y: u16,
    pub kind: TowerKindSave,
    pub level: u8,
    pub target_mode: Option<TargetModeSave>,
}

/// The state of a match at the start of a wave.
#[derive(Debug, Clone)]
pub struct SaveCheckpoint {
    pub version: u32,
    pub saved_at: u64,
    pub map_name: String,
    pub dev_mode: bool,
    pub wave: i32,
    pub money: i32,
    pub lives: i32,
    pub speed: u8,
    pub towers: Vec<SaveTower>,
}

/// A slot as the load menu lists it, with the waves it has checkpoints of.
#[derive(Debug, Clone)]
pub struct SaveSlotSummary {
    pub id: String,
    pub created_at: u64,
    pub map_name: String,
    pub dev_mode: bool,
    pub waves: Vec<i32>,
}

/// The decimal digit of `d` (below 10).
pub open spec fn digit_char(d: int) -> char {
    (('0' as int) + d) as char
}

/// The decimal digits of `n`, most significant first.
pub open spec fn decimal(n: nat) -> Seq<char>
    decreases n,
{
    if n < 10 {
        seq![digit_char(n as int)]
    } else {
        decimal(n / 10).push(digit_char((n % 10) as int))
    }
}

/// `d` padded with leading zeros to at least four digits.
pub open spec fn pad4(d: Seq<char>) -> Seq<char> {
    if d.len() >= 4 {
        d
    } else {
        Seq::new((4 - d.len()) as nat, |i: int| '0') + d
    }
}

pub(crate) fn push_decimal(out: &mut String, n: u128)
    ensures
        final(out)@ == old(out)@ + decimal(n as nat),
    decreases n,
{
    if n >= 10 {
        push_decimal(out, n / 10);
    }
    let d = (n % 10) as u8;
    let c = (('0' as u8) + d) as char;
    string_push(out, c);
    proof {
        if n >= 10 {
            assert(decimal(n as nat) == decimal((n / 10) as nat).push(digit_char((n % 10) as int)));
        }
    }
    assert(final(out)@ =~= old(out)@ + decimal(n as nat));
}

pub(crate) fn push_str(out: &mut String, s: &str)
    ensures
        final(out)@ == old(out)@ + s@,
{
    broadcast use vstd::string::axiom_spec_iter;
    let ghost o0 = out@;
    for ch in it: s.chars()
        invariant
            it.seq() == s@,
            out@ == o0 + it.seq().take(it.index()),
    {
        string_push(out, ch);
        assert(o0 + it.seq().take(it.index() + 1) =~= (o0 + it.seq().take(it.index())).push(ch));
    }
    assert(s@.take(s@.len() as int) =~= s@);
}

/// The file of a wave's checkpoint: `wave_`, the wave (at least 0) in at
/// least four digits, `.json`.
pub open spec fn spec_wave_filename(wave: i32) -> Seq<char> {
    let w: nat = if wave >= 0 {
        wave as nat
    } else {
        0
    };
    "wave_"@ + pad4(decimal(w)) + ".json"@
}

/// The file of a wave's checkpoint (see `spec_wave_filename`).
pub fn wave_filename(wave: i32) -> (r: String)
    ensures
        r@ == spec_wave_filename(wave),
{
    let w: u32 = if wave >= 0 {
        wave as u32
    } else {
        0
    };
    let mut digits = String::new();
    push_decimal(&mut digits, w as u128);
    let mut out = String::new();
    push_str(&mut out, "wave_");
    let mut pad: usize = 0;
    let ghost d = decimal(w as nat);
    proof {
        lemma_decimal_len(w as nat);
    }
    let n_digits = count_digits(w);
    while pad + n_digits < 4
        invariant
            n_digits == d.len(),
            d.len() >= 1,
            pad + n_digits <= 4 || pad == 0,
            out@ == "wave_"@ + Seq::new(pad as nat, |i: int| '0'),
        decreases 4 - pad,
    {
        string_push(&mut out, '0');
        pad = pad + 1;
        assert(out@ =~= "wave_"@ + Seq::new(pad as nat, |i: int| '0'));
    }
    let ghost before = out@;
    push_str(&mut out, digits.as_str());
    push_str(&mut out, ".json");
    proof {
        if d.len() >= 4 {
            assert(pad == 0);
            assert(Seq::new(0nat, |i: int| '0') + d =~= d);
        } else {
            assert(pad == 4 - d.len());
        }
        assert(pad4(d) =~= Seq::new(pad as nat, |i: int| '0') + d);
        assert(out@ =~= "wave_"@ + pad4(d) + ".json"@);
    }
    out
}

proof fn lemma_decimal_len(n: nat)
    ensures
        decimal(n).len() >= 1,
        n < 10 ==> decimal(n).len() == 1,
        n >= 10 ==> decimal(n).len() == decimal(n / 10).len() + 1,
    decreases n,
{
    if n >= 10 {
        lemma_decimal_len(n / 10);
    }
}

fn count_digits(n: u32) -> (c: usize)
    ensures
        c == decimal(n as nat).len(),
    decreases n,
{
    proof {
        lemma_decimal_len(n as nat);
    }
    if n < 10 {
        1
    } else {
        let c = count_digits(n / 10);
        proof {
            lemma_decimal_len((n / 10) as nat);
            lemma_decimal_bound((n / 10) as nat);
        }
        c + 1
    }
}

proof fn lemma_decimal_bound(n: nat)
    ensures
        decimal(n).len() <= n + 1,
    decreases n,
{
    if n >= 10 {
        lemma_decimal_bound(n / 10);
    }
}

/// The value of a run of decimal digits.
pub open spec fn digits_value(s: Seq<char>) -> int
    decreases s.len(),
{
    if s.len() == 0 {
        0
    } else {
        digits_value(s.drop_last()) * 10 + (s.last() as int - '0' as int)
    }
}

/// Every character is an ASCII digit.
pub open spec fn all_digits(s: Seq<char>) -> bool {
    forall|i: int| 0 <= i < s.len() ==> '0' <= #[trigger] s[i] <= '9'
}

/// An `i32` in decimal, as `str::parse` reads it: an optional sign, then
/// one or more digits, within the range of `i32`.
pub open spec fn parse_i32(s: Seq<char>) -> Option<i32> {
    let neg = s.len() > 0 && s[0] == '-';
    let body = if s.len() > 0 && (s[0] == '-' || s[0] == '+') {
        s.drop_first()
    } else {
        s
    };
    if body.len() == 0 || !all_digits(body) {
        None
    } else {
        let v = if neg {
            -digits_value(body)
        } else {
            digits_value(body)
        };
        if i32::MIN <= v <= i32::MAX {
            Some(v as i32)
        } else {
            None
        }
    }
}

/// The wave of a checkpoint file's stem: `wave_` followed by an `i32`.
pub open spec fn spec_parse_wave_stem(stem: Seq<char>) -> Option<i32> {
    if stem.len() >= 5 && stem.take(5) == "wave_"@ {
        parse_i32(stem.skip(5))
    } else {
        None
    }
}

proof fn lemma_prefix_value_le(s: Seq<char>, k: int)
    requires
        all_digits(s),
        0 <= k <= s.len(),
    ensures
        0 <= digits_value(s.take(k)) <= digits_value(s),
    decreases s.len(),
{
    if k == s.len() {
        assert(s.take(k) =~= s);
        lemma_value_nonneg(s);
    } else {
        let t = s.drop_last();
        assert(all_digits(t));
        lemma_prefix_value_le(t, k);
        assert(t.take(k) =~= s.take(k));
        lemma_value_nonneg(t);
    }
}

proof fn lemma_value_nonneg(s: Seq<char>)
    requires
        all_digits(s),
    ensures
        digits_value(s) >= 0,
    decreases s.len(),
{
    if s.len() > 0 {
        assert(all_digits(s.drop_last()));
        lemma_value_nonneg(s.drop_last());
    }
}

proof fn lemma_decimal_digits(n: nat)
    ensures
        decimal(n).len() >= 1,
        all_digits(decimal(n)),
        digits_value(decimal(n)) == n,
    decreases n,
{
    if n < 10 {
        let d = decimal(n);
        assert(d.drop_last() =~= Seq::<char>::empty());
        assert(digit_char(n as int) as int == '0' as int + n);
        assert(digits_value(d.drop_last()) == 0);
        assert(digits_value(d) == n);
    } else {
        lemma_decimal_digits(n / 10);
        let d = decimal(n);
        assert(d.drop_last() =~= decimal(n / 10));
        assert(digit_char((n % 10) as int) as int == '0' as int + n % 10);
        assert(d.last() == digit_char((n % 10) as int));
        assert(n == (n / 10) * 10 + n % 10) by (nonlinear_arith);
        assert(digits_value(d) == digits_value(d.drop_last()) * 10 + (d.last() as int - '0' as int));
        assert(digits_value(d.drop_last()) == n / 10);
        assert(digits_value(d) == n);
    }
}

proof fn lemma_zeros_value(k: nat, s: Seq<char>)
    requires
        all_digits(s),
    ensures
        all_digits(Seq::new(k, |i: int| '0') + s),
        digits_value(Seq::new(k, |i: int| '0') + s) == digits_value(s),
    decreases s.len() + k,
{
    let z = Seq::new(k, |i: int| '0');
    if s.len() == 0 {
        assert(z + s =~= z);
        if k > 0 {
            lemma_zeros_value((k - 1) as nat, s);
            assert(z.drop_last() =~= Seq::new((k - 1) as nat, |i: int| '0'));
            assert(Seq::new((k - 1) as nat, |i: int| '0') + s =~= z.drop_last());
        }
    } else {
        let t = s.drop_last();
        assert(all_digits(t));
        lemma_zeros_value(k, t);
        assert((z + s).drop_last() =~= z + t);
    }
}

/// A wave's checkpoint file is listed under that wave again: the stem of
/// the file `wave_file_name` gives a wave of at least 0 (the name without
/// `.json`) reads back as that wave.
pub proof fn lemma_wave_file_read_back(wave: i32)
    requires
        wave >= 0,
    ensures
        spec_parse_wave_stem(spec_wave_filename(wave).take(spec_wave_filename(wave).len() - 5))
            == Some(wave),
{
    let d = decimal(wave as nat);
    lemma_decimal_digits(wave as nat);
    let p = pad4(d);
    if d.len() < 4 {
        lemma_zeros_value((4 - d.len()) as nat, d);
    }
    assert(all_digits(p));
    assert(digits_value(p) == wave);
    let f = spec_wave_filename(wave);
    reveal_strlit("wave_");
    reveal_strlit(".json");
    let stem = f.take(f.len() - 5);
    assert(stem =~= "wave_"@ + p);
    assert(stem.take(5) =~= "wave_"@);
    assert(stem.skip(5) =~= p);
    assert('0' <= p[0] <= '9');
}

pub(crate) fn chars_of(s: &str) -> (v: Vec<char>)
    ensures
        v@ == s@,
{
    broadcast use vstd::string::axiom_spec_iter;
    let mut v: Vec<char> = Vec::new();
    for ch in it: s.chars()
        invariant
            it.seq() == s@,
            v@ == it.seq().take(it.index()),
    {
        v.push(ch);
        assert(v@ =~= it.seq().take(it.index() + 1));
    }
    assert(s@.take(s@.len() as int) =~= s@);
    v
}

/// Reads an `i32` from `v` from index `start` on (see `parse_i32`).
fn parse_i32_from(v: &Vec<char>, start: usize) -> (r: Option<i32>)
    requires
        start <= v@.len(),
    ensures
        r == parse_i32(v@.skip(start as int)),
{
    let ghost s = v@.skip(start as int);
    let mut i = start;
    let mut neg = false;
    if i < v.len() && (v[i] == '-' || v[i] == '+') {
        neg = v[i] == '-';
        i = i + 1;
    }
    let body_start = i;
    let ghost body = v@.skip(body_start as int);
    assert(body =~= if s.len() > 0 && (s[0] == '-' || s[0] == '+') {
        s.drop_first()
    } else {
        s
    });
    assert(neg == (s.len() > 0 && s[0] == '-'));
    if i == v.len() {
        return None;
    }
    let mut acc: u64 = 0;
    while i < v.len()
        invariant
            body_start <= i <= v@.len(),
            body == v@.skip(body_start as int),
            s == v@.skip(start as int),
            body == if s.len() > 0 && (s[0] == '-' || s[0] == '+') {
                s.drop_first()
            } else {
                s
            },
            neg == (s.len() > 0 && s[0] == '-'),
            all_digits(v@.subrange(body_start as int, i as int)),
            acc == digits_value(v@.subrange(body_start as int, i as int)),
            acc <= 2147483648,
        decreases v@.len() - i,
    {
        let c = v[i];
        if !('0' <= c && c <= '9') {
            assert(body[i - body_start] == c);
            return None;
        }
        let ghost next = v@.subrange(body_start as int, i + 1);
        assert(next.drop_last() =~= v@.subrange(body_start as int, i as int));
        let d = (c as u32 - '0' as u32) as u64;
        let nv = acc * 10 + d;
        if nv > 2147483648 {
            proof {
                if all_digits(body) {
                    assert(body.take((i + 1 - body_start) as int) =~= next);
                    lemma_prefix_value_le(body, (i + 1 - body_start) as int);
                }
            }
            return None;
        }
        acc = nv;
        i = i + 1;
    }
    assert(v@.subrange(body_start as int, v@.len() as int) =~= body);
    if neg {
        Some((0 - acc as i64) as i32)
    } else if acc <= 2147483647 {
        Some(acc as i32)
    } else {
        None
    }
}

/// The wave a checkpoint file's stem names (see `spec_parse_wave_stem`).
pub fn parse_wave_stem(stem: &str) -> (r: Option<i32>)
    ensures
        r == spec_parse_wave_stem(stem@),
{
    proof {
        reveal_strlit("wave_");
    }
    let v = chars_of(stem);
    if v.len() >= 5 && v[0] == 'w' && v[1] == 'a' && v[2] == 'v' && v[3] == 'e' && v[4] == '_' {
        assert(v@.take(5) =~= "wave_"@);
        parse_i32_from(&v, 5)
    } else {
        proof {
            if v@.len() >= 5 && v@.take(5) == "wave_"@ {
                assert(v@.take(5)[0] == 'w');
                assert(v@.take(5)[1] == 'a');
                assert(v@.take(5)[2] == 'v');
                assert(v@.take(5)[3] == 'e');
                assert(v@.take(5)[4] == '_');
            }
        }
        None
    }
}

/// The sequence is strictly increasing.
pub open spec fn strictly_sorted(s: Seq<i32>) -> bool {
    forall|i: int, j: int| 0 <= i < j < s.len() ==> s[i] < s[j]
}

/// The waves of a slot as the load menu lists them: each wave once, in
/// increasing order.
pub fn sorted_waves(waves: &Vec<i32>) -> (r: Vec<i32>)
    ensures
        strictly_sorted(r@),
        forall|w: i32| r@.contains(w) <==> waves@.contains(w),
{
    let mut out: Vec<i32> = Vec::new();
    let mut i: usize = 0;
    while i < waves.len()
        invariant
            i <= waves@.len(),
            strictly_sorted(out@),
            forall|w: i32| out@.contains(w) <==> waves@.take(i as int).contains(w),
        decreases waves@.len() - i,
    {
        let w = waves[i];
        let mut p: usize = 0;
        while p < out.len() && out[p] < w
            invariant
                p <= out@.len(),
                forall|k: int| 0 <= k < p ==> out@[k] < w,
            decreases out@.len() - p,
        {
            p = p + 1;
        }
        let ghost before = out@;
        if p < out.len() && out[p] == w {
            assert(before.contains(w));
            assert forall|x: i32| out@.contains(x) <==> (before.contains(x) || x == w) by {}
        } else {
            out.insert(p, w);
            proof {
                assert forall|a: int, b: int| 0 <= a < b < out@.len() implies out@[a] < out@[b] by {
                    if b < p {
                    } else if a < p && b == p {
                    } else if a < p {
                        assert(out@[b] == before[b - 1]);
                    } else if a == p {
                        assert(out@[b] == before[b - 1]);
                        assert(before[p as int] > w || true);
                        if p < before.len() {
                            assert(before[p as int] >= w);
                            assert(before[p as int] != w);
                        }
                    } else {
                        assert(out@[a] == before[a - 1]);
                        assert(out@[b] == before[b - 1]);
                    }
                }
                assert forall|x: i32| out@.contains(x) <==> (before.contains(x) || x == w) by {
                    if out@.contains(x) {
                        let k = choose|k: int| 0 <= k < out@.len() && #[trigger] out@[k] == x;
                        if k < p {
                            assert(before[k] == x);
                        } else if k > p {
                            assert(before[k - 1] == x);
                        }
                    }
                    if before.contains(x) {
                        let k = choose|k: int| 0 <= k < before.len() && #[trigger] before[k] == x;
                        if k < p {
                            assert(out@[k] == x);
                        } else {
                            assert(out@[k + 1] == x);
                        }
                    }
                    if x == w {
                        assert(out@[p as int] == w);
                    }
                }
                assert(out@[p as int] == w);
                assert(out@.contains(w));
            }
        }
        proof {
            assert(waves@.take(i + 1) =~= waves@.take(i as int).push(w));
            let t0 = waves@.take(i as int);
            let t1 = waves@.take(i + 1);
            assert(t1 =~= t0.push(w));
            assert forall|x: i32| t1.contains(x) <==> (t0.contains(x) || x == w) by {
                if t1.contains(x) {
                    let k = choose|k: int| 0 <= k < t1.len() && #[trigger] t1[k] == x;
                    if k < i {
                        assert(t0[k] == x);
                    }
                }
                if t0.contains(x) {
                    let k = choose|k: int| 0 <= k < t0.len() && #[trigger] t0[k] == x;
                    assert(t1[k] == x);
                }
                if x == w {
                    assert(t1[i as int] == w);
                }
            }
            assert(out@.contains(w));
            assert forall|x: i32| out@.contains(x) <==> t1.contains(x) by {
                assert(out@.contains(x) <==> (before.contains(x) || x == w));
                assert(before.contains(x) <==> t0.contains(x));
            }
        }
        i = i + 1;
    }
    assert(waves@.take(waves@.len() as int) =~= waves@);
    out
}

/// Slot `a` is listed before slot `b`: newer first, and in their given
/// order when made at the same time.
pub open spec fn listed_before(created: Seq<u64>, a: usize, b: usize) -> bool {
    created[a as int] > created[b as int] || (created[a as int] == created[b as int] && a < b)
}

/// The order in which the load menu lists slots made at `created`: every
/// slot once, newest first, ties in their given order.
pub fn slot_order(created: &Vec<u64>) -> (r: Vec<usize>)
    ensures
        r@.len() == created@.len(),
        forall|k: int| 0 <= k < r@.len() ==> (#[trigger] r@[k]) < created@.len(),
        forall|j: int, k: int| 0 <= j < k < r@.len() ==> listed_before(created@, r@[j], r@[k]),
        forall|i: usize| i < created@.len() ==> r@.contains(i),
{
    let mut out: Vec<usize> = Vec::new();
    let mut i: usize = 0;
    while i < created.len()
        invariant
            i <= created@.len(),
            out@.len() == i,
            forall|k: int| 0 <= k < out@.len() ==> (#[trigger] out@[k]) < i,
            forall|j: int, k: int| 0 <= j < k < out@.len() ==> listed_before(created@, out@[j], out@[k]),
            forall|x: usize| x < i ==> out@.contains(x),
        decreases created@.len() - i,
    {
        let c = created[i];
        let mut p: usize = 0;
        while p < out.len() && created[out[p]] >= c
            invariant
                p <= out@.len(),
                i < created@.len(),
                forall|k: int| 0 <= k < out@.len() ==> (#[trigger] out@[k]) < i,
                forall|k: int| 0 <= k < p ==> created@[out@[k] as int] >= c,
            decreases out@.len() - p,
        {
            p = p + 1;
        }
        let ghost before = out@;
        out.insert(p, i);
        proof {
            assert forall|a: int, b: int| 0 <= a < b < out@.len() implies listed_before(
                created@,
                out@[a],
                out@[b],
            ) by {
                if b < p {
                } else if a < p && b == p {
                    assert(before[a] < i);
                } else if a < p {
                    assert(out@[b] == before[b - 1]);
                } else if a == p {
                    assert(out@[b] == before[b - 1]);
                    assert(before[p as int] < i);
                    if b - 1 > p {
                        assert(listed_before(created@, before[p as int], before[b - 1]));
                    }
                } else {
                    assert(out@[a] == before[a - 1]);
                    assert(out@[b] == before[b - 1]);
                }
            }
            assert forall|k: int| 0 <= k < out@.len() implies (#[trigger] out@[k]) < i + 1 by {
                if k < p {
                    assert(out@[k] == before[k]);
                } else if k > p {
                    assert(out@[k] == before[k - 1]);
                }
            }
            assert forall|x: usize| x < i + 1 implies out@.contains(x) by {
                if x == i {
                    assert(out@[p as int] == i);
                } else {
                    assert(before.contains(x));
                    let k = choose|k: int| 0 <= k < before.len() && #[trigger] before[k] == x;
                    if k < p {
                        assert(out@[k] == x);
                    } else {
                        assert(out@[k + 1] == x);
                    }
                }
            }
        }
        i = i + 1;
    }
    out
}

/// A new slot's name: the sanitized map name, `-`, and the time in
/// nanoseconds.
pub fn new_slot_id(map_name: &str, nanos: u128) -> (r: String)
    ensures
        r@ == (if sanitized(map_name@).len() == 0 {
            "save"@
        } else {
            sanitized(map_name@)
        }) + seq!['-'] + decimal(nanos as nat),
{
    let mut out = sanitize(map_name);
    string_push(&mut out, '-');
    push_decimal(&mut out, nanos);
    out
}

} // verus!
