//! The STUN settings a user can give through the environment: the list of
//! servers to ask (or none, which turns STUN off) and whether to trace the
//! exchange.
use vstd::prelude::*;

use crate::lobby::{char_is_whitespace, unicode_white};
use crate::save::chars_of;
use crate::text::string_push;

verus! {

/// The servers asked by default from an IPv4 socket.
pub open spec fn default_servers_v4() -> Seq<Seq<char>> {
    seq![
        "stun.cloudflare.com:3478"@,
        "global.stun.twilio.com:3478"@,
        "stun.l.google.com:19302"@,
        "stun1.l.google.com:19302"@,
        "stun2.l.google.com:19302"@,
        "stun3.l.google.com:19302"@,
        "stun4.l.google.com:19302"@,
        "stun.sipgate.net:3478"@,
        "stun.nextcloud.com:443"@,
        "stun.zoiper.com:3478"@,
    ]
}

/// The servers asked by default from an IPv6 socket.
pub open spec fn default_servers_v6() -> Seq<Seq<char>> {
    seq![
        "stun.cloudflare.com:3478"@,
        "stun.l.google.com:19302"@,
        "stun1.l.google.com:19302"@,
        "stun2.l.google.com:19302"@,
        "stun3.l.google.com:19302"@,
        "stun4.l.google.com:19302"@,
        "stun.nextcloud.com:443"@,
    ]
}

/// The index of the first character at or after `i` that is not white
/// space (the length when there is none).
pub open spec fn skip_white(s: Seq<char>, i: int) -> int
    decreases s.len() - i,
{
    if i < 0 || i >= s.len() {
        s.len() as int
    } else if unicode_white(s[i]) {
        skip_white(s, i + 1)
    } else {
        i
    }
}

/// The end of `s[lo..j]` once white space at its end is dropped.
pub open spec fn back_white(s: Seq<char>, lo: int, j: int) -> int
    decreases j - lo,
{
    if j <= lo {
        lo
    } else if unicode_white(s[j - 1]) {
        back_white(s, lo, j - 1)
    } else {
        j
    }
}

/// `s` without white space at either end (as `str::trim`).
pub open spec fn trimmed(s: Seq<char>) -> Seq<char> {
    let a = skip_white(s, 0);
    s.subrange(a, back_white(s, a, s.len() as int))
}

/// `c` is `l` or its upper-case ASCII form.
pub open spec fn ci_char(c: char, l: char) -> bool {
    c == l || ('A' <= c <= 'Z' && (c as u32) + 32 == (l as u32))
}

/// `s` spells the lower-case word `w`, ignoring ASCII case.
pub open spec fn ci_eq(s: Seq<char>, w: Seq<char>) -> bool {
    s.len() == w.len() && forall|i: int| 0 <= i < s.len() ==> ci_char(#[trigger] s[i], w[i])
}

/// The words that turn STUN off, in lower case.
pub open spec fn off_words() -> Seq<Seq<char>> {
    seq![
        seq!['0'],
        seq!['f', 'a', 'l', 's', 'e'],
        seq!['n', 'o'],
        seq!['o', 'f', 'f'],
        seq!['d', 'i', 's', 'a', 'b', 'l', 'e'],
        seq!['d', 'i', 's', 'a', 'b', 'l', 'e', 'd'],
        seq!['n', 'o', 'n', 'e'],
    ]
}

/// A setting that turns STUN off: empty once trimmed, or one of the off
/// words in any ASCII case.
pub open spec fn turns_off(v: Seq<char>) -> bool {
    let t = trimmed(v);
    t.len() == 0 || exists|k: int| 0 <= k < off_words().len() && ci_eq(t, #[trigger] off_words()[k])
}

/// Splitting the first `n` characters of `v` at commas: the pieces ended
/// by a comma, and the piece still open.
pub open spec fn split_commas(v: Seq<char>, n: int) -> (Seq<Seq<char>>, Seq<char>)
    decreases n,
{
    if n <= 0 {
        (seq![], seq![])
    } else {
        let (done, cur) = split_commas(v, n - 1);
        if v[n - 1] == ',' {
            (done.push(cur), seq![])
        } else {
            (done, cur.push(v[n - 1]))
        }
    }
}

/// The first `n` pieces, each trimmed, the empty ones dropped.
pub open spec fn kept_items(pieces: Seq<Seq<char>>, n: int) -> Seq<Seq<char>>
    decreases n,
{
    if n <= 0 {
        seq![]
    } else if trimmed(pieces[n - 1]).len() == 0 {
        kept_items(pieces, n - 1)
    } else {
        kept_items(pieces, n - 1).push(trimmed(pieces[n - 1]))
    }
}

/// The servers named in a setting: its comma-separated items, trimmed,
/// the empty ones dropped.
pub open spec fn listed_servers(v: Seq<char>) -> Seq<Seq<char>> {
    let (done, cur) = split_commas(v, v.len() as int);
    let pieces = done.push(cur);
    kept_items(pieces, pieces.len() as int)
}

/// The STUN servers to ask, given the setting `env` (if set) and the
/// socket's address family: none when the setting turns STUN off; the
/// servers it lists when it lists any; else the default list of the
/// family.
pub open spec fn spec_stun_servers(env: Option<Seq<char>>, bind_v4: bool) -> Seq<Seq<char>> {
    let defaults = if bind_v4 {
        default_servers_v4()
    } else {
        default_servers_v6()
    };
    match env {
        None => defaults,
        Some(v) => if turns_off(v) {
            seq![]
        } else if listed_servers(v).len() > 0 {
            listed_servers(v)
        } else {
            defaults
        },
    }
}

/// The characters of `s`, as a view.
pub open spec fn string_views(r: Seq<String>) -> Seq<Seq<char>> {
    r.map_values(|s: String| s@)
}

fn trim_bounds(v: &Vec<char>, lo: usize, hi: usize) -> (r: (usize, usize))
    requires
        lo == 0,
        hi == v@.len(),
    ensures
        r.0 == skip_white(v@, 0),
        r.1 == back_white(v@, r.0 as int, v@.len() as int),
        r.0 <= r.1 <= v@.len(),
{
    let mut a: usize = lo;
    while a < hi && char_is_whitespace(v[a])
        invariant
            a <= hi,
            hi == v@.len(),
            skip_white(v@, 0) == skip_white(v@, a as int),
        decreases hi - a,
    {
        a = a + 1;
    }
    let mut b: usize = hi;
    while b > a && char_is_whitespace(v[b - 1])
        invariant
            a <= b <= hi,
            hi == v@.len(),
            back_white(v@, a as int, v@.len() as int) == back_white(v@, a as int, b as int),
        decreases b - a,
    {
        b = b - 1;
    }
    (a, b)
}

fn trimmed_chars(v: &Vec<char>) -> (r: Vec<char>)
    ensures
        r@ == trimmed(v@),
{
    let (a, b) = trim_bounds(v, 0, v.len());
    let mut r: Vec<char> = Vec::new();
    let mut i: usize = a;
    while i < b
        invariant
            a <= i <= b,
            b <= v@.len(),
            r@ == v@.subrange(a as int, i as int),
        decreases b - i,
    {
        r.push(v[i]);
        proof {
            assert(r@ =~= v@.subrange(a as int, i + 1));
        }
        i = i + 1;
    }
    r
}

fn ci_eq_exec(s: &Vec<char>, w: &[char]) -> (b: bool)
    requires
        forall|i: int| 0 <= i < w@.len() ==> 'a' <= #[trigger] w@[i] <= 'z' || '0' <= w@[i] <= '9',
    ensures
        b == ci_eq(s@, w@),
{
    if s.len() != w.len() {
        return false;
    }
    let mut i: usize = 0;
    while i < s.len()
        invariant
            s@.len() == w@.len(),
            i <= s@.len(),
            forall|j: int| 0 <= j < i ==> ci_char(#[trigger] s@[j], w@[j]),
        decreases s@.len() - i,
    {
        let c = s[i];
        let l = w[i];
        let ok = c == l || ('A' <= c && c <= 'Z' && (c as u32) + 32 == (l as u32));
        if !ok {
            return false;
        }
        i = i + 1;
    }
    true
}

fn turns_off_exec(v: &Vec<char>) -> (b: bool)
    ensures
        b == turns_off(v@),
{
    let t = trimmed_chars(v);
    if t.len() == 0 {
        return true;
    }
    let w0 = ['0'];
    let w1 = ['f', 'a', 'l', 's', 'e'];
    let w2 = ['n', 'o'];
    let w3 = ['o', 'f', 'f'];
    let w4 = ['d', 'i', 's', 'a', 'b', 'l', 'e'];
    let w5 = ['d', 'i', 's', 'a', 'b', 'l', 'e', 'd'];
    let w6 = ['n', 'o', 'n', 'e'];
    proof {
        assert(off_words()[0] == w0@);
        assert(off_words()[1] == w1@);
        assert(off_words()[2] == w2@);
        assert(off_words()[3] == w3@);
        assert(off_words()[4] == w4@);
        assert(off_words()[5] == w5@);
        assert(off_words()[6] == w6@);
    }
    let r = ci_eq_exec(&t, &w0) || ci_eq_exec(&t, &w1) || ci_eq_exec(&t, &w2) || ci_eq_exec(&t, &w3)
        || ci_eq_exec(&t, &w4) || ci_eq_exec(&t, &w5) || ci_eq_exec(&t, &w6);
    proof {
        if !r {
            assert forall|k: int| 0 <= k < off_words().len() implies !ci_eq(t@, #[trigger] off_words()[k]) by {
                if k == 0 {
                } else if k == 1 {
                } else if k == 2 {
                } else if k == 3 {
                } else if k == 4 {
                } else if k == 5 {
                } else {
                }
            }
        } else {
            if ci_eq(t@, w0@) {
                assert(ci_eq(t@, off_words()[0]));
            } else if ci_eq(t@, w1@) {
                assert(ci_eq(t@, off_words()[1]));
            } else if ci_eq(t@, w2@) {
                assert(ci_eq(t@, off_words()[2]));
            } else if ci_eq(t@, w3@) {
                assert(ci_eq(t@, off_words()[3]));
            } else if ci_eq(t@, w4@) {
                assert(ci_eq(t@, off_words()[4]));
            } else if ci_eq(t@, w5@) {
                assert(ci_eq(t@, off_words()[5]));
            } else {
                assert(ci_eq(t@, off_words()[6]));
            }
        }
    }
    r
}

fn string_of(v: &Vec<char>) -> (s: String)
    ensures
        s@ == v@,
{
    let mut s = String::new();
    let mut i: usize = 0;
    while i < v.len()
        invariant
            i <= v@.len(),
            s@ == v@.take(i as int),
        decreases v@.len() - i,
    {
        string_push(&mut s, v[i]);
        proof {
            assert(s@ =~= v@.take(i + 1));
        }
        i = i + 1;
    }
    proof {
        assert(v@.take(v@.len() as int) =~= v@);
    }
    s
}

fn push_item(out: &mut Vec<String>, piece: &Vec<char>)
    ensures
        string_views(final(out)@) == if trimmed(piece@).len() == 0 {
            string_views(old(out)@)
        } else {
            string_views(old(out)@).push(trimmed(piece@))
        },
{
    let t = trimmed_chars(piece);
    if t.len() > 0 {
        let s = string_of(&t);
        out.push(s);
        proof {
            assert(string_views(final(out)@) =~= string_views(old(out)@).push(trimmed(piece@)));
        }
    }
}

fn listed_servers_exec(v: &Vec<char>) -> (r: Vec<String>)
    ensures
        string_views(r@) == listed_servers(v@),
{
    let mut out: Vec<String> = Vec::new();
    let mut cur: Vec<char> = Vec::new();
    let ghost mut done: Seq<Seq<char>> = seq![];
    let mut i: usize = 0;
    while i < v.len()
        invariant
            i <= v@.len(),
            split_commas(v@, i as int) == (done, cur@),
            string_views(out@) == kept_items(done, done.len() as int),
        decreases v@.len() - i,
    {
        if v[i] == ',' {
            push_item(&mut out, &cur);
            proof {
                let d2 = done.push(cur@);
                assert(d2.drop_last() =~= done);
                assert(kept_items(d2, d2.len() as int - 1) == kept_items(done, done.len() as int)) by {
                    assert forall|n: int| 0 <= n <= done.len() implies kept_items(d2, n) == kept_items(done, n) by {
                        lemma_kept_prefix(done, d2, n);
                    }
                }
                done = d2;
            }
            cur = Vec::new();
        } else {
            cur.push(v[i]);
        }
        i = i + 1;
    }
    push_item(&mut out, &cur);
    proof {
        let d2 = done.push(cur@);
        lemma_kept_prefix(done, d2, done.len() as int);
        assert(v@.len() as int == v@.len());
    }
    out
}

proof fn lemma_kept_prefix(a: Seq<Seq<char>>, b: Seq<Seq<char>>, n: int)
    requires
        0 <= n <= a.len(),
        a.len() <= b.len(),
        forall|i: int| 0 <= i < a.len() ==> #[trigger] a[i] == b[i],
    ensures
        kept_items(b, n) == kept_items(a, n),
    decreases n,
{
    if n > 0 {
        lemma_kept_prefix(a, b, n - 1);
    }
}

fn default_list(bind_v4: bool) -> (r: Vec<String>)
    ensures
        string_views(r@) == if bind_v4 {
            default_servers_v4()
        } else {
            default_servers_v6()
        },
{
    let mut r: Vec<String> = Vec::new();
    if bind_v4 {
        r.push("stun.cloudflare.com:3478".to_owned());
        r.push("global.stun.twilio.com:3478".to_owned());
        r.push("stun.l.google.com:19302".to_owned());
        r.push("stun1.l.google.com:19302".to_owned());
        r.push("stun2.l.google.com:19302".to_owned());
        r.push("stun3.l.google.com:19302".to_owned());
        r.push("stun4.l.google.com:19302".to_owned());
        r.push("stun.sipgate.net:3478".to_owned());
        r.push("stun.nextcloud.com:443".to_owned());
        r.push("stun.zoiper.com:3478".to_owned());
    } else {
        r.push("stun.cloudflare.com:3478".to_owned());
        r.push("stun.l.google.com:19302".to_owned());
        r.push("stun1.l.google.com:19302".to_owned());
        r.push("stun2.l.google.com:19302".to_owned());
        r.push("stun3.l.google.com:19302".to_owned());
        r.push("stun4.l.google.com:19302".to_owned());
        r.push("stun.nextcloud.com:443".to_owned());
    }
    proof {
        if bind_v4 {
            assert(string_views(r@) =~= default_servers_v4());
        } else {
            assert(string_views(r@) =~= default_servers_v6());
        }
    }
    r
}

/// The STUN servers to ask (see `spec_stun_servers`), given the value of
/// the server setting, if it is set, and the socket's address family.
pub fn stun_servers_for(env: Option<String>, bind_v4: bool) -> (r: Vec<String>)
    ensures
        string_views(r@) == spec_stun_servers(
            match env {
                Some(s) => Some(s@),
                None => None,
            },
            bind_v4,
        ),
{
    match env {
        None => default_list(bind_v4),
        Some(s) => {
            let v = chars_of(s.as_str());
            if turns_off_exec(&v) {
                let r: Vec<String> = Vec::new();
                proof {
                    assert(string_views(r@) =~= Seq::<Seq<char>>::empty());
                }
                r
            } else {
                let l = listed_servers_exec(&v);
                if l.len() > 0 {
                    l
                } else {
                    default_list(bind_v4)
                }
            }
        },
    }
}

/// Whether to trace the STUN exchange: whenever the trace setting is set,
/// whatever its value.
pub fn stun_trace_on(env: Option<String>) -> (b: bool)
    ensures
        b == env is Some,
{
    env.is_some()
}

} // verus!
