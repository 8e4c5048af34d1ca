//! Decimal rendering of integers and whitespace trimming.

use vstd::prelude::*;

verus! {

/// The character of a decimal digit `d` in `0..10`.
pub open spec fn digit_char(d: nat) -> char {
    seq!['0', '1', '2', '3', '4', '5', '6', '7', '8', '9'][d as int]
}

/// The decimal digits of `n`, most significant first, without leading zeros.
pub open spec fn digits_of(n: nat) -> Seq<char>
    decreases n,
{
    if n < 10 {
        seq![digit_char(n)]
    } else {
        digits_of(n / 10).push(digit_char(n % 10))
    }
}

/// The decimal text of `n`, with a leading `-` when it is negative.
pub open spec fn decimal_of(n: int) -> Seq<char> {
    if n < 0 {
        seq!['-'] + digits_of((-n) as nat)
    } else {
        digits_of(n as nat)
    }
}

/// Relies on `i64`'s `Display` (through `to_string`): decimal digits without
/// leading zeros, preceded by `-` for a negative value.
#[verifier::external_body]
pub(crate) fn int_text(n: i64) -> (r: String)
    ensures
        r@ == decimal_of(n as int),
{
    n.to_string()
}

/// The characters that carry the Unicode `White_Space` property.
pub open spec fn is_white_space(c: char) -> bool {
    ('\u{9}' <= c && c <= '\u{d}') || c == ' ' || c == '\u{85}' || c == '\u{a0}'
        || c == '\u{1680}' || ('\u{2000}' <= c && c <= '\u{200a}') || c == '\u{2028}'
        || c == '\u{2029}' || c == '\u{202f}' || c == '\u{205f}' || c == '\u{3000}'
}

/// `s` without its leading white space.
pub open spec fn trim_start_of(s: Seq<char>) -> Seq<char>
    decreases s.len(),
{
    if s.len() > 0 && is_white_space(s[0]) {
        trim_start_of(s.drop_first())
    } else {
        s
    }
}

/// `s` without its trailing white space.
pub open spec fn trim_end_of(s: Seq<char>) -> Seq<char>
    decreases s.len(),
{
    if s.len() > 0 && is_white_space(s.last()) {
        trim_end_of(s.drop_last())
    } else {
        s
    }
}

/// `s` without leading and trailing white space.
pub open spec fn trimmed(s: Seq<char>) -> Seq<char> {
    trim_end_of(trim_start_of(s))
}

/// Every character of `s` is white space.
pub open spec fn all_white(s: Seq<char>) -> bool {
    forall|i: int| 0 <= i < s.len() ==> is_white_space(#[trigger] s[i])
}

/// `s` neither starts nor ends with white space.
pub open spec fn tight(s: Seq<char>) -> bool {
    s.len() > 0 ==> !is_white_space(s[0]) && !is_white_space(s.last())
}

/// Whether `c` carries the Unicode `White_Space` property.
pub fn white_space(c: char) -> (r: bool)
    ensures
        r == is_white_space(c),
{
    ('\u{9}' <= c && c <= '\u{d}') || c == ' ' || c == '\u{85}' || c == '\u{a0}' || c == '\u{1680}'
        || ('\u{2000}' <= c && c <= '\u{200a}') || c == '\u{2028}' || c == '\u{2029}' || c
        == '\u{202f}' || c == '\u{205f}' || c == '\u{3000}'
}

proof fn lemma_trim_start_skip(s: Seq<char>, a: int)
    requires
        0 <= a <= s.len(),
        forall|k: int| 0 <= k < a ==> is_white_space(#[trigger] s[k]),
    ensures
        trim_start_of(s) == trim_start_of(s.skip(a)),
    decreases a,
{
    if a > 0 {
        assert(is_white_space(s[0]));
        let t = s.drop_first();
        assert forall|k: int| 0 <= k < a - 1 implies is_white_space(#[trigger] t[k]) by {
            assert(t[k] == s[k + 1]);
        }
        lemma_trim_start_skip(t, a - 1);
        assert(t.skip(a - 1) =~= s.skip(a));
    } else {
        assert(s.skip(0) =~= s);
    }
}

proof fn lemma_trim_end_take(s: Seq<char>, b: int)
    requires
        0 <= b <= s.len(),
        forall|k: int| b <= k < s.len() ==> is_white_space(#[trigger] s[k]),
    ensures
        trim_end_of(s) == trim_end_of(s.take(b)),
    decreases s.len() - b,
{
    if b < s.len() {
        assert(is_white_space(s.last()));
        let t = s.drop_last();
        assert forall|k: int| b <= k < t.len() implies is_white_space(#[trigger] t[k]) by {
            assert(t[k] == s[k]);
        }
        lemma_trim_end_take(t, b);
        assert(t.take(b) =~= s.take(b));
    } else {
        assert(s.take(b) =~= s);
    }
}

/// `s` without leading and trailing white space.
pub fn trim_text(s: &str) -> (r: String)
    ensures
        r@ == trimmed(s@),
{
    let n = s.unicode_len();
    let mut a: usize = 0;
    while a < n && white_space(s.get_char(a))
        invariant
            n == s@.len(),
            a <= n,
            forall|k: int| 0 <= k < a ==> is_white_space(#[trigger] s@[k]),
        decreases n - a,
    {
        a = a + 1;
    }
    let mut b: usize = n;
    while b > a && white_space(s.get_char(b - 1))
        invariant
            n == s@.len(),
            a <= b <= n,
            forall|k: int| b <= k < n ==> is_white_space(#[trigger] s@[k]),
        decreases b - a,
    {
        b = b - 1;
    }
    let kept = s.substring_char(a, b);
    proof {
        let x = s@;
        lemma_trim_start_skip(x, a as int);
        let rest = x.skip(a as int);
        if a < n {
            assert(!is_white_space(x[a as int]));
            assert(rest[0] == x[a as int]);
            assert(trim_start_of(rest) == rest);
        } else {
            assert(rest.len() == 0);
        }
        let m = (b - a) as int;
        assert forall|k: int| m <= k < rest.len() implies is_white_space(#[trigger] rest[k]) by {
            assert(rest[k] == x[k + a]);
        }
        lemma_trim_end_take(rest, m);
        let core = rest.take(m);
        assert(core =~= x.subrange(a as int, b as int));
        if b > a {
            assert(!is_white_space(x[b - 1]));
            assert(core.last() == x[b - 1]);
            assert(trim_end_of(core) == core);
        } else {
            assert(core.len() == 0);
        }
    }
    String::from_str(kept)
}

proof fn lemma_trim_end_pad(k: Seq<char>, q: Seq<char>)
    requires
        all_white(q),
        tight(k),
    ensures
        trim_end_of(k + q) == k,
    decreases q.len(),
{
    if q.len() == 0 {
        assert(k + q == k);
    } else {
        assert((k + q).last() == q.last());
        assert((k + q).drop_last() == k + q.drop_last());
        lemma_trim_end_pad(k, q.drop_last());
    }
}

proof fn lemma_trim_start_all_white(q: Seq<char>)
    requires
        all_white(q),
    ensures
        trim_start_of(q).len() == 0,
    decreases q.len(),
{
    if q.len() > 0 {
        lemma_trim_start_all_white(q.drop_first());
    }
}

/// Trimming removes exactly the white space padded around a value that
/// neither starts nor ends with white space.
pub proof fn lemma_trim_padded(p: Seq<char>, k: Seq<char>, q: Seq<char>)
    requires
        all_white(p),
        all_white(q),
        tight(k),
    ensures
        trimmed(p + k + q) == k,
{
    if k.len() == 0 {
        assert(p + k + q == p + q);
        assert(all_white(p + q));
        lemma_trim_start_all_white(p + q);
        assert(trim_start_of(p + q).len() == 0);
        assert(trim_start_of(p + q) == k);
    } else {
        assert(p + k + q == p + (k + q));
        assert((k + q)[0] == k[0]);
        lemma_trim_start_pad_general(p, k + q);
        lemma_trim_end_pad(k, q);
    }
}

proof fn lemma_trim_start_pad_general(p: Seq<char>, r: Seq<char>)
    requires
        all_white(p),
        r.len() > 0,
        !is_white_space(r[0]),
    ensures
        trim_start_of(p + r) == r,
    decreases p.len(),
{
    if p.len() == 0 {
        assert(p + r == r);
    } else {
        assert((p + r)[0] == p[0]);
        assert((p + r).drop_first() == p.drop_first() + r);
        lemma_trim_start_pad_general(p.drop_first(), r);
    }
}

} // verus!
