//! Key/value pairs of a request and their `application/x-www-form-urlencoded`
//! encoding, with nested fields written in bracket notation (`card[number]`).

use crate::text::{decimal_of, int_text};
use vstd::prelude::*;

verus! {

/// One key/value pair of a form or a query string.
pub type FormPair = (String, String);

/// The pairs as sequences of characters.
pub open spec fn pairs_view(pairs: Seq<FormPair>) -> Seq<(Seq<char>, Seq<char>)> {
    pairs.map_values(|p: FormPair| (p.0@, p.1@))
}

/// What `serde_urlencoded` makes of a sequence of string pairs.
pub uninterp spec fn form_urlencoded_of(pairs: Seq<(Seq<char>, Seq<char>)>) -> Seq<char>;

/// A character that form encoding keeps as it is.
pub open spec fn form_unreserved(c: char) -> bool {
    c == '*' || c == '-' || c == '.' || c == '_' || ('0' <= c && c <= '9') || ('A' <= c && c <= 'Z')
        || ('a' <= c && c <= 'z')
}

/// The upper-case hexadecimal digit of `d` in `0..16`.
pub open spec fn hex_upper(d: nat) -> char {
    seq!['0', '1', '2', '3', '4', '5', '6', '7', '8', '9', 'A', 'B', 'C', 'D', 'E', 'F'][d as int]
}

/// The form encoding of one ASCII character: kept, `+` for a space, `%XX`
/// otherwise.
pub open spec fn form_char(c: char) -> Seq<char> {
    if form_unreserved(c) {
        seq![c]
    } else if c == ' ' {
        seq!['+']
    } else {
        seq!['%', hex_upper((c as u32 / 16) as nat), hex_upper((c as u32 % 16) as nat)]
    }
}

/// The form encoding of an ASCII text, character by character.
pub open spec fn form_text(s: Seq<char>) -> Seq<char>
    decreases s.len(),
{
    if s.len() == 0 {
        Seq::empty()
    } else {
        form_text(s.drop_last()) + form_char(s.last())
    }
}

/// `key=value`, both sides encoded.
pub open spec fn form_pair_text(p: (Seq<char>, Seq<char>)) -> Seq<char> {
    form_text(p.0) + "="@ + form_text(p.1)
}

/// The encoded pairs joined by `&`.
pub open spec fn form_of_ascii(pairs: Seq<(Seq<char>, Seq<char>)>) -> Seq<char>
    decreases pairs.len(),
{
    if pairs.len() == 0 {
        Seq::empty()
    } else if pairs.len() == 1 {
        form_pair_text(pairs[0])
    } else {
        form_of_ascii(pairs.drop_last()) + "&"@ + form_pair_text(pairs.last())
    }
}

/// Every character of the text is ASCII.
pub open spec fn ascii_text(s: Seq<char>) -> bool {
    forall|j: int| 0 <= j < s.len() ==> (#[trigger] s[j] as u32) < 128
}

/// Every key and value is ASCII.
pub open spec fn ascii_pairs(pairs: Seq<(Seq<char>, Seq<char>)>) -> bool {
    forall|i: int| 0 <= i < pairs.len() ==> ascii_text(#[trigger] pairs[i].0) && ascii_text(pairs[i].1)
}

/// Relies on `serde_urlencoded::to_string` applied to a slice of string
/// pairs: `key=value` items joined by `&`, each side percent-encoded by
/// `form_urlencoded` (bytes `*-._`, digits and letters kept, a space as `+`,
/// any other byte as `%XX` in upper case). Every step of its serializer
/// succeeds on string pairs.
#[verifier::external_body]
pub(crate) fn urlencode_pairs(pairs: &Vec<FormPair>) -> (r: Option<String>)
    ensures
        r is Some,
        r matches Some(s) ==> s@ == form_urlencoded_of(pairs_view(pairs@)),
        r matches Some(s) ==> (ascii_pairs(pairs_view(pairs@)) ==> s@ == form_of_ascii(
            pairs_view(pairs@),
        )),
{
    serde_urlencoded::to_string(pairs.as_slice()).ok()
}

/// `outer[inner]`: the key of a field nested under `outer`.
pub open spec fn bracket_key(outer: Seq<char>, inner: Seq<char>) -> Seq<char> {
    outer + "["@ + inner + "]"@
}

/// The text form of a boolean value.
pub open spec fn bool_text(b: bool) -> Seq<char> {
    if b {
        "true"@
    } else {
        "false"@
    }
}

/// The pair for an optional text field: none when the field is unset.
pub open spec fn text_field(key: Seq<char>, value: Option<String>) -> Seq<(Seq<char>, Seq<char>)> {
    match value {
        Some(v) => seq![(key, v@)],
        None => Seq::empty(),
    }
}

/// The pair for an optional integer field: none when the field is unset.
pub open spec fn int_field(key: Seq<char>, value: Option<i64>) -> Seq<(Seq<char>, Seq<char>)> {
    match value {
        Some(v) => seq![(key, decimal_of(v as int))],
        None => Seq::empty(),
    }
}

/// The pair for an optional boolean field: none when the field is unset.
pub open spec fn bool_field(key: Seq<char>, value: Option<bool>) -> Seq<(Seq<char>, Seq<char>)> {
    match value {
        Some(v) => seq![(key, bool_text(v))],
        None => Seq::empty(),
    }
}

proof fn lemma_push_view(pairs: Seq<FormPair>, p: FormPair)
    ensures
        pairs_view(pairs.push(p)) == pairs_view(pairs) + seq![(p.0@, p.1@)],
{
    assert(pairs_view(pairs.push(p)) =~= pairs_view(pairs) + seq![(p.0@, p.1@)]);
}

/// Appends one pair.
pub fn push_pair(pairs: &mut Vec<FormPair>, key: String, value: String)
    ensures
        pairs_view(final(pairs)@) == pairs_view(old(pairs)@) + seq![(key@, value@)],
{
    let ghost before = pairs@;
    pairs.push((key, value));
    proof {
        lemma_push_view(before, (key, value));
    }
}

/// Appends the pair of an optional text field.
pub fn push_text(pairs: &mut Vec<FormPair>, key: &str, value: &Option<String>)
    ensures
        pairs_view(final(pairs)@) == pairs_view(old(pairs)@) + text_field(key@, *value),
{
    match value {
        Some(v) => {
            push_pair(pairs, String::from_str(key), v.clone());
        },
        None => {
            assert(pairs_view(old(pairs)@) + text_field(key@, *value) =~= pairs_view(old(pairs)@));
        },
    }
}

/// Appends the pair of an optional integer field.
pub fn push_int(pairs: &mut Vec<FormPair>, key: &str, value: Option<i64>)
    ensures
        pairs_view(final(pairs)@) == pairs_view(old(pairs)@) + int_field(key@, value),
{
    match value {
        Some(v) => {
            push_pair(pairs, String::from_str(key), int_text(v));
        },
        None => {
            assert(pairs_view(old(pairs)@) + int_field(key@, value) =~= pairs_view(old(pairs)@));
        },
    }
}

/// Appends the pair of an optional boolean field.
pub fn push_bool(pairs: &mut Vec<FormPair>, key: &str, value: Option<bool>)
    ensures
        pairs_view(final(pairs)@) == pairs_view(old(pairs)@) + bool_field(key@, value),
{
    match value {
        Some(v) => {
            let text = if v {
                String::from_str("true")
            } else {
                String::from_str("false")
            };
            push_pair(pairs, String::from_str(key), text);
        },
        None => {
            assert(pairs_view(old(pairs)@) + bool_field(key@, value) =~= pairs_view(old(pairs)@));
        },
    }
}

/// A 32-bit optional integer widened to 64 bits.
pub open spec fn widen(v: Option<i32>) -> Option<i64> {
    match v {
        Some(x) => Some(x as i64),
        None => None,
    }
}

/// Widens an optional 32-bit integer to 64 bits.
pub fn widen_i32(v: Option<i32>) -> (r: Option<i64>)
    ensures
        r == widen(v),
{
    match v {
        Some(x) => Some(x as i64),
        None => None,
    }
}

/// The key `outer[inner]` of a nested field.
pub fn nested_key(outer: &str, inner: &str) -> (r: String)
    ensures
        r@ == bracket_key(outer@, inner@),
{
    let mut k = String::from_str(outer);
    k.append("[");
    k.append(inner);
    k.append("]");
    k
}

/// Appends pairs in order.
pub fn append_pairs(pairs: &mut Vec<FormPair>, more: Vec<FormPair>)
    ensures
        pairs_view(final(pairs)@) == pairs_view(old(pairs)@) + pairs_view(more@),
{
    let ghost before = pairs@;
    let mut rest = more;
    pairs.append(&mut rest);
    assert(pairs_view(pairs@) =~= pairs_view(before) + pairs_view(more@));
}

/// Encoding a concatenation encodes each part.
pub proof fn lemma_form_text_concat(a: Seq<char>, b: Seq<char>)
    ensures
        form_text(a + b) == form_text(a) + form_text(b),
    decreases b.len(),
{
    if b.len() == 0 {
        assert(a + b == a);
        assert(form_text(a) + form_text(b) == form_text(a));
    } else {
        assert((a + b).drop_last() == a + b.drop_last());
        assert((a + b).last() == b.last());
        lemma_form_text_concat(a, b.drop_last());
        assert(form_text(a + b) == form_text(a) + form_text(b.drop_last()) + form_char(b.last()));
    }
}

/// A text of characters that are kept encodes to itself.
pub proof fn lemma_form_text_unreserved(s: Seq<char>)
    requires
        forall|j: int| 0 <= j < s.len() ==> form_unreserved(#[trigger] s[j]),
    ensures
        form_text(s) == s,
    decreases s.len(),
{
    if s.len() > 0 {
        lemma_form_text_unreserved(s.drop_last());
        assert(form_unreserved(s[s.len() - 1]));
        assert(s.drop_last().push(s.last()) == s);
    }
}

/// The encoded form starts with the encoding of its first pair.
pub proof fn lemma_form_of_ascii_first(pairs: Seq<(Seq<char>, Seq<char>)>)
    requires
        pairs.len() >= 1,
    ensures
        form_of_ascii(pairs).len() >= form_pair_text(pairs[0]).len(),
        form_of_ascii(pairs).subrange(0, form_pair_text(pairs[0]).len() as int) == form_pair_text(
            pairs[0],
        ),
    decreases pairs.len(),
{
    if pairs.len() > 1 {
        let init = pairs.drop_last();
        lemma_form_of_ascii_first(init);
        assert(init[0] == pairs[0]);
        let k = form_pair_text(pairs[0]).len() as int;
        let whole = form_of_ascii(init) + "&"@ + form_pair_text(pairs.last());
        assert(whole.subrange(0, k) =~= form_of_ascii(init).subrange(0, k));
    } else {
        assert(form_of_ascii(pairs).subrange(0, form_pair_text(pairs[0]).len() as int)
            =~= form_pair_text(pairs[0]));
    }
}

} // verus!
