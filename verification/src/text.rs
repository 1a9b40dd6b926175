//! Character-level string helpers and `trim_to`.

use crate::grammar::{trim_bounds_exec, trimmed};
use vstd::prelude::*;
use vstd::utf8::*;

verus! {

/// Appends one character to a `String` (std's `String::push`).
#[verifier::external_body]
pub(crate) fn push_char(s: &mut String, c: char)
    ensures
        final(s)@ == old(s)@.push(c),
{
    s.push(c)
}

/// Shortens a `String` to `new_len` bytes (std's `String::truncate`); the cut
/// must fall on a character boundary, as std panics otherwise.
#[verifier::external_body]
fn truncate_bytes(s: &mut String, new_len: usize)
    requires
        is_char_boundary(encode_utf8(old(s)@), new_len as int),
        new_len <= encode_utf8(old(s)@).len(),
    ensures
        encode_utf8(final(s)@) == encode_utf8(old(s)@).subrange(0, new_len as int),
{
    s.truncate(new_len)
}

/// The characters of `s`, collected into a vector.
pub fn chars_of(s: &str) -> (v: Vec<char>)
    ensures
        v@ == s@,
{
    let n = s.unicode_len();
    let mut v: Vec<char> = Vec::new();
    let mut i: usize = 0;
    while i < n
        invariant
            n == s@.len(),
            i <= n,
            v@ == s@.subrange(0, i as int),
        decreases n - i,
    {
        v.push(s.get_char(i));
        i = i + 1;
    }
    assert(v@ =~= s@);
    v
}

/// Whether two strings hold the same characters.
pub fn str_eq(a: &str, b: &str) -> (r: bool)
    ensures
        r == (a@ == b@),
{
    let n = a.unicode_len();
    if n != b.unicode_len() {
        return false;
    }
    let mut i: usize = 0;
    while i < n
        invariant
            n == a@.len(),
            n == b@.len(),
            i <= n,
            forall|j: int| 0 <= j < i ==> a@[j] == b@[j],
        decreases n - i,
    {
        if a.get_char(i) != b.get_char(i) {
            return false;
        }
        i = i + 1;
    }
    assert(a@ =~= b@);
    true
}

/// `s` without leading and trailing whitespace, as `str::trim` gives it.
pub fn trim_str(s: &str) -> (r: &str)
    ensures
        r@ == trimmed(s@),
{
    let v = chars_of(s);
    let (a, e) = trim_bounds_exec(&v);
    s.substring_char(a, e)
}

/// The bytes `trim_to` produces from the UTF-8 bytes of its input: when the
/// text is longer than `max_length - 3` bytes it is cut to that many bytes
/// and `...` is appended.
pub open spec fn trim_to_bytes(bytes: Seq<u8>, max_length: int) -> Seq<u8> {
    if bytes.len() > max_length - 3 {
        bytes.subrange(0, max_length - 3) + seq![46u8, 46u8, 46u8]
    } else {
        bytes
    }
}

/// Whether `trim_to` can cut `text` without splitting a character.
pub open spec fn trim_to_allowed(text: Seq<char>, max_length: int) -> bool {
    &&& trim_cut_ok(text, max_length)
    &&& encode_utf8(text).len() <= usize::MAX
}

/// Whether the cut that trimming `text` to `max_length` bytes makes falls
/// between two characters (or no cut is made).
pub open spec fn trim_cut_ok(text: Seq<char>, max_length: int) -> bool {
    &&& max_length >= 3
    &&& encode_utf8(text).len() > max_length - 3 ==> is_char_boundary(
        encode_utf8(text),
        max_length - 3,
    )
}

/// Cuts `text` to at most `max_length` bytes, marking a cut with `...`.
pub fn trim_to(text: String, max_length: usize) -> (r: String)
    requires
        trim_to_allowed(text@, max_length as int),
    ensures
        encode_utf8(r@) == trim_to_bytes(encode_utf8(text@), max_length as int),
{
    let mut out = text;
    if out.as_str().len() > max_length - 3 {
        truncate_bytes(&mut out, max_length - 3);
        let ghost cut = out@;
        out.append("...");
        proof {
            lemma_encode_utf8_concat(cut, "..."@);
            lemma_encode_dots();
        }
    }
    out
}

/// Trimming is idempotent: a text that `trim_to` produced can be trimmed again
/// to the same length, and doing so changes nothing.
pub proof fn law_trim_to_idempotent(text: Seq<char>, trimmed: Seq<char>, max_length: usize)
    requires
        trim_cut_ok(text, max_length as int),
        encode_utf8(trimmed) == trim_to_bytes(encode_utf8(text), max_length as int),
    ensures
        trim_cut_ok(trimmed, max_length as int),
        trim_to_allowed(trimmed, max_length as int),
        trim_to_bytes(encode_utf8(trimmed), max_length as int) == encode_utf8(trimmed),
{
    let b = encode_utf8(text);
    let t = encode_utf8(trimmed);
    let n = max_length - 3;
    if b.len() > n {
        assert(t.len() == max_length);
        assert(t.subrange(0, n as int) =~= b.subrange(0, n as int));
        assert(t =~= t.subrange(0, n as int) + seq![46u8, 46u8, 46u8]);
        encode_utf8_valid_utf8(trimmed);
        assert(t[n as int] == 46u8);
        is_char_boundary_iff_not_is_continuation_byte(t, n as int);
    }
}

/// A trimmed text never takes more than `max_length` bytes, and a text
/// that fits is left as it is.
pub proof fn law_trim_to_bounded(text: Seq<char>, trimmed: Seq<char>, max_length: usize)
    requires
        trim_cut_ok(text, max_length as int),
        encode_utf8(trimmed) == trim_to_bytes(encode_utf8(text), max_length as int),
    ensures
        encode_utf8(trimmed).len() <= max_length,
        encode_utf8(text).len() <= max_length - 3 ==> trimmed == text,
{
    if encode_utf8(text).len() <= max_length - 3 {
        encode_utf8_decode_utf8(trimmed);
        encode_utf8_decode_utf8(text);
    }
}

/// A character below 128 is encoded as the single byte of its value.
proof fn lemma_encode_ascii_char(c: char)
    requires
        (c as u32) < 128,
    ensures
        encode_scalar(c as u32) == seq![c as u32 as u8],
{
    let v = c as u32;
    assert(v & 0x7F == v) by (bit_vector)
        requires
            v < 128,
    ;
}

/// The encoding of `"..."` is three `.` bytes.
proof fn lemma_encode_dots()
    ensures
        encode_utf8("..."@) == seq![46u8, 46u8, 46u8],
{
    reveal_strlit("...");
    let d = "..."@;
    assert(d =~= seq!['.', '.', '.']);
    lemma_encode_ascii_char('.');
    assert(d.drop_first() =~= seq!['.', '.']);
    assert(d.drop_first().drop_first() =~= seq!['.']);
    assert(d.drop_first().drop_first().drop_first() =~= Seq::<char>::empty());
    reveal_with_fuel(encode_utf8, 4);
    assert(encode_utf8(d) =~= seq![46u8, 46u8, 46u8]);
}

/// UTF-8 encoding distributes over concatenation.
pub proof fn lemma_encode_utf8_concat(a: Seq<char>, b: Seq<char>)
    ensures
        encode_utf8(a + b) == encode_utf8(a) + encode_utf8(b),
    decreases a.len(),
{
    if a.len() == 0 {
        assert(a + b =~= b);
    } else {
        lemma_encode_utf8_concat(a.drop_first(), b);
        assert((a + b).drop_first() =~= a.drop_first() + b);
    }
}

} // verus!
