//! Building blocks of the input grammars: literals, character runs, word
//! boundaries and whitespace trimming, each as a spec and a scanner.

use crate::chars::{decimal_digit, is_decimal_digit, is_white_space, is_word_char, white_space, word_char};
use vstd::prelude::*;

verus! {

/// The character classes that occur in the bot's input grammars.
#[derive(Clone, Copy, PartialEq, Eq, Structural)]
pub enum CharClass {
    /// `\d`
    Digit,
    /// `[\w_]`
    Word,
    /// `[\w_!]`
    WordOrBang,
    /// `[\w_-]`
    WordOrDash,
    /// `[a-zA-Zµ]`, the letters of a humantime unit
    UnitLetter,
    /// `[A-Za-z0-9]`
    AsciiAlnum,
    /// `[-_A-Za-z(!?&)$+:0-9]`, the characters of an emote alias
    AliasChar,
    /// `[a-f0-9]`
    LowerHex,
    /// `[0-9A-HJKMNP-TV-Z]`, upper-case Crockford base 32
    Crockford,
    /// `[^ ]`
    NotSpace,
    /// `[^\n]`
    NotNewline,
    /// `[^;]`
    NotSemicolon,
    /// `[^)]`
    NotCloseParen,
    /// Unicode `White_Space`
    WhiteSpace,
}

/// Whether `c` belongs to class `k`.
pub open spec fn in_class(c: char, k: CharClass) -> bool {
    match k {
        CharClass::Digit => decimal_digit(c),
        CharClass::Word => word_char(c) || c == '_',
        CharClass::WordOrBang => word_char(c) || c == '_' || c == '!',
        CharClass::WordOrDash => word_char(c) || c == '_' || c == '-',
        CharClass::UnitLetter => 'a' <= c <= 'z' || 'A' <= c <= 'Z' || c == 'µ',
        CharClass::AsciiAlnum => 'A' <= c <= 'Z' || 'a' <= c <= 'z' || '0' <= c <= '9',
        CharClass::AliasChar => {
            ||| c == '-'
            ||| c == '_'
            ||| 'A' <= c <= 'Z'
            ||| 'a' <= c <= 'z'
            ||| c == '('
            ||| c == '!'
            ||| c == '?'
            ||| c == '&'
            ||| c == ')'
            ||| c == '$'
            ||| c == '+'
            ||| c == ':'
            ||| '0' <= c <= '9'
        },
        CharClass::LowerHex => 'a' <= c <= 'f' || '0' <= c <= '9',
        CharClass::Crockford => {
            ||| '0' <= c <= '9'
            ||| 'A' <= c <= 'H'
            ||| c == 'J'
            ||| c == 'K'
            ||| c == 'M'
            ||| c == 'N'
            ||| 'P' <= c <= 'T'
            ||| 'V' <= c <= 'Z'
        },
        CharClass::NotSpace => c != ' ',
        CharClass::NotNewline => c != '\n',
        CharClass::NotSemicolon => c != ';',
        CharClass::NotCloseParen => c != ')',
        CharClass::WhiteSpace => white_space(c),
    }
}

/// Decides `in_class`.
pub fn in_class_exec(c: char, k: CharClass) -> (r: bool)
    ensures
        r == in_class(c, k),
{
    match k {
        CharClass::Digit => is_decimal_digit(c),
        CharClass::Word => is_word_char(c) || c == '_',
        CharClass::WordOrBang => is_word_char(c) || c == '_' || c == '!',
        CharClass::WordOrDash => is_word_char(c) || c == '_' || c == '-',
        CharClass::UnitLetter => ('a' <= c && c <= 'z') || ('A' <= c && c <= 'Z') || c == 'µ',
        CharClass::AsciiAlnum => ('A' <= c && c <= 'Z') || ('a' <= c && c <= 'z') || ('0' <= c
            && c <= '9'),
        CharClass::AliasChar => c == '-' || c == '_' || ('A' <= c && c <= 'Z') || ('a' <= c && c
            <= 'z') || c == '(' || c == '!' || c == '?' || c == '&' || c == ')' || c == '$' || c
            == '+' || c == ':' || ('0' <= c && c <= '9'),
        CharClass::LowerHex => ('a' <= c && c <= 'f') || ('0' <= c && c <= '9'),
        CharClass::Crockford => ('0' <= c && c <= '9') || ('A' <= c && c <= 'H') || c == 'J' || c
            == 'K' || c == 'M' || c == 'N' || ('P' <= c && c <= 'T') || ('V' <= c && c <= 'Z'),
        CharClass::NotSpace => c != ' ',
        CharClass::NotNewline => c != '\n',
        CharClass::NotSemicolon => c != ';',
        CharClass::NotCloseParen => c != ')',
        CharClass::WhiteSpace => is_white_space(c),
    }
}

/// The length of the longest run of class-`k` characters starting at `p`.
pub open spec fn run_len(s: Seq<char>, p: int, k: CharClass) -> nat
    decreases s.len() - p,
{
    if 0 <= p < s.len() && in_class(s[p], k) {
        1 + run_len(s, p + 1, k)
    } else {
        0
    }
}

/// A run never reaches past the end of the text.
pub proof fn lemma_run_len_bound(s: Seq<char>, p: int, k: CharClass)
    requires
        0 <= p <= s.len(),
    ensures
        p + run_len(s, p, k) <= s.len(),
        forall|j: int| p <= j < p + run_len(s, p, k) ==> in_class(#[trigger] s[j], k),
        p + run_len(s, p, k) < s.len() ==> !in_class(s[p + run_len(s, p, k)], k),
    decreases s.len() - p,
{
    if p < s.len() && in_class(s[p], k) {
        lemma_run_len_bound(s, p + 1, k);
    }
}

/// If the `n` characters from `p` are all of class `k`, the run is at least
/// that long.
pub proof fn lemma_run_len_at_least(s: Seq<char>, p: int, n: int, k: CharClass)
    requires
        0 <= p,
        0 <= n,
        p + n <= s.len(),
        forall|j: int| p <= j < p + n ==> in_class(#[trigger] s[j], k),
    ensures
        run_len(s, p, k) >= n,
    decreases n,
{
    if n > 0 {
        lemma_run_len_at_least(s, p + 1, n - 1, k);
    }
}

/// A run of class-`k` characters of length `n` that ends the text or is
/// followed by a character outside the class has exactly that length.
pub proof fn lemma_run_exact(s: Seq<char>, p: int, n: int, k: CharClass)
    requires
        0 <= p,
        0 <= n,
        p + n <= s.len(),
        forall|j: int| p <= j < p + n ==> in_class(#[trigger] s[j], k),
        p + n == s.len() || !in_class(s[p + n], k),
    ensures
        run_len(s, p, k) == n,
    decreases n,
{
    if n > 0 {
        lemma_run_exact(s, p + 1, n - 1, k);
    }
}

/// A run of class-`k` characters starting at `p` ends at the latest at a
/// character outside the class.
pub proof fn lemma_run_stops(s: Seq<char>, p: int, q: int, k: CharClass)
    requires
        0 <= p <= q < s.len(),
        !in_class(s[q], k),
    ensures
        run_len(s, p, k) <= q - p,
    decreases q - p,
{
    if p < q && in_class(s[p], k) {
        lemma_run_stops(s, p + 1, q, k);
    }
}

/// Measures `run_len`.
pub fn run_len_exec(s: &Vec<char>, p: usize, k: CharClass) -> (r: usize)
    requires
        p <= s@.len(),
    ensures
        r == run_len(s@, p as int, k),
        p + r <= s.len(),
{
    let mut i = p;
    while i < s.len() && in_class_exec(s[i], k)
        invariant
            p <= i <= s@.len(),
            run_len(s@, p as int, k) == (i - p) + run_len(s@, i as int, k),
        decreases s@.len() - i,
    {
        i = i + 1;
    }
    i - p
}

/// Whether the literal `l` occurs in `s` at position `p`.
pub open spec fn lit_at(s: Seq<char>, p: int, l: Seq<char>) -> bool {
    &&& 0 <= p
    &&& p + l.len() <= s.len()
    &&& s.subrange(p, p + l.len()) == l
}

/// Decides `lit_at`.
pub fn lit_at_exec(s: &Vec<char>, p: usize, l: &str) -> (r: bool)
    ensures
        r == lit_at(s@, p as int, l@),
{
    let n = l.unicode_len();
    if p > s.len() || n > s.len() - p {
        return false;
    }
    let mut i: usize = 0;
    while i < n
        invariant
            n == l@.len(),
            p + n <= s.len(),
            i <= n,
            forall|j: int| 0 <= j < i ==> s@[p + j] == l@[j],
        decreases n - i,
    {
        if s[p + i] != l.get_char(i) {
            assert(s@.subrange(p as int, p + n)[i as int] != l@[i as int]);
            return false;
        }
        i = i + 1;
    }
    assert(s@.subrange(p as int, p + n) =~= l@);
    true
}

/// Matches the literal `l` at `p`, giving the position after it.
pub fn match_lit(s: &Vec<char>, p: usize, l: &str) -> (r: Option<usize>)
    ensures
        r is Some <==> lit_at(s@, p as int, l@),
        r matches Some(q) ==> q == p + l@.len() && q <= s.len(),
{
    let len = s.len();
    if lit_at_exec(s, p, l) {
        Some(p + l.unicode_len())
    } else {
        None
    }
}

/// A position as a mathematical integer.
pub open spec fn opt_int(o: Option<usize>) -> Option<int> {
    match o {
        Some(v) => Some(v as int),
        None => None,
    }
}

/// A span (start, length) as mathematical integers.
pub open spec fn opt_span(o: Option<(usize, usize)>) -> Option<(int, int)> {
    match o {
        Some(v) => Some((v.0 as int, v.1 as int)),
        None => None,
    }
}

/// The end of the text or a space follows at `q`.
pub open spec fn end_or_space(s: Seq<char>, q: int) -> bool {
    q == s.len() || (0 <= q < s.len() && s[q] == ' ')
}

/// Decides `end_or_space`.
pub fn end_or_space_exec(s: &Vec<char>, q: usize) -> (r: bool)
    ensures
        r == end_or_space(s@, q as int),
{
    q == s.len() || (q < s.len() && s[q] == ' ')
}

/// A word character ends just before `q`.
pub open spec fn word_before(s: Seq<char>, q: int) -> bool {
    0 < q <= s.len() && word_char(s[q - 1])
}

/// A word character starts at `q`.
pub open spec fn word_after(s: Seq<char>, q: int) -> bool {
    0 <= q < s.len() && word_char(s[q])
}

/// `\b`: a word character on exactly one side of `q`.
pub open spec fn word_boundary(s: Seq<char>, q: int) -> bool {
    word_before(s, q) != word_after(s, q)
}

/// Decides `word_boundary`.
pub fn word_boundary_exec(s: &Vec<char>, q: usize) -> (r: bool)
    requires
        q <= s@.len(),
    ensures
        r == word_boundary(s@, q as int),
{
    let before = q > 0 && is_word_char(s[q - 1]);
    let after = q < s.len() && is_word_char(s[q]);
    before != after
}

/// The number of whitespace characters that end the first `e` characters.
pub open spec fn trailing_ws(s: Seq<char>, e: int) -> nat
    decreases e,
{
    if 0 < e <= s.len() && white_space(s[e - 1]) {
        1 + trailing_ws(s, e - 1)
    } else {
        0
    }
}

/// Where the text without leading and trailing whitespace starts and ends.
pub open spec fn trim_bounds(s: Seq<char>) -> (int, int) {
    let a = run_len(s, 0, CharClass::WhiteSpace) as int;
    if a == s.len() {
        (a, a)
    } else {
        (a, s.len() - trailing_ws(s, s.len() as int))
    }
}

/// `s` without leading and trailing whitespace (as `str::trim`).
pub open spec fn trimmed(s: Seq<char>) -> Seq<char> {
    s.subrange(trim_bounds(s).0, trim_bounds(s).1)
}

proof fn lemma_trailing_ws_bound(s: Seq<char>, e: int)
    requires
        0 <= e <= s.len(),
    ensures
        trailing_ws(s, e) <= e,
        forall|j: int| e - trailing_ws(s, e) <= j < e ==> white_space(#[trigger] s[j]),
    decreases e,
{
    if 0 < e && white_space(s[e - 1]) {
        lemma_trailing_ws_bound(s, e - 1);
    }
}

/// Computes `trim_bounds`.
pub fn trim_bounds_exec(s: &Vec<char>) -> (r: (usize, usize))
    ensures
        r.0 as int == trim_bounds(s@).0,
        r.1 as int == trim_bounds(s@).1,
        r.0 <= r.1 <= s@.len(),
{
    let a = run_len_exec(s, 0, CharClass::WhiteSpace);
    if a == s.len() {
        return (a, a);
    }
    proof {
        lemma_run_len_bound(s@, 0, CharClass::WhiteSpace);
    }
    let mut e = s.len();
    while e > 0 && is_white_space(s[e - 1])
        invariant
            e <= s@.len(),
            a < s@.len(),
            !white_space(s@[a as int]),
            a < e,
            trailing_ws(s@, s@.len() as int) == (s@.len() - e) + trailing_ws(s@, e as int),
        decreases e,
    {
        e = e - 1;
    }
    (a, e)
}

} // verus!
