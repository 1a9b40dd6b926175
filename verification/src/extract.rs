//! Reading what a viewer typed into a redemption: a user to time out, an
//! emote to add (with an optional alias), or a duration.

use crate::emote_ids::{
    id_at, find_alias, find_emote_id, find_ffz_id, first_alias, first_emote_id, first_ffz_id,
};
use crate::chars::{is_white_space, white_space};
use crate::grammar::{in_class, trailing_ws, lemma_run_exact, lemma_run_len_at_least, lemma_run_len_bound, lit_at, lit_at_exec, match_lit, run_len, run_len_exec, trimmed, CharClass};
use crate::platform::SlotPlatform;
use crate::formatting::{decimal, push_decimal};
use crate::text::{chars_of, push_char, trim_str};
use vstd::prelude::*;

verus! {

/// An emote a viewer asked for: its id and, where the platform supports it,
/// the name it should be added under.
#[derive(Debug)]
pub struct EmoteSpec<'a> {
    pub id: &'a str,
    pub override_name: Option<&'a str>,
}

/// Why no user or emote could be read from the input.
#[derive(Clone, Copy, Debug, PartialEq, Eq, Structural)]
pub enum ExtractError {
    /// No BTTV or 7TV emote code was found.
    NoEmoteCode,
    /// No FFZ emote was found.
    NoEmote,
    /// The input names no user.
    NoUser,
}

/// The message shown for an extraction error.
pub open spec fn extract_message(e: ExtractError) -> Seq<char> {
    match e {
        ExtractError::NoEmoteCode => "Could not find an emote code there!"@,
        ExtractError::NoEmote => "Could not find an emote there!"@,
        ExtractError::NoUser => "No user submitted"@,
    }
}

impl ExtractError {
    /// The message shown to the viewer.
    pub fn message(&self) -> (r: &'static str)
        ensures
            r@ == extract_message(*self),
    {
        match self {
            ExtractError::NoEmoteCode => "Could not find an emote code there!",
            ExtractError::NoEmote => "Could not find an emote there!",
            ExtractError::NoUser => "No user submitted",
        }
    }
}

/// Finds the BTTV emote id (24 lower-case hex digits, bare or in an emote
/// URL) in the input.
pub fn bttv_id(str: &str) -> (r: Result<&str, ExtractError>)
    ensures
        match first_emote_id(str@, SlotPlatform::Bttv) {
            Some(p) => r matches Ok(id) && id@ == str@.subrange(p, p + 24),
            None => r == Err::<&str, ExtractError>(ExtractError::NoEmoteCode),
        },
{
    let v = chars_of(str);
    match find_emote_id(&v, SlotPlatform::Bttv) {
        Some(p) => Ok(str.substring_char(p, p + 24)),
        None => Err(ExtractError::NoEmoteCode),
    }
}

/// Finds the 7TV emote id (26 characters of Crockford base 32, bare or in an
/// emote URL) in the input.
pub fn seventv_id(str: &str) -> (r: Result<&str, ExtractError>)
    ensures
        match first_emote_id(str@, SlotPlatform::SevenTv) {
            Some(p) => r matches Ok(id) && id@ == str@.subrange(p, p + 26),
            None => r == Err::<&str, ExtractError>(ExtractError::NoEmoteCode),
        },
{
    let v = chars_of(str);
    match find_emote_id(&v, SlotPlatform::SevenTv) {
        Some(p) => Ok(str.substring_char(p, p + 26)),
        None => Err(ExtractError::NoEmoteCode),
    }
}

/// Finds the FFZ emote id (the digits of an `emoticon/` link) in the input.
pub fn ffz_id(str: &str) -> (r: Result<&str, ExtractError>)
    ensures
        match first_ffz_id(str@) {
            Some((p, n)) => r matches Ok(id) && id@ == str@.subrange(p, p + n),
            None => r == Err::<&str, ExtractError>(ExtractError::NoEmote),
        },
{
    let v = chars_of(str);
    match find_ffz_id(&v) {
        Some((p, n)) => Ok(str.substring_char(p, p + n)),
        None => Err(ExtractError::NoEmote),
    }
}

/// The alias a viewer asked for with `as=name`, if any.
pub open spec fn alias_of(s: Seq<char>) -> Option<Seq<char>> {
    match first_alias(s) {
        Some((p, n)) => Some(s.subrange(p, p + n)),
        None => None,
    }
}

/// Finds the alias (`as=name`) in the input.
pub fn parse_overridden(s: &str) -> (r: Option<&str>)
    ensures
        match alias_of(s@) {
            Some(a) => r matches Some(name) && name@ == a,
            None => r is None,
        },
{
    let v = chars_of(s);
    match find_alias(&v) {
        Some((p, n)) => Some(s.substring_char(p, p + n)),
        None => None,
    }
}

/// The BTTV emote a viewer asked for; BTTV emotes cannot be renamed.
pub fn bttv(s: &str) -> (r: Result<EmoteSpec<'_>, ExtractError>)
    ensures
        match first_emote_id(s@, SlotPlatform::Bttv) {
            Some(p) => r matches Ok(spec) && spec.id@ == s@.subrange(p, p + 24)
                && spec.override_name is None,
            None => r matches Err(e) && e == ExtractError::NoEmoteCode,
        },
{
    match bttv_id(s) {
        Ok(id) => Ok(EmoteSpec { id, override_name: None }),
        Err(e) => Err(e),
    }
}

/// The FFZ emote a viewer asked for; FFZ emotes cannot be renamed.
pub fn ffz(s: &str) -> (r: Result<EmoteSpec<'_>, ExtractError>)
    ensures
        match first_ffz_id(s@) {
            Some((p, n)) => r matches Ok(spec) && spec.id@ == s@.subrange(p, p + n)
                && spec.override_name is None,
            None => r matches Err(e) && e == ExtractError::NoEmote,
        },
{
    match ffz_id(s) {
        Ok(id) => Ok(EmoteSpec { id, override_name: None }),
        Err(e) => Err(e),
    }
}

/// The 7TV emote a viewer asked for, with the alias given by `as=name`.
pub fn seventv(s: &str) -> (r: Result<EmoteSpec<'_>, ExtractError>)
    ensures
        match first_emote_id(s@, SlotPlatform::SevenTv) {
            Some(p) => r matches Ok(spec) && spec.id@ == s@.subrange(p, p + 26) && match alias_of(
                s@,
            ) {
                Some(a) => spec.override_name matches Some(name) && name@ == a,
                None => spec.override_name is None,
            },
            None => r matches Err(e) && e == ExtractError::NoEmoteCode,
        },
{
    match seventv_id(s) {
        Ok(id) => Ok(EmoteSpec { id, override_name: parse_overridden(s) }),
        Err(e) => Err(e),
    }
}

// ---------------------------------------------------------------------------
// Users

/// The length of a mention's name when `@` stands at `p`: a run of `[\w_]`.
pub open spec fn mention_at(s: Seq<char>, p: int) -> Option<int> {
    if 0 <= p < s.len() && s[p] == '@' && run_len(s, p + 1, CharClass::Word) >= 1 {
        Some(run_len(s, p + 1, CharClass::Word) as int)
    } else {
        None
    }
}

/// The leftmost mention at `p` or later: where its `@` stands and the length
/// of the name after it.
pub open spec fn mention_search(s: Seq<char>, p: int) -> Option<(int, int)>
    decreases s.len() + 1 - p,
{
    if p < 0 || p > s.len() {
        None
    } else if mention_at(s, p) is Some {
        Some((p, mention_at(s, p)->0))
    } else {
        mention_search(s, p + 1)
    }
}

fn find_mention(s: &Vec<char>) -> (r: Option<(usize, usize)>)
    ensures
        crate::grammar::opt_span(r) == mention_search(s@, 0),
        r matches Some(v) ==> v.0 + 1 + v.1 <= s.len(),
{
    let mut p: usize = 0;
    while p < s.len()
        invariant
            p <= s@.len(),
            mention_search(s@, 0) == mention_search(s@, p as int),
        decreases s@.len() - p,
    {
        if s[p] == '@' {
            let n = run_len_exec(s, p + 1, CharClass::Word);
            if n >= 1 {
                return Some((p, n));
            }
        }
        p = p + 1;
    }
    assert(mention_search(s@, p as int + 1) is None);
    None
}

/// `s` with every `@` removed.
pub open spec fn without_at(s: Seq<char>) -> Seq<char>
    decreases s.len(),
{
    if s.len() == 0 {
        s
    } else if s.last() == '@' {
        without_at(s.drop_last())
    } else {
        without_at(s.drop_last()).push(s.last())
    }
}

fn remove_at_signs(t: &Vec<char>) -> (r: String)
    ensures
        r@ == without_at(t@),
{
    let mut out = String::new();
    let mut i: usize = 0;
    while i < t.len()
        invariant
            i <= t@.len(),
            out@ == without_at(t@.subrange(0, i as int)),
        decreases t@.len() - i,
    {
        assert(t@.subrange(0, i + 1).drop_last() =~= t@.subrange(0, i as int));
        if t[i] != '@' {
            push_char(&mut out, t[i]);
        }
        i = i + 1;
    }
    assert(t@.subrange(0, i as int) =~= t@);
    out
}

fn has_space(t: &Vec<char>) -> (r: bool)
    ensures
        r == t@.contains(' '),
{
    let mut i: usize = 0;
    while i < t.len()
        invariant
            i <= t@.len(),
            forall|j: int| 0 <= j < i ==> t@[j] != ' ',
        decreases t@.len() - i,
    {
        if t[i] == ' ' {
            assert(t@[i as int] == ' ');
            return true;
        }
        i = i + 1;
    }
    false
}

/// The user a viewer named: the whole (trimmed) input without `@` when it is
/// a single word, else the name of its first `@mention`.
pub open spec fn username_of(s: Seq<char>) -> Option<Seq<char>> {
    let t = trimmed(s);
    if !t.contains(' ') {
        Some(without_at(t))
    } else {
        match mention_search(t, 0) {
            Some((p, n)) => Some(t.subrange(p + 1, p + 1 + n)),
            None => None,
        }
    }
}

/// Reads the user to act on from the input.
pub fn username(str: &str) -> (r: Result<String, ExtractError>)
    ensures
        match username_of(str@) {
            Some(u) => r matches Ok(name) && name@ == u,
            None => r matches Err(e) && e == ExtractError::NoUser,
        },
{
    let t = trim_str(str);
    let v = chars_of(t);
    if !has_space(&v) {
        return Ok(remove_at_signs(&v));
    }
    match find_mention(&v) {
        Some((p, n)) => Ok(String::from_str(t.substring_char(p + 1, p + 1 + n))),
        None => Err(ExtractError::NoUser),
    }
}

/// The user a viewer named, with a mention kept whole: like `username_of`,
/// but a mention keeps its `@` (the form the IRC timeout command takes).
pub open spec fn mention_of(s: Seq<char>) -> Option<Seq<char>> {
    let t = trimmed(s);
    if !t.contains(' ') {
        Some(without_at(t))
    } else {
        match mention_search(t, 0) {
            Some((p, n)) => Some(t.subrange(p, p + 1 + n)),
            None => None,
        }
    }
}

/// Reads the user to act on from the input, keeping the `@` of a mention.
pub fn extract_username(str: &str) -> (r: Result<String, ExtractError>)
    ensures
        match mention_of(str@) {
            Some(u) => r matches Ok(name) && name@ == u,
            None => r matches Err(e) && e == ExtractError::NoUser,
        },
{
    let t = trim_str(str);
    let v = chars_of(t);
    if !has_space(&v) {
        return Ok(remove_at_signs(&v));
    }
    match find_mention(&v) {
        Some((p, n)) => Ok(String::from_str(t.substring_char(p, p + 1 + n))),
        None => Err(ExtractError::NoUser),
    }
}

// ---------------------------------------------------------------------------
// Durations

/// What `humantime::parse_duration` makes of a text: whole seconds and
/// nanoseconds, or the message of its error.
pub uninterp spec fn humantime_parse(s: Seq<char>) -> Result<(u64, u32), Seq<char>>;

/// The `Debug` text of the error `humantime::parse_duration` gives for a
/// text it refuses.
pub uninterp spec fn humantime_debug(s: Seq<char>) -> Seq<char>;

/// A parse result with its message as a character sequence.
pub open spec fn parse_view(r: Result<(u64, u32), (String, String)>) -> Result<(u64, u32), Seq<char>> {
    match r {
        Ok(v) => Ok(v),
        Err((m, _)) => Err(m@),
    }
}

// A duration text and the seconds it can reach. humantime reads numbers of
// ASCII digits (whitespace may stand between the digits of one number),
// each followed by a unit of letters; `bound_from` gives every number the
// weight of its unit (one second at most for the units up to a second, a
// year otherwise) plus one, so it bounds the seconds humantime adds up.

/// The units humantime counts in seconds or less.
pub open spec fn small_unit(w: Seq<char>) -> bool {
    ||| w == "nanos"@
    ||| w == "nsec"@
    ||| w == "ns"@
    ||| w == "usec"@
    ||| w == "us"@
    ||| w == "µs"@
    ||| w == "millis"@
    ||| w == "msec"@
    ||| w == "ms"@
    ||| w == "seconds"@
    ||| w == "second"@
    ||| w == "secs"@
    ||| w == "sec"@
    ||| w == "s"@
}

/// Seconds in humantime's year, its longest unit.
pub const YEAR_SECS: u64 = 31_557_600;

/// The seconds one of the unit starting at `p` is worth at most: one for a
/// unit of a second or less, a year for any other letters.
pub open spec fn unit_weight(s: Seq<char>, p: int) -> nat {
    if small_unit(s.subrange(p, p + run_len(s, p, CharClass::UnitLetter))) {
        1
    } else {
        YEAR_SECS as nat
    }
}

/// The number read so far plus one (zero before its first digit), after the
/// digit `c`.
pub open spec fn grown(cur: nat, c: char) -> nat {
    if cur == 0 {
        (c as int - 47) as nat
    } else {
        ((cur - 1) * 10 + (c as int - 47)) as nat
    }
}

/// A bound on the seconds of the text from `i` on, where `cur` is the
/// number being read plus one (zero when none is).
pub open spec fn bound_from(s: Seq<char>, i: int, cur: nat) -> nat
    decreases s.len() - i,
{
    if i < 0 || i >= s.len() {
        cur * (YEAR_SECS as nat)
    } else if '0' <= s[i] <= '9' {
        bound_from(s, i + 1, grown(cur, s[i]))
    } else if white_space(s[i]) {
        bound_from(s, i + 1, cur)
    } else {
        cur * unit_weight(s, i) + bound_from(s, i + 1, 0)
    }
}

/// A bound on the seconds humantime adds up for the duration text `s`.
pub open spec fn duration_bound(s: Seq<char>) -> nat {
    bound_from(s, 0, 0)
}

/// The bound never falls below the number being read.
proof fn lemma_bound_from_covers(s: Seq<char>, i: int, cur: nat)
    ensures
        bound_from(s, i, cur) >= cur,
    decreases s.len() - i,
{
    if i < 0 || i >= s.len() {
    } else if '0' <= s[i] <= '9' {
        lemma_bound_from_covers(s, i + 1, grown(cur, s[i]));
    } else if white_space(s[i]) {
        lemma_bound_from_covers(s, i + 1, cur);
    } else {
        lemma_bound_from_covers(s, i + 1, 0);
        if unit_weight(s, i) == 1 {
            assert(cur * unit_weight(s, i) == cur);
        } else {
            assert(cur * unit_weight(s, i) == cur * 31_557_600);
        }
    }
}

/// The message for a duration whose seconds could reach `u64::MAX`:
/// humantime's own for a number too large.
pub open spec fn too_long_message() -> Seq<char> {
    "number is too large or cannot be represented without a lack of precision (values below 1ns are not supported)"@
}

/// The `Debug` text of the error of a duration text that is refused.
pub open spec fn read_duration_debug(s: Seq<char>) -> Seq<char> {
    if duration_bound(s) >= u64::MAX {
        "NumberOverflow"@
    } else {
        humantime_debug(s)
    }
}

/// What a duration text reads as: refused when its seconds could reach
/// `u64::MAX`, else what humantime makes of it.
pub open spec fn read_duration(s: Seq<char>) -> Result<(u64, u32), Seq<char>> {
    if duration_bound(s) >= u64::MAX {
        Err(too_long_message())
    } else {
        humantime_parse(s)
    }
}

/// `humantime::parse_duration`, with the duration as whole seconds and
/// nanoseconds and the error as its `Display` and `Debug` texts. The result
/// is named `humantime_parse`, the `Debug` text `humantime_debug`; the
/// nanoseconds are below one second, as in every `std::time::Duration`.
/// humantime panics (in `Duration::new`) only when a carried second is
/// added to exactly `u64::MAX` seconds. Every number of the text adds at
/// most its value times its unit's seconds (a fraction less than one unit,
/// sub-second units less than their value, a carry at most one second), so
/// the seconds never exceed `duration_bound`; `requires` keeps that bound
/// below `u64::MAX`, where the panic cannot happen.
#[verifier::external_body]
pub(crate) fn parse_human_duration(s: &str) -> (r: Result<(u64, u32), (String, String)>)
    requires
        duration_bound(s@) < u64::MAX,
    ensures
        parse_view(r) == humantime_parse(s@),
        r matches Ok((_, n)) ==> n < 1_000_000_000,
        r matches Err((_, d)) ==> d@ == humantime_debug(s@),
{
    match humantime::parse_duration(s) {
        Ok(d) => Ok((d.as_secs(), d.subsec_nanos())),
        Err(e) => Err((e.to_string(), format!("{:?}", e))),
    }
}

/// Whether the `m` characters from `p` spell `w`.
fn word_is(v: &Vec<char>, p: usize, m: usize, w: &str) -> (r: bool)
    requires
        p + m <= v@.len(),
    ensures
        r == (v@.subrange(p as int, p + m) == w@),
{
    if m != w.unicode_len() {
        assert(v@.subrange(p as int, p + m).len() != w@.len());
        return false;
    }
    lit_at_exec(v, p, w)
}

/// Computes `unit_weight`.
fn unit_weight_exec(v: &Vec<char>, p: usize) -> (r: u64)
    requires
        p <= v@.len(),
    ensures
        r == unit_weight(v@, p as int),
{
    let m = run_len_exec(v, p, CharClass::UnitLetter);
    if word_is(v, p, m, "nanos") || word_is(v, p, m, "nsec") || word_is(v, p, m, "ns") || word_is(v, p, m, "usec")
        || word_is(v, p, m, "us") || word_is(v, p, m, "µs") || word_is(v, p, m, "millis") || word_is(v, p, m, "msec")
        || word_is(v, p, m, "ms") || word_is(v, p, m, "seconds") || word_is(v, p, m, "second") || word_is(
        v,
        p,
        m,
        "secs",
    ) || word_is(v, p, m, "sec") || word_is(v, p, m, "s") {
        1
    } else {
        YEAR_SECS
    }
}

/// Decides whether the seconds of a duration text stay below `u64::MAX`
/// by `duration_bound`.
pub fn duration_bound_fits(s: &str) -> (r: bool)
    ensures
        r == (duration_bound(s@) < u64::MAX),
{
    let v = chars_of(s);
    let mut i: usize = 0;
    let mut cur: u64 = 0;
    let mut total: u64 = 0;
    while i < v.len()
        invariant
            v@ == s@,
            i <= v@.len(),
            duration_bound(s@) == total + bound_from(v@, i as int, cur as nat),
        decreases v@.len() - i,
    {
        let c = v[i];
        if '0' <= c && c <= '9' {
            let d = (c as u32 - '0' as u32) as u128;
            let next: u128 = if cur == 0 {
                d + 1
            } else {
                (cur as u128 - 1) * 10 + d + 1
            };
            assert(next == grown(cur as nat, c));
            if next >= u64::MAX as u128 {
                proof {
                    lemma_bound_from_covers(v@, i + 1, next as nat);
                }
                return false;
            }
            cur = next as u64;
        } else if is_white_space(c) {
        } else {
            let w = unit_weight_exec(&v, i);
            assert(cur as u128 * w as u128 <= 0xffff_ffff_ffff_ffffu128 * 31_557_600u128) by (nonlinear_arith)
                requires
                    w <= 31_557_600,
            ;
            let t: u128 = total as u128 + cur as u128 * w as u128;
            proof {
                lemma_bound_from_covers(v@, i + 1, 0);
            }
            if t >= u64::MAX as u128 {
                return false;
            }
            total = t as u64;
            cur = 0;
        }
        i = i + 1;
    }
    let t: u128 = total as u128 + cur as u128 * YEAR_SECS as u128;
    t < u64::MAX as u128
}

/// Reads a duration text: whole seconds and nanoseconds, or why it is not a
/// duration.
pub fn read_duration_exec(s: &str) -> (r: Result<(u64, u32), (String, String)>)
    ensures
        parse_view(r) == read_duration(s@),
        r matches Ok((_, n)) ==> n < 1_000_000_000,
        r matches Err((_, d)) ==> d@ == read_duration_debug(s@),
{
    if !duration_bound_fits(s) {
        Err((
            String::from_str(
                "number is too large or cannot be represented without a lack of precision (values below 1ns are not supported)",
            ),
            String::from_str("NumberOverflow"),
        ))
    } else {
        parse_human_duration(s)
    }
}

/// `rand::Rng::gen_range` on the thread's generator over `lo..hi`: a
/// random number from `lo` up to, but not including, `hi`. Which one is
/// drawn rests on chance; rand panics on an empty range, which `requires`
/// leaves out.
#[verifier::external_body]
pub(crate) fn random_in(lo: u64, hi: u64) -> (r: u64)
    requires
        lo < hi,
    ensures
        lo <= r < hi,
{
    rand::Rng::gen_range(&mut rand::thread_rng(), lo..hi)
}

/// The whole seconds of a human-readable duration, or why it is invalid.
pub open spec fn parse_secs(s: Seq<char>) -> Result<u64, Seq<char>> {
    match read_duration(s) {
        Ok((secs, _)) => Ok(secs),
        Err(m) => Err(m),
    }
}

/// The whole seconds of a human-readable duration, or the `Debug` text of
/// why it is invalid.
pub open spec fn parse_secs_debug(s: Seq<char>) -> Result<u64, Seq<char>> {
    match read_duration(s) {
        Ok((secs, _)) => Ok(secs),
        Err(_) => Err(read_duration_debug(s)),
    }
}

/// Why a duration could not be read.
#[derive(Debug)]
pub enum DurationError {
    /// The text is not a duration; humantime's message.
    Invalid(String),
    /// `rand(a;b)` where `a` or `b` is not a duration: both outcomes, an
    /// error by humantime's `Debug` text.
    Range(Result<u64, String>, Result<u64, String>),
}

/// `DurationError` with messages as character sequences.
pub enum DurationFault {
    Invalid(Seq<char>),
    Range(Result<u64, Seq<char>>, Result<u64, Seq<char>>),
}

/// A seconds result with its message as a character sequence.
pub open spec fn secs_view(r: Result<u64, String>) -> Result<u64, Seq<char>> {
    match r {
        Ok(v) => Ok(v),
        Err(m) => Err(m@),
    }
}

impl View for DurationError {
    type V = DurationFault;

    open spec fn view(&self) -> DurationFault {
        match self {
            DurationError::Invalid(m) => DurationFault::Invalid(m@),
            DurationError::Range(a, b) => DurationFault::Range(secs_view(*a), secs_view(*b)),
        }
    }
}

/// How an outcome of `rand(a;b)` is written in a message: `Ok(secs)` or
/// `Err(..)` around humantime's `Debug` text.
pub open spec fn outcome_text(r: Result<u64, Seq<char>>) -> Seq<char> {
    match r {
        Ok(v) => "Ok("@ + decimal(v as nat) + ")"@,
        Err(d) => "Err("@ + d + ")"@,
    }
}

/// The text a duration error is shown with: humantime's message for a text
/// that is no duration; for `rand(a;b)` both outcomes, as
/// `(Some(..), Some(..))`.
pub open spec fn duration_error_text(f: DurationFault) -> Seq<char> {
    match f {
        DurationFault::Invalid(m) => m,
        DurationFault::Range(a, b) => "Could not parse duration: (Some("@ + outcome_text(a) + "), Some("@
            + outcome_text(b) + "))"@,
    }
}

fn push_outcome(s: &mut String, r: &Result<u64, String>)
    ensures
        final(s)@ == old(s)@ + outcome_text(secs_view(*r)),
{
    match r {
        Ok(v) => {
            s.append("Ok(");
            push_decimal(s, *v);
            s.append(")");
        },
        Err(d) => {
            s.append("Err(");
            s.append(d.as_str());
            s.append(")");
        },
    }
}

impl DurationError {
    /// The text the error is shown with.
    pub fn message(&self) -> (r: String)
        ensures
            r@ == duration_error_text(self@),
    {
        match self {
            DurationError::Invalid(m) => String::from_str(m.as_str()),
            DurationError::Range(a, b) => {
                let mut s = String::from_str("Could not parse duration: (Some(");
                push_outcome(&mut s, a);
                s.append("), Some(");
                push_outcome(&mut s, b);
                s.append("))");
                s
            },
        }
    }
}

/// The two bounds of `rand(a;b)` (start and length of each), when the whole
/// text has that shape: `a` has no `;`, `b` has no `)`, neither is empty,
/// and the closing `)` ends the text.
pub open spec fn rand_parts(t: Seq<char>) -> Option<((int, int), (int, int))> {
    let a0 = "rand("@.len() as int;
    let a = run_len(t, a0, CharClass::NotSemicolon) as int;
    let semi = a0 + a;
    let b0 = semi + 1;
    let b = run_len(t, b0, CharClass::NotCloseParen) as int;
    let close = b0 + b;
    if lit_at(t, 0, "rand("@) && a >= 1 && semi < t.len() && t[semi] == ';' && b >= 1 && close
        == t.len() - 1 && t[close] == ')' {
        Some(((a0, a), (b0, b)))
    } else {
        None
    }
}

/// The range `rand(a;b)` allows, by the durations `a` and `b`.
pub open spec fn rand_range(x: Result<u64, Seq<char>>, y: Result<u64, Seq<char>>) -> Result<(u64, u64), DurationFault> {
    match (x, y) {
        (Ok(p), Ok(q)) => if p < q {
            Ok((p, q))
        } else {
            Ok((q, p))
        },
        _ => Err(DurationFault::Range(x, y)),
    }
}

/// The smallest and the largest number of seconds a duration text allows:
/// a fixed duration, or `rand(a;b)` for anything from `a` to `b` (in either
/// order).
pub open spec fn duration_range(s: Seq<char>) -> Result<(u64, u64), DurationFault> {
    range_of(trimmed(s))
}

/// The smallest and the largest number of seconds a trimmed duration text
/// allows.
pub open spec fn range_of(t: Seq<char>) -> Result<(u64, u64), DurationFault> {
    match rand_parts(t) {
        Some(((a0, a), (b0, b))) => {
            rand_range(
                parse_secs_debug(trimmed(t.subrange(a0, a0 + a))),
                parse_secs_debug(trimmed(t.subrange(b0, b0 + b))),
            )
        },
        None => match parse_secs(t) {
            Ok(x) => Ok((x, x)),
            Err(m) => Err(DurationFault::Invalid(m)),
        },
    }
}

fn parse_secs_exec(s: &str) -> (r: Result<u64, (String, String)>)
    ensures
        match r {
            Ok(v) => parse_secs(s@) == Ok::<u64, Seq<char>>(v) && parse_secs_debug(s@) == Ok::<u64, Seq<char>>(v),
            Err((m, d)) => parse_secs(s@) == Err::<u64, Seq<char>>(m@) && parse_secs_debug(s@) == Err::<u64, Seq<char>>(d@),
        },
{
    match read_duration_exec(s) {
        Ok((secs, _)) => Ok(secs),
        Err(e) => Err(e),
    }
}

/// The seconds, or the `Debug` text of the error.
fn debug_outcome(r: Result<u64, (String, String)>) -> (o: Result<u64, String>)
    ensures
        match r {
            Ok(v) => o == Ok::<u64, String>(v),
            Err((_, d)) => o == Err::<u64, String>(d),
        },
{
    match r {
        Ok(v) => Ok(v),
        Err((_, d)) => Err(d),
    }
}

fn rand_parts_exec(t: &Vec<char>) -> (r: Option<((usize, usize), (usize, usize))>)
    ensures
        match (r, rand_parts(t@)) {
            (Some(x), Some(y)) => x.0.0 == y.0.0 && x.0.1 == y.0.1 && x.1.0 == y.1.0 && x.1.1
                == y.1.1,
            (None, None) => true,
            _ => false,
        },
        r matches Some(x) ==> x.0.0 + x.0.1 <= t@.len() && x.1.0 + x.1.1 <= t@.len(),
{
    let a0 = match match_lit(t, 0, "rand(") {
        Some(q) => q,
        None => return None,
    };
    let a = run_len_exec(t, a0, CharClass::NotSemicolon);
    let semi = a0 + a;
    if a < 1 || semi >= t.len() || t[semi] != ';' {
        return None;
    }
    let b0 = semi + 1;
    let b = run_len_exec(t, b0, CharClass::NotCloseParen);
    let close = b0 + b;
    if b >= 1 && close < t.len() && close == t.len() - 1 && t[close] == ')' {
        Some(((a0, a), (b0, b)))
    } else {
        None
    }
}

/// Computes `duration_range`.
pub fn duration_range_exec(duration: &str) -> (r: Result<(u64, u64), DurationError>)
    ensures
        match (r, duration_range(duration@)) {
            (Ok(v), Ok(w)) => v == w,
            (Err(e), Err(f)) => e@ == f,
            _ => false,
        },
{
    let t = trim_str(duration);
    let v = chars_of(t);
    match rand_parts_exec(&v) {
        Some(((a0, a), (b0, b))) => {
            let end_b = b0 + b;
            let first = parse_secs_exec(trim_str(t.substring_char(a0, a0 + a)));
            let second = parse_secs_exec(trim_str(t.substring_char(b0, end_b)));
            match (first, second) {
                (Ok(x), Ok(y)) => if x < y {
                    Ok((x, y))
                } else {
                    Ok((y, x))
                },
                (first, second) => Err(DurationError::Range(debug_outcome(first), debug_outcome(second))),
            }
        },
        None => match parse_secs_exec(t) {
            Ok(x) => Ok((x, x)),
            Err((m, _)) => Err(DurationError::Invalid(m)),
        },
    }
}

/// Reads a duration in seconds: a human-readable duration (`1h 30min`) or a
/// random one (`rand(10m;1h)`), which is drawn anew on every call.
pub fn duration(text: &str) -> (r: Result<u64, DurationError>)
    ensures
        match (r, duration_range(text@)) {
            (Ok(v), Ok((lo, hi))) => lo <= v <= hi && (lo < hi ==> v < hi),
            (Err(e), Err(f)) => e@ == f,
            _ => false,
        },
{
    match duration_range_exec(text) {
        Ok((lo, hi)) => if lo < hi {
            Ok(random_in(lo, hi))
        } else {
            Ok(lo)
        },
        Err(e) => Err(e),
    }
}


/// The text `rand(a;b)`.
pub open spec fn rand_text(a: Seq<char>, b: Seq<char>) -> Seq<char> {
    "rand("@ + a + ";"@ + b + ")"@
}

/// The parts of `rand(a;b)` are `a` and `b`, when neither is empty and
/// neither holds `;` or `)`.
proof fn lemma_rand_parts(a: Seq<char>, b: Seq<char>)
    requires
        a.len() >= 1,
        b.len() >= 1,
        forall|i: int| 0 <= i < a.len() ==> #[trigger] a[i] != ';' && a[i] != ')',
        forall|i: int| 0 <= i < b.len() ==> #[trigger] b[i] != ';' && b[i] != ')',
    ensures
        rand_parts(rand_text(a, b)) == Some(((5int, a.len() as int), (6 + a.len() as int, b.len() as int))),
        rand_text(a, b).subrange(5, 5 + a.len() as int) == a,
        rand_text(a, b).subrange(6 + a.len() as int, 6 + a.len() as int + b.len() as int) == b,
{
    reveal_strlit("rand(");
    reveal_strlit(";");
    reveal_strlit(")");
    let t = rand_text(a, b);
    assert(t.len() == 7 + a.len() + b.len());
    assert(t.subrange(0, 5) =~= "rand("@);
    assert forall|j: int| 5 <= j < 5 + a.len() as int implies in_class(#[trigger] t[j], CharClass::NotSemicolon) by {
        assert(t[j] == a[j - 5]);
    }
    assert(t[5 + a.len() as int] == ';');
    lemma_run_exact(t, 5, a.len() as int, CharClass::NotSemicolon);
    assert forall|j: int| 6 + a.len() as int <= j < 6 + a.len() as int + b.len() as int implies in_class(
        #[trigger] t[j],
        CharClass::NotCloseParen,
    ) by {
        assert(t[j] == b[j - 6 - a.len()]);
    }
    assert(t[6 + a.len() as int + b.len() as int] == ')');
    lemma_run_exact(t, 6 + a.len() as int, b.len() as int, CharClass::NotCloseParen);
    assert(t.subrange(5, 5 + a.len() as int) =~= a);
    assert(t.subrange(6 + a.len() as int, 6 + a.len() as int + b.len() as int) =~= b);
}

proof fn lemma_range_of_rand(a: Seq<char>, b: Seq<char>)
    requires
        a.len() >= 1,
        b.len() >= 1,
        forall|i: int| 0 <= i < a.len() ==> #[trigger] a[i] != ';' && a[i] != ')',
        forall|i: int| 0 <= i < b.len() ==> #[trigger] b[i] != ';' && b[i] != ')',
    ensures
        range_of(rand_text(a, b)) == rand_range(parse_secs_debug(trimmed(a)), parse_secs_debug(trimmed(b))),
{
    lemma_rand_parts(a, b);
}

/// `rand(a;b)` and `rand(b;a)` allow the same durations: the order of the
/// bounds does not matter, and either text is refused exactly when the
/// other is.
#[verifier::rlimit(40)]
pub proof fn law_rand_order(a: Seq<char>, b: Seq<char>)
    requires
        a.len() >= 1,
        b.len() >= 1,
        forall|i: int| 0 <= i < a.len() ==> #[trigger] a[i] != ';' && a[i] != ')',
        forall|i: int| 0 <= i < b.len() ==> #[trigger] b[i] != ';' && b[i] != ')',
    ensures
        duration_range(rand_text(a, b)) is Ok <==> duration_range(rand_text(b, a)) is Ok,
        duration_range(rand_text(a, b)) is Ok ==> duration_range(rand_text(a, b)) == duration_range(
            rand_text(b, a),
        ),
{
    lemma_range_of_rand(a, b);
    lemma_range_of_rand(b, a);
    lemma_rand_text_trimmed(a, b);
    lemma_rand_text_trimmed(b, a);
}

/// `rand(a;b)` has no whitespace to trim: it starts with `r` and ends with
/// `)`.
proof fn lemma_rand_text_trimmed(a: Seq<char>, b: Seq<char>)
    ensures
        trimmed(rand_text(a, b)) == rand_text(a, b),
{
    reveal_strlit("rand(");
    reveal_strlit(";");
    reveal_strlit(")");
    let t = rand_text(a, b);
    assert(t[0] == 'r');
    assert(t[t.len() - 1] == ')');
    assert(run_len(t, 0, CharClass::WhiteSpace) == 0);
    assert(trailing_ws(t, t.len() as int) == 0);
    assert(t.subrange(0, t.len() as int) =~= t);
}

/// A BTTV emote id: 24 lower-case hexadecimal digits.
pub open spec fn is_bttv_id(h: Seq<char>) -> bool {
    h.len() == 24 && forall|i: int| 0 <= i < 24 ==> in_class(#[trigger] h[i], CharClass::LowerHex)
}

/// A 7TV emote id: a digit from 0 to 7, then 25 characters of upper-case
/// Crockford base 32.
pub open spec fn is_seventv_id(h: Seq<char>) -> bool {
    &&& h.len() == 26
    &&& '0' <= h[0] <= '7'
    &&& forall|i: int| 1 <= i < 26 ==> in_class(#[trigger] h[i], CharClass::Crockford)
}

/// A viewer may give a BTTV emote as its bare id or as the link to its
/// page: both name the same emote.
pub proof fn law_bttv_link_or_id(h: Seq<char>)
    requires
        is_bttv_id(h),
    ensures
        first_emote_id(h, SlotPlatform::Bttv) == Some(0int),
        first_emote_id("https://betterttv.com/emotes/"@ + h, SlotPlatform::Bttv) == Some(29int),
        ("https://betterttv.com/emotes/"@ + h).subrange(29, 53) == h,
{
    reveal_strlit("https://");
    reveal_strlit("http://");
    reveal_strlit("betterttv.com/");
    reveal_strlit("emotes/");
    reveal_strlit("https://betterttv.com/emotes/");
    lemma_run_len_at_least(h, 0, 24, CharClass::LowerHex);
    assert(!lit_at(h, 0, "https://"@)) by {
        assert(h.subrange(0, 8)[0] != 'h');
    }
    assert(!lit_at(h, 0, "http://"@)) by {
        assert(h.subrange(0, 7)[0] != 'h');
    }
    assert(!lit_at(h, 0, "betterttv.com/"@)) by {
        assert(h.subrange(0, 14)[2] != 't');
    }
    assert(!lit_at(h, 0, "emotes/"@)) by {
        assert(h.subrange(0, 7)[1] != 'm');
    }
    assert(id_at(h, 0, SlotPlatform::Bttv) == Some(0int));
    let u = "https://betterttv.com/emotes/"@ + h;
    assert(u.len() == 53);
    assert(lit_at(u, 0, "https://"@)) by {
        assert(u.subrange(0, 8) =~= "https://"@);
    }
    assert(lit_at(u, 8, "betterttv.com/"@)) by {
        assert(u.subrange(8, 22) =~= "betterttv.com/"@);
    }
    assert(lit_at(u, 22, "emotes/"@)) by {
        assert(u.subrange(22, 29) =~= "emotes/"@);
    }
    assert forall|j: int| 29 <= j < 29 + 24 implies in_class(#[trigger] u[j], CharClass::LowerHex) by {
        assert(u[j] == h[j - 29]);
    }
    lemma_run_len_at_least(u, 29, 24, CharClass::LowerHex);
    assert(id_at(u, 0, SlotPlatform::Bttv) == Some(29int));
    assert(u.subrange(29, 53) =~= h);
}

/// A viewer may give a 7TV emote as its bare id or as the link to its page:
/// both name the same emote.
pub proof fn law_seventv_link_or_id(h: Seq<char>)
    requires
        is_seventv_id(h),
    ensures
        first_emote_id(h, SlotPlatform::SevenTv) == Some(0int),
        first_emote_id("https://7tv.app/emotes/"@ + h, SlotPlatform::SevenTv) == Some(23int),
        ("https://7tv.app/emotes/"@ + h).subrange(23, 49) == h,
{
    reveal_strlit("https://");
    reveal_strlit("http://");
    reveal_strlit("7tv.app/");
    reveal_strlit("emotes/");
    reveal_strlit("https://7tv.app/emotes/");
    lemma_run_len_at_least(h, 1, 25, CharClass::Crockford);
    assert(!lit_at(h, 0, "https://"@)) by {
        assert(h.subrange(0, 8)[0] != 'h');
    }
    assert(!lit_at(h, 0, "http://"@)) by {
        assert(h.subrange(0, 7)[0] != 'h');
    }
    assert(!lit_at(h, 0, "7tv.app/"@)) by {
        assert(h.subrange(0, 8)[1] != 't');
    }
    assert(!lit_at(h, 0, "emotes/"@)) by {
        assert(h.subrange(0, 7)[0] != 'e');
    }
    assert(id_at(h, 0, SlotPlatform::SevenTv) == Some(0int));
    let u = "https://7tv.app/emotes/"@ + h;
    assert(u.len() == 49);
    assert(lit_at(u, 0, "https://"@)) by {
        assert(u.subrange(0, 8) =~= "https://"@);
    }
    assert(lit_at(u, 8, "7tv.app/"@)) by {
        assert(u.subrange(8, 16) =~= "7tv.app/"@);
    }
    assert(lit_at(u, 16, "emotes/"@)) by {
        assert(u.subrange(16, 23) =~= "emotes/"@);
    }
    assert(u[23] == h[0]);
    assert forall|j: int| 24 <= j < 24 + 25 implies in_class(#[trigger] u[j], CharClass::Crockford) by {
        assert(u[j] == h[j - 23]);
    }
    lemma_run_len_at_least(u, 24, 25, CharClass::Crockford);
    assert(id_at(u, 0, SlotPlatform::SevenTv) == Some(23int));
    assert(u.subrange(23, 49) =~= h);
}

} // verus!
