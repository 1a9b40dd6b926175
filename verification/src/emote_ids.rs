//! Finding emote ids and aliases in redemption input.
//!
//! The accepted shapes are those of the patterns
//! `(?:^| )(?:https?://)?(?:betterttv\.com/)?(?:emotes/)?([a-f0-9]{24})(?:$| )` (BTTV),
//! `(?:^| )(?:https?://)?(?:7tv\.app/)?(?:emotes/)?([0-7][0-9A-HJKMNP-TV-Z]{25})(?:$| )` (7TV),
//! `(?:^| )(?:https?://)?(?:www\.)?(?:frankerfacez\.com/)?(?:emoticon/)(\d+)(?:-[\w_!]+)?(?:$| )`
//! (FFZ) and `(?: |^)as=([-_A-Za-z(!?&)$+:0-9]{2,100})\b` (alias): the first
//! match from the left wins, and among the ways to match at one position the
//! one that takes optional parts first.

use crate::grammar::{
    end_or_space, end_or_space_exec, in_class, lemma_run_exact, lemma_run_len_bound, lit_at, match_lit,
    opt_int, opt_span, run_len, run_len_exec, word_boundary, word_boundary_exec, CharClass,
};
use crate::platform::SlotPlatform;
use vstd::prelude::*;

verus! {

/// The host literal of a platform's emote page.
pub open spec fn host_lit(pl: SlotPlatform) -> Seq<char> {
    match pl {
        SlotPlatform::Bttv => "betterttv.com/"@,
        SlotPlatform::SevenTv => "7tv.app/"@,
        SlotPlatform::Ffz => "frankerfacez.com/"@,
    }
}

fn host_str(pl: SlotPlatform) -> (r: &'static str)
    ensures
        r@ == host_lit(pl),
{
    match pl {
        SlotPlatform::Bttv => "betterttv.com/",
        SlotPlatform::SevenTv => "7tv.app/",
        SlotPlatform::Ffz => "frankerfacez.com/",
    }
}

/// The number of characters of a BTTV or 7TV emote id.
pub open spec fn id_len(pl: SlotPlatform) -> int {
    match pl {
        SlotPlatform::Bttv => 24,
        SlotPlatform::SevenTv => 26,
        SlotPlatform::Ffz => 0,
    }
}

/// A complete BTTV or 7TV emote id starts at `r` and is followed by a space
/// or the end of the text.
pub open spec fn id_body(s: Seq<char>, r: int, pl: SlotPlatform) -> bool {
    match pl {
        SlotPlatform::Bttv => run_len(s, r, CharClass::LowerHex) >= 24 && end_or_space(s, r + 24),
        SlotPlatform::SevenTv => {
            &&& 0 <= r < s.len()
            &&& '0' <= s[r] <= '7'
            &&& run_len(s, r + 1, CharClass::Crockford) >= 25
            &&& end_or_space(s, r + 26)
        },
        SlotPlatform::Ffz => false,
    }
}

/// The id after the optional `emotes/`.
pub open spec fn id_after_path(s: Seq<char>, q: int, pl: SlotPlatform) -> Option<int> {
    if lit_at(s, q, "emotes/"@) && id_body(s, q + "emotes/"@.len(), pl) {
        Some(q + "emotes/"@.len())
    } else if id_body(s, q, pl) {
        Some(q)
    } else {
        None
    }
}

/// The id after the optional host.
pub open spec fn id_after_host(s: Seq<char>, q: int, pl: SlotPlatform) -> Option<int> {
    if lit_at(s, q, host_lit(pl)) && id_after_path(s, q + host_lit(pl).len(), pl) is Some {
        id_after_path(s, q + host_lit(pl).len(), pl)
    } else {
        id_after_path(s, q, pl)
    }
}

/// The id after the optional `https://` or `http://`.
pub open spec fn id_after_scheme(s: Seq<char>, q: int, pl: SlotPlatform) -> Option<int> {
    if lit_at(s, q, "https://"@) && id_after_host(s, q + "https://"@.len(), pl) is Some {
        id_after_host(s, q + "https://"@.len(), pl)
    } else if lit_at(s, q, "http://"@) && id_after_host(s, q + "http://"@.len(), pl) is Some {
        id_after_host(s, q + "http://"@.len(), pl)
    } else {
        id_after_host(s, q, pl)
    }
}

/// The id of a match starting at `p`: at the start of the text, or after a
/// space at `p`.
pub open spec fn id_at(s: Seq<char>, p: int, pl: SlotPlatform) -> Option<int> {
    if p == 0 && id_after_scheme(s, 0, pl) is Some {
        id_after_scheme(s, 0, pl)
    } else if 0 <= p < s.len() && s[p] == ' ' {
        id_after_scheme(s, p + 1, pl)
    } else {
        None
    }
}

/// The id of the leftmost match starting at `p` or later.
pub open spec fn id_search(s: Seq<char>, p: int, pl: SlotPlatform) -> Option<int>
    decreases s.len() + 1 - p,
{
    if p < 0 || p > s.len() {
        None
    } else if id_at(s, p, pl) is Some {
        id_at(s, p, pl)
    } else {
        id_search(s, p + 1, pl)
    }
}

/// Where the first BTTV or 7TV emote id in `s` starts.
pub open spec fn first_emote_id(s: Seq<char>, pl: SlotPlatform) -> Option<int> {
    id_search(s, 0, pl)
}

fn id_body_exec(s: &Vec<char>, r: usize, pl: SlotPlatform) -> (b: bool)
    requires
        r <= s@.len(),
        pl != SlotPlatform::Ffz,
    ensures
        b == id_body(s@, r as int, pl),
{
    match pl {
        SlotPlatform::Bttv => {
            let n = run_len_exec(s, r, CharClass::LowerHex);
            n >= 24 && end_or_space_exec(s, r + 24)
        },
        _ => {
            if r < s.len() && '0' <= s[r] && s[r] <= '7' {
                let n = run_len_exec(s, r + 1, CharClass::Crockford);
                n >= 25 && end_or_space_exec(s, r + 26)
            } else {
                false
            }
        },
    }
}

fn id_after_path_exec(s: &Vec<char>, q: usize, pl: SlotPlatform) -> (r: Option<usize>)
    requires
        q <= s@.len(),
        pl != SlotPlatform::Ffz,
    ensures
        opt_int(r) == id_after_path(s@, q as int, pl),
        r matches Some(v) ==> v <= s@.len(),
{
    if let Some(q2) = match_lit(s, q, "emotes/") {
        if id_body_exec(s, q2, pl) {
            return Some(q2);
        }
    }
    if id_body_exec(s, q, pl) {
        Some(q)
    } else {
        None
    }
}

fn id_after_host_exec(s: &Vec<char>, q: usize, pl: SlotPlatform) -> (r: Option<usize>)
    requires
        q <= s@.len(),
        pl != SlotPlatform::Ffz,
    ensures
        opt_int(r) == id_after_host(s@, q as int, pl),
        r matches Some(v) ==> v <= s@.len(),
{
    if let Some(q2) = match_lit(s, q, host_str(pl)) {
        let r = id_after_path_exec(s, q2, pl);
        if r.is_some() {
            return r;
        }
    }
    id_after_path_exec(s, q, pl)
}

fn id_after_scheme_exec(s: &Vec<char>, q: usize, pl: SlotPlatform) -> (r: Option<usize>)
    requires
        q <= s@.len(),
        pl != SlotPlatform::Ffz,
    ensures
        opt_int(r) == id_after_scheme(s@, q as int, pl),
        r matches Some(v) ==> v <= s@.len(),
{
    if let Some(q2) = match_lit(s, q, "https://") {
        let r = id_after_host_exec(s, q2, pl);
        if r.is_some() {
            return r;
        }
    }
    if let Some(q2) = match_lit(s, q, "http://") {
        let r = id_after_host_exec(s, q2, pl);
        if r.is_some() {
            return r;
        }
    }
    id_after_host_exec(s, q, pl)
}

fn id_at_exec(s: &Vec<char>, p: usize, pl: SlotPlatform) -> (r: Option<usize>)
    requires
        p <= s@.len(),
        pl != SlotPlatform::Ffz,
    ensures
        opt_int(r) == id_at(s@, p as int, pl),
        r matches Some(v) ==> v <= s@.len(),
{
    if p == 0 {
        let r = id_after_scheme_exec(s, 0, pl);
        if r.is_some() {
            return r;
        }
    }
    if p < s.len() && s[p] == ' ' {
        id_after_scheme_exec(s, p + 1, pl)
    } else {
        None
    }
}

/// Finds where the first BTTV or 7TV emote id in `s` starts.
pub fn find_emote_id(s: &Vec<char>, pl: SlotPlatform) -> (r: Option<usize>)
    requires
        pl != SlotPlatform::Ffz,
    ensures
        opt_int(r) == first_emote_id(s@, pl),
        r matches Some(v) ==> v + id_len(pl) <= s@.len(),
{
    let mut p: usize = 0;
    loop
        invariant
            pl != SlotPlatform::Ffz,
            p <= s@.len(),
            id_search(s@, 0, pl) == id_search(s@, p as int, pl),
        decreases s@.len() - p,
    {
        let r = id_at_exec(s, p, pl);
        if let Some(v) = r {
            proof {
                lemma_id_fits(s@, v as int, pl);
            }
            return r;
        }
        if p == s.len() {
            assert(id_search(s@, p + 1, pl) is None);
            return None;
        }
        p = p + 1;
    }
}

proof fn lemma_id_fits(s: Seq<char>, r: int, pl: SlotPlatform)
    requires
        0 <= r <= s.len(),
        pl != SlotPlatform::Ffz,
        id_body(s, r, pl),
    ensures
        r + id_len(pl) <= s.len(),
{
    match pl {
        SlotPlatform::Bttv => lemma_run_len_bound(s, r, CharClass::LowerHex),
        _ => lemma_run_len_bound(s, r + 1, CharClass::Crockford),
    }
}

/// The length of an FFZ id (a run of `\d`) at `r`, when it is followed by
/// the end of the text, a space, or `-` and a name made of `[\w_!]` that is
/// followed by the end of the text or a space.
pub open spec fn ffz_body(s: Seq<char>, r: int) -> Option<int> {
    let d = run_len(s, r, CharClass::Digit) as int;
    let q = r + d;
    let w = run_len(s, q + 1, CharClass::WordOrBang) as int;
    if d == 0 {
        None
    } else if 0 <= q < s.len() && s[q] == '-' && w >= 1 && end_or_space(s, q + 1 + w) {
        Some(d)
    } else if end_or_space(s, q) {
        Some(d)
    } else {
        None
    }
}

/// The FFZ id after the mandatory `emoticon/`.
pub open spec fn ffz_after_path(s: Seq<char>, q: int) -> Option<(int, int)> {
    let r = q + "emoticon/"@.len();
    if lit_at(s, q, "emoticon/"@) && ffz_body(s, r) is Some {
        Some((r, ffz_body(s, r)->0))
    } else {
        None
    }
}

/// The FFZ id after the optional host.
pub open spec fn ffz_after_host(s: Seq<char>, q: int) -> Option<(int, int)> {
    let l = host_lit(SlotPlatform::Ffz);
    if lit_at(s, q, l) && ffz_after_path(s, q + l.len()) is Some {
        ffz_after_path(s, q + l.len())
    } else {
        ffz_after_path(s, q)
    }
}

/// The FFZ id after the optional `www.`.
pub open spec fn ffz_after_www(s: Seq<char>, q: int) -> Option<(int, int)> {
    if lit_at(s, q, "www."@) && ffz_after_host(s, q + "www."@.len()) is Some {
        ffz_after_host(s, q + "www."@.len())
    } else {
        ffz_after_host(s, q)
    }
}

/// The FFZ id after the optional `https://` or `http://`.
pub open spec fn ffz_after_scheme(s: Seq<char>, q: int) -> Option<(int, int)> {
    if lit_at(s, q, "https://"@) && ffz_after_www(s, q + "https://"@.len()) is Some {
        ffz_after_www(s, q + "https://"@.len())
    } else if lit_at(s, q, "http://"@) && ffz_after_www(s, q + "http://"@.len()) is Some {
        ffz_after_www(s, q + "http://"@.len())
    } else {
        ffz_after_www(s, q)
    }
}

/// The FFZ id of a match starting at `p`.
pub open spec fn ffz_at(s: Seq<char>, p: int) -> Option<(int, int)> {
    if p == 0 && ffz_after_scheme(s, 0) is Some {
        ffz_after_scheme(s, 0)
    } else if 0 <= p < s.len() && s[p] == ' ' {
        ffz_after_scheme(s, p + 1)
    } else {
        None
    }
}

/// The FFZ id of the leftmost match starting at `p` or later.
pub open spec fn ffz_search(s: Seq<char>, p: int) -> Option<(int, int)>
    decreases s.len() + 1 - p,
{
    if p < 0 || p > s.len() {
        None
    } else if ffz_at(s, p) is Some {
        ffz_at(s, p)
    } else {
        ffz_search(s, p + 1)
    }
}

/// Where the first FFZ emote id in `s` starts, and its length.
pub open spec fn first_ffz_id(s: Seq<char>) -> Option<(int, int)> {
    ffz_search(s, 0)
}

fn ffz_body_exec(s: &Vec<char>, r: usize) -> (b: Option<usize>)
    requires
        r <= s@.len(),
    ensures
        opt_int(b) == ffz_body(s@, r as int),
        b matches Some(d) ==> r + d <= s.len(),
{
    let d = run_len_exec(s, r, CharClass::Digit);
    if d == 0 {
        return None;
    }
    let q = r + d;
    if q < s.len() && s[q] == '-' {
        let w = run_len_exec(s, q + 1, CharClass::WordOrBang);
        if w >= 1 && end_or_space_exec(s, q + 1 + w) {
            return Some(d);
        }
    }
    if end_or_space_exec(s, q) {
        Some(d)
    } else {
        None
    }
}

fn ffz_after_path_exec(s: &Vec<char>, q: usize) -> (r: Option<(usize, usize)>)
    requires
        q <= s@.len(),
    ensures
        opt_span(r) == ffz_after_path(s@, q as int),
        r matches Some(v) ==> v.0 + v.1 <= s.len(),
{
    if let Some(r) = match_lit(s, q, "emoticon/") {
        if let Some(d) = ffz_body_exec(s, r) {
            return Some((r, d));
        }
    }
    None
}

fn ffz_after_host_exec(s: &Vec<char>, q: usize) -> (r: Option<(usize, usize)>)
    requires
        q <= s@.len(),
    ensures
        opt_span(r) == ffz_after_host(s@, q as int),
        r matches Some(v) ==> v.0 + v.1 <= s.len(),
{
    if let Some(q2) = match_lit(s, q, host_str(SlotPlatform::Ffz)) {
        let r = ffz_after_path_exec(s, q2);
        if r.is_some() {
            return r;
        }
    }
    ffz_after_path_exec(s, q)
}

fn ffz_after_www_exec(s: &Vec<char>, q: usize) -> (r: Option<(usize, usize)>)
    requires
        q <= s@.len(),
    ensures
        opt_span(r) == ffz_after_www(s@, q as int),
        r matches Some(v) ==> v.0 + v.1 <= s.len(),
{
    if let Some(q2) = match_lit(s, q, "www.") {
        let r = ffz_after_host_exec(s, q2);
        if r.is_some() {
            return r;
        }
    }
    ffz_after_host_exec(s, q)
}

fn ffz_after_scheme_exec(s: &Vec<char>, q: usize) -> (r: Option<(usize, usize)>)
    requires
        q <= s@.len(),
    ensures
        opt_span(r) == ffz_after_scheme(s@, q as int),
        r matches Some(v) ==> v.0 + v.1 <= s.len(),
{
    if let Some(q2) = match_lit(s, q, "https://") {
        let r = ffz_after_www_exec(s, q2);
        if r.is_some() {
            return r;
        }
    }
    if let Some(q2) = match_lit(s, q, "http://") {
        let r = ffz_after_www_exec(s, q2);
        if r.is_some() {
            return r;
        }
    }
    ffz_after_www_exec(s, q)
}

fn ffz_at_exec(s: &Vec<char>, p: usize) -> (r: Option<(usize, usize)>)
    requires
        p <= s@.len(),
    ensures
        opt_span(r) == ffz_at(s@, p as int),
        r matches Some(v) ==> v.0 + v.1 <= s.len(),
{
    if p == 0 {
        let r = ffz_after_scheme_exec(s, 0);
        if r.is_some() {
            return r;
        }
    }
    if p < s.len() && s[p] == ' ' {
        ffz_after_scheme_exec(s, p + 1)
    } else {
        None
    }
}

/// Finds the first FFZ emote id in `s`: its start and length.
pub fn find_ffz_id(s: &Vec<char>) -> (r: Option<(usize, usize)>)
    ensures
        opt_span(r) == first_ffz_id(s@),
        r matches Some(v) ==> v.0 + v.1 <= s.len(),
{
    let mut p: usize = 0;
    loop
        invariant
            p <= s@.len(),
            ffz_search(s@, 0) == ffz_search(s@, p as int),
        decreases s@.len() - p,
    {
        let r = ffz_at_exec(s, p);
        if r.is_some() {
            return r;
        }
        if p == s.len() {
            assert(ffz_search(s@, p + 1) is None);
            return None;
        }
        p = p + 1;
    }
}

/// The longest alias length at most `k` (and at least 2) after which a word
/// boundary lies.
pub open spec fn alias_len_from(s: Seq<char>, r: int, k: int) -> Option<int>
    decreases k,
{
    if k < 2 {
        None
    } else if word_boundary(s, r + k) {
        Some(k)
    } else {
        alias_len_from(s, r, k - 1)
    }
}

/// The length of an alias at `r`: 2 to 100 alias characters followed by a
/// word boundary, as many as possible.
pub open spec fn alias_body(s: Seq<char>, r: int) -> Option<int> {
    let n = run_len(s, r, CharClass::AliasChar) as int;
    alias_len_from(s, r, if n > 100 {
        100
    } else {
        n
    })
}

/// The alias of a match at `p`: after a space at `p`, or at the start.
pub open spec fn alias_at(s: Seq<char>, p: int) -> Option<(int, int)> {
    if 0 <= p < s.len() && s[p] == ' ' && lit_at(s, p + 1, "as="@) && alias_body(
        s,
        p + 1 + "as="@.len(),
    ) is Some {
        Some((p + 1 + "as="@.len(), alias_body(s, p + 1 + "as="@.len())->0))
    } else if p == 0 && lit_at(s, 0, "as="@) && alias_body(s, "as="@.len() as int) is Some {
        Some(("as="@.len() as int, alias_body(s, "as="@.len() as int)->0))
    } else {
        None
    }
}

/// The alias of the leftmost match at `p` or later.
pub open spec fn alias_search(s: Seq<char>, p: int) -> Option<(int, int)>
    decreases s.len() + 1 - p,
{
    if p < 0 || p > s.len() {
        None
    } else if alias_at(s, p) is Some {
        alias_at(s, p)
    } else {
        alias_search(s, p + 1)
    }
}

/// The first alias (`as=name`) in `s`: its start and length.
pub open spec fn first_alias(s: Seq<char>) -> Option<(int, int)> {
    alias_search(s, 0)
}

fn alias_body_exec(s: &Vec<char>, r: usize) -> (b: Option<usize>)
    requires
        r <= s@.len(),
    ensures
        opt_int(b) == alias_body(s@, r as int),
        b matches Some(k) ==> 2 <= k && r + k <= s.len(),
{
    let n = run_len_exec(s, r, CharClass::AliasChar);
    let mut k = if n > 100 {
        100
    } else {
        n
    };
    while k >= 2
        invariant
            k <= n,
            r + n <= s.len(),
            alias_body(s@, r as int) == alias_len_from(s@, r as int, k as int),
        decreases k,
    {
        if word_boundary_exec(s, r + k) {
            return Some(k);
        }
        k = k - 1;
    }
    None
}

fn alias_at_exec(s: &Vec<char>, p: usize) -> (r: Option<(usize, usize)>)
    requires
        p <= s@.len(),
    ensures
        opt_span(r) == alias_at(s@, p as int),
        r matches Some(v) ==> v.0 + v.1 <= s.len(),
{
    if p < s.len() && s[p] == ' ' {
        if let Some(r) = match_lit(s, p + 1, "as=") {
            if let Some(k) = alias_body_exec(s, r) {
                return Some((r, k));
            }
        }
    }
    if p == 0 {
        if let Some(r) = match_lit(s, 0, "as=") {
            if let Some(k) = alias_body_exec(s, r) {
                return Some((r, k));
            }
        }
    }
    None
}

/// Finds the first alias (`as=name`) in `s`: its start and length.
pub fn find_alias(s: &Vec<char>) -> (r: Option<(usize, usize)>)
    ensures
        opt_span(r) == first_alias(s@),
        r matches Some(v) ==> v.0 + v.1 <= s.len(),
{
    let mut p: usize = 0;
    loop
        invariant
            p <= s@.len(),
            alias_search(s@, 0) == alias_search(s@, p as int),
        decreases s@.len() - p,
    {
        let r = alias_at_exec(s, p);
        if r.is_some() {
            return r;
        }
        if p == s.len() {
            assert(alias_search(s@, p + 1) is None);
            return None;
        }
        p = p + 1;
    }
}

/// The start of an FFZ emote page link.
pub open spec fn ffz_link_prefix() -> Seq<char> {
    "https://www.frankerfacez.com/emoticon/"@
}

proof fn lemma_ffz_link_prefix()
    ensures
        ffz_link_prefix().len() == 38,
        forall|k: int| 0 <= k < 38 ==> !('0' <= #[trigger] ffz_link_prefix()[k] <= '9'),
        forall|k: int| 0 <= k < 38 ==> (#[trigger] ffz_link_prefix()[k] as u32) < 128,
        ffz_link_prefix().subrange(0, 8) == "https://"@,
        ffz_link_prefix().subrange(8, 12) == "www."@,
        ffz_link_prefix().subrange(12, 29) == host_lit(SlotPlatform::Ffz),
        ffz_link_prefix().subrange(29, 38) == "emoticon/"@,
{
    reveal_strlit("https://www.frankerfacez.com/emoticon/");
    reveal_strlit("https://");
    reveal_strlit("www.");
    reveal_strlit("frankerfacez.com/");
    reveal_strlit("emoticon/");
    assert(ffz_link_prefix().subrange(0, 8) =~= "https://"@);
    assert(ffz_link_prefix().subrange(8, 12) =~= "www."@);
    assert(ffz_link_prefix().subrange(12, 29) =~= host_lit(SlotPlatform::Ffz));
    assert(ffz_link_prefix().subrange(29, 38) =~= "emoticon/"@);
}

/// What may follow an FFZ id in a link: nothing, or `-` and the emote's
/// name.
pub open spec fn ffz_name_tail(name: Seq<char>) -> Seq<char> {
    if name.len() == 0 {
        seq![]
    } else {
        seq!['-'] + name
    }
}

/// An FFZ id found at `a` with `n` digits: a run of `\d` right after
/// `emoticon/`.
spec fn ffz_hit(s: Seq<char>, a: int, n: int) -> bool {
    &&& lit_at(s, a - 9, "emoticon/"@)
    &&& n >= 1
    &&& n == run_len(s, a, CharClass::Digit)
}

proof fn lemma_path_hit(s: Seq<char>, q: int)
    ensures
        ffz_after_path(s, q) matches Some((a, n)) ==> ffz_hit(s, a, n),
{
    reveal_strlit("emoticon/");
}

proof fn lemma_host_hit(s: Seq<char>, q: int)
    ensures
        ffz_after_host(s, q) matches Some((a, n)) ==> ffz_hit(s, a, n),
{
    lemma_path_hit(s, q);
    lemma_path_hit(s, q + host_lit(SlotPlatform::Ffz).len());
}

proof fn lemma_www_hit(s: Seq<char>, q: int)
    ensures
        ffz_after_www(s, q) matches Some((a, n)) ==> ffz_hit(s, a, n),
{
    lemma_host_hit(s, q);
    lemma_host_hit(s, q + "www."@.len());
}

proof fn lemma_scheme_hit(s: Seq<char>, q: int)
    ensures
        ffz_after_scheme(s, q) matches Some((a, n)) ==> ffz_hit(s, a, n),
{
    lemma_www_hit(s, q);
    lemma_www_hit(s, q + "https://"@.len());
    lemma_www_hit(s, q + "http://"@.len());
}

proof fn lemma_search_hit(s: Seq<char>, p: int)
    ensures
        ffz_search(s, p) matches Some((a, n)) ==> ffz_hit(s, a, n),
    decreases s.len() + 1 - p,
{
    if 0 <= p <= s.len() {
        lemma_scheme_hit(s, 0);
        lemma_scheme_hit(s, p + 1);
        if ffz_at(s, p) is None {
            lemma_search_hit(s, p + 1);
        }
    }
}

proof fn lemma_search_finds(s: Seq<char>, p0: int, p: int)
    requires
        0 <= p0 <= p <= s.len(),
        ffz_at(s, p) is Some,
    ensures
        ffz_search(s, p0) is Some,
    decreases p - p0,
{
    if p0 < p && ffz_at(s, p0) is None {
        lemma_search_finds(s, p0 + 1, p);
    }
}

/// An FFZ link may follow other words: in a text that ends with a space and
/// holds no digit, a link to an FFZ emote (`https://www.frankerfacez.com/emoticon/`,
/// its id, and optionally `-` and the emote's name) is found, and the id
/// found is the link's.
pub proof fn law_ffz_link_after_words(t: Seq<char>, d: Seq<char>, name: Seq<char>)
    requires
        t.len() >= 1,
        t[t.len() - 1] == ' ',
        forall|i: int| 0 <= i < t.len() ==> !in_class(#[trigger] t[i], CharClass::Digit),
        d.len() >= 1,
        forall|i: int| 0 <= i < d.len() ==> '0' <= #[trigger] d[i] <= '9',
        forall|i: int| 0 <= i < name.len() ==> in_class(#[trigger] name[i], CharClass::WordOrBang),
    ensures
        first_ffz_id(t + ffz_link_prefix() + d + ffz_name_tail(name)) == Some(
            ((t.len() + ffz_link_prefix().len()) as int, d.len() as int),
        ),
{
    lemma_ffz_link_prefix();
    reveal_strlit("https://");
    reveal_strlit("http://");
    reveal_strlit("www.");
    reveal_strlit("frankerfacez.com/");
    reveal_strlit("emoticon/");
    let pre = ffz_link_prefix();
    let tail = ffz_name_tail(name);
    let s = t + pre + d + tail;
    let tl = t.len() as int;
    let a0 = tl + 38;
    let e = a0 + d.len();
    assert(s.len() == e + tail.len());
    assert forall|i: int| 0 <= i < tl implies #[trigger] s[i] == t[i] by {}
    assert forall|k: int| 0 <= k < 38 implies #[trigger] s[tl + k] == pre[k] by {}
    assert forall|k: int| 0 <= k < d.len() implies #[trigger] s[a0 + k] == d[k] by {}
    assert forall|k: int| 0 <= k < tail.len() implies #[trigger] s[e + k] == tail[k] by {}
    // the link's id: its digits, ended by `-` and the name or by the end
    assert forall|j: int| a0 <= j < a0 + d.len() implies in_class(#[trigger] s[j], CharClass::Digit) by {
        assert(s[a0 + (j - a0)] == d[j - a0]);
    }
    if name.len() == 0 {
        assert(e == s.len());
    } else {
        assert(s[e] == '-');
    }
    lemma_run_exact(s, a0, d.len() as int, CharClass::Digit);
    if name.len() > 0 {
        assert forall|j: int| e + 1 <= j < e + 1 + name.len() implies in_class(#[trigger] s[j], CharClass::WordOrBang) by {
            assert(s[e + (j - e)] == tail[j - e]);
            assert(tail[j - e] == name[j - e - 1]);
        }
        lemma_run_exact(s, e + 1, name.len() as int, CharClass::WordOrBang);
    }
    assert(ffz_body(s, a0) == Some(d.len() as int));
    // the link's literals
    assert(lit_at(s, tl, "https://"@)) by {
        assert(s.subrange(tl, tl + 8) =~= pre.subrange(0, 8));
    }
    assert(lit_at(s, tl + 8, "www."@)) by {
        assert(s.subrange(tl + 8, tl + 12) =~= pre.subrange(8, 12));
    }
    assert(lit_at(s, tl + 12, host_lit(SlotPlatform::Ffz))) by {
        assert(s.subrange(tl + 12, tl + 29) =~= pre.subrange(12, 29));
    }
    assert(lit_at(s, tl + 29, "emoticon/"@)) by {
        assert(s.subrange(tl + 29, a0) =~= pre.subrange(29, 38));
    }
    assert(ffz_after_path(s, tl + 29) == Some((a0, d.len() as int)));
    assert(ffz_after_scheme(s, tl) == Some((a0, d.len() as int)));
    assert(ffz_at(s, tl - 1) is Some);
    lemma_search_finds(s, 0, tl - 1);
    lemma_search_hit(s, 0);
    let (a, n) = first_ffz_id(s)->0;
    assert(ffz_hit(s, a, n));
    assert(s.subrange(a - 9, a)[8] == '/');
    assert(s[a - 1] == '/');
    assert(0 <= a < s.len() && in_class(s[a], CharClass::Digit));
    if a < tl {
        assert(s[a] == t[a]);
    } else if a < a0 {
        assert(s[tl + (a - tl)] == pre[a - tl]);
    } else if a0 < a <= e {
        assert(s[a0 + (a - 1 - a0)] == d[a - 1 - a0]);
    } else if a > e {
        assert(s[e + (a - 1 - e)] == tail[a - 1 - e]);
        if a - 1 > e {
            assert(tail[a - 1 - e] == name[a - 2 - e]);
        }
    }
    assert(a == a0);
}

} // verus!
