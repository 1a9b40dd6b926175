//! Reading FrankerFaceZ's web pages: the channels the bot edits (from the
//! front page) and the outcome of adding or removing an emote (from the
//! page the request leads to).

use crate::grammar::{lit_at, match_lit, run_len, run_len_exec, CharClass};
use crate::text::{chars_of, str_eq};
use vstd::prelude::*;

verus! {

/// The opening of a channel entry on the front page.
pub open spec fn channel_lit() -> Seq<char> {
    "<li><a href=\"/channel/"@
}

/// The characters `[^My ]` that follow a channel entry's link.
pub open spec fn not_my(c: char) -> bool {
    c != 'M' && c != 'y' && c != ' '
}

/// The length of the channel name of an entry starting at `p`.
pub open spec fn entry_name_len(s: Seq<char>, p: int) -> nat {
    run_len(s, p + channel_lit().len(), CharClass::Word)
}

/// A channel entry `<li><a href="/channel/NAME">xyz` starts at `p`, where
/// NAME is a run of word characters and `xyz` are three characters none of
/// which is `M`, `y` or a space.
pub open spec fn entry_at(s: Seq<char>, p: int) -> bool {
    let a = p + channel_lit().len();
    let n = entry_name_len(s, p);
    let q = a + n + 2;
    &&& 0 <= p
    &&& lit_at(s, p, channel_lit())
    &&& n >= 1
    &&& lit_at(s, a + n, "\">"@)
    &&& q + 3 <= s.len()
    &&& not_my(s[q])
    &&& not_my(s[q + 1])
    &&& not_my(s[q + 2])
}

/// Where the entry starting at `p` ends.
pub open spec fn entry_end(s: Seq<char>, p: int) -> int {
    p + channel_lit().len() + entry_name_len(s, p) + 5
}

/// The names of the channel entries from `p` on, found one after another
/// without overlap.
pub open spec fn channels_from(s: Seq<char>, p: int) -> Seq<Seq<char>>
    decreases s.len() + 1 - p,
{
    if p < 0 || p > s.len() {
        Seq::empty()
    } else if entry_at(s, p) {
        let a = p + channel_lit().len();
        seq![s.subrange(a, a + entry_name_len(s, p))] + channels_from(s, entry_end(s, p))
    } else {
        channels_from(s, p + 1)
    }
}

/// The texts of a list of strings.
pub open spec fn texts(v: Seq<String>) -> Seq<Seq<char>> {
    v.map_values(|x: String| x@)
}

fn entry_at_exec(s: &Vec<char>, p: usize) -> (r: Option<(usize, usize)>)
    ensures
        r is Some <==> entry_at(s@, p as int),
        r matches Some((a, n)) ==> a == p + channel_lit().len() && n == entry_name_len(s@, p as int)
            && entry_end(s@, p as int) == a + n + 5 && a + n + 5 <= s@.len(),
{
    proof {
        reveal_strlit("\">");
    }
    let a = match match_lit(s, p, "<li><a href=\"/channel/") {
        Some(a) => a,
        None => return None,
    };
    let n = run_len_exec(s, a, CharClass::Word);
    if n < 1 {
        return None;
    }
    let q = match match_lit(s, a + n, "\">") {
        Some(q) => q,
        None => return None,
    };
    if 3 <= s.len() - q && s[q] != 'M' && s[q] != 'y' && s[q] != ' ' && s[q + 1] != 'M' && s[q
        + 1] != 'y' && s[q + 1] != ' ' && s[q + 2] != 'M' && s[q + 2] != 'y' && s[q + 2] != ' ' {
        Some((a, n))
    } else {
        None
    }
}

/// Reads the channels the bot edits from FFZ's front page.
pub fn parse_channels(page: &str) -> (r: Vec<String>)
    ensures
        texts(r@) == channels_from(page@, 0),
{
    proof {
        reveal_strlit("<li><a href=\"/channel/");
    }
    let s = chars_of(page);
    let mut out: Vec<String> = Vec::new();
    let mut p: usize = 0;
    assert(texts(out@) =~= Seq::<Seq<char>>::empty());
    while p < s.len()
        invariant
            s@ == page@,
            p <= s@.len(),
            channels_from(page@, 0) == texts(out@) + channels_from(page@, p as int),
        decreases s@.len() - p,
    {
        let ghost before = out@;
        match entry_at_exec(&s, p) {
            Some((a, n)) => {
                out.push(String::from_str(page.substring_char(a, a + n)));
                proof {
                    assert(texts(out@) =~= texts(before) + seq![page@.subrange(a as int, a + n)]);
                    assert(texts(out@) + channels_from(page@, a + n + 5) =~= texts(before)
                        + channels_from(page@, p as int));
                }
                p = a + n + 5;
            },
            None => {
                p = p + 1;
            },
        }
    }
    proof {
        assert(!lit_at(page@, p as int, channel_lit()));
        assert(channels_from(page@, p + 1) =~= Seq::<Seq<char>>::empty());
        assert(texts(out@) + Seq::<Seq<char>>::empty() =~= texts(out@));
    }
    out
}

/// Whether `name` is one of `channels`.
pub fn contains_channel(channels: &Vec<String>, name: &str) -> (r: bool)
    ensures
        r == texts(channels@).contains(name@),
{
    let mut i: usize = 0;
    while i < channels.len()
        invariant
            i <= channels@.len(),
            forall|j: int| 0 <= j < i ==> channels@[j]@ != name@,
        decreases channels@.len() - i,
    {
        if str_eq(channels[i].as_str(), name) {
            assert(texts(channels@)[i as int] == name@);
            return true;
        }
        i = i + 1;
    }
    proof {
        if texts(channels@).contains(name@) {
            let j = choose|j: int| 0 <= j < texts(channels@).len() && texts(channels@)[j] == name@;
            assert(channels@[j]@ == name@);
        }
    }
    false
}

/// Whether the bot edits the channel `name` on FFZ: it is listed on the
/// front page; a page that could not be read lists nothing.
pub fn is_editor_in(page: Option<&str>, name: &str) -> (r: bool)
    ensures
        match page {
            Some(p) => r == channels_from(p@, 0).contains(name@),
            None => !r,
        },
{
    match page {
        Some(p) => {
            let channels = parse_channels(p);
            contains_channel(&channels, name)
        },
        None => false,
    }
}

/// What the bot asked FFZ to do with an emote.
#[derive(Clone, Copy, Debug, PartialEq, Eq, Structural)]
pub enum FfzChange {
    Add,
    Remove,
}

/// The words around the emote's name in FFZ's confirmation.
pub open spec fn confirmation(c: FfzChange) -> (Seq<char>, Seq<char>) {
    match c {
        FfzChange::Add => ("Added the emote "@, " to the channel"@),
        FfzChange::Remove => ("Removed the emote "@, " from the channel"@),
    }
}

/// A confirmation (`Added the emote NAME to the channel`, NAME without
/// spaces) starts at `p`.
pub open spec fn confirmed_at(s: Seq<char>, c: FfzChange, p: int) -> bool {
    let (pre, post) = confirmation(c);
    let n = run_len(s, p + pre.len(), CharClass::NotSpace);
    0 <= p && lit_at(s, p, pre) && n >= 1 && lit_at(s, p + pre.len() + n, post)
}

/// The page confirms the change somewhere.
pub open spec fn confirmed(s: Seq<char>, c: FfzChange) -> bool {
    exists|p: int| confirmed_at(s, c, p)
}

/// The opening of the alert that explains a refusal.
pub open spec fn alert_lit() -> Seq<char> {
    "&times;</span></button>\n"@
}

/// The explanation of a refusal, the line after the alert's close button
/// (which does not start with `<`), starts at `p`.
pub open spec fn reason_at(s: Seq<char>, p: int) -> bool {
    let q = p + alert_lit().len();
    let n = run_len(s, q + 1, CharClass::NotNewline);
    0 <= p && lit_at(s, p, alert_lit()) && q < s.len() && s[q] != '<' && n >= 1 && lit_at(
        s,
        q + 1 + n,
        "\n</div>"@,
    )
}

/// The first explanation at `p` or later.
pub open spec fn reason_search(s: Seq<char>, p: int) -> Option<int>
    decreases s.len() + 1 - p,
{
    if p < 0 || p > s.len() {
        None
    } else if reason_at(s, p) {
        Some(p)
    } else {
        reason_search(s, p + 1)
    }
}

/// The explanation of a refusal on the page, if there is one.
pub open spec fn reason_of(s: Seq<char>) -> Option<Seq<char>> {
    match reason_search(s, 0) {
        Some(p) => {
            let q = p + alert_lit().len();
            Some(s.subrange(q, q + 1 + run_len(s, q + 1, CharClass::NotNewline)))
        },
        None => None,
    }
}

fn confirmed_at_exec(s: &Vec<char>, c: FfzChange, p: usize) -> (r: bool)
    ensures
        r == confirmed_at(s@, c, p as int),
{
    let (pre, post) = match c {
        FfzChange::Add => ("Added the emote ", " to the channel"),
        FfzChange::Remove => ("Removed the emote ", " from the channel"),
    };
    match match_lit(s, p, pre) {
        Some(a) => {
            let n = run_len_exec(s, a, CharClass::NotSpace);
            n >= 1 && match_lit(s, a + n, post).is_some()
        },
        None => false,
    }
}

fn reason_at_exec(s: &Vec<char>, p: usize) -> (r: Option<(usize, usize)>)
    ensures
        r is Some <==> reason_at(s@, p as int),
        r matches Some((q, e)) ==> q == p + alert_lit().len() && e == q + 1 + run_len(
            s@,
            q + 1,
            CharClass::NotNewline,
        ) && e <= s@.len(),
{
    let q = match match_lit(s, p, "&times;</span></button>\n") {
        Some(q) => q,
        None => return None,
    };
    if q >= s.len() || s[q] == '<' {
        return None;
    }
    let n = run_len_exec(s, q + 1, CharClass::NotNewline);
    if n >= 1 && match_lit(s, q + 1 + n, "\n</div>").is_some() {
        Some((q, q + 1 + n))
    } else {
        None
    }
}

/// Reads the outcome of an emote change from the page FFZ answered with:
/// success when the page confirms it, otherwise the page's explanation, or
/// "No reason found".
pub fn check_for_success(page: &str, change: FfzChange) -> (r: Result<(), String>)
    ensures
        if confirmed(page@, change) {
            r is Ok
        } else {
            match reason_of(page@) {
                Some(m) => r matches Err(e) && e@ == m,
                None => r matches Err(e) && e@ == "No reason found"@,
            }
        },
{
    proof {
        reveal_strlit("Added the emote ");
        reveal_strlit("Removed the emote ");
        reveal_strlit("&times;</span></button>\n");
    }
    let s = chars_of(page);
    let mut p: usize = 0;
    while p < s.len()
        invariant
            s@ == page@,
            p <= s@.len(),
            forall|j: int| 0 <= j < p ==> !confirmed_at(page@, change, j),
        decreases s@.len() - p,
    {
        if confirmed_at_exec(&s, change, p) {
            return Ok(());
        }
        p = p + 1;
    }
    proof {
        assert forall|j: int| !confirmed_at(page@, change, j) by {
            if j >= s@.len() {
                assert(!lit_at(page@, j, confirmation(change).0));
            }
        }
    }
    let mut p: usize = 0;
    while p < s.len()
        invariant
            s@ == page@,
            p <= s@.len(),
            !confirmed(page@, change),
            reason_search(page@, 0) == reason_search(page@, p as int),
        decreases s@.len() - p,
    {
        if let Some((q, e)) = reason_at_exec(&s, p) {
            return Err(String::from_str(page.substring_char(q, e)));
        }
        p = p + 1;
    }
    assert(!reason_at(page@, p as int));
    assert(reason_search(page@, p + 1) is None);
    Err(String::from_str("No reason found"))
}

} // verus!
