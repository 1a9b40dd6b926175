//! Twitch API results as the bot handles them: how a failed request is
//! classified, which users must still be fetched, and which EventSub
//! subscriptions are cleaned up.

use crate::http::{status_display, status_text};
use crate::grammar::{lit_at, lit_at_exec, match_lit, opt_int, run_len, run_len_exec, CharClass};
use crate::text::{chars_of, str_eq};
use vstd::prelude::*;

verus! {

/// The HTTP method of a Helix request.
#[derive(Clone, Copy, Debug, PartialEq, Eq, Structural)]
pub enum HelixMethod {
    Get,
    Put,
    Post,
    Patch,
    Delete,
}

/// How Helix answered a request it did not fulfil.
#[derive(Debug)]
pub enum HelixAnswer {
    /// An error response with its status and message.
    Error(u16, String),
    /// The body was not UTF-8.
    Utf8,
    /// The body could not be deserialized.
    Deserialize,
    /// The response made no sense; its status and reason.
    InvalidResponse(u16, String),
    /// Anything else.
    Other,
}

/// Why a request could not be built.
#[derive(Clone, Copy, Debug, PartialEq, Eq, Structural)]
pub enum CreateFailure {
    Http,
    Serialize,
    InvalidUri,
    Custom,
    Other,
}

/// A failed Helix request, as the client reports it.
#[derive(Debug)]
pub enum HelixFailure {
    /// The HTTP client failed.
    Request,
    /// There is no further page.
    NoPage,
    /// The request could not be built.
    Create(CreateFailure),
    /// Helix answered with an error.
    Helix(HelixMethod, HelixAnswer),
    /// A custom client error.
    Custom,
    /// The HTTP layer failed.
    Hyper,
    /// Anything else.
    Other,
}

/// The errors of the bot's Twitch requests.
#[derive(Debug)]
pub enum TwitchApiError {
    ReqwestError,
    HttpCrateError,
    NoPage,
    InvalidUri,
    Utf8,
    Serde,
    /// Twitch's status code and message.
    Response(u16, String),
    Custom,
    Unknown,
    Other(String),
}

/// The error a Helix answer becomes; a DELETE never reports a body that
/// failed to deserialize, so such an answer counts as unknown there.
pub open spec fn answer_error(method: HelixMethod, answer: HelixAnswer) -> TwitchApiError {
    match answer {
        HelixAnswer::Error(status, message) => TwitchApiError::Response(status, message),
        HelixAnswer::Utf8 => TwitchApiError::Utf8,
        HelixAnswer::Deserialize => if method == HelixMethod::Delete {
            TwitchApiError::Unknown
        } else {
            TwitchApiError::Serde
        },
        HelixAnswer::InvalidResponse(status, reason) => TwitchApiError::Response(status, reason),
        HelixAnswer::Other => TwitchApiError::Unknown,
    }
}

/// The error a failed request becomes.
pub open spec fn failure_error(f: HelixFailure) -> TwitchApiError {
    match f {
        HelixFailure::Request => TwitchApiError::ReqwestError,
        HelixFailure::NoPage => TwitchApiError::NoPage,
        HelixFailure::Create(c) => match c {
            CreateFailure::Http => TwitchApiError::HttpCrateError,
            CreateFailure::Serialize => TwitchApiError::Serde,
            CreateFailure::InvalidUri => TwitchApiError::InvalidUri,
            CreateFailure::Custom => TwitchApiError::Custom,
            CreateFailure::Other => TwitchApiError::Unknown,
        },
        HelixFailure::Helix(m, a) => answer_error(m, a),
        HelixFailure::Custom => TwitchApiError::Custom,
        HelixFailure::Hyper => TwitchApiError::ReqwestError,
        HelixFailure::Other => TwitchApiError::Unknown,
    }
}

/// The text a Twitch error is shown with: Twitch's status (number and
/// reason phrase) and message for an error response, a fixed text for the
/// other kinds.
pub open spec fn twitch_error_text(e: TwitchApiError) -> Seq<char> {
    match e {
        TwitchApiError::ReqwestError => "Reqwest Error"@,
        TwitchApiError::HttpCrateError => "Http crate error"@,
        TwitchApiError::NoPage => "No Page"@,
        TwitchApiError::InvalidUri => "Invalid Uri"@,
        TwitchApiError::Utf8 => "Invalid Utf8 received"@,
        TwitchApiError::Serde => "Serde error"@,
        TwitchApiError::Response(status, message) => "TwitchError: "@ + status_display(status) + " - "@
            + message@,
        TwitchApiError::Custom => "Some custom error"@,
        TwitchApiError::Unknown => "Unknown and unexpected Twitch error (no further info)"@,
        TwitchApiError::Other(m) => m@,
    }
}

impl TwitchApiError {
    /// Classifies a failed request; only the status and message of an error
    /// response are kept.
    pub fn from(e: HelixFailure) -> (r: TwitchApiError)
        ensures
            r == failure_error(e),
    {
        match e {
            HelixFailure::Request => TwitchApiError::ReqwestError,
            HelixFailure::NoPage => TwitchApiError::NoPage,
            HelixFailure::Create(c) => match c {
                CreateFailure::Http => TwitchApiError::HttpCrateError,
                CreateFailure::Serialize => TwitchApiError::Serde,
                CreateFailure::InvalidUri => TwitchApiError::InvalidUri,
                CreateFailure::Custom => TwitchApiError::Custom,
                CreateFailure::Other => TwitchApiError::Unknown,
            },
            HelixFailure::Helix(m, a) => match a {
                HelixAnswer::Error(status, message) => TwitchApiError::Response(status, message),
                HelixAnswer::Utf8 => TwitchApiError::Utf8,
                HelixAnswer::Deserialize => match m {
                    HelixMethod::Delete => TwitchApiError::Unknown,
                    _ => TwitchApiError::Serde,
                },
                HelixAnswer::InvalidResponse(status, reason) => TwitchApiError::Response(status, reason),
                HelixAnswer::Other => TwitchApiError::Unknown,
            },
            HelixFailure::Custom => TwitchApiError::Custom,
            HelixFailure::Hyper => TwitchApiError::ReqwestError,
            HelixFailure::Other => TwitchApiError::Unknown,
        }
    }

    /// The text the error is shown with.
    pub fn message(&self) -> (r: String)
        requires
            self matches TwitchApiError::Response(s, _) ==> 100 <= *s && *s <= 999,
        ensures
            r@ == twitch_error_text(*self),
    {
        match self {
            TwitchApiError::ReqwestError => String::from_str("Reqwest Error"),
            TwitchApiError::HttpCrateError => String::from_str("Http crate error"),
            TwitchApiError::NoPage => String::from_str("No Page"),
            TwitchApiError::InvalidUri => String::from_str("Invalid Uri"),
            TwitchApiError::Utf8 => String::from_str("Invalid Utf8 received"),
            TwitchApiError::Serde => String::from_str("Serde error"),
            TwitchApiError::Response(status, message) => {
                let mut t = String::from_str("TwitchError: ");
                t.append(status_text(*status).as_str());
                t.append(" - ");
                t.append(message.as_str());
                t
            },
            TwitchApiError::Custom => String::from_str("Some custom error"),
            TwitchApiError::Unknown => String::from_str("Unknown and unexpected Twitch error (no further info)"),
            TwitchApiError::Other(m) => String::from_str(m.as_str()),
        }
    }

    /// The HTTP status the bot's API answers with: Twitch's own for an error
    /// response, 500 for everything else.
    pub fn status_code(&self) -> (r: u16)
        ensures
            match self {
                TwitchApiError::Response(s, _) => r == *s,
                _ => r == 500,
            },
    {
        match self {
            TwitchApiError::Response(s, _) => *s,
            _ => 500,
        }
    }
}

/// What is known of a list of users before asking Twitch: either every
/// user is in the cache, or some must still be fetched, or the cache could
/// not be read and all must be fetched.
pub enum UserLookup<T> {
    /// All users, in the order of the ids.
    AllCached(Vec<T>),
    /// The cached users in the order of their ids, and the ids to fetch.
    Partial(Vec<T>, Vec<String>),
    /// The cache gave no usable answer: fetch all ids.
    FetchAll(Vec<String>),
}

/// The cached users among `cached`, in order.
pub open spec fn hits<T>(cached: Seq<Option<T>>) -> Seq<T>
    decreases cached.len(),
{
    if cached.len() == 0 {
        Seq::empty()
    } else {
        match cached.last() {
            Some(u) => hits(cached.drop_last()).push(u),
            None => hits(cached.drop_last()),
        }
    }
}

/// The ids whose users are not cached, in order.
pub open spec fn misses<T>(ids: Seq<String>, cached: Seq<Option<T>>) -> Seq<String>
    decreases cached.len(),
{
    if cached.len() == 0 || ids.len() != cached.len() {
        Seq::empty()
    } else {
        match cached.last() {
            Some(_) => misses(ids.drop_last(), cached.drop_last()),
            None => misses(ids.drop_last(), cached.drop_last()).push(ids.last()),
        }
    }
}

/// Looking users up loses no id: every id is either answered by the cache
/// or left to fetch.
pub proof fn law_lookup_partition<T>(ids: Seq<String>, cached: Seq<Option<T>>)
    requires
        ids.len() == cached.len(),
    ensures
        hits(cached).len() + misses(ids, cached).len() == ids.len(),
    decreases cached.len(),
{
    if cached.len() > 0 {
        law_lookup_partition(ids.drop_last(), cached.drop_last());
    }
}

/// Splits the ids by what the cache answered: an answer for every id is
/// used, any other answer is ignored.
pub fn plan_user_lookup<T>(ids: Vec<String>, cached: Option<Vec<Option<T>>>) -> (r: UserLookup<T>)
    ensures
        match cached {
            Some(c) => if c@.len() == ids@.len() {
                if misses(ids@, c@).len() == 0 {
                    r matches UserLookup::AllCached(done) && done@ == hits(c@)
                } else {
                    r matches UserLookup::Partial(done, pending) && done@ == hits(c@) && pending@
                        == misses(ids@, c@)
                }
            } else {
                r matches UserLookup::FetchAll(all) && all@ == ids@
            },
            None => r matches UserLookup::FetchAll(all) && all@ == ids@,
        },
{
    let cached = match cached {
        Some(c) => c,
        None => return UserLookup::FetchAll(ids),
    };
    if cached.len() != ids.len() {
        return UserLookup::FetchAll(ids);
    }
    let ghost all_ids = ids@;
    let ghost all_cached = cached@;
    let n = ids.len();
    let mut ids = ids;
    let mut cached = cached;
    let mut done: Vec<T> = Vec::new();
    let mut pending: Vec<String> = Vec::new();
    let mut i: usize = 0;
    while i < n
        invariant
            n == all_ids.len(),
            n == all_cached.len(),
            i <= n,
            ids@ == all_ids.skip(i as int),
            cached@ == all_cached.skip(i as int),
            done@ == hits(all_cached.take(i as int)),
            pending@ == misses(all_ids.take(i as int), all_cached.take(i as int)),
        decreases n - i,
    {
        proof {
            assert(all_cached.take(i + 1).drop_last() =~= all_cached.take(i as int));
            assert(all_ids.take(i + 1).drop_last() =~= all_ids.take(i as int));
            assert(all_cached.take(i + 1).last() == all_cached[i as int]);
            assert(all_ids.take(i + 1).last() == all_ids[i as int]);
        }
        let id = ids.remove(0);
        let c = cached.remove(0);
        assert(ids@ =~= all_ids.skip(i + 1));
        assert(cached@ =~= all_cached.skip(i + 1));
        match c {
            Some(u) => done.push(u),
            None => pending.push(id),
        }
        i = i + 1;
    }
    proof {
        assert(all_cached.take(n as int) =~= all_cached);
        assert(all_ids.take(n as int) =~= all_ids);
    }
    if pending.len() == 0 {
        UserLookup::AllCached(done)
    } else {
        UserLookup::Partial(done, pending)
    }
}

// ---------------------------------------------------------------------------
// The ngrok pattern `https?://[\w_-]+(:?\.\w+)?.ngrok.io`, found anywhere in a
// webhook callback. The regex `.` stands for any character but a line feed.

/// The regex `.` at `p`: any character but a line feed.
pub open spec fn dot_at(s: Seq<char>, p: int) -> bool {
    0 <= p < s.len() && s[p] != '\n'
}

/// `.ngrok.io` at `p`.
pub open spec fn ngrok_tail_at(s: Seq<char>, p: int) -> bool {
    &&& dot_at(s, p)
    &&& lit_at(s, p + 1, "ngrok"@)
    &&& dot_at(s, p + 6)
    &&& lit_at(s, p + 7, "io"@)
}

/// `\.\w+.ngrok.io` at `d`.
pub open spec fn subdomain_tail_at(s: Seq<char>, d: int) -> bool {
    &&& lit_at(s, d, "."@)
    &&& exists|e: int|
        d + 1 < e <= d + 1 + run_len(s, d + 1, CharClass::Word) && #[trigger] ngrok_tail_at(s, e)
}

/// `(:?\.\w+)?.ngrok.io` at `q`, right after the host name.
pub open spec fn after_host(s: Seq<char>, q: int) -> bool {
    ||| ngrok_tail_at(s, q)
    ||| subdomain_tail_at(s, q)
    ||| lit_at(s, q, ":"@) && subdomain_tail_at(s, q + 1)
}

/// Where the host name starts when `https?://` opens at `i`.
pub open spec fn scheme_end(s: Seq<char>, i: int) -> Option<int> {
    if lit_at(s, i, "http://"@) {
        Some(i + 7)
    } else if lit_at(s, i, "https://"@) {
        Some(i + 8)
    } else {
        None
    }
}

/// The ngrok pattern matches from position `i`.
pub open spec fn ngrok_at(s: Seq<char>, i: int) -> bool {
    match scheme_end(s, i) {
        Some(j) => exists|q: int|
            j < q <= j + run_len(s, j, CharClass::WordOrDash) && #[trigger] after_host(s, q),
        None => false,
    }
}

/// Whether a webhook callback points at a temporary ngrok tunnel: the
/// pattern matches somewhere in it.
pub open spec fn ngrok_callback(callback: Seq<char>) -> bool {
    exists|i: int| 0 <= i < callback.len() && #[trigger] ngrok_at(callback, i)
}

fn dot_at_exec(v: &Vec<char>, p: usize) -> (r: bool)
    ensures
        r == dot_at(v@, p as int),
{
    p < v.len() && v[p] != '\n'
}

fn ngrok_tail_at_exec(v: &Vec<char>, p: usize) -> (r: bool)
    ensures
        r == ngrok_tail_at(v@, p as int),
{
    if p >= v.len() || v[p] == '\n' {
        return false;
    }
    if !lit_at_exec(v, p + 1, "ngrok") {
        return false;
    }
    proof {
        reveal_strlit("ngrok");
    }
    dot_at_exec(v, p + 6) && lit_at_exec(v, p + 7, "io")
}

fn subdomain_tail_at_exec(v: &Vec<char>, d: usize) -> (r: bool)
    requires
        d <= v@.len(),
    ensures
        r == subdomain_tail_at(v@, d as int),
{
    if d >= v.len() || !lit_at_exec(v, d, ".") {
        return false;
    }
    proof {
        reveal_strlit(".");
    }
    let b = d + 1;
    let m = run_len_exec(v, b, CharClass::Word);
    let end = b + m;
    let mut e = b;
    while e < end
        invariant
            b == d + 1,
            lit_at(v@, d as int, "."@),
            end == b + m,
            end <= v@.len(),
            m == run_len(v@, b as int, CharClass::Word),
            b <= e <= end,
            forall|x: int| b < x <= e ==> !#[trigger] ngrok_tail_at(v@, x),
        decreases end - e,
    {
        e = e + 1;
        if ngrok_tail_at_exec(v, e) {
            return true;
        }
    }
    false
}

fn after_host_exec(v: &Vec<char>, q: usize) -> (r: bool)
    requires
        q <= v@.len(),
    ensures
        r == after_host(v@, q as int),
{
    if ngrok_tail_at_exec(v, q) {
        return true;
    }
    if subdomain_tail_at_exec(v, q) {
        return true;
    }
    if q < v.len() && lit_at_exec(v, q, ":") {
        proof {
            reveal_strlit(":");
        }
        subdomain_tail_at_exec(v, q + 1)
    } else {
        false
    }
}

fn scheme_end_exec(v: &Vec<char>, i: usize) -> (r: Option<usize>)
    ensures
        opt_int(r) == scheme_end(v@, i as int),
        r matches Some(j) ==> j <= v@.len(),
{
    match match_lit(v, i, "http://") {
        Some(j) => {
            proof {
                reveal_strlit("http://");
            }
            Some(j)
        },
        None => match match_lit(v, i, "https://") {
            Some(j) => {
                proof {
                    reveal_strlit("https://");
                }
                Some(j)
            },
            None => None,
        },
    }
}

/// Decides `ngrok_callback`.
pub fn is_ngrok_callback(callback: &str) -> (r: bool)
    ensures
        r == ngrok_callback(callback@),
{
    let v = chars_of(callback);
    let mut i: usize = 0;
    while i < v.len()
        invariant
            v@ == callback@,
            i <= v@.len(),
            forall|x: int| 0 <= x < i ==> !#[trigger] ngrok_at(v@, x),
        decreases v@.len() - i,
    {
        if let Some(j) = scheme_end_exec(&v, i) {
            let m = run_len_exec(&v, j, CharClass::WordOrDash);
            let end = j + m;
            let mut q = j;
            while q < end
                invariant
                    v@ == callback@,
                    end == j + m,
                    end <= v@.len(),
                    m == run_len(v@, j as int, CharClass::WordOrDash),
                    scheme_end(v@, i as int) == Some(j as int),
                    i < v@.len(),
                    j <= q <= end,
                    forall|x: int| j < x <= q ==> !#[trigger] after_host(v@, x),
                decreases end - q,
            {
                q = q + 1;
                if after_host_exec(&v, q) {
                    assert(ngrok_at(v@, i as int));
                    return true;
                }
            }
        }
        i = i + 1;
    }
    false
}

/// `prefix` opens `s`.
pub open spec fn starts_with(s: Seq<char>, prefix: Seq<char>) -> bool {
    prefix.len() <= s.len() && s.subrange(0, prefix.len() as int) == prefix
}

/// Whether `s` opens with `prefix`.
pub fn str_starts_with(s: &str, prefix: &str) -> (r: bool)
    ensures
        r == starts_with(s@, prefix@),
{
    let n = prefix.unicode_len();
    if n > s.unicode_len() {
        return false;
    }
    str_eq(s.substring_char(0, n), prefix)
}

/// What becomes of a webhook subscription: whether it is forgotten in the
/// database and whether it is deleted on Twitch.
pub open spec fn cleanup_of(enabled: bool, callback: Seq<char>, server_url: Seq<char>) -> (bool, bool) {
    let this_server = starts_with(callback, server_url);
    (!enabled || !this_server, !enabled || (!this_server && ngrok_callback(callback)))
}

/// Decides what becomes of a webhook subscription: one that is disabled or
/// calls another server is forgotten; one that is disabled, or calls
/// another server through an ngrok tunnel, is deleted on Twitch too.
pub fn subscription_cleanup(enabled: bool, callback: &str, server_url: &str) -> (r: (bool, bool))
    ensures
        r == cleanup_of(enabled, callback@, server_url@),
{
    let this_server = str_starts_with(callback, server_url);
    let forget = !enabled || !this_server;
    let delete = !enabled || (!this_server && is_ngrok_callback(callback));
    (forget, delete)
}

} // verus!
