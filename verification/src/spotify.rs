//! Spotify rewards: reading a track from a viewer's input, choosing among
//! search results, and reading the player API's answers.

use crate::http::{status_display, status_text};
use base64::Engine;
use crate::grammar::{in_class, lemma_run_exact, lemma_run_stops, run_len, run_len_exec, word_boundary, word_boundary_exec, CharClass};
use crate::text::chars_of;
use vstd::utf8::encode_utf8;
use vstd::prelude::*;

verus! {

/// An artist of a track.
#[derive(Debug)]
pub struct ArtistObject {
    pub name: String,
}

/// A Spotify track.
#[derive(Debug)]
pub struct TrackObject {
    pub name: String,
    pub artists: Vec<ArtistObject>,
    pub uri: String,
    pub explicit: bool,
}

/// The show an episode belongs to.
#[derive(Debug)]
pub struct SimplifiedShowObject {
    pub name: String,
}

/// A podcast episode.
#[derive(Debug)]
pub struct EpisodeObject {
    pub name: String,
    pub show: SimplifiedShowObject,
}

/// What the player is playing.
#[derive(Debug)]
pub enum PlayingItem {
    Episode(EpisodeObject),
    Track(TrackObject),
}

/// The player's state.
#[derive(Debug)]
pub struct PlayerResponse {
    pub is_playing: bool,
    pub item: Option<PlayingItem>,
}

/// A page of results.
pub struct PagingObject<T> {
    pub items: Vec<T>,
}

/// The answer to a track search.
pub struct SearchResponse {
    pub tracks: Option<PagingObject<TrackObject>>,
}

/// Spotify's answer to an authorization request.
pub struct AccessTokenResponse {
    pub access_token: String,
    pub token_type: String,
    pub scope: String,
    pub expires_in: usize,
    pub refresh_token: String,
}

/// Spotify's answer to a token refresh.
pub struct RefreshTokenResponse {
    pub access_token: String,
    pub token_type: String,
    pub scope: String,
    pub expires_in: usize,
}

/// What Spotify sends back to the bot's callback.
pub enum SpotifyAuthResponse {
    Success { code: String, state: String },
    Error { error: String, state: String },
}

/// The names of artists, joined by `, `.
pub open spec fn joined_names(artists: Seq<ArtistObject>) -> Seq<char>
    decreases artists.len(),
{
    if artists.len() == 0 {
        Seq::empty()
    } else if artists.len() == 1 {
        artists[0].name@
    } else {
        joined_names(artists.drop_last()) + ", "@ + artists.last().name@
    }
}

/// How a track is written: `"name" by artist, artist`.
pub open spec fn track_text(t: TrackObject) -> Seq<char> {
    "\""@ + t.name@ + "\" by "@ + joined_names(t.artists@)
}

impl TrackObject {
    /// Writes the track as `"name" by artist, artist`.
    pub fn to_string(&self) -> (r: String)
        ensures
            r@ == track_text(*self),
    {
        let mut s = String::from_str("\"");
        s.append(self.name.as_str());
        s.append("\" by ");
        let ghost head = s@;
        let mut i: usize = 0;
        while i < self.artists.len()
            invariant
                i <= self.artists@.len(),
                s@ == head + joined_names(self.artists@.take(i as int)),
            decreases self.artists@.len() - i,
        {
            proof {
                assert(self.artists@.take(i + 1).drop_last() =~= self.artists@.take(i as int));
                assert(self.artists@.take(i + 1).last() == self.artists@[i as int]);
            }
            if i > 0 {
                s.append(", ");
            }
            s.append(self.artists[i].name.as_str());
            proof {
                if i == 0 {
                    assert(joined_names(self.artists@.take(0)) =~= Seq::<char>::empty());
                    assert(self.artists@.take(1)[0] == self.artists@[0]);
                }
            }
            i = i + 1;
        }
        assert(self.artists@.take(self.artists@.len() as int) =~= self.artists@);
        s
    }
}

/// How the playing item is written: a track as above, an episode as
/// `episode from show`.
pub open spec fn item_text(item: PlayingItem) -> Seq<char> {
    match item {
        PlayingItem::Episode(ep) => ep.name@ + " from "@ + ep.show.name@,
        PlayingItem::Track(t) => track_text(t),
    }
}

impl PlayingItem {
    /// Writes the playing item.
    pub fn to_string(&self) -> (r: String)
        ensures
            r@ == item_text(*self),
    {
        match self {
            PlayingItem::Episode(ep) => {
                let mut s = String::from_str(ep.name.as_str());
                s.append(" from ");
                s.append(ep.show.name.as_str());
                s
            },
            PlayingItem::Track(t) => t.to_string(),
        }
    }
}

/// A Spotify id starts at `p`: a word boundary, then at least 22 ASCII
/// letters or digits up to another word boundary.
pub open spec fn spotify_id_at(s: Seq<char>, p: int) -> bool {
    let n = run_len(s, p, CharClass::AsciiAlnum);
    0 <= p <= s.len() && word_boundary(s, p) && n >= 22 && word_boundary(s, p + n)
}

/// The first position at `p` or later where a Spotify id starts.
pub open spec fn spotify_search(s: Seq<char>, p: int) -> Option<int>
    decreases s.len() + 1 - p,
{
    if p < 0 || p > s.len() {
        None
    } else if spotify_id_at(s, p) {
        Some(p)
    } else {
        spotify_search(s, p + 1)
    }
}

/// The Spotify id (`\b([A-Za-z0-9]{22,})\b`, leftmost) in a text.
pub open spec fn spotify_id_of(s: Seq<char>) -> Option<Seq<char>> {
    match spotify_search(s, 0) {
        Some(p) => Some(s.subrange(p, p + run_len(s, p, CharClass::AsciiAlnum))),
        None => None,
    }
}

/// Finds a Spotify track id (a link or a bare id) in a viewer's input.
pub fn extract_spotify_id(s: &str) -> (r: Option<&str>)
    ensures
        match spotify_id_of(s@) {
            Some(id) => r matches Some(x) && x@ == id,
            None => r is None,
        },
{
    let v = chars_of(s);
    let mut p: usize = 0;
    while p < v.len()
        invariant
            v@ == s@,
            p <= v@.len(),
            spotify_search(s@, 0) == spotify_search(s@, p as int),
        decreases v@.len() - p,
    {
        let n = run_len_exec(&v, p, CharClass::AsciiAlnum);
        if word_boundary_exec(&v, p) && n >= 22 && word_boundary_exec(&v, p + n) {
            return Some(s.substring_char(p, p + n));
        }
        p = p + 1;
    }
    assert(run_len(s@, p as int, CharClass::AsciiAlnum) == 0);
    assert(spotify_search(s@, p + 1) is None);
    None
}

/// Without a Spotify id between `a` and `b`, the search from `a` gives what
/// the search from `b` gives.
proof fn lemma_search_skip(s: Seq<char>, a: int, b: int)
    requires
        0 <= a <= b <= s.len(),
        forall|p: int| a <= p < b ==> !#[trigger] spotify_id_at(s, p),
    ensures
        spotify_search(s, a) == spotify_search(s, b),
    decreases b - a,
{
    if a < b {
        lemma_search_skip(s, a + 1, b);
    }
}

/// The start of a track's link.
pub open spec fn track_link() -> Seq<char> {
    "https://open.spotify.com/track/"@
}

/// A viewer may give a track as its bare id or as its link (with or without
/// a `?` query after the id): both name the same track.
pub proof fn law_spotify_link_or_id(id: Seq<char>, rest: Seq<char>)
    requires
        id.len() >= 22,
        forall|i: int| 0 <= i < id.len() ==> in_class(#[trigger] id[i], CharClass::AsciiAlnum),
        rest.len() == 0 || rest[0] == '?',
    ensures
        spotify_id_of(id) == Some(id),
        spotify_id_of(track_link() + id + rest) == Some(id),
{
    reveal_strlit("https://open.spotify.com/track/");
    lemma_run_exact(id, 0, id.len() as int, CharClass::AsciiAlnum);
    assert(spotify_id_at(id, 0));
    assert(id.subrange(0, id.len() as int) =~= id);
    let s = track_link() + id + rest;
    let n = id.len() as int;
    assert(s.len() == 31 + n + rest.len());
    assert forall|j: int| 31 <= j < 31 + n implies in_class(#[trigger] s[j], CharClass::AsciiAlnum) by {
        assert(s[j] == id[j - 31]);
    }
    if rest.len() > 0 {
        assert(s[31 + n] == rest[0]);
    }
    lemma_run_exact(s, 31, n, CharClass::AsciiAlnum);
    assert(s[30] == '/');
    assert(s[31] == id[0]);
    assert(s[30 + n] == id[n - 1]);
    assert(spotify_id_at(s, 31));
    assert forall|p: int| 0 <= p < 31 implies !#[trigger] spotify_id_at(s, p) by {
        let stop = if p <= 5 {
            5
        } else if p <= 6 {
            6
        } else if p <= 7 {
            7
        } else if p <= 12 {
            12
        } else if p <= 20 {
            20
        } else if p <= 24 {
            24
        } else {
            30
        };
        assert(!in_class(s[stop], CharClass::AsciiAlnum));
        lemma_run_stops(s, p, stop, CharClass::AsciiAlnum);
    }
    lemma_search_skip(s, 0, 31);
    assert(s.subrange(31, 31 + n) =~= id);
}

/// A track is allowed when explicit tracks are, or when it is clean.
pub open spec fn allowed(t: TrackObject, allow_explicit: bool) -> bool {
    allow_explicit || !t.explicit
}

/// Refuses an explicit track when the reward does not allow them.
pub fn check_explicit(track: TrackObject, allow_explicit: bool) -> (r: Result<TrackObject, String>)
    ensures
        if allowed(track, allow_explicit) {
            r == Ok::<TrackObject, String>(track)
        } else {
            r matches Err(e) && e@ == "Explicit tracks are disallowed!"@
        },
{
    if track.explicit && !allow_explicit {
        Err(String::from_str("Explicit tracks are disallowed!"))
    } else {
        Ok(track)
    }
}

/// The first allowed track of `items` at `i` or later.
pub open spec fn first_allowed(items: Seq<TrackObject>, allow_explicit: bool, i: int) -> Option<int>
    decreases items.len() - i,
{
    if i < 0 || i >= items.len() {
        None
    } else if allowed(items[i], allow_explicit) {
        Some(i)
    } else {
        first_allowed(items, allow_explicit, i + 1)
    }
}

/// The track a search picks.
pub open spec fn picked(res: SearchResponse, allow_explicit: bool) -> Option<TrackObject> {
    match res.tracks {
        Some(page) => match first_allowed(page.items@, allow_explicit, 0) {
            Some(i) => Some(page.items@[i]),
            None => None,
        },
        None => None,
    }
}

/// `first_allowed` finds the first allowed result at `i` or later.
proof fn lemma_first_allowed(items: Seq<TrackObject>, allow_explicit: bool, i: int)
    requires
        0 <= i,
    ensures
        match first_allowed(items, allow_explicit, i) {
            Some(k) => i <= k < items.len() && (allow_explicit || !items[k].explicit) && forall|j: int|
                i <= j < k ==> !allow_explicit && #[trigger] items[j].explicit,
            None => forall|j: int| i <= j < items.len() ==> !allow_explicit && #[trigger] items[j].explicit,
        },
    decreases items.len() - i,
{
    if i < items.len() && !allowed(items[i], allow_explicit) {
        lemma_first_allowed(items, allow_explicit, i + 1);
    }
}

/// A search picks a track the reward allows (a clean one unless explicit
/// tracks are allowed), and it is the first such result: every result
/// before it is explicit and refused. Nothing is picked only when every
/// result is refused.
pub proof fn law_picked_track_allowed(res: SearchResponse, allow_explicit: bool)
    ensures
        picked(res, allow_explicit) matches Some(t) ==> {
            &&& allow_explicit || !t.explicit
            &&& res.tracks matches Some(page) && exists|k: int|
                0 <= k < page.items@.len() && page.items@[k] == t && forall|j: int|
                    0 <= j < k ==> !allow_explicit && #[trigger] page.items@[j].explicit
        },
        picked(res, allow_explicit) is None ==> (res.tracks matches Some(page) ==> forall|j: int|
            0 <= j < page.items@.len() ==> !allow_explicit && #[trigger] page.items@[j].explicit),
{
    if let Some(page) = res.tracks {
        lemma_first_allowed(page.items@, allow_explicit, 0);
    }
}

/// Picks the first search result the reward allows.
pub fn pick_track(res: SearchResponse, allow_explicit: bool) -> (r: Result<TrackObject, String>)
    ensures
        match picked(res, allow_explicit) {
            Some(t) => r == Ok::<TrackObject, String>(t),
            None => r matches Err(e) && e@ == "No track found"@,
        },
{
    let page = match res.tracks {
        Some(page) => page,
        None => return Err(String::from_str("No track found")),
    };
    let ghost items = page.items@;
    let ghost target = picked(res, allow_explicit);
    assert(target == match first_allowed(items, allow_explicit, 0) {
        Some(i) => Some(items[i]),
        None => None::<TrackObject>,
    });
    let mut rest = page.items;
    let mut i: usize = 0;
    let n = rest.len();
    while i < n
        invariant
            n == items.len(),
            i <= n,
            rest@ == items.skip(i as int),
            first_allowed(items, allow_explicit, 0) == first_allowed(items, allow_explicit, i as int),
            target == match first_allowed(items, allow_explicit, 0) {
                Some(j) => Some(items[j]),
                None => None::<TrackObject>,
            },
            target == picked(res, allow_explicit),
        decreases n - i,
    {
        let t = rest.remove(0);
        assert(t == items[i as int]);
        assert(rest@ =~= items.skip(i + 1));
        if allow_explicit || !t.explicit {
            return Ok(t);
        }
        i = i + 1;
    }
    Err(String::from_str("No track found"))
}

/// The player's state; a player with nothing to report is idle.
pub fn player_or_idle(player: Option<PlayerResponse>) -> (r: PlayerResponse)
    ensures
        match player {
            Some(p) => r == p,
            None => !r.is_playing && r.item is None,
        },
{
    match player {
        Some(p) => p,
        None => PlayerResponse { is_playing: false, item: None },
    }
}

/// Refuses to act on a player that plays nothing.
pub fn check_playing(player: PlayerResponse) -> (r: Result<PlayerResponse, String>)
    ensures
        if player.is_playing {
            r == Ok::<PlayerResponse, String>(player)
        } else {
            r matches Err(e) && e@ == "There's no song playing"@
        },
{
    if !player.is_playing {
        return Err(String::from_str("There's no song playing"));
    }
    Ok(player)
}

/// The reply after a skip names what was playing, or `?`.
pub fn skipped_text(player: &PlayerResponse) -> (r: String)
    ensures
        r@ == match player.item {
            Some(item) => item_text(item),
            None => "?"@,
        },
{
    match &player.item {
        Some(item) => item.to_string(),
        None => String::from_str("?"),
    }
}

/// The refusal when the account lacks Spotify premium.
pub open spec fn premium_needed() -> Seq<char> {
    "Controlling the player requires Spotify premium :/"@
}

/// The outcome of a player command by the status it got: `204` (and, where
/// `ok_allowed`, `200`) succeed, `403` means Spotify premium is missing.
pub open spec fn command_outcome(code: u16, ok_allowed: bool) -> Result<(), Seq<char>> {
    if code == 204 || (ok_allowed && code == 200) {
        Ok(())
    } else if code == 403 {
        Err(premium_needed())
    } else {
        Err("Expected 204 - got "@ + status_display(code))
    }
}

/// Reads the status of a player command.
pub fn command_result(code: u16, ok_allowed: bool) -> (r: Result<(), String>)
    requires
        100 <= code <= 999,
    ensures
        match (r, command_outcome(code, ok_allowed)) {
            (Ok(_), Ok(_)) => true,
            (Err(e), Err(m)) => e@ == m,
            _ => false,
        },
{
    if code == 204 || (ok_allowed && code == 200) {
        Ok(())
    } else if code == 403 {
        Err(String::from_str("Controlling the player requires Spotify premium :/"))
    } else {
        let mut s = String::from_str("Expected 204 - got ");
        s.append(status_text(code).as_str());
        Err(s)
    }
}

/// Whether a player query has a body to read (`200`), has none (`204`), or
/// failed.
pub open spec fn body_expected(code: u16) -> Result<bool, Seq<char>> {
    if code == 204 {
        Ok(false)
    } else if code == 200 {
        Ok(true)
    } else {
        Err("Bad status: "@ + status_display(code))
    }
}

/// Reads the status of a player query.
pub fn expects_body(code: u16) -> (r: Result<bool, String>)
    requires
        100 <= code <= 999,
    ensures
        match (r, body_expected(code)) {
            (Ok(a), Ok(b)) => a == b,
            (Err(e), Err(m)) => e@ == m,
            _ => false,
        },
{
    if code == 204 {
        Ok(false)
    } else if code == 200 {
        Ok(true)
    } else {
        let mut s = String::from_str("Bad status: ");
        s.append(status_text(code).as_str());
        Err(s)
    }
}

/// The character of a six-bit value in the standard Base64 alphabet
/// (`A`-`Z`, `a`-`z`, `0`-`9`, `+`, `/`).
pub open spec fn base64_digit(v: int) -> char {
    if v < 26 {
        (65 + v) as char
    } else if v < 52 {
        (97 + v - 26) as char
    } else if v < 62 {
        (48 + v - 52) as char
    } else if v == 62 {
        '+'
    } else {
        '/'
    }
}

/// The standard Base64 encoding of bytes: every three bytes become four
/// characters of six bits each, and a last group of one or two bytes is
/// padded with `=`.
pub open spec fn base64_of(b: Seq<u8>) -> Seq<char>
    decreases b.len(),
{
    if b.len() == 0 {
        seq![]
    } else if b.len() == 1 {
        let x = b[0] as int;
        seq![base64_digit(x / 4), base64_digit((x % 4) * 16), '=', '=']
    } else if b.len() == 2 {
        let (x, y) = (b[0] as int, b[1] as int);
        seq![base64_digit(x / 4), base64_digit((x % 4) * 16 + y / 16), base64_digit((y % 16) * 4), '=']
    } else {
        let (x, y, z) = (b[0] as int, b[1] as int, b[2] as int);
        seq![
            base64_digit(x / 4),
            base64_digit((x % 4) * 16 + y / 16),
            base64_digit((y % 16) * 4 + z / 64),
            base64_digit(z % 64),
        ] + base64_of(b.subrange(3, b.len() as int))
    }
}

/// The standard Base64 encoding of the UTF-8 bytes of a text.
pub open spec fn base64_text(s: Seq<char>) -> Seq<char> {
    base64_of(encode_utf8(s))
}

/// `base64::prelude::BASE64_STANDARD.encode` on the UTF-8 bytes of `s`: the
/// standard alphabet with `=` padding, as `base64_text` writes it out.
#[verifier::external_body]
fn base64_standard(s: &str) -> (r: String)
    ensures
        r@ == base64_text(s@),
{
    base64::prelude::BASE64_STANDARD.encode(s)
}

/// The `Authorization` header of the bot's requests for Spotify tokens:
/// HTTP basic authentication with the app's client id and secret.
pub fn basic_auth(client_id: &str, client_secret: &str) -> (r: String)
    ensures
        r@ == "Basic "@ + base64_text(client_id@ + ":"@ + client_secret@),
{
    let mut creds = String::from_str(client_id);
    creds.append(":");
    creds.append(client_secret);
    let mut s = String::from_str("Basic ");
    s.append(base64_standard(creds.as_str()).as_str());
    s
}

/// The server the bot runs on.
pub const SERVER_URL: &'static str = "https://rewards.nerixyz.de";

/// The address Spotify sends the broadcaster back to.
pub fn get_redirect_url() -> (r: String)
    ensures
        r@ == SERVER_URL@ + "/api/v1/connections/spotify-callback"@,
{
    let mut s = String::from_str(SERVER_URL);
    s.append("/api/v1/connections/spotify-callback");
    s
}

} // verus!
