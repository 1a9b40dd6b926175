//! Emotes of all platforms: their ids and names, the data needed to add one,
//! and where their pages and images are.

use crate::bttv::BttvEmote;
use crate::ffz::{FfzEmote, FfzEmoteSet};
use crate::platform::SlotPlatform;
use crate::seven_tv::SevenEmote;
use crate::text::str_eq;
use vstd::prelude::*;

verus! {

/// An emote of some platform, with ids of type `I`.
pub trait Emote<I>: Sized {
    /// The id of the emote.
    spec fn emote_id(&self) -> I;

    /// The name of the emote.
    spec fn emote_name(&self) -> Seq<char>;

    fn id(&self) -> (r: &I)
        ensures
            *r == self.emote_id(),
    ;

    fn name(&self) -> (r: &str)
        ensures
            r@ == self.emote_name(),
    ;

    fn into_name(self) -> (r: String)
        ensures
            r@ == self.emote_name(),
    ;
}

impl Emote<String> for BttvEmote {
    open spec fn emote_id(&self) -> String {
        self.id
    }

    open spec fn emote_name(&self) -> Seq<char> {
        self.code@
    }

    fn id(&self) -> (r: &String) {
        &self.id
    }

    fn name(&self) -> (r: &str) {
        self.code.as_str()
    }

    fn into_name(self) -> (r: String) {
        self.code
    }
}

impl Emote<usize> for FfzEmote {
    open spec fn emote_id(&self) -> usize {
        self.id
    }

    open spec fn emote_name(&self) -> Seq<char> {
        self.name@
    }

    fn id(&self) -> (r: &usize) {
        &self.id
    }

    fn name(&self) -> (r: &str) {
        self.name.as_str()
    }

    fn into_name(self) -> (r: String) {
        self.name
    }
}

impl Emote<String> for SevenEmote {
    open spec fn emote_id(&self) -> String {
        self.id
    }

    open spec fn emote_name(&self) -> Seq<char> {
        self.name@
    }

    fn id(&self) -> (r: &String) {
        &self.id
    }

    fn name(&self) -> (r: &str) {
        self.name.as_str()
    }

    fn into_name(self) -> (r: String) {
        self.name
    }
}

/// An emote id as stored in the database could not be read.
#[derive(Clone, Copy, Debug, PartialEq, Eq, Structural)]
pub struct IdParseError;

/// An emote id type that can be read back from the database.
pub trait EmoteId: Sized {
    fn from_db(db: &str) -> Result<Self, IdParseError>;
}

/// The value of a sequence of ASCII digits.
pub open spec fn digits_value(d: Seq<char>) -> nat
    decreases d.len(),
{
    if d.len() == 0 {
        0
    } else {
        digits_value(d.drop_last()) * 10 + ((d.last() as u32) - ('0' as u32)) as nat
    }
}

/// Every character is an ASCII digit.
pub open spec fn all_digits(d: Seq<char>) -> bool {
    forall|i: int| 0 <= i < d.len() ==> '0' <= #[trigger] d[i] <= '9'
}

/// `usize::from_str`: an optional `+`, then at least one ASCII digit, for a
/// value that fits.
pub open spec fn parse_usize(s: Seq<char>) -> Option<usize> {
    let d = if s.len() > 0 && s[0] == '+' {
        s.drop_first()
    } else {
        s
    };
    if d.len() > 0 && all_digits(d) && digits_value(d) <= usize::MAX {
        Some(digits_value(d) as usize)
    } else {
        None
    }
}

proof fn lemma_digits_value_grows(d: Seq<char>, i: int)
    requires
        0 <= i <= d.len(),
        all_digits(d),
    ensures
        digits_value(d.subrange(0, i)) <= digits_value(d),
    decreases d.len() - i,
{
    if i < d.len() {
        lemma_digits_value_grows(d, i + 1);
        assert(d.subrange(0, i + 1).drop_last() =~= d.subrange(0, i));
    } else {
        assert(d.subrange(0, i) =~= d);
    }
}

/// Reads a `usize` as `usize::from_str` does.
pub fn parse_usize_exec(s: &str) -> (r: Option<usize>)
    ensures
        r == parse_usize(s@),
{
    let n = s.unicode_len();
    let mut i: usize = 0;
    if n > 0 && s.get_char(0) == '+' {
        i = 1;
    }
    let start = i;
    let ghost d = if s@.len() > 0 && s@[0] == '+' {
        s@.drop_first()
    } else {
        s@
    };
    assert(d =~= s@.subrange(start as int, n as int));
    if start == n {
        return None;
    }
    let mut value: usize = 0;
    while i < n
        invariant
            n == s@.len(),
            start <= i <= n,
            d == s@.subrange(start as int, n as int),
            d == (if s@.len() > 0 && s@[0] == '+' {
                s@.drop_first()
            } else {
                s@
            }),
            d.len() > 0,
            all_digits(d.subrange(0, i - start)),
            value == digits_value(d.subrange(0, i - start)),
        decreases n - i,
    {
        let c = s.get_char(i);
        assert(d.subrange(0, i - start + 1).drop_last() =~= d.subrange(0, i - start));
        assert(d[i - start] == c);
        if c < '0' || c > '9' {
            assert(!all_digits(d));
            return None;
        }
        let digit = (c as u32 - '0' as u32) as usize;
        let next = match value.checked_mul(10) {
            Some(v) => v.checked_add(digit),
            None => None,
        };
        match next {
            Some(v) => {
                value = v;
            },
            None => {
                proof {
                    assert(all_digits(d.subrange(0, i - start + 1)));
                    if all_digits(d) {
                        lemma_digits_value_grows(d, i - start + 1);
                    }
                }
                return None;
            },
        }
        i = i + 1;
    }
    assert(d.subrange(0, i - start) =~= d);
    Some(value)
}

/// A numeric emote id read back from the database, or 0 when the text is
/// not one (`from_str` with `unwrap_or_default`).
pub fn num_id_or_default(db: &str) -> (r: usize)
    ensures
        r == match parse_usize(db@) {
            Some(v) => v,
            None => 0,
        },
{
    match parse_usize_exec(db) {
        Some(v) => v,
        None => 0,
    }
}

impl EmoteId for String {
    fn from_db(db: &str) -> (r: Result<String, IdParseError>)
        ensures
            r matches Ok(v) && v@ == db@,
    {
        Ok(String::from_str(db))
    }
}

impl EmoteId for usize {
    fn from_db(db: &str) -> (r: Result<usize, IdParseError>)
        ensures
            match parse_usize(db@) {
                Some(v) => r == Ok::<usize, IdParseError>(v),
                None => r is Err,
            },
    {
        match parse_usize_exec(db) {
            Some(v) => Ok(v),
            None => Err(IdParseError),
        }
    }
}

/// What the bot needs to know before it adds an emote: the room on the
/// platform, how many emotes it holds and may hold, how many emotes the
/// bot swapped in so far, and the emote itself.
pub struct EmoteInitialData<I, E> {
    pub max_emotes: usize,
    pub current_emotes: usize,
    pub platform_id: I,
    pub history_len: usize,
    pub emote: E,
}

/// How many emotes a channel holds and may hold.
pub struct EmoteEnvData {
    pub max_emotes: usize,
    pub current_emotes: usize,
}

/// The first emote at `i` or later named `name`.
pub open spec fn name_index_from<I, E: Emote<I>>(emotes: Seq<E>, name: Seq<char>, i: int) -> Option<
    int,
>
    decreases emotes.len() - i,
{
    if i < 0 || i >= emotes.len() {
        None
    } else if emotes[i].emote_name() == name {
        Some(i)
    } else {
        name_index_from(emotes, name, i + 1)
    }
}

/// Finds the first emote named `name`.
pub fn find_by_name<I, E: Emote<I>>(emotes: &Vec<E>, name: &str) -> (r: Option<usize>)
    ensures
        opt_index(r) == name_index_from(emotes@, name@, 0),
        r matches Some(i) ==> i < emotes@.len(),
{
    let mut i: usize = 0;
    while i < emotes.len()
        invariant
            i <= emotes@.len(),
            name_index_from(emotes@, name@, 0) == name_index_from(emotes@, name@, i as int),
        decreases emotes@.len() - i,
    {
        if str_eq(emotes[i].name(), name) {
            return Some(i);
        }
        i = i + 1;
    }
    None
}

/// An index as a mathematical integer.
pub open spec fn opt_index(o: Option<usize>) -> Option<int> {
    match o {
        Some(v) => Some(v as int),
        None => None,
    }
}

/// The first emote at `i` or later whose (textual) id is `id`.
pub open spec fn str_id_index_from<E: Emote<String>>(emotes: Seq<E>, id: Seq<char>, i: int) -> Option<
    int,
>
    decreases emotes.len() - i,
{
    if i < 0 || i >= emotes.len() {
        None
    } else if emotes[i].emote_id()@ == id {
        Some(i)
    } else {
        str_id_index_from(emotes, id, i + 1)
    }
}

/// Finds the first emote with the (textual) id `id`.
pub fn find_by_str_id<E: Emote<String>>(emotes: &Vec<E>, id: &str) -> (r: Option<usize>)
    ensures
        opt_index(r) == str_id_index_from(emotes@, id@, 0),
        r matches Some(i) ==> i < emotes@.len(),
{
    let mut i: usize = 0;
    while i < emotes.len()
        invariant
            i <= emotes@.len(),
            str_id_index_from(emotes@, id@, 0) == str_id_index_from(emotes@, id@, i as int),
        decreases emotes@.len() - i,
    {
        if str_eq(emotes[i].id().as_str(), id) {
            return Some(i);
        }
        i = i + 1;
    }
    None
}

/// The first emote at `i` or later whose (numeric) id is `id`.
pub open spec fn num_id_index_from<E: Emote<usize>>(emotes: Seq<E>, id: usize, i: int) -> Option<int>
    decreases emotes.len() - i,
{
    if i < 0 || i >= emotes.len() {
        None
    } else if emotes[i].emote_id() == id {
        Some(i)
    } else {
        num_id_index_from(emotes, id, i + 1)
    }
}

/// Finds the first emote with the (numeric) id `id`.
pub fn find_by_num_id<E: Emote<usize>>(emotes: &Vec<E>, id: usize) -> (r: Option<usize>)
    ensures
        opt_index(r) == num_id_index_from(emotes@, id, 0),
        r matches Some(i) ==> i < emotes@.len(),
{
    let mut i: usize = 0;
    while i < emotes.len()
        invariant
            i <= emotes@.len(),
            num_id_index_from(emotes@, id, 0) == num_id_index_from(emotes@, id, i as int),
        decreases emotes@.len() - i,
    {
        if *emotes[i].id() == id {
            return Some(i);
        }
        i = i + 1;
    }
    None
}

/// `prefix`, then `id`, then `suffix`.
fn concat3(prefix: &str, id: &str, suffix: &str) -> (r: String)
    ensures
        r@ == prefix@ + id@ + suffix@,
{
    let mut s = String::from_str(prefix);
    s.append(id);
    s.append(suffix);
    s
}

/// The page of an emote on its platform.
pub open spec fn emote_page(platform: SlotPlatform, id: Seq<char>) -> Seq<char> {
    match platform {
        SlotPlatform::Bttv => "https://betterttv.com/emotes/"@ + id,
        SlotPlatform::Ffz => "https://www.frankerfacez.com/emoticon/"@ + id,
        SlotPlatform::SevenTv => "https://7tv.app/emotes/"@ + id,
    }
}

/// The image of an emote on its platform's CDN.
pub open spec fn emote_image(platform: SlotPlatform, id: Seq<char>) -> Seq<char> {
    match platform {
        SlotPlatform::Bttv => "https://cdn.betterttv.net/emote/"@ + id + "/3x"@,
        SlotPlatform::Ffz => "https://cdn.frankerfacez.com/emote/"@ + id + "/4"@,
        SlotPlatform::SevenTv => "https://cdn.7tv.app/emote/"@ + id + "/4x"@,
    }
}

/// The page of an emote on its platform.
pub fn format_emote_url(platform: SlotPlatform, emote_id: &str) -> (r: String)
    ensures
        r@ == emote_page(platform, emote_id@),
{
    let r = match platform {
        SlotPlatform::Bttv => concat3("https://betterttv.com/emotes/", emote_id, ""),
        SlotPlatform::Ffz => concat3("https://www.frankerfacez.com/emoticon/", emote_id, ""),
        SlotPlatform::SevenTv => concat3("https://7tv.app/emotes/", emote_id, ""),
    };
    proof {
        reveal_strlit("");
    }
    assert(r@ =~= emote_page(platform, emote_id@));
    r
}

/// The image of an emote on its platform's CDN.
fn format_emote_image(platform: SlotPlatform, emote_id: &str) -> (r: String)
    ensures
        r@ == emote_image(platform, emote_id@),
{
    match platform {
        SlotPlatform::Bttv => concat3("https://cdn.betterttv.net/emote/", emote_id, "/3x"),
        SlotPlatform::Ffz => concat3("https://cdn.frankerfacez.com/emote/", emote_id, "/4"),
        SlotPlatform::SevenTv => concat3("https://cdn.7tv.app/emote/", emote_id, "/4x"),
    }
}

/// Emotes on BetterTTV.
pub struct BttvEmotes {
    _private: usize,
}

/// Emotes on FrankerFaceZ.
pub struct FfzEmotes {
    _private: usize,
}

/// Emotes on 7TV.
pub struct SevenTvEmotes {
    _private: (),
}

impl BttvEmotes {
    pub fn platform() -> (r: SlotPlatform)
        ensures
            r == SlotPlatform::Bttv,
    {
        SlotPlatform::Bttv
    }

    /// The image of an emote.
    pub fn format_emote_url(emote_id: &str) -> (r: String)
        ensures
            r@ == emote_image(SlotPlatform::Bttv, emote_id@),
    {
        format_emote_image(SlotPlatform::Bttv, emote_id)
    }

    /// The page of an emote.
    pub fn format_emote_page(emote_id: &str) -> (r: String)
        ensures
            r@ == emote_page(SlotPlatform::Bttv, emote_id@),
    {
        format_emote_url(SlotPlatform::Bttv, emote_id)
    }
}

impl FfzEmotes {
    pub fn platform() -> (r: SlotPlatform)
        ensures
            r == SlotPlatform::Ffz,
    {
        SlotPlatform::Ffz
    }

    /// The image of an emote.
    pub fn format_emote_url(emote_id: &str) -> (r: String)
        ensures
            r@ == emote_image(SlotPlatform::Ffz, emote_id@),
    {
        format_emote_image(SlotPlatform::Ffz, emote_id)
    }

    /// The page of an emote.
    pub fn format_emote_page(emote_id: &str) -> (r: String)
        ensures
            r@ == emote_page(SlotPlatform::Ffz, emote_id@),
    {
        format_emote_url(SlotPlatform::Ffz, emote_id)
    }
}

impl SevenTvEmotes {
    pub fn platform() -> (r: SlotPlatform)
        ensures
            r == SlotPlatform::SevenTv,
    {
        SlotPlatform::SevenTv
    }

    /// The image of an emote.
    pub fn format_emote_url(emote_id: &str) -> (r: String)
        ensures
            r@ == emote_image(SlotPlatform::SevenTv, emote_id@),
    {
        format_emote_image(SlotPlatform::SevenTv, emote_id)
    }

    /// The page of an emote.
    pub fn format_emote_page(emote_id: &str) -> (r: String)
        ensures
            r@ == emote_page(SlotPlatform::SevenTv, emote_id@),
    {
        format_emote_url(SlotPlatform::SevenTv, emote_id)
    }
}

} // verus!
