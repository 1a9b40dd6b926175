//! Removing an emote on a viewer's request: the input names the emote by a
//! link or id, or else by its name, and the emote is looked up among the
//! channel's emotes.

use crate::emote_ids::{first_emote_id, first_ffz_id};
use crate::emotes::{find_by_name, find_by_num_id, find_by_str_id, name_index_from, num_id_index_from, opt_index, parse_usize, parse_usize_exec, str_id_index_from, Emote};
use crate::extract::{bttv_id, ffz_id, seventv_id};
use crate::grammar::{run_len, run_len_exec, CharClass};
use crate::platform::SlotPlatform;
use crate::text::chars_of;
use vstd::prelude::*;

verus! {

/// The emote id a platform's extractor finds in the input.
pub open spec fn id_in(s: Seq<char>, platform: SlotPlatform) -> Option<Seq<char>> {
    match platform {
        SlotPlatform::Bttv => match first_emote_id(s, SlotPlatform::Bttv) {
            Some(p) => Some(s.subrange(p, p + 24)),
            None => None,
        },
        SlotPlatform::SevenTv => match first_emote_id(s, SlotPlatform::SevenTv) {
            Some(p) => Some(s.subrange(p, p + 26)),
            None => None,
        },
        SlotPlatform::Ffz => match first_ffz_id(s) {
            Some((p, n)) => Some(s.subrange(p, p + n)),
            None => None,
        },
    }
}

/// The input up to its first space.
pub open spec fn first_word(s: Seq<char>) -> Seq<char> {
    s.subrange(0, run_len(s, 0, CharClass::NotSpace) as int)
}

/// How a viewer named the emote to remove.
pub enum IdOrName<'a> {
    Id(&'a str),
    Name(&'a str),
}

impl<'a> IdOrName<'a> {
    /// Reads the input: an emote id of the platform if one is found, or else
    /// the first word as the emote's name.
    pub fn parse(s: &'a str, platform: SlotPlatform) -> (r: IdOrName<'a>)
        ensures
            match id_in(s@, platform) {
                Some(id) => r matches IdOrName::Id(i) && i@ == id,
                None => r matches IdOrName::Name(n) && n@ == first_word(s@),
            },
    {
        let found = match platform {
            SlotPlatform::Bttv => bttv_id(s),
            SlotPlatform::Ffz => ffz_id(s),
            SlotPlatform::SevenTv => seventv_id(s),
        };
        match found {
            Ok(id) => IdOrName::Id(id),
            Err(_) => {
                let v = chars_of(s);
                let n = run_len_exec(&v, 0, CharClass::NotSpace);
                IdOrName::Name(s.substring_char(0, n))
            },
        }
    }

    /// How the request is written in the log: `id:<id>` or `name:<name>`.
    pub fn describe(&self) -> (r: String)
        ensures
            match self {
                IdOrName::Id(i) => r@ == "id:"@ + i@,
                IdOrName::Name(n) => r@ == "name:"@ + n@,
            },
    {
        match self {
            IdOrName::Id(i) => {
                let mut s = String::from_str("id:");
                s.append(i);
                s
            },
            IdOrName::Name(n) => {
                let mut s = String::from_str("name:");
                s.append(n);
                s
            },
        }
    }
}

/// How a platform is named to viewers.
pub open spec fn platform_name(p: SlotPlatform) -> Seq<char> {
    match p {
        SlotPlatform::Bttv => "BTTV"@,
        SlotPlatform::Ffz => "FFZ"@,
        SlotPlatform::SevenTv => "7TV"@,
    }
}

/// The message when the channel has no such emote.
pub open spec fn not_added(p: SlotPlatform) -> Seq<char> {
    "This "@ + platform_name(p) + " emote isn't added!"@
}

fn not_added_message(p: SlotPlatform) -> (r: String)
    ensures
        r@ == not_added(p),
{
    let mut s = String::from_str("This ");
    s.append(
        match p {
            SlotPlatform::Bttv => "BTTV",
            SlotPlatform::Ffz => "FFZ",
            SlotPlatform::SevenTv => "7TV",
        },
    );
    s.append(" emote isn't added!");
    s
}

/// The emote a request names among `emotes` with text ids: the first with
/// that id, or the first with that name.
pub open spec fn selected_by_str_id<E: Emote<String>>(emotes: Seq<E>, id_or_name: IdOrName) -> Option<int> {
    match id_or_name {
        IdOrName::Id(i) => str_id_index_from(emotes, i@, 0),
        IdOrName::Name(n) => name_index_from(emotes, n@, 0),
    }
}

/// Finds the emote a request names on a platform with text ids (BTTV, 7TV).
pub fn select_by_str_id<E: Emote<String>>(emotes: &Vec<E>, id_or_name: &IdOrName, platform: SlotPlatform) -> (r:
    Result<usize, String>)
    ensures
        match selected_by_str_id(emotes@, *id_or_name) {
            Some(i) => r == Ok::<usize, String>(i as usize),
            None => r matches Err(e) && e@ == not_added(platform),
        },
{
    let found = match id_or_name {
        IdOrName::Id(i) => find_by_str_id(emotes, i),
        IdOrName::Name(n) => find_by_name(emotes, n),
    };
    match found {
        Some(i) => Ok(i),
        None => Err(not_added_message(platform)),
    }
}

/// The emote a request names among `emotes` with numeric ids, or `Err` when
/// the named id is not a number.
pub open spec fn selected_by_num_id<E: Emote<usize>>(emotes: Seq<E>, id_or_name: IdOrName) -> Result<
    Option<int>,
    (),
> {
    match id_or_name {
        IdOrName::Id(i) => match parse_usize(i@) {
            Some(v) => Ok(num_id_index_from(emotes, v, 0)),
            None => Err(()),
        },
        IdOrName::Name(n) => Ok(name_index_from(emotes, n@, 0)),
    }
}

/// Finds the emote a request names on a platform with numeric ids (FFZ).
pub fn select_by_num_id<E: Emote<usize>>(emotes: &Vec<E>, id_or_name: &IdOrName, platform: SlotPlatform) -> (r:
    Result<usize, String>)
    ensures
        match selected_by_num_id(emotes@, *id_or_name) {
            Err(_) => r matches Err(e) && e@ == "Invalid emote ID"@,
            Ok(Some(i)) => r == Ok::<usize, String>(i as usize),
            Ok(None) => r matches Err(e) && e@ == not_added(platform),
        },
{
    let found = match id_or_name {
        IdOrName::Id(i) => match parse_usize_exec(i) {
            Some(v) => find_by_num_id(emotes, v),
            None => return Err(String::from_str("Invalid emote ID")),
        },
        IdOrName::Name(n) => find_by_name(emotes, n),
    };
    match found {
        Some(i) => Ok(i),
        None => Err(not_added_message(platform)),
    }
}

} // verus!
