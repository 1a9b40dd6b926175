//! What the bot checks before it adds an emote on each platform, and how it
//! reads how full a channel is.

use crate::bttv::{BttvEmote, BttvLimits, BttvUserInfo};
use crate::emotes::{EmoteEnvData, EmoteInitialData};
use crate::ffz::{FfzEmote, FfzEmoteSet, FfzRoomData, FfzUser};
use crate::platform::SlotPlatform;
use crate::seven_tv::{SevenEmote, SevenUserResponse};
use crate::text::str_eq;
use vstd::prelude::*;

verus! {

/// Why an emote cannot be renamed, when the platform does not support it.
pub open spec fn rename_error(platform: SlotPlatform) -> Option<Seq<char>> {
    match platform {
        SlotPlatform::Bttv => Some("BTTV doesn't support renaming emotes"@),
        SlotPlatform::Ffz => Some("FFZ doesn't support renaming emotes"@),
        SlotPlatform::SevenTv => None,
    }
}

/// Refuses an alias on platforms that cannot rename emotes.
pub fn check_rename(platform: SlotPlatform, overwritten_name: Option<&str>) -> (r: Result<(), String>)
    ensures
        match (overwritten_name, rename_error(platform)) {
            (Some(_), Some(m)) => r matches Err(e) && e@ == m,
            _ => r is Ok,
        },
{
    if overwritten_name.is_some() {
        match platform {
            SlotPlatform::Bttv => return Err(String::from_str("BTTV doesn't support renaming emotes")),
            SlotPlatform::Ffz => return Err(String::from_str("FFZ doesn't support renaming emotes")),
            SlotPlatform::SevenTv => {},
        }
    }
    Ok(())
}

/// Some BTTV emote of `emotes` has the id `id` or the code `code`.
pub open spec fn bttv_conflict(emotes: Seq<BttvEmote>, id: Seq<char>, code: Seq<char>) -> bool {
    exists|i: int| 0 <= i < emotes.len() && (emotes[i].id@ == id || emotes[i].code@ == code)
}

fn bttv_conflict_exec(emotes: &Vec<BttvEmote>, id: &str, code: &str) -> (r: bool)
    ensures
        r == bttv_conflict(emotes@, id@, code@),
{
    let mut i: usize = 0;
    while i < emotes.len()
        invariant
            i <= emotes@.len(),
            forall|j: int|
                0 <= j < i ==> !(emotes@[j].id@ == id@ || emotes@[j].code@ == code@),
        decreases emotes@.len() - i,
    {
        if str_eq(emotes[i].id.as_str(), id) || str_eq(emotes[i].code.as_str(), code) {
            return true;
        }
        i = i + 1;
    }
    false
}

/// What stops a BTTV emote from being added: the id or the code is already
/// taken by a shared emote, or else by a channel emote.
pub open spec fn bttv_add_error(user: BttvUserInfo, emote_id: Seq<char>, emote: BttvEmote) -> Option<
    Seq<char>,
> {
    if bttv_conflict(user.shared_emotes@, emote_id, emote.code@) {
        Some("The emote already exists as a shared emote"@)
    } else if bttv_conflict(user.channel_emotes@, emote_id, emote.code@) {
        Some("The emote already exists as a channel emote"@)
    } else {
        None
    }
}

/// Checks a BTTV emote against the channel and gathers what adding it needs.
pub fn bttv_initial_data(
    emote_id: &str,
    history_len: usize,
    bttv_id: String,
    user: BttvUserInfo,
    limits: &BttvLimits,
    emote: BttvEmote,
) -> (r: Result<EmoteInitialData<String, BttvEmote>, String>)
    ensures
        match bttv_add_error(user, emote_id@, emote) {
            Some(m) => r matches Err(e) && e@ == m,
            None => r matches Ok(d) && d.max_emotes == limits.shared_emotes && d.current_emotes
                == user.shared_emotes@.len() && d.history_len == history_len && d.platform_id
                == bttv_id && d.emote == emote,
        },
{
    if bttv_conflict_exec(&user.shared_emotes, emote_id, emote.code.as_str()) {
        return Err(String::from_str("The emote already exists as a shared emote"));
    }
    if bttv_conflict_exec(&user.channel_emotes, emote_id, emote.code.as_str()) {
        return Err(String::from_str("The emote already exists as a channel emote"));
    }
    Ok(
        EmoteInitialData {
            max_emotes: limits.shared_emotes,
            current_emotes: user.shared_emotes.len(),
            history_len,
            platform_id: bttv_id,
            emote,
        },
    )
}

/// How full a BTTV channel is.
pub fn bttv_env_data(limits: &BttvLimits, user: &BttvUserInfo) -> (r: EmoteEnvData)
    ensures
        r.max_emotes == limits.shared_emotes,
        r.current_emotes == user.shared_emotes@.len(),
{
    EmoteEnvData { max_emotes: limits.shared_emotes, current_emotes: user.shared_emotes.len() }
}

/// All emotes of a room's sets, set after set.
pub open spec fn set_emotes(sets: Seq<(String, FfzEmoteSet)>) -> Seq<FfzEmote>
    decreases sets.len(),
{
    if sets.len() == 0 {
        Seq::empty()
    } else {
        set_emotes(sets.drop_last()) + sets.last().1.emoticons@
    }
}

/// Collects the emotes of all sets of a room.
pub fn room_emotes(sets: Vec<(String, FfzEmoteSet)>) -> (r: Vec<FfzEmote>)
    ensures
        r@ == set_emotes(sets@),
{
    let ghost orig = sets@;
    let mut sets = sets;
    let mut out: Vec<FfzEmote> = Vec::new();
    while sets.len() > 0
        invariant
            set_emotes(orig) == set_emotes(sets@) + out@,
        decreases sets@.len(),
    {
        let ghost before = sets@;
        let (_, set) = sets.pop().unwrap();
        assert(sets@ == before.drop_last());
        let mut emotes = set.emoticons;
        emotes.append(&mut out);
        out = emotes;
        assert(set_emotes(before) + Seq::<FfzEmote>::empty() == set_emotes(before));
    }
    assert(out@ =~= set_emotes(orig));
    out
}

/// Some FFZ emote of `emotes` has the id `id` or the name `name`.
pub open spec fn ffz_conflict(emotes: Seq<FfzEmote>, id: usize, name: Seq<char>) -> bool {
    exists|i: int| 0 <= i < emotes.len() && (emotes[i].id == id || emotes[i].name@ == name)
}

/// Checks an FFZ emote against the room and gathers what adding it needs.
pub fn ffz_initial_data(room: FfzRoomData, user: &FfzUser, emote: FfzEmote, history_len: usize) -> (r:
    Result<EmoteInitialData<usize, FfzEmote>, String>)
    ensures
        if ffz_conflict(set_emotes(room.sets@), emote.id, emote.name@) {
            r matches Err(e) && e@ == "The emote is already added"@
        } else {
            r matches Ok(d) && d.max_emotes == user.max_emoticons && d.current_emotes
                == set_emotes(room.sets@).len() && d.history_len == history_len && d.platform_id
                == room.room._id && d.emote == emote
        },
{
    let room_id = room.room._id;
    let ghost all = set_emotes(room.sets@);
    let emotes = room_emotes(room.sets);
    let mut i: usize = 0;
    while i < emotes.len()
        invariant
            i <= emotes@.len(),
            emotes@ == all,
            all == set_emotes(room.sets@),
            forall|j: int|
                0 <= j < i ==> !(emotes@[j].id == emote.id || emotes@[j].name@ == emote.name@),
        decreases emotes@.len() - i,
    {
        if emotes[i].id == emote.id || str_eq(emotes[i].name.as_str(), emote.name.as_str()) {
            assert(emotes@[i as int].id == emote.id || emotes@[i as int].name@ == emote.name@);
            assert(ffz_conflict(all, emote.id, emote.name@));
            return Err(String::from_str("The emote is already added"));
        }
        i = i + 1;
    }
    Ok(
        EmoteInitialData {
            max_emotes: user.max_emoticons,
            current_emotes: emotes.len(),
            history_len,
            platform_id: room_id,
            emote,
        },
    )
}

/// How full an FFZ room is.
pub fn ffz_env_data(user: &FfzUser, room: FfzRoomData) -> (r: EmoteEnvData)
    ensures
        r.max_emotes == user.max_emoticons,
        r.current_emotes == set_emotes(room.sets@).len(),
{
    let emotes = room_emotes(room.sets);
    EmoteEnvData { max_emotes: user.max_emoticons, current_emotes: emotes.len() }
}

/// Some 7TV emote of `emotes` has the id `id` or the name `name`.
pub open spec fn seventv_conflict(emotes: Seq<SevenEmote>, id: Seq<char>, name: Seq<char>) -> bool {
    exists|i: int| 0 <= i < emotes.len() && (emotes[i].id@ == id || emotes[i].name@ == name)
}

/// What stops a 7TV emote from being added under `name`.
pub open spec fn seventv_add_error(
    user: SevenUserResponse,
    emote: SevenEmote,
    name: Seq<char>,
    allow_unlisted: bool,
) -> Option<Seq<char>> {
    match user.emote_set {
        None => Some("No 7TV emote set selected"@),
        Some(set) => if seventv_conflict(set.emotes@, emote.id@, name) {
            Some("The emote or an emote with the same name already exists."@)
        } else if !allow_unlisted && !emote.listed {
            Some("Attempted to add an unlisted emote, but unlisted emotes aren't allowed."@)
        } else {
            None
        },
    }
}

/// The name an emote is added under: the alias, or else its own name.
pub open spec fn added_name(emote: SevenEmote, overwritten_name: Option<Seq<char>>) -> Seq<char> {
    match overwritten_name {
        Some(n) => n,
        None => emote.name@,
    }
}

/// An optional string as an optional character sequence.
pub open spec fn opt_view(o: Option<&str>) -> Option<Seq<char>> {
    match o {
        Some(s) => Some(s@),
        None => None,
    }
}

/// Checks a 7TV emote against the emote set and gathers what adding it needs.
pub fn seventv_initial_data(
    user: SevenUserResponse,
    emote: SevenEmote,
    overwritten_name: Option<&str>,
    allow_unlisted: bool,
    history_len: usize,
) -> (r: Result<EmoteInitialData<String, SevenEmote>, String>)
    ensures
        match seventv_add_error(
            user,
            emote,
            added_name(emote, opt_view(overwritten_name)),
            allow_unlisted,
        ) {
            Some(m) => r matches Err(e) && e@ == m,
            None => r matches Ok(d) && user.emote_set matches Some(set) && d.max_emotes
                == set.capacity && d.current_emotes == set.emotes@.len() && d.history_len
                == history_len && d.platform_id == set.id && d.emote == emote,
        },
{
    let set = match user.emote_set {
        Some(set) => set,
        None => return Err(String::from_str("No 7TV emote set selected")),
    };
    let actual_name: &str = match overwritten_name {
        Some(n) => n,
        None => emote.name.as_str(),
    };
    let mut i: usize = 0;
    while i < set.emotes.len()
        invariant
            i <= set.emotes@.len(),
            user.emote_set == Some(set),
            actual_name@ == added_name(emote, opt_view(overwritten_name)),
            forall|j: int|
                0 <= j < i ==> !(set.emotes@[j].id@ == emote.id@ || set.emotes@[j].name@
                    == actual_name@),
        decreases set.emotes@.len() - i,
    {
        if str_eq(set.emotes[i].id.as_str(), emote.id.as_str()) || str_eq(
            set.emotes[i].name.as_str(),
            actual_name,
        ) {
            assert(set.emotes@[i as int].id@ == emote.id@ || set.emotes@[i as int].name@
                == actual_name@);
            return Err(
                String::from_str("The emote or an emote with the same name already exists."),
            );
        }
        i = i + 1;
    }
    if !allow_unlisted && !emote.listed {
        return Err(
            String::from_str(
                "Attempted to add an unlisted emote, but unlisted emotes aren't allowed.",
            ),
        );
    }
    let n = set.emotes.len();
    Ok(
        EmoteInitialData {
            max_emotes: set.capacity,
            current_emotes: n,
            history_len,
            platform_id: set.id,
            emote,
        },
    )
}

/// How full a 7TV emote set is, if the user selected one.
pub fn seventv_env_data(user: SevenUserResponse) -> (r: Result<EmoteEnvData, String>)
    ensures
        match user.emote_set {
            Some(set) => r matches Ok(d) && d.max_emotes == set.capacity && d.current_emotes
                == set.emotes@.len(),
            None => r matches Err(e) && e@ == "No 7TV emote set selected"@,
        },
{
    match user.emote_set {
        Some(set) => Ok(EmoteEnvData { max_emotes: set.capacity, current_emotes: set.emotes.len() }),
        None => Err(String::from_str("No 7TV emote set selected")),
    }
}

} // verus!
