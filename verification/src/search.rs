//! A snapshot of a channel's emotes on all platforms, used to name emotes
//! that are only known by their id.

use crate::bttv::{BttvEmote, BttvUserInfo};
use crate::emote_checks::{room_emotes, set_emotes};
use crate::emotes::{find_by_num_id, find_by_str_id, num_id_index_from, parse_usize, parse_usize_exec, str_id_index_from};
use crate::ffz::{FfzEmote, FfzRoomData};
use crate::platform::SlotPlatform;
use crate::seven_tv::{SevenEmote, SevenUserResponse};
use vstd::prelude::*;

verus! {

/// The emotes of a channel on 7TV, BTTV (its shared emotes) and FFZ (all
/// emotes of its room's sets).
pub struct EmoteCache {
    pub seventv: Vec<SevenEmote>,
    pub bttv: Vec<BttvEmote>,
    pub ffz: Vec<FfzEmote>,
}

/// The emotes of a 7TV user's active emote set, none without one.
pub open spec fn seventv_emotes(user: SevenUserResponse) -> Seq<SevenEmote> {
    match user.emote_set {
        Some(set) => set.emotes@,
        None => Seq::empty(),
    }
}

impl EmoteCache {
    /// Builds the snapshot from what each platform answered; a platform that
    /// could not be asked contributes no emotes.
    pub fn assemble(
        seventv: Option<SevenUserResponse>,
        bttv: Option<BttvUserInfo>,
        ffz: Option<FfzRoomData>,
    ) -> (r: EmoteCache)
        ensures
            r.seventv@ == match seventv {
                Some(u) => seventv_emotes(u),
                None => Seq::empty(),
            },
            r.bttv@ == match bttv {
                Some(u) => u.shared_emotes@,
                None => Seq::empty(),
            },
            r.ffz@ == match ffz {
                Some(room) => set_emotes(room.sets@),
                None => Seq::empty(),
            },
    {
        let seventv = match seventv {
            Some(u) => match u.emote_set {
                Some(set) => set.emotes,
                None => Vec::new(),
            },
            None => Vec::new(),
        };
        let bttv = match bttv {
            Some(u) => u.shared_emotes,
            None => Vec::new(),
        };
        let ffz = match ffz {
            Some(room) => room_emotes(room.sets),
            None => Vec::new(),
        };
        EmoteCache { seventv, bttv, ffz }
    }

    /// The name under which the channel holds the emote with `emote_id` on
    /// `platform`, if it does.
    pub open spec fn name_of(&self, emote_id: Seq<char>, platform: SlotPlatform) -> Option<Seq<char>> {
        match platform {
            SlotPlatform::Bttv => match str_id_index_from(self.bttv@, emote_id, 0) {
                Some(i) => Some(self.bttv@[i].code@),
                None => None,
            },
            SlotPlatform::Ffz => match parse_usize(emote_id) {
                Some(id) => match num_id_index_from(self.ffz@, id, 0) {
                    Some(i) => Some(self.ffz@[i].name@),
                    None => None,
                },
                None => None,
            },
            SlotPlatform::SevenTv => match str_id_index_from(self.seventv@, emote_id, 0) {
                Some(i) => Some(self.seventv@[i].name@),
                None => None,
            },
        }
    }

    /// Names the emote with `emote_id` on `platform`.
    pub fn find_name_by_id(&self, emote_id: &str, platform: SlotPlatform) -> (r: Option<&str>)
        ensures
            match self.name_of(emote_id@, platform) {
                Some(n) => r matches Some(s) && s@ == n,
                None => r is None,
            },
    {
        match platform {
            SlotPlatform::Bttv => match find_by_str_id(&self.bttv, emote_id) {
                Some(i) => Some(self.bttv[i].code.as_str()),
                None => None,
            },
            SlotPlatform::Ffz => {
                let id = match parse_usize_exec(emote_id) {
                    Some(id) => id,
                    None => return None,
                };
                match find_by_num_id(&self.ffz, id) {
                    Some(i) => Some(self.ffz[i].name.as_str()),
                    None => None,
                }
            },
            SlotPlatform::SevenTv => match find_by_str_id(&self.seventv, emote_id) {
                Some(i) => Some(self.seventv[i].name.as_str()),
                None => None,
            },
        }
    }
}

} // verus!
