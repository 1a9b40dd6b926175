//! BetterTTV accounts and emotes as the bot sees them.

use crate::text::str_eq;
use vstd::prelude::*;
use vstd::std_specs::cmp::PartialEqSpec;

verus! {

/// A channel for which the bot is a BTTV editor.
pub struct BttvEditor {
    pub id: String,
    pub name: String,
    pub provider_id: String,
    pub limits: BttvLimits,
}

/// The emote limits of a BTTV channel.
#[derive(Debug)]
pub struct BttvLimits {
    pub shared_emotes: usize,
}

/// A BTTV emote: its id and its code (name).
pub struct BttvEmote {
    pub id: String,
    pub code: String,
}

/// Two BTTV emotes are treated as the same when they share the id or the
/// code: a channel cannot hold both.
impl PartialEq for BttvEmote {
    fn eq(&self, other: &Self) -> (r: bool) {
        self.id == other.id || self.code == other.code
    }
}

impl vstd::std_specs::cmp::PartialEqSpecImpl for BttvEmote {
    open spec fn obeys_eq_spec() -> bool {
        true
    }

    open spec fn eq_spec(&self, other: &BttvEmote) -> bool {
        self.id@ == other.id@ || self.code@ == other.code@
    }
}

/// Emote equality is reflexive and symmetric: an emote equals itself, and
/// two emotes are equal in either order.
pub proof fn law_bttv_emote_eq(a: BttvEmote, b: BttvEmote)
    ensures
        a.eq_spec(&a),
        a.eq_spec(&b) == b.eq_spec(&a),
{
}

/// A BTTV user with the emotes of its channel.
pub struct BttvUserInfo {
    pub id: String,
    pub channel_emotes: Vec<BttvEmote>,
    pub shared_emotes: Vec<BttvEmote>,
}

/// The first entry at `i` or later for the channel `bttv_id`.
pub open spec fn editor_index_from(dashboards: Seq<BttvEditor>, bttv_id: Seq<char>, i: int) -> Option<
    int,
>
    decreases dashboards.len() - i,
{
    if i < 0 || i >= dashboards.len() {
        None
    } else if dashboards[i].id@ == bttv_id {
        Some(i)
    } else {
        editor_index_from(dashboards, bttv_id, i + 1)
    }
}

/// Finds the channel `bttv_id` among the channels the bot edits (the first
/// entry with that id) and gives its limits; `None` means the bot is not an
/// editor there.
pub fn find_user_limits<'a>(dashboards: &'a Vec<BttvEditor>, bttv_id: &str) -> (r: Option<
    &'a BttvLimits,
>)
    ensures
        match editor_index_from(dashboards@, bttv_id@, 0) {
            Some(i) => r matches Some(l) && *l == dashboards@[i].limits,
            None => r is None,
        },
{
    let mut i: usize = 0;
    while i < dashboards.len()
        invariant
            i <= dashboards@.len(),
            editor_index_from(dashboards@, bttv_id@, 0) == editor_index_from(
                dashboards@,
                bttv_id@,
                i as int,
            ),
        decreases dashboards@.len() - i,
    {
        if str_eq(dashboards[i].id.as_str(), bttv_id) {
            return Some(&dashboards[i].limits);
        }
        i = i + 1;
    }
    None
}

} // verus!
