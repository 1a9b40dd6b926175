//! FrankerFaceZ rooms, users and emotes as the bot sees them.

use vstd::prelude::*;
use vstd::std_specs::cmp::PartialEqSpec;

verus! {

/// An FFZ emote: its numeric id and its name.
pub struct FfzEmote {
    pub id: usize,
    pub name: String,
}

/// Two FFZ emotes are treated as the same when they share the id or the name.
impl PartialEq for FfzEmote {
    fn eq(&self, other: &Self) -> (r: bool) {
        self.id == other.id || self.name == other.name
    }
}

impl vstd::std_specs::cmp::PartialEqSpecImpl for FfzEmote {
    open spec fn obeys_eq_spec() -> bool {
        true
    }

    open spec fn eq_spec(&self, other: &FfzEmote) -> bool {
        self.id == other.id || self.name@ == other.name@
    }
}

/// Emote equality is reflexive and symmetric: an emote equals itself, and
/// two emotes are equal in either order.
pub proof fn law_ffz_emote_eq(a: FfzEmote, b: FfzEmote)
    ensures
        a.eq_spec(&a),
        a.eq_spec(&b) == b.eq_spec(&a),
{
}

/// A set of FFZ emotes.
pub struct FfzEmoteSet {
    pub id: usize,
    pub emoticons: Vec<FfzEmote>,
}

/// An FFZ room: its emote sets, each under its key, and the room itself.
/// FFZ sends the sets as a map, so a room read from FFZ holds each key once
/// (`distinct_keys`).
pub struct FfzRoomData {
    pub sets: Vec<(String, FfzEmoteSet)>,
    pub room: FfzRoom,
}

impl FfzRoomData {
    /// No key names two sets.
    pub open spec fn distinct_keys(&self) -> bool {
        forall|i: int, j: int|
            0 <= i < j < self.sets@.len() ==> self.sets@[i].0@ != self.sets@[j].0@
    }
}

/// The id of an FFZ room.
pub struct FfzRoom {
    pub _id: usize,
}

/// An FFZ user with the number of emotes its channel may hold.
pub struct FfzUser {
    pub max_emoticons: usize,
    pub id: usize,
    pub name: String,
}

} // verus!
