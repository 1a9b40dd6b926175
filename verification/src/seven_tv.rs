//! 7TV users, emote sets and editors as the bot sees them.

use vstd::prelude::*;

verus! {

/// A 7TV emote; `listed` says whether 7TV lists it publicly.
pub struct SevenEmote {
    pub name: String,
    pub id: String,
    pub listed: bool,
}

/// A 7TV user with the emote set its channel uses, if any.
pub struct SevenUserResponse {
    pub emote_set: Option<SevenEmoteSet>,
    pub user: SevenUser,
}

/// The id of the emote set a 7TV user's channel uses: the set that slot and
/// swap rewards fill. A user without one is refused.
pub fn emote_set_id(user: &SevenUserResponse) -> (r: Result<String, String>)
    ensures
        match user.emote_set {
            Some(set) => r matches Ok(id) && id@ == set.id@,
            None => r matches Err(m) && m@ == "No 7TV emote set selected"@,
        },
{
    match &user.emote_set {
        Some(set) => Ok(String::from_str(set.id.as_str())),
        None => Err(String::from_str("No 7TV emote set selected")),
    }
}

/// The editors of a 7TV user.
pub struct SevenUser {
    pub editors: Vec<SevenEditor>,
}

/// A 7TV emote set and how many emotes it may hold.
pub struct SevenEmoteSet {
    pub id: String,
    pub capacity: usize,
    pub emotes: Vec<SevenEmote>,
}

/// That `editor_id` edits (or asked to edit) the account `user_id`.
pub struct SevenEditorRelation {
    pub user_id: String,
    pub editor_id: String,
    pub status: SevenEditorStatus,
}

/// The state of an editor relation.
#[derive(Clone, Copy, Debug, PartialEq, Eq, Structural)]
pub enum SevenEditorStatus {
    Accepted,
    Rejected,
    Pending,
    Other,
}

/// The answer to an editor request.
#[derive(Clone, Copy, Debug, PartialEq, Eq, Structural)]
pub enum SevenEditorUpdateStatus {
    Accept,
    Reject,
}

/// An editor of a 7TV account.
pub struct SevenEditor {
    pub id: String,
}

} // verus!
