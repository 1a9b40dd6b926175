//! What a reward does when it is redeemed, as the bot stores it.

use crate::platform::SlotPlatform;
use vstd::prelude::*;

verus! {

/// A timeout reward: how long the timeout lasts (a duration text, possibly
/// `rand(a;b)`) and whether VIPs are spared.
pub struct TimeoutRewardData {
    pub duration: String,
    pub vip: bool,
}

/// A swap reward: the most emotes it keeps (none: no limit), whether
/// unlisted 7TV emotes may be added, and whether the chat gets a reply.
pub struct SwapRewardData {
    pub limit: Option<u16>,
    pub allow_unlisted: bool,
    pub reply: bool,
}

/// A slot reward: how many slots it has, how long an emote stays, and
/// whether the chat gets a reply.
pub struct SlotRewardData {
    pub slots: usize,
    pub expiration: String,
    pub reply: bool,
}

/// A Spotify reward: whether explicit tracks may be played.
pub struct SpotifyPlayOptions {
    pub allow_explicit: bool,
}

/// A reward that removes an emote from a platform.
pub struct RemEmoteRewardData {
    pub platform: SlotPlatform,
    pub reply: bool,
}

/// Every kind of reward the bot runs.
pub enum RewardData {
    Timeout(TimeoutRewardData),
    SubOnly(String),
    EmoteOnly(String),
    BttvSwap(SwapRewardData),
    FfzSwap(SwapRewardData),
    SevenTvSwap(SwapRewardData),
    BttvSlot(SlotRewardData),
    FfzSlot(SlotRewardData),
    SevenTvSlot(SlotRewardData),
    SpotifySkip,
    SpotifyQueue(SpotifyPlayOptions),
    SpotifyPlay(SpotifyPlayOptions),
    RemEmote(RemEmoteRewardData),
}

/// A chat mode that a reward switches on for a while.
#[derive(Clone, Copy, Debug, PartialEq, Eq, Structural)]
pub enum TimedModeKind {
    Subonly,
    Emoteonly,
}

} // verus!
