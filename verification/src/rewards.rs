//! The decisions around a redemption: whether a reward's settings are valid,
//! what saving a reward changes, what a timeout or a timed chat mode needs,
//! and what the chat is told afterwards.

use crate::extract::{duration_range, duration_range_exec, read_duration, read_duration_exec, DurationError, DurationFault};
use crate::platform::SlotPlatform;
use crate::reward_data::{RewardData, TimedModeKind};
use vstd::prelude::*;

verus! {

/// The check on the platform's side that a reward needs before it is saved:
/// that the bot is an editor of the channel there, or that the broadcaster
/// connected Spotify.
#[derive(Clone, Copy, Debug, PartialEq, Eq, Structural)]
pub enum PlatformCheck {
    Nothing,
    BttvEditor,
    FfzEditor,
    SevenTvEditor,
    SpotifyToken,
}

/// The platform check of an editor on `p`.
pub open spec fn editor_check(p: SlotPlatform) -> PlatformCheck {
    match p {
        SlotPlatform::Bttv => PlatformCheck::BttvEditor,
        SlotPlatform::Ffz => PlatformCheck::FfzEditor,
        SlotPlatform::SevenTv => PlatformCheck::SevenTvEditor,
    }
}

/// The platform check a reward needs.
pub open spec fn check_of(reward: RewardData) -> PlatformCheck {
    match reward {
        RewardData::Timeout(_) | RewardData::SubOnly(_) | RewardData::EmoteOnly(_) => PlatformCheck::Nothing,
        RewardData::BttvSwap(_) | RewardData::BttvSlot(_) => PlatformCheck::BttvEditor,
        RewardData::FfzSwap(_) | RewardData::FfzSlot(_) => PlatformCheck::FfzEditor,
        RewardData::SevenTvSwap(_) | RewardData::SevenTvSlot(_) => PlatformCheck::SevenTvEditor,
        RewardData::SpotifySkip | RewardData::SpotifyQueue(_) | RewardData::SpotifyPlay(_) => PlatformCheck::SpotifyToken,
        RewardData::RemEmote(d) => editor_check(d.platform),
    }
}

/// Which platform check a reward needs before it is saved.
pub fn required_check(reward: &RewardData) -> (r: PlatformCheck)
    ensures
        r == check_of(*reward),
{
    match reward {
        RewardData::Timeout(_) | RewardData::SubOnly(_) | RewardData::EmoteOnly(_) => PlatformCheck::Nothing,
        RewardData::BttvSwap(_) | RewardData::BttvSlot(_) => PlatformCheck::BttvEditor,
        RewardData::FfzSwap(_) | RewardData::FfzSlot(_) => PlatformCheck::FfzEditor,
        RewardData::SevenTvSwap(_) | RewardData::SevenTvSlot(_) => PlatformCheck::SevenTvEditor,
        RewardData::SpotifySkip | RewardData::SpotifyQueue(_) | RewardData::SpotifyPlay(_) => PlatformCheck::SpotifyToken,
        RewardData::RemEmote(d) => match d.platform {
            SlotPlatform::Bttv => PlatformCheck::BttvEditor,
            SlotPlatform::Ffz => PlatformCheck::FfzEditor,
            SlotPlatform::SevenTv => PlatformCheck::SevenTvEditor,
        },
    }
}

/// The message when the bot is no FFZ editor of the channel.
pub open spec fn not_an_editor() -> Seq<char> {
    "RewardMore isn't an editor for the user"@
}

/// Turns FFZ's list of the bot's channels into the editor check's outcome.
pub fn ffz_editor_outcome(is_editor: bool) -> (r: Result<(), String>)
    ensures
        if is_editor {
            r is Ok
        } else {
            r matches Err(e) && e@ == not_an_editor()
        },
{
    if is_editor {
        Ok(())
    } else {
        Err(String::from_str("RewardMore isn't an editor for the user"))
    }
}

/// Why a reward's settings are refused.
#[derive(Debug)]
pub enum VerifyError {
    /// The platform check failed, with its message.
    Check(String),
    /// The reward asks for more slots than the platform's maximum.
    TooManySlots(usize),
    /// A duration of the reward cannot be read.
    Duration(DurationError),
}

/// `VerifyError` over character sequences.
pub enum VerifyFault {
    Check(Seq<char>),
    TooManySlots(usize),
    Duration(DurationFault),
}

impl View for VerifyError {
    type V = VerifyFault;

    open spec fn view(&self) -> VerifyFault {
        match self {
            VerifyError::Check(m) => VerifyFault::Check(m@),
            VerifyError::TooManySlots(n) => VerifyFault::TooManySlots(*n),
            VerifyError::Duration(d) => VerifyFault::Duration(d@),
        }
    }
}

impl VerifyError {
    /// The message of a slot maximum: "50 slots is the max".
    pub fn slot_message(max: usize) -> (r: String)
        ensures
            r@ == crate::formatting::decimal(max as nat) + " slots is the max"@,
    {
        let mut s = String::new();
        crate::formatting::push_decimal(&mut s, max as u64);
        s.append(" slots is the max");
        assert(s@ =~= crate::formatting::decimal(max as nat) + " slots is the max"@);
        s
    }
}

/// Whether a duration text is refused, and why.
pub open spec fn duration_fault(text: Seq<char>) -> Option<DurationFault> {
    match duration_range(text) {
        Ok(_) => None,
        Err(f) => Some(f),
    }
}

/// The most slots a slot reward may have on a platform.
pub open spec fn max_slots(p: SlotPlatform) -> usize {
    match p {
        SlotPlatform::Bttv => 50,
        SlotPlatform::Ffz => 50,
        SlotPlatform::SevenTv => 100,
    }
}

/// The verdict on a reward's settings, after its platform check came back
/// as `check`: the platform check first, then the slot maximum, then the
/// durations.
pub open spec fn verdict(reward: RewardData, check: Result<(), Seq<char>>) -> Option<VerifyFault> {
    let slot_verdict = |p: SlotPlatform, slots: usize, expiration: Seq<char>|
        if slots > max_slots(p) {
            Some(VerifyFault::TooManySlots(max_slots(p)))
        } else {
            match duration_fault(expiration) {
                Some(f) => Some(VerifyFault::Duration(f)),
                None => None,
            }
        };
    match check {
        Err(m) => if check_of(reward) != PlatformCheck::Nothing {
            Some(VerifyFault::Check(m))
        } else {
            match reward {
                RewardData::Timeout(t) => match duration_fault(t.duration@) {
                    Some(f) => Some(VerifyFault::Duration(f)),
                    None => None,
                },
                RewardData::SubOnly(d) | RewardData::EmoteOnly(d) => match duration_fault(d@) {
                    Some(f) => Some(VerifyFault::Duration(f)),
                    None => None,
                },
                _ => None,
            }
        },
        Ok(_) => match reward {
            RewardData::Timeout(t) => match duration_fault(t.duration@) {
                Some(f) => Some(VerifyFault::Duration(f)),
                None => None,
            },
            RewardData::SubOnly(d) | RewardData::EmoteOnly(d) => match duration_fault(d@) {
                Some(f) => Some(VerifyFault::Duration(f)),
                None => None,
            },
            RewardData::BttvSlot(s) => slot_verdict(SlotPlatform::Bttv, s.slots, s.expiration@),
            RewardData::FfzSlot(s) => slot_verdict(SlotPlatform::Ffz, s.slots, s.expiration@),
            RewardData::SevenTvSlot(s) => slot_verdict(SlotPlatform::SevenTv, s.slots, s.expiration@),
            _ => None,
        },
    }
}

/// A reward that runs for a time (a timeout, a sub-only or an emote-only
/// mode) is refused exactly when its duration text cannot be read, with the
/// reason the duration gives, whatever the platform check said.
pub proof fn law_unreadable_duration_refused(reward: RewardData, check: Result<(), Seq<char>>)
    ensures
        match reward {
            RewardData::Timeout(t) => verdict(reward, check) == match duration_range(t.duration@) {
                Err(f) => Some(VerifyFault::Duration(f)),
                Ok(_) => None,
            },
            RewardData::SubOnly(d) | RewardData::EmoteOnly(d) => verdict(reward, check) == match duration_range(d@) {
                Err(f) => Some(VerifyFault::Duration(f)),
                Ok(_) => None,
            },
            _ => true,
        },
{
}

fn check_duration(text: &str) -> (r: Result<(), VerifyError>)
    ensures
        match duration_fault(text@) {
            Some(f) => r matches Err(e) && e@ == VerifyFault::Duration(f),
            None => r is Ok,
        },
{
    match duration_range_exec(text) {
        Ok(_) => Ok(()),
        Err(e) => Err(VerifyError::Duration(e)),
    }
}

fn check_slots(p: SlotPlatform, slots: usize, expiration: &str) -> (r: Result<(), VerifyError>)
    ensures
        if slots > max_slots(p) {
            r matches Err(e) && e@ == VerifyFault::TooManySlots(max_slots(p))
        } else {
            match duration_fault(expiration@) {
                Some(f) => r matches Err(e) && e@ == VerifyFault::Duration(f),
                None => r is Ok,
            }
        },
{
    let max: usize = match p {
        SlotPlatform::Bttv => 50,
        SlotPlatform::Ffz => 50,
        SlotPlatform::SevenTv => 100,
    };
    if slots > max {
        return Err(VerifyError::TooManySlots(max));
    }
    check_duration(expiration)
}

/// Decides whether a reward's settings are valid, given the outcome of the
/// platform check that `required_check` named (ignored where it named none).
pub fn verify_reward(reward: &RewardData, check: Result<(), String>) -> (r: Result<(), VerifyError>)
    ensures
        match verdict(
            *reward,
            match check {
                Ok(_) => Ok(()),
                Err(m) => Err(m@),
            },
        ) {
            Some(f) => r matches Err(e) && e@ == f,
            None => r is Ok,
        },
{
    let needs_check = match required_check(reward) {
        PlatformCheck::Nothing => false,
        _ => true,
    };
    if needs_check {
        if let Err(m) = check {
            return Err(VerifyError::Check(m));
        }
    }
    match reward {
        RewardData::Timeout(t) => check_duration(t.duration.as_str()),
        RewardData::SubOnly(d) | RewardData::EmoteOnly(d) => check_duration(d.as_str()),
        RewardData::BttvSlot(s) => check_slots(SlotPlatform::Bttv, s.slots, s.expiration.as_str()),
        RewardData::FfzSlot(s) => check_slots(SlotPlatform::Ffz, s.slots, s.expiration.as_str()),
        RewardData::SevenTvSlot(s) => check_slots(SlotPlatform::SevenTv, s.slots, s.expiration.as_str()),
        _ => Ok(()),
    }
}

/// Whether a live delay is refused, and with which message.
pub open spec fn live_delay_error(delay: Option<Seq<char>>) -> Option<Seq<char>> {
    match delay {
        Some(d) => match read_duration(d) {
            Err(m) => Some("Could not parse duration: "@ + m),
            Ok(_) => None,
        },
        None => None,
    }
}

/// Checks that a reward's live delay, if it has one, is a duration.
pub fn verify_live_delay(delay: &Option<String>) -> (r: Result<(), String>)
    ensures
        match live_delay_error(
            match delay {
                Some(d) => Some(d@),
                None => None,
            },
        ) {
            Some(m) => r matches Err(e) && e@ == m,
            None => r is Ok,
        },
{
    if let Some(d) = delay {
        if let Err((m, _)) = read_duration_exec(d.as_str()) {
            let mut s = String::from_str("Could not parse duration: ");
            s.append(m.as_str());
            return Err(s);
        }
    }
    Ok(())
}

/// What saving a reward changes besides the reward itself.
#[derive(Clone, Copy, Debug, PartialEq, Eq, Structural)]
pub enum SaveAction {
    /// Nothing.
    Nothing,
    /// Remove the oldest swapped-in emotes on the platform down to the limit.
    PruneSwaps(SlotPlatform, u16),
    /// Resize the reward's slots on the platform.
    ResizeSlots(SlotPlatform, usize),
}

/// The action saving a reward takes.
pub open spec fn save_action_of(reward: RewardData) -> SaveAction {
    match reward {
        RewardData::BttvSwap(s) => match s.limit {
            Some(l) => SaveAction::PruneSwaps(SlotPlatform::Bttv, l),
            None => SaveAction::Nothing,
        },
        RewardData::FfzSwap(s) => match s.limit {
            Some(l) => SaveAction::PruneSwaps(SlotPlatform::Ffz, l),
            None => SaveAction::Nothing,
        },
        RewardData::SevenTvSwap(s) => match s.limit {
            Some(l) => SaveAction::PruneSwaps(SlotPlatform::SevenTv, l),
            None => SaveAction::Nothing,
        },
        RewardData::BttvSlot(s) => SaveAction::ResizeSlots(SlotPlatform::Bttv, s.slots),
        RewardData::FfzSlot(s) => SaveAction::ResizeSlots(SlotPlatform::Ffz, s.slots),
        RewardData::SevenTvSlot(s) => SaveAction::ResizeSlots(SlotPlatform::SevenTv, s.slots),
        _ => SaveAction::Nothing,
    }
}

/// Decides what saving a reward changes: a swap reward with a limit prunes
/// its emotes, a slot reward resizes its slots.
pub fn save_reward(reward: &RewardData) -> (r: SaveAction)
    ensures
        r == save_action_of(*reward),
{
    match reward {
        RewardData::BttvSwap(s) => match s.limit {
            Some(l) => SaveAction::PruneSwaps(SlotPlatform::Bttv, l),
            None => SaveAction::Nothing,
        },
        RewardData::FfzSwap(s) => match s.limit {
            Some(l) => SaveAction::PruneSwaps(SlotPlatform::Ffz, l),
            None => SaveAction::Nothing,
        },
        RewardData::SevenTvSwap(s) => match s.limit {
            Some(l) => SaveAction::PruneSwaps(SlotPlatform::SevenTv, l),
            None => SaveAction::Nothing,
        },
        RewardData::BttvSlot(s) => SaveAction::ResizeSlots(SlotPlatform::Bttv, s.slots),
        RewardData::FfzSlot(s) => SaveAction::ResizeSlots(SlotPlatform::Ffz, s.slots),
        RewardData::SevenTvSlot(s) => SaveAction::ResizeSlots(SlotPlatform::SevenTv, s.slots),
        _ => SaveAction::Nothing,
    }
}

/// What a redemption of a reward runs.
#[derive(Clone, Copy, Debug, PartialEq, Eq, Structural)]
pub enum Execution {
    Timeout,
    TimedMode(TimedModeKind),
    Swap(SlotPlatform),
    Slot(SlotPlatform),
    RemoveEmote(SlotPlatform),
    Spotify(crate::reply::SpotifyAction),
}

/// The execution a reward runs.
pub open spec fn execution_of(reward: RewardData) -> Execution {
    match reward {
        RewardData::Timeout(_) => Execution::Timeout,
        RewardData::SubOnly(_) => Execution::TimedMode(TimedModeKind::Subonly),
        RewardData::EmoteOnly(_) => Execution::TimedMode(TimedModeKind::Emoteonly),
        RewardData::BttvSwap(_) => Execution::Swap(SlotPlatform::Bttv),
        RewardData::FfzSwap(_) => Execution::Swap(SlotPlatform::Ffz),
        RewardData::SevenTvSwap(_) => Execution::Swap(SlotPlatform::SevenTv),
        RewardData::BttvSlot(_) => Execution::Slot(SlotPlatform::Bttv),
        RewardData::FfzSlot(_) => Execution::Slot(SlotPlatform::Ffz),
        RewardData::SevenTvSlot(_) => Execution::Slot(SlotPlatform::SevenTv),
        RewardData::SpotifySkip => Execution::Spotify(crate::reply::SpotifyAction::Skip),
        RewardData::SpotifyQueue(_) => Execution::Spotify(crate::reply::SpotifyAction::Queue),
        RewardData::SpotifyPlay(_) => Execution::Spotify(crate::reply::SpotifyAction::Play),
        RewardData::RemEmote(d) => Execution::RemoveEmote(d.platform),
    }
}

/// Decides what a redemption of a reward runs.
pub fn execution(reward: &RewardData) -> (r: Execution)
    ensures
        r == execution_of(*reward),
{
    match reward {
        RewardData::Timeout(_) => Execution::Timeout,
        RewardData::SubOnly(_) => Execution::TimedMode(TimedModeKind::Subonly),
        RewardData::EmoteOnly(_) => Execution::TimedMode(TimedModeKind::Emoteonly),
        RewardData::BttvSwap(_) => Execution::Swap(SlotPlatform::Bttv),
        RewardData::FfzSwap(_) => Execution::Swap(SlotPlatform::Ffz),
        RewardData::SevenTvSwap(_) => Execution::Swap(SlotPlatform::SevenTv),
        RewardData::BttvSlot(_) => Execution::Slot(SlotPlatform::Bttv),
        RewardData::FfzSlot(_) => Execution::Slot(SlotPlatform::Ffz),
        RewardData::SevenTvSlot(_) => Execution::Slot(SlotPlatform::SevenTv),
        RewardData::SpotifySkip => Execution::Spotify(crate::reply::SpotifyAction::Skip),
        RewardData::SpotifyQueue(_) => Execution::Spotify(crate::reply::SpotifyAction::Queue),
        RewardData::SpotifyPlay(_) => Execution::Spotify(crate::reply::SpotifyAction::Play),
        RewardData::RemEmote(d) => Execution::RemoveEmote(d.platform),
    }
}

/// Each reward runs its own kind of work: a timeout reward times out, the
/// sub-only and emote-only rewards switch their mode, the swap, slot and
/// removal rewards work on their own platform, and each Spotify reward
/// skips, queues or plays as its kind says; no other reward runs these.
pub proof fn law_reward_runs_its_own_work(reward: RewardData)
    ensures
        execution_of(reward) == Execution::Timeout <==> reward is Timeout,
        execution_of(reward) == Execution::TimedMode(TimedModeKind::Subonly) <==> reward is SubOnly,
        execution_of(reward) == Execution::TimedMode(TimedModeKind::Emoteonly) <==> reward is EmoteOnly,
        execution_of(reward) == Execution::Swap(SlotPlatform::Bttv) <==> reward is BttvSwap,
        execution_of(reward) == Execution::Swap(SlotPlatform::Ffz) <==> reward is FfzSwap,
        execution_of(reward) == Execution::Swap(SlotPlatform::SevenTv) <==> reward is SevenTvSwap,
        execution_of(reward) == Execution::Slot(SlotPlatform::Bttv) <==> reward is BttvSlot,
        execution_of(reward) == Execution::Slot(SlotPlatform::Ffz) <==> reward is FfzSlot,
        execution_of(reward) == Execution::Slot(SlotPlatform::SevenTv) <==> reward is SevenTvSlot,
        execution_of(reward) == Execution::Spotify(crate::reply::SpotifyAction::Skip) <==> reward is SpotifySkip,
        execution_of(reward) == Execution::Spotify(crate::reply::SpotifyAction::Queue) <==> reward is SpotifyQueue,
        execution_of(reward) == Execution::Spotify(crate::reply::SpotifyAction::Play) <==> reward is SpotifyPlay,
        forall|p: SlotPlatform|
            execution_of(reward) == Execution::RemoveEmote(p) <==> (reward matches RewardData::RemEmote(d)
                && d.platform == p),
{
}

/// Why a timed chat mode is not switched on: the chat is in it already.
pub open spec fn timed_mode_refusal(mode: TimedModeKind, subscriber_mode: bool, emote_mode: bool) -> Option<
    Seq<char>,
> {
    match mode {
        TimedModeKind::Subonly => if subscriber_mode {
            Some("This chat is already in subscriber mode."@)
        } else {
            None
        },
        TimedModeKind::Emoteonly => if emote_mode {
            Some("This chat is already in emote only mode."@)
        } else {
            None
        },
    }
}

/// Refuses to switch on a chat mode that is on already.
pub fn check_timed_mode(mode: TimedModeKind, subscriber_mode: bool, emote_mode: bool) -> (r: Result<(), String>)
    ensures
        match timed_mode_refusal(mode, subscriber_mode, emote_mode) {
            Some(m) => r matches Err(e) && e@ == m,
            None => r is Ok,
        },
{
    match mode {
        TimedModeKind::Subonly => if subscriber_mode {
            return Err(String::from_str("This chat is already in subscriber mode."));
        },
        TimedModeKind::Emoteonly => if emote_mode {
            return Err(String::from_str("This chat is already in emote only mode."));
        },
    }
    Ok(())
}

/// The chat settings to change for a timed mode: `(emote_mode,
/// subscriber_mode)`, each set to `enable` for its own mode and left alone
/// otherwise.
pub fn chat_settings_change(mode: TimedModeKind, enable: bool) -> (r: (Option<bool>, Option<bool>))
    ensures
        r.0 == (if mode == TimedModeKind::Emoteonly {
            Some(enable)
        } else {
            None
        }),
        r.1 == (if mode == TimedModeKind::Subonly {
            Some(enable)
        } else {
            None
        }),
{
    match mode {
        TimedModeKind::Emoteonly => (Some(enable), None),
        TimedModeKind::Subonly => (None, Some(enable)),
    }
}

/// How long a timed mode that was interrupted still has to run: the time
/// to its end, or nothing when the end has passed.
pub fn remaining_secs(end_ts: i64, now: i64) -> (r: u64)
    ensures
        r == (if end_ts > now {
            end_ts - now
        } else {
            0
        }),
{
    if end_ts > now {
        let d = end_ts as i128 - now as i128;
        d as u64
    } else {
        0
    }
}

} // verus!
