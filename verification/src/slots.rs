//! Slot rewards: a reward owns a number of slots, each of which holds one
//! emote until it expires. This module decides how the slots of a reward
//! are resized, which slot a redemption fills, and what the chat is told.

use crate::emotes::EmoteEnvData;
use crate::extract::{read_duration, read_duration_exec};
use crate::formatting::{decimal, push_decimal};
use crate::platform::SlotPlatform;
use crate::swap::opt_seq;
use crate::text::{trim_to, trim_to_allowed, trim_to_bytes};
use vstd::utf8::encode_utf8;
use vstd::prelude::*;

verus! {

/// One slot of a reward; times are nanoseconds since the Unix epoch.
#[derive(Debug)]
pub struct SlotEntry {
    pub id: i32,
    pub emote_id: Option<String>,
    pub name: Option<String>,
    pub expires: Option<i128>,
    pub added_by: Option<String>,
    pub added_at: Option<i128>,
}

/// The slot holds no emote.
pub open spec fn is_free(s: SlotEntry) -> bool {
    s.emote_id is None
}

/// The free slots of `s`, in their order.
pub open spec fn free_slots(s: Seq<SlotEntry>) -> Seq<SlotEntry>
    decreases s.len(),
{
    if s.len() == 0 {
        Seq::empty()
    } else if is_free(s.last()) {
        free_slots(s.drop_last()).push(s.last())
    } else {
        free_slots(s.drop_last())
    }
}

/// The slots of `s` that hold an emote, in their order.
pub open spec fn filled_slots(s: Seq<SlotEntry>) -> Seq<SlotEntry>
    decreases s.len(),
{
    if s.len() == 0 {
        Seq::empty()
    } else if is_free(s.last()) {
        filled_slots(s.drop_last())
    } else {
        filled_slots(s.drop_last()).push(s.last())
    }
}

/// The order in which slots are given up when a reward shrinks: free slots
/// first, then filled ones, each group in its original order.
pub open spec fn deletion_order(s: Seq<SlotEntry>) -> Seq<SlotEntry> {
    free_slots(s) + filled_slots(s)
}

/// What resizing a reward to `n_slots` slots does when it has `n_current`.
#[derive(Clone, Copy, Debug, PartialEq, Eq, Structural)]
pub enum ResizeStep {
    /// Give up this many slots.
    Shrink(usize),
    /// Create this many slots.
    Grow(usize),
    /// The reward already has that many slots.
    Keep,
}

/// The step that takes a reward from `n_current` slots to `n_slots`.
pub open spec fn resize_step_of(n_slots: usize, n_current: usize) -> Result<ResizeStep, Seq<char>> {
    if n_slots == 0 {
        Err("You can't have 0 slots"@)
    } else if n_current > n_slots {
        Ok(ResizeStep::Shrink((n_current - n_slots) as usize))
    } else if n_current < n_slots {
        Ok(ResizeStep::Grow((n_slots - n_current) as usize))
    } else {
        Ok(ResizeStep::Keep)
    }
}

/// Decides how a reward with `n_current` slots is resized to `n_slots`;
/// zero slots are refused.
pub fn resize_step(n_slots: usize, n_current: usize) -> (r: Result<ResizeStep, String>)
    ensures
        match (r, resize_step_of(n_slots, n_current)) {
            (Ok(a), Ok(b)) => a == b,
            (Err(e), Err(m)) => e@ == m,
            _ => false,
        },
{
    if n_slots == 0 {
        return Err(String::from_str("You can't have 0 slots"));
    }
    if n_current > n_slots {
        Ok(ResizeStep::Shrink(n_current - n_slots))
    } else if n_current < n_slots {
        Ok(ResizeStep::Grow(n_slots - n_current))
    } else {
        Ok(ResizeStep::Keep)
    }
}

/// Orders slots for deletion: the free slots first, then the filled ones,
/// each group in the order it came in.
pub fn order_for_deletion(slots: Vec<SlotEntry>) -> (r: Vec<SlotEntry>)
    ensures
        r@ == deletion_order(slots@),
{
    let ghost orig = slots@;
    let n = slots.len();
    let mut rest = slots;
    let mut free: Vec<SlotEntry> = Vec::new();
    let mut filled: Vec<SlotEntry> = Vec::new();
    let mut i: usize = 0;
    while i < n
        invariant
            n == orig.len(),
            i <= n,
            rest@ == orig.skip(i as int),
            free@ == free_slots(orig.take(i as int)),
            filled@ == filled_slots(orig.take(i as int)),
        decreases n - i,
    {
        proof {
            assert(orig.take(i + 1).drop_last() =~= orig.take(i as int));
            assert(orig.take(i + 1).last() == orig[i as int]);
        }
        let s = rest.remove(0);
        assert(rest@ =~= orig.skip(i + 1));
        if s.emote_id.is_none() {
            free.push(s);
        } else {
            filled.push(s);
        }
        i = i + 1;
    }
    assert(orig.take(n as int) =~= orig);
    free.append(&mut filled);
    free
}

/// The slots given up when a reward shrinks by `n_to_delete`.
pub open spec fn slots_to_delete(s: Seq<SlotEntry>, n_to_delete: int) -> Seq<SlotEntry> {
    deletion_order(s).take(n_to_delete)
}

/// Picks the `n_to_delete` slots that a shrinking reward gives up.
pub fn pick_slots_to_delete(slots: Vec<SlotEntry>, n_to_delete: usize) -> (r: Vec<SlotEntry>)
    requires
        n_to_delete <= slots@.len(),
    ensures
        r@ == slots_to_delete(slots@, n_to_delete as int),
{
    let ghost orig = slots@;
    proof {
        lemma_deletion_order_len(orig);
    }
    let mut ordered = order_for_deletion(slots);
    ordered.truncate(n_to_delete);
    assert(ordered@ =~= slots_to_delete(orig, n_to_delete as int));
    ordered
}

/// Sorting slots for deletion keeps every slot: the free and the filled
/// slots together are as many as the slots.
pub proof fn lemma_deletion_order_len(s: Seq<SlotEntry>)
    ensures
        free_slots(s).len() + filled_slots(s).len() == s.len(),
        deletion_order(s).len() == s.len(),
    decreases s.len(),
{
    if s.len() > 0 {
        lemma_deletion_order_len(s.drop_last());
    }
}

/// Every slot that `free_slots` lists is free.
proof fn lemma_free_slots_free(s: Seq<SlotEntry>)
    ensures
        forall|j: int| 0 <= j < free_slots(s).len() ==> is_free(#[trigger] free_slots(s)[j]),
    decreases s.len(),
{
    if s.len() > 0 {
        lemma_free_slots_free(s.drop_last());
        let prev = free_slots(s.drop_last());
        if is_free(s.last()) {
            assert forall|j: int| 0 <= j < free_slots(s).len() implies is_free(
                #[trigger] free_slots(s)[j],
            ) by {
                if j < prev.len() {
                    assert(free_slots(s)[j] == prev[j]);
                }
            }
        }
    }
}

/// A shrinking reward gives up free slots before filled ones: when it has at
/// least `n_to_delete` free slots, every slot it gives up is free, and
/// otherwise it gives up all its free slots.
pub proof fn law_free_slots_deleted_first(s: Seq<SlotEntry>, n_to_delete: int)
    requires
        0 <= n_to_delete <= s.len(),
    ensures
        n_to_delete <= free_slots(s).len() ==> forall|j: int|
            0 <= j < n_to_delete ==> is_free(#[trigger] slots_to_delete(s, n_to_delete)[j]),
        n_to_delete > free_slots(s).len() ==> slots_to_delete(s, n_to_delete).take(
            free_slots(s).len() as int,
        ) == free_slots(s),
        slots_to_delete(s, n_to_delete).len() == n_to_delete,
{
    lemma_deletion_order_len(s);
    lemma_free_slots_free(s);
    let d = slots_to_delete(s, n_to_delete);
    if n_to_delete <= free_slots(s).len() {
        assert forall|j: int| 0 <= j < n_to_delete implies is_free(#[trigger] d[j]) by {
            assert(d[j] == free_slots(s)[j]);
        }
    } else {
        assert(d.take(free_slots(s).len() as int) =~= free_slots(s));
    }
}

/// How `{:?}` writes a platform.
pub open spec fn platform_debug(p: SlotPlatform) -> Seq<char> {
    match p {
        SlotPlatform::Bttv => "Bttv"@,
        SlotPlatform::Ffz => "Ffz"@,
        SlotPlatform::SevenTv => "SevenTv"@,
    }
}

/// The `{:?}` text of a platform.
pub fn platform_debug_str(p: SlotPlatform) -> (r: &'static str)
    ensures
        r@ == platform_debug(p),
{
    match p {
        SlotPlatform::Bttv => "Bttv",
        SlotPlatform::Ffz => "Ffz",
        SlotPlatform::SevenTv => "SevenTv",
    }
}

/// Why a reward cannot grow by `needed` slots, if it cannot: the platform
/// has `max - current` free places, of which `known_free` already belong to
/// empty slots of this reward.
pub open spec fn grow_error(platform: SlotPlatform, env: EmoteEnvData, known_free: usize, needed: usize) -> Option<
    Seq<char>,
> {
    let current_free = env.max_emotes - env.current_emotes;
    if current_free <= known_free {
        Some(
            "There are "@ + decimal(current_free as nat) + " free slots on "@ + platform_debug(
                platform,
            ) + ", "@ + decimal(known_free as nat) + " slots are known to be available"@,
        )
    } else if current_free - known_free < needed {
        Some(
            "There are "@ + decimal(current_free as nat) + " free slots on "@ + platform_debug(
                platform,
            ) + " (actually "@ + decimal((current_free - known_free) as nat)
                + " because "@ + decimal(known_free as nat) + " are already uses as slots here) but I need "@
                + decimal(needed as nat),
        )
    } else {
        None
    }
}

/// A reward only grows into room that is really free: when growing by
/// `needed` slots is accepted, the platform's free places cover the
/// reward's empty slots and the new ones together.
pub proof fn law_grow_within_room(platform: SlotPlatform, env: EmoteEnvData, known_free: usize, needed: usize)
    requires
        env.current_emotes <= env.max_emotes,
        grow_error(platform, env, known_free, needed) is None,
    ensures
        env.max_emotes - env.current_emotes >= known_free + needed,
        env.max_emotes - env.current_emotes > known_free,
{
}

/// Checks that the platform has room for `needed` more slots beyond the
/// `known_free` empty slots the reward already has.
pub fn check_grow(platform: SlotPlatform, env: &EmoteEnvData, known_free: usize, needed: usize) -> (r:
    Result<(), String>)
    requires
        env.current_emotes <= env.max_emotes,
    ensures
        match grow_error(platform, *env, known_free, needed) {
            Some(m) => r matches Err(e) && e@ == m,
            None => r is Ok,
        },
{
    let current_free = env.max_emotes - env.current_emotes;
    if current_free <= known_free {
        let mut s = String::from_str("There are ");
        push_decimal(&mut s, current_free as u64);
        s.append(" free slots on ");
        s.append(platform_debug_str(platform));
        s.append(", ");
        push_decimal(&mut s, known_free as u64);
        s.append(" slots are known to be available");
        return Err(s);
    }
    let actually_free = current_free - known_free;
    if actually_free < needed {
        let mut s = String::from_str("There are ");
        push_decimal(&mut s, current_free as u64);
        s.append(" free slots on ");
        s.append(platform_debug_str(platform));
        s.append(" (actually ");
        push_decimal(&mut s, actually_free as u64);
        s.append(" because ");
        push_decimal(&mut s, known_free as u64);
        s.append(" are already uses as slots here) but I need ");
        push_decimal(&mut s, needed as u64);
        return Err(s);
    }
    Ok(())
}

/// The slot a redemption fills (the first free one) and how many slots are
/// free before it is filled.
pub fn first_free_slot(available: Vec<SlotEntry>) -> (r: Result<(SlotEntry, usize), String>)
    ensures
        if available@.len() == 0 {
            r matches Err(e) && e@ == "No free slot is available!"@
        } else {
            r matches Ok((s, n)) && s == available@[0] && n == available@.len()
        },
{
    let n = available.len();
    if n == 0 {
        return Err(String::from_str("No free slot is available!"));
    }
    let mut available = available;
    let s = available.remove(0);
    Ok((s, n))
}

/// Refuses to fill a slot when the platform holds as many emotes as it may.
pub fn check_room(current_emotes: usize, max_emotes: usize) -> (r: Result<(), String>)
    ensures
        if current_emotes >= max_emotes {
            r matches Err(e) && e@ == "There's no free slot!"@
        } else {
            r is Ok
        },
{
    if current_emotes >= max_emotes {
        Err(String::from_str("There's no free slot!"))
    } else {
        Ok(())
    }
}

/// The seconds of the longest span chrono's `TimeDelta` holds
/// (`i64::MAX` milliseconds, rounded down to whole seconds).
pub const MAX_DELTA_SECS: u64 = 9_223_372_036_854_775;

/// The nanoseconds beyond `MAX_DELTA_SECS` that `TimeDelta` still holds.
pub const MAX_DELTA_NANOS: u32 = 807_000_000;

/// Whether a duration is longer than chrono's `TimeDelta` can hold.
pub open spec fn too_long(secs: u64, nanos: u32) -> bool {
    secs > MAX_DELTA_SECS || (secs == MAX_DELTA_SECS && nanos > MAX_DELTA_NANOS)
}

/// chrono's `TimeDelta::from_std` on `secs` seconds and `nanos` nanoseconds,
/// read back with `num_seconds` and `subsec_nanos`. chrono refuses exactly
/// the durations above `TimeDelta::MAX`; below it both parts are kept.
#[verifier::external_body]
fn delta_parts(secs: u64, nanos: u32) -> (r: Option<(i64, i32)>)
    requires
        nanos < 1_000_000_000,
    ensures
        r is None <==> too_long(secs, nanos),
        r matches Some((s, n)) ==> s == secs && n == nanos,
{
    chrono::TimeDelta::from_std(std::time::Duration::new(secs, nanos)).ok().map(|d| (d.num_seconds(), d.subsec_nanos()))
}

/// How long a slot lives, in nanoseconds, by the reward's expiration text:
/// the whole duration, to the nanosecond.
pub open spec fn slot_lifetime_of(expiration: Seq<char>) -> Result<i128, Seq<char>> {
    match read_duration(expiration) {
        Err(_) => Err("No expiration set!"@),
        Ok((secs, nanos)) => if too_long(secs, nanos) {
            Err("Could not add duration lole"@)
        } else {
            Ok((secs * 1_000_000_000 + nanos) as i128)
        },
    }
}

/// Reads how long a slot lives from the reward's expiration text.
pub fn slot_lifetime(expiration: &str) -> (r: Result<i128, String>)
    ensures
        match (r, slot_lifetime_of(expiration@)) {
            (Ok(a), Ok(b)) => a == b,
            (Err(e), Err(m)) => e@ == m,
            _ => false,
        },
{
    let (secs, nanos) = match read_duration_exec(expiration) {
        Ok(d) => d,
        Err(_) => return Err(String::from_str("No expiration set!")),
    };
    match delta_parts(secs, nanos) {
        Some((s, n)) => Ok(s as i128 * 1_000_000_000 + n as i128),
        None => Err(String::from_str("Could not add duration lole")),
    }
}

/// Fills a slot with an emote added by `added_by` at `now`, to expire at
/// `expires`.
pub fn fill_slot(slot: SlotEntry, emote_id: String, name: String, added_by: String, now: i128, expires: i128) -> (r:
    SlotEntry)
    ensures
        r.id == slot.id,
        r.emote_id == Some(emote_id),
        r.name == Some(name),
        r.added_by == Some(added_by),
        r.added_at == Some(now),
        r.expires == Some(expires),
{
    SlotEntry {
        id: slot.id,
        emote_id: Some(emote_id),
        name: Some(name),
        expires: Some(expires),
        added_by: Some(added_by),
        added_at: Some(now),
    }
}

/// After a redemption fills one of `n_available` free slots: how many stay
/// free, and whether the reward closes because none does.
pub fn slots_after_fill(n_available: usize) -> (r: (usize, bool))
    requires
        n_available >= 1,
    ensures
        r.0 == n_available - 1,
        r.1 == (n_available == 1),
{
    (n_available - 1, n_available == 1)
}

/// Ends a slot's emote at once: it expires at the epoch, so the next check
/// of the slots frees it.
pub fn expire_now(slot: SlotEntry) -> (r: SlotEntry)
    ensures
        r.expires == Some(0i128),
        r.id == slot.id,
        r.emote_id == slot.emote_id,
        r.name == slot.name,
        r.added_by == slot.added_by,
        r.added_at == slot.added_at,
{
    SlotEntry { expires: Some(0), ..slot }
}

/// The name an untracked slot is reported under.
pub fn untracked_slot_name(name: Option<String>) -> (r: String)
    ensures
        match name {
            Some(n) => r == n,
            None => r@ == "<empty slot>"@,
        },
{
    match name {
        Some(n) => n,
        None => String::from_str("<empty slot>"),
    }
}

/// The chat message after an emote went into a slot, by how many slots
/// stay open.
pub open spec fn slot_message_of(added: Seq<char>, remaining: usize) -> Seq<char> {
    if remaining > 1 {
        "☑ Added "@ + added + " - 🔳 "@ + decimal(remaining as nat) + " slots open"@
    } else if remaining == 1 {
        "☑ Added "@ + added + " - 🔳 1 slot open"@
    } else {
        "☑ Added "@ + added + " - 0 slots open - 🔒 closing"@
    }
}

/// Tells the chat which emote went into a slot and how many stay open.
pub fn slot_message(added: &str, remaining: usize) -> (r: String)
    ensures
        r@ == slot_message_of(added@, remaining),
{
    let mut s = String::from_str("☑ Added ");
    s.append(added);
    if remaining > 1 {
        s.append(" - 🔳 ");
        push_decimal(&mut s, remaining as u64);
        s.append(" slots open");
    } else if remaining == 1 {
        s.append(" - 🔳 1 slot open");
    } else {
        s.append(" - 0 slots open - 🔒 closing");
    }
    s
}

/// Where a slot redemption stands: the step whose outcome it waits for.
#[derive(Clone, Copy, Debug, PartialEq, Eq, Structural)]
pub enum SlotStage {
    CheckBan,
    LoadSlots,
    LoadData,
    AddEmote,
    ReadClock,
    SaveSlot,
    PauseReward,
    Finished,
}

/// A slot redemption in progress: the emote, who redeemed it, the reward's
/// expiration text, and what the steps so far found.
pub struct SlotFlow {
    pub stage: SlotStage,
    pub emote_id: String,
    pub added_by: String,
    pub expiration: String,
    pub slot: Option<SlotEntry>,
    pub n_available: usize,
    pub name: Option<String>,
    /// How long the filled slot lives, in nanoseconds, once the expiration
    /// text was read.
    pub lifetime: i128,
}

/// The outcome of the step a slot redemption waits for.
pub enum SlotEvent {
    /// The ban check: whether the emote is banned.
    Banned(bool),
    /// The reward's free slots, or `None` when they could not be read.
    Slots(Option<Vec<SlotEntry>>),
    /// The emote can be added: how many emotes the platform holds and may
    /// hold, and the emote's name.
    Data { current_emotes: usize, max_emotes: usize, emote_name: String },
    /// Loading the data failed with this message.
    Failed(String),
    /// The platform added the emote.
    Added,
    /// The platform refused the emote with this message.
    AddFailed(String),
    /// The clock: now, in nanoseconds since the Unix epoch.
    Clock { now: i128 },
    /// Whether the slot was saved.
    Saved(bool),
    /// The reward was paused (whether it worked does not matter).
    Paused,
}

/// What a slot redemption does next.
pub enum SlotAction {
    CheckBan,
    LoadSlots,
    LoadData,
    AddEmote,
    /// Read the clock for a slot that lives this many nanoseconds.
    ReadClock(i128),
    SaveSlot(SlotEntry),
    PauseReward,
    /// Answer the redemption: the emote's name and how many slots stay
    /// open, or why it failed.
    Finish(Result<(String, usize), String>),
}

/// How far a slot redemption has come; every step moves it forward.
pub open spec fn slot_rank(stage: SlotStage) -> int {
    match stage {
        SlotStage::CheckBan => 0,
        SlotStage::LoadSlots => 1,
        SlotStage::LoadData => 2,
        SlotStage::AddEmote => 3,
        SlotStage::ReadClock => 4,
        SlotStage::SaveSlot => 5,
        SlotStage::PauseReward => 6,
        SlotStage::Finished => 7,
    }
}

/// The event is the outcome of the step the flow waits for.
pub open spec fn slot_event_fits(stage: SlotStage, event: SlotEvent) -> bool {
    match stage {
        SlotStage::CheckBan => event is Banned,
        SlotStage::LoadSlots => event is Slots,
        SlotStage::LoadData => event is Data || event is Failed,
        SlotStage::AddEmote => event is Added || event is AddFailed,
        SlotStage::ReadClock => event is Clock,
        SlotStage::SaveSlot => event is Saved,
        SlotStage::PauseReward => event is Paused,
        SlotStage::Finished => false,
    }
}

/// The refusal text of the platform for a slot, before it is cut.
pub open spec fn slot_add_failure(e: Seq<char>) -> Seq<char> {
    "Couldn't add emote: "@ + e
}

impl SlotFlow {
    /// From the free slots on, the flow holds the slot it fills and how many
    /// are free; from the data on, the emote's name.
    pub open spec fn well_formed(&self) -> bool {
        &&& (self.stage == SlotStage::LoadData || self.stage == SlotStage::AddEmote || self.stage
            == SlotStage::ReadClock || self.stage == SlotStage::SaveSlot || self.stage
            == SlotStage::PauseReward) ==> self.n_available >= 1
        &&& (self.stage == SlotStage::LoadData || self.stage == SlotStage::AddEmote || self.stage
            == SlotStage::ReadClock) ==> self.slot is Some
        &&& (self.stage == SlotStage::AddEmote || self.stage == SlotStage::ReadClock || self.stage
            == SlotStage::SaveSlot || self.stage == SlotStage::PauseReward) ==> self.name is Some
        &&& self.lifetime >= 0
    }

    /// A redemption that puts `emote_id` into a slot for `added_by`; it
    /// starts with the ban check.
    pub fn start(emote_id: String, added_by: String, expiration: String) -> (r: (SlotFlow, SlotAction))
        ensures
            r.0.stage == SlotStage::CheckBan,
            r.0.emote_id == emote_id,
            r.0.added_by == added_by,
            r.0.expiration == expiration,
            r.0.well_formed(),
            r.1 is CheckBan,
    {
        (
            SlotFlow { stage: SlotStage::CheckBan, emote_id, added_by, expiration, slot: None, n_available: 0, name: None, lifetime: 0 },
            SlotAction::CheckBan,
        )
    }

    /// Takes the outcome of the step the redemption waits for and names the
    /// next one: a banned emote is refused; the first free slot is taken,
    /// when there is one and the platform has room; after the platform added
    /// the emote the slot is filled at the time the clock reads and expires
    /// the reward's expiration later; the reward is paused when its last free
    /// slot was filled. The expiry, in nanoseconds, must fit in an `i128`.
    pub fn step(&mut self, event: SlotEvent) -> (action: SlotAction)
        requires
            old(self).well_formed(),
            slot_event_fits(old(self).stage, event),
            event matches SlotEvent::AddFailed(e) ==> trim_to_allowed(slot_add_failure(e@), 200),
            event matches SlotEvent::Clock { now } ==> now + old(self).lifetime <= i128::MAX,
        ensures
            final(self).well_formed(),
            slot_rank(final(self).stage) > slot_rank(old(self).stage),
            final(self).emote_id == old(self).emote_id,
            final(self).added_by == old(self).added_by,
            final(self).expiration == old(self).expiration,
            match event {
                SlotEvent::Banned(true) => final(self).stage == SlotStage::Finished && (action matches SlotAction::Finish(Err(m)) && m@ == "This emote is banned"@),
                SlotEvent::Banned(false) => final(self).stage == SlotStage::LoadSlots && action is LoadSlots,
                SlotEvent::Slots(None) => final(self).stage == SlotStage::Finished && (action matches SlotAction::Finish(Err(m)) && m@ == "Internal error"@),
                SlotEvent::Slots(Some(v)) => if v@.len() == 0 {
                    final(self).stage == SlotStage::Finished && (action matches SlotAction::Finish(Err(m)) && m@ == "No free slot is available!"@)
                } else {
                    final(self).stage == SlotStage::LoadData && action is LoadData && final(self).slot == Some(v@[0])
                        && final(self).n_available == v@.len()
                },
                SlotEvent::Data { current_emotes, max_emotes, emote_name } => if current_emotes >= max_emotes {
                    final(self).stage == SlotStage::Finished && (action matches SlotAction::Finish(Err(m)) && m@ == "There's no free slot!"@)
                } else {
                    final(self).stage == SlotStage::AddEmote && action is AddEmote && final(self).name == Some(emote_name)
                        && final(self).slot == old(self).slot && final(self).n_available == old(self).n_available
                },
                SlotEvent::Failed(m) => final(self).stage == SlotStage::Finished && (action matches SlotAction::Finish(Err(e)) && e == m),
                SlotEvent::AddFailed(e) => final(self).stage == SlotStage::Finished && (action matches SlotAction::Finish(Err(m))
                    && encode_utf8(m@) == trim_to_bytes(encode_utf8(slot_add_failure(e@)), 200)),
                SlotEvent::Added => match slot_lifetime_of(old(self).expiration@) {
                    Err(m) => final(self).stage == SlotStage::Finished && (action matches SlotAction::Finish(Err(e)) && e@ == m),
                    Ok(secs) => final(self).stage == SlotStage::ReadClock && action == SlotAction::ReadClock(secs)
                        && final(self).lifetime == secs && final(self).slot == old(self).slot && final(self).name == old(self).name
                        && final(self).n_available == old(self).n_available,
                },
                SlotEvent::Clock { now } => final(self).stage == SlotStage::SaveSlot
                    && final(self).name == old(self).name && final(self).n_available == old(self).n_available
                    && (action matches SlotAction::SaveSlot(s) && old(self).slot matches Some(o) && old(self).name matches Some(n)
                        && s.id == o.id && opt_seq(s.emote_id) == Some(old(self).emote_id@) && opt_seq(s.name) == Some(n@)
                        && opt_seq(s.added_by) == Some(old(self).added_by@) && s.added_at == Some(now) && s.expires == Some((now + old(self).lifetime) as i128)),
                SlotEvent::Saved(false) => final(self).stage == SlotStage::Finished && (action matches SlotAction::Finish(Err(m)) && m@ == "Internal error"@),
                SlotEvent::Saved(true) => if old(self).n_available == 1 {
                    final(self).stage == SlotStage::PauseReward && action is PauseReward && final(self).name == old(self).name
                        && final(self).n_available == old(self).n_available
                } else {
                    final(self).stage == SlotStage::Finished && (action matches SlotAction::Finish(Ok((n, k))) && old(self).name matches Some(o)
                        && n@ == o@ && k == old(self).n_available - 1)
                },
                SlotEvent::Paused => final(self).stage == SlotStage::Finished && (action matches SlotAction::Finish(Ok((n, k))) && old(self).name matches Some(o)
                    && n@ == o@ && k == old(self).n_available - 1),
            },
    {
        match event {
            SlotEvent::Banned(banned) => {
                if banned {
                    self.stage = SlotStage::Finished;
                    SlotAction::Finish(Err(String::from_str("This emote is banned")))
                } else {
                    self.stage = SlotStage::LoadSlots;
                    SlotAction::LoadSlots
                }
            },
            SlotEvent::Slots(None) => {
                self.stage = SlotStage::Finished;
                SlotAction::Finish(Err(String::from_str("Internal error")))
            },
            SlotEvent::Slots(Some(v)) => match first_free_slot(v) {
                Ok((slot, n)) => {
                    self.slot = Some(slot);
                    self.n_available = n;
                    self.stage = SlotStage::LoadData;
                    SlotAction::LoadData
                },
                Err(m) => {
                    self.stage = SlotStage::Finished;
                    SlotAction::Finish(Err(m))
                },
            },
            SlotEvent::Data { current_emotes, max_emotes, emote_name } => match check_room(current_emotes, max_emotes) {
                Ok(()) => {
                    self.name = Some(emote_name);
                    self.stage = SlotStage::AddEmote;
                    SlotAction::AddEmote
                },
                Err(m) => {
                    self.stage = SlotStage::Finished;
                    SlotAction::Finish(Err(m))
                },
            },
            SlotEvent::Failed(m) => {
                self.stage = SlotStage::Finished;
                SlotAction::Finish(Err(m))
            },
            SlotEvent::AddFailed(e) => {
                self.stage = SlotStage::Finished;
                let mut text = String::from_str("Couldn't add emote: ");
                text.append(e.as_str());
                SlotAction::Finish(Err(trim_to(text, 200)))
            },
            SlotEvent::Added => match slot_lifetime(self.expiration.as_str()) {
                Ok(secs) => {
                    self.stage = SlotStage::ReadClock;
                    self.lifetime = secs;
                    SlotAction::ReadClock(secs)
                },
                Err(m) => {
                    self.stage = SlotStage::Finished;
                    SlotAction::Finish(Err(m))
                },
            },
            SlotEvent::Clock { now } => {
                self.stage = SlotStage::SaveSlot;
                let expires = now + self.lifetime;
                let slot = match self.slot.take() {
                    Some(s) => s,
                    None => SlotEntry { id: 0, emote_id: None, name: None, expires: None, added_by: None, added_at: None },
                };
                let name = match &self.name {
                    Some(n) => String::from_str(n.as_str()),
                    None => String::new(),
                };
                let emote_id = String::from_str(self.emote_id.as_str());
                let added_by = String::from_str(self.added_by.as_str());
                SlotAction::SaveSlot(fill_slot(slot, emote_id, name, added_by, now, expires))
            },
            SlotEvent::Saved(saved) => {
                if !saved {
                    self.stage = SlotStage::Finished;
                    return SlotAction::Finish(Err(String::from_str("Internal error")));
                }
                if self.n_available == 1 {
                    self.stage = SlotStage::PauseReward;
                    SlotAction::PauseReward
                } else {
                    self.stage = SlotStage::Finished;
                    let name = match &self.name {
                        Some(n) => String::from_str(n.as_str()),
                        None => String::new(),
                    };
                    SlotAction::Finish(Ok((name, self.n_available - 1)))
                }
            },
            SlotEvent::Paused => {
                self.stage = SlotStage::Finished;
                let name = match &self.name {
                    Some(n) => String::from_str(n.as_str()),
                    None => String::new(),
                };
                SlotAction::Finish(Ok((name, self.n_available - 1)))
            },
        }
    }
}

/// The emote ids of the filled slots among `s`, in order.
pub open spec fn filled_emote_ids(s: Seq<SlotEntry>) -> Seq<Seq<char>>
    decreases s.len(),
{
    if s.len() == 0 {
        Seq::empty()
    } else {
        match s.last().emote_id {
            Some(e) => filled_emote_ids(s.drop_last()).push(e@),
            None => filled_emote_ids(s.drop_last()),
        }
    }
}

/// The row ids of `s`, in order.
pub open spec fn row_ids(s: Seq<SlotEntry>) -> Seq<i32> {
    s.map_values(|x: SlotEntry| x.id)
}

/// The texts of a list of strings.
pub open spec fn string_views(v: Seq<String>) -> Seq<Seq<char>> {
    v.map_values(|x: String| x@)
}

/// Where a resize of a slot reward stands: the step whose outcome it waits
/// for.
#[derive(Clone, Copy, Debug, PartialEq, Eq, Structural)]
pub enum ResizeStage {
    LoadSlots,
    DeleteSlots,
    LoadRoom,
    CreateSlots,
    CountAvailable,
    SetPaused,
    Finished,
}

/// A resize of a slot reward on a platform to `n_slots` slots.
pub struct ResizeFlow {
    pub stage: ResizeStage,
    pub platform: SlotPlatform,
    pub n_slots: usize,
    pub needed: usize,
}

/// The outcome of the step a resize waits for.
pub enum ResizeEvent {
    /// All slots of the reward.
    Slots(Result<Vec<SlotEntry>, String>),
    /// The slots were deleted.
    Deleted(Result<(), String>),
    /// How full the platform is, and how many of the reward's slots are free.
    Room(Result<(EmoteEnvData, usize), String>),
    /// The new slots were created.
    Created(Result<(), String>),
    /// How many of the reward's slots are free now.
    Available(Result<usize, String>),
    /// The reward was paused or resumed.
    PausedSet(Result<(), String>),
}

/// What a resize does next.
pub enum ResizeAction {
    LoadSlots,
    /// Remove these emotes from the platform (a failure is only logged),
    /// then delete the slots with these row ids.
    DeleteSlots { emotes: Vec<String>, rows: Vec<i32> },
    LoadRoom,
    /// Create this many slots.
    CreateSlots(usize),
    CountAvailable,
    /// Pause the reward (`true`) or resume it.
    SetPaused(bool),
    Finish(Result<(), String>),
}

/// How far a resize has come; every step moves it forward.
pub open spec fn resize_rank(stage: ResizeStage) -> int {
    match stage {
        ResizeStage::LoadSlots => 0,
        ResizeStage::DeleteSlots => 1,
        ResizeStage::LoadRoom => 1,
        ResizeStage::CreateSlots => 2,
        ResizeStage::CountAvailable => 3,
        ResizeStage::SetPaused => 4,
        ResizeStage::Finished => 5,
    }
}

/// The event is the outcome of the step the resize waits for.
pub open spec fn resize_event_fits(stage: ResizeStage, event: ResizeEvent) -> bool {
    match stage {
        ResizeStage::LoadSlots => event is Slots,
        ResizeStage::DeleteSlots => event is Deleted,
        ResizeStage::LoadRoom => event is Room,
        ResizeStage::CreateSlots => event is Created,
        ResizeStage::CountAvailable => event is Available,
        ResizeStage::SetPaused => event is PausedSet,
        ResizeStage::Finished => false,
    }
}

/// What a resize leads to after a failed step: its error ends it.
pub open spec fn failed_with(action: ResizeAction, e: String) -> bool {
    action matches ResizeAction::Finish(Err(m)) && m == e
}

fn emotes_and_rows(slots: &Vec<SlotEntry>) -> (r: (Vec<String>, Vec<i32>))
    ensures
        string_views(r.0@) == filled_emote_ids(slots@),
        r.1@ == row_ids(slots@),
{
    let mut emotes: Vec<String> = Vec::new();
    let mut rows: Vec<i32> = Vec::new();
    let mut i: usize = 0;
    assert(string_views(emotes@) =~= filled_emote_ids(slots@.take(0)));
    while i < slots.len()
        invariant
            i <= slots@.len(),
            string_views(emotes@) == filled_emote_ids(slots@.take(i as int)),
            rows@ == row_ids(slots@.take(i as int)),
        decreases slots@.len() - i,
    {
        proof {
            assert(slots@.take(i + 1).drop_last() =~= slots@.take(i as int));
            assert(slots@.take(i + 1).last() == slots@[i as int]);
        }
        let ghost before = emotes@;
        if let Some(e) = &slots[i].emote_id {
            emotes.push(String::from_str(e.as_str()));
            assert(string_views(emotes@) =~= string_views(before).push(e@));
        }
        rows.push(slots[i].id);
        assert(rows@ =~= row_ids(slots@.take(i + 1)));
        i = i + 1;
    }
    assert(slots@.take(slots@.len() as int) =~= slots@);
    (emotes, rows)
}

impl ResizeFlow {
    /// While it runs, a resize aims at one slot or more.
    pub open spec fn well_formed(&self) -> bool {
        self.stage != ResizeStage::Finished ==> self.n_slots >= 1
    }

    /// Resizing a reward to `n_slots` slots; zero slots are refused at once.
    pub fn start(platform: SlotPlatform, n_slots: usize) -> (r: (ResizeFlow, ResizeAction))
        ensures
            r.0.platform == platform,
            r.0.n_slots == n_slots,
            r.0.well_formed(),
            if n_slots == 0 {
                r.0.stage == ResizeStage::Finished && (r.1 matches ResizeAction::Finish(Err(m)) && m@
                    == "You can't have 0 slots"@)
            } else {
                r.0.stage == ResizeStage::LoadSlots && r.1 is LoadSlots
            },
    {
        if n_slots == 0 {
            (
                ResizeFlow { stage: ResizeStage::Finished, platform, n_slots, needed: 0 },
                ResizeAction::Finish(Err(String::from_str("You can't have 0 slots"))),
            )
        } else {
            (ResizeFlow { stage: ResizeStage::LoadSlots, platform, n_slots, needed: 0 }, ResizeAction::LoadSlots)
        }
    }

    /// Takes the outcome of the step the resize waits for and names the next
    /// one: a reward with too many slots gives up the surplus, free slots
    /// first, and its emotes leave the platform; a reward with too few
    /// creates slots if the platform has room beyond the reward's free
    /// slots; at the end the reward is paused exactly when no slot is free.
    pub fn step(&mut self, event: ResizeEvent) -> (action: ResizeAction)
        requires
            old(self).well_formed(),
            resize_event_fits(old(self).stage, event),
            event matches ResizeEvent::Room(Ok((env, _))) ==> env.current_emotes <= env.max_emotes,
        ensures
            final(self).well_formed(),
            resize_rank(final(self).stage) > resize_rank(old(self).stage),
            final(self).platform == old(self).platform,
            final(self).n_slots == old(self).n_slots,
            match event {
                ResizeEvent::Slots(Err(e)) | ResizeEvent::Deleted(Err(e)) | ResizeEvent::Room(Err(e))
                | ResizeEvent::Created(Err(e)) | ResizeEvent::Available(Err(e)) | ResizeEvent::PausedSet(Err(e)) =>
                    final(self).stage == ResizeStage::Finished && failed_with(action, e),
                ResizeEvent::Slots(Ok(v)) => match resize_step_of(old(self).n_slots, v@.len() as usize) {
                    Ok(ResizeStep::Shrink(k)) => final(self).stage == ResizeStage::DeleteSlots
                        && (action matches ResizeAction::DeleteSlots { emotes, rows }
                            && string_views(emotes@) == filled_emote_ids(slots_to_delete(v@, k as int))
                            && rows@ == row_ids(slots_to_delete(v@, k as int))),
                    Ok(ResizeStep::Grow(k)) => final(self).stage == ResizeStage::LoadRoom && final(self).needed == k
                        && action is LoadRoom,
                    _ => final(self).stage == ResizeStage::CountAvailable && action is CountAvailable,
                },
                ResizeEvent::Deleted(Ok(_)) | ResizeEvent::Created(Ok(_)) =>
                    final(self).stage == ResizeStage::CountAvailable && action is CountAvailable,
                ResizeEvent::Room(Ok((env, known))) => match grow_error(old(self).platform, env, known, old(self).needed) {
                    Some(m) => final(self).stage == ResizeStage::Finished && (action matches ResizeAction::Finish(Err(e)) && e@ == m),
                    None => final(self).stage == ResizeStage::CreateSlots && action == ResizeAction::CreateSlots(old(self).needed),
                },
                ResizeEvent::Available(Ok(n)) => final(self).stage == ResizeStage::SetPaused && action == ResizeAction::SetPaused(n == 0),
                ResizeEvent::PausedSet(Ok(_)) => final(self).stage == ResizeStage::Finished && action == ResizeAction::Finish(Ok(())),
            },
    {
        match event {
            ResizeEvent::Slots(Err(e)) | ResizeEvent::Deleted(Err(e)) | ResizeEvent::Room(Err(e))
            | ResizeEvent::Created(Err(e)) | ResizeEvent::Available(Err(e)) | ResizeEvent::PausedSet(Err(e)) => {
                self.stage = ResizeStage::Finished;
                ResizeAction::Finish(Err(e))
            },
            ResizeEvent::Slots(Ok(v)) => {
                let n = v.len();
                match resize_step(self.n_slots, n) {
                    Ok(ResizeStep::Shrink(k)) => {
                        let to_delete = pick_slots_to_delete(v, k);
                        let (emotes, rows) = emotes_and_rows(&to_delete);
                        self.stage = ResizeStage::DeleteSlots;
                        ResizeAction::DeleteSlots { emotes, rows }
                    },
                    Ok(ResizeStep::Grow(k)) => {
                        self.needed = k;
                        self.stage = ResizeStage::LoadRoom;
                        ResizeAction::LoadRoom
                    },
                    _ => {
                        self.stage = ResizeStage::CountAvailable;
                        ResizeAction::CountAvailable
                    },
                }
            },
            ResizeEvent::Deleted(Ok(_)) | ResizeEvent::Created(Ok(_)) => {
                self.stage = ResizeStage::CountAvailable;
                ResizeAction::CountAvailable
            },
            ResizeEvent::Room(Ok((env, known))) => match check_grow(self.platform, &env, known, self.needed) {
                Ok(()) => {
                    self.stage = ResizeStage::CreateSlots;
                    ResizeAction::CreateSlots(self.needed)
                },
                Err(m) => {
                    self.stage = ResizeStage::Finished;
                    ResizeAction::Finish(Err(m))
                },
            },
            ResizeEvent::Available(Ok(n)) => {
                self.stage = ResizeStage::SetPaused;
                ResizeAction::SetPaused(n == 0)
            },
            ResizeEvent::PausedSet(Ok(_)) => {
                self.stage = ResizeStage::Finished;
                ResizeAction::Finish(Ok(()))
            },
        }
    }
}

} // verus!
