//! Swap rewards: a redemption adds an emote and, when the channel is full or
//! the reward's history limit is reached, the oldest swapped-in emote goes.

use crate::text::{trim_to, trim_to_allowed, trim_to_bytes};
use vstd::prelude::*;
use vstd::utf8::encode_utf8;

verus! {

/// Whether an emote has to go before another one is added: the reward keeps
/// at most `limit` emotes in its history, or the platform is full.
pub open spec fn removal_needed(limit: Option<u16>, history_len: usize, current_emotes: usize, max_emotes: usize) -> bool {
    (match limit {
        Some(l) => history_len >= l,
        None => false,
    }) || current_emotes >= max_emotes
}

/// Decides whether the oldest swapped-in emote is removed first.
pub fn needs_removal(limit: Option<u16>, history_len: usize, current_emotes: usize, max_emotes: usize) -> (r:
    bool)
    ensures
        r == removal_needed(limit, history_len, current_emotes, max_emotes),
{
    let above_swap_limit = match limit {
        Some(l) => history_len >= l as usize,
        None => false,
    };
    above_swap_limit || current_emotes >= max_emotes
}

/// When an emote is removed before a swap adds one: always when the
/// platform is full, whatever the reward's limit; always when the reward's
/// history holds its limit of emotes; and never otherwise.
pub proof fn law_removal_makes_room(limit: Option<u16>, history_len: usize, current_emotes: usize, max_emotes: usize)
    ensures
        current_emotes >= max_emotes ==> removal_needed(limit, history_len, current_emotes, max_emotes),
        (limit matches Some(l) && history_len >= l) ==> removal_needed(limit, history_len, current_emotes, max_emotes),
        (current_emotes < max_emotes && !(limit matches Some(l) && history_len >= l)) ==> !removal_needed(
            limit,
            history_len,
            current_emotes,
            max_emotes,
        ),
{
}

/// The name an added emote goes by: its alias if it got one.
pub open spec fn shown_name(override_name: Option<Seq<char>>, emote_name: Seq<char>) -> Seq<char> {
    match override_name {
        Some(n) => n,
        None => emote_name,
    }
}

/// The name an added emote goes by: its alias, or else its own name.
pub fn added_emote_name(override_name: Option<&str>, emote_name: String) -> (r: String)
    ensures
        r@ == shown_name(
            match override_name {
                Some(n) => Some(n@),
                None => None,
            },
            emote_name@,
        ),
{
    match override_name {
        Some(n) => String::from_str(n),
        None => emote_name,
    }
}

/// What the chat is told when the platform refused the new emote, before it
/// is cut to the length of a chat message.
pub open spec fn add_failure_text(removed: Option<Seq<char>>, error: Seq<char>) -> Seq<char> {
    match removed {
        Some(name) => "Removed "@ + name + ", but couldn't add emote: "@ + error,
        None => "Couldn't add emote: "@ + error,
    }
}

/// Words the refusal of a new emote, naming the emote removed for it.
pub fn add_failure_message(removed: Option<&str>, error: &str) -> (r: String)
    requires
        trim_to_allowed(
            add_failure_text(
                match removed {
                    Some(n) => Some(n@),
                    None => None,
                },
                error@,
            ),
            200,
        ),
    ensures
        encode_utf8(r@) == trim_to_bytes(
            encode_utf8(
                add_failure_text(
                    match removed {
                        Some(n) => Some(n@),
                        None => None,
                    },
                    error@,
                ),
            ),
            200,
        ),
{
    let msg = match removed {
        Some(name) => {
            let mut s = String::from_str("Removed ");
            s.append(name);
            s.append(", but couldn't add emote: ");
            s.append(error);
            s
        },
        None => {
            let mut s = String::from_str("Couldn't add emote: ");
            s.append(error);
            s
        },
    };
    trim_to(msg, 200)
}

/// The chat message after a swap.
pub open spec fn swap_message_of(added: Seq<char>, removed: Option<Seq<char>>) -> Seq<char> {
    match removed {
        Some(r) => "☑ Added "@ + added + " - 🗑 Removed "@ + r,
        None => "☑ Added "@ + added,
    }
}

/// Tells the chat which emote was added and which one went for it.
pub fn swap_message(added: &str, removed: Option<&str>) -> (r: String)
    ensures
        r@ == swap_message_of(
            added@,
            match removed {
                Some(n) => Some(n@),
                None => None,
            },
        ),
{
    let mut s = String::from_str("☑ Added ");
    s.append(added);
    if let Some(name) = removed {
        s.append(" - 🗑 Removed ");
        s.append(name);
    }
    s
}

/// Tells the chat which emote was removed.
pub fn removed_message(name: &str) -> (r: String)
    ensures
        r@ == "🗑 Removed "@ + name@,
{
    let mut s = String::from_str("🗑 Removed ");
    s.append(name);
    s
}

/// The search for the oldest swapped-in emote that the platform still
/// removes: tracked emotes are tried from the oldest on, each is untracked,
/// and the search stops at the first one the platform removed.
pub struct LastEmoteRemoval {
    pub removed: Option<String>,
}

/// The message when no tracked emote could be removed.
pub open spec fn nothing_removed() -> Seq<char> {
    "There are no recent emotes to remove - refusing to remove random emote."@
}

impl LastEmoteRemoval {
    /// A search that has not removed anything yet.
    pub fn new() -> (r: Self)
        ensures
            r.removed is None,
    {
        LastEmoteRemoval { removed: None }
    }

    /// Records the platform's answer for the oldest tracked emote `name`;
    /// returns whether the search goes on with the next one.
    pub fn record(&mut self, name: String, removed_on_platform: bool) -> (go_on: bool)
        requires
            old(self).removed is None,
        ensures
            go_on == !removed_on_platform,
            removed_on_platform ==> final(self).removed == Some(name),
            !removed_on_platform ==> final(self).removed is None,
    {
        if removed_on_platform {
            self.removed = Some(name);
            false
        } else {
            true
        }
    }

    /// The removed emote's name, or why there is none, and how many emotes
    /// were removed from the platform.
    pub fn finish(self) -> (r: (Result<String, String>, usize))
        ensures
            match self.removed {
                Some(n) => r.0 == Ok::<String, String>(n) && r.1 == 1,
                None => r.0 matches Err(e) && e@ == nothing_removed() && r.1 == 0,
            },
    {
        match self.removed {
            Some(n) => (Ok(n), 1),
            None => (Err(String::from_str("There are no recent emotes to remove - refusing to remove random emote.")), 0),
        }
    }
}

/// Whether a reward holds more swapped-in emotes than its new limit allows.
pub fn over_limit(count: usize, limit: u16) -> (r: bool)
    ensures
        r == (count > limit),
{
    count > limit as usize
}

/// One round of pruning a reward down to `limit` emotes: with `current`
/// emotes tracked and the outcome of one removal, the new count and whether
/// pruning is done; a failed removal ends pruning with its error.
pub fn prune_step(current: usize, limit: u16, outcome: (Result<String, String>, usize)) -> (r: Result<
    (usize, bool),
    String,
>)
    requires
        outcome.1 <= current,
    ensures
        match outcome.0 {
            Err(e) => r == Err::<(usize, bool), String>(e),
            Ok(_) => r matches Ok((n, done)) && n == current - outcome.1 && done == (n <= limit),
        },
{
    let (res, removed) = outcome;
    let now = current - removed;
    match res {
        Err(e) => Err(e),
        Ok(_) => Ok((now, now <= limit as usize)),
    }
}

/// A broadcaster's BTTV swap history (emote ids, oldest first) after a
/// removal: the ids after the one that was removed (at `removed_at`), or
/// nothing when no id in the history could be removed.
pub fn history_after_removal(history: Vec<String>, removed_at: Option<usize>) -> (r: Vec<String>)
    requires
        removed_at matches Some(k) ==> k < history@.len(),
    ensures
        match removed_at {
            Some(k) => r@ == history@.skip(k + 1),
            None => r@.len() == 0,
        },
{
    match removed_at {
        Some(k) => {
            let mut h = history;
            assert(k < h.len());
            let tail = h.split_off(k + 1);
            assert(tail@ =~= history@.skip(k + 1));
            tail
        },
        None => Vec::new(),
    }
}

/// Picks the emote removed at random when the history held none that could
/// be removed: any index below `n`.
pub fn pick_random_index(n: usize) -> (r: usize)
    requires
        n > 0,
    ensures
        r < n,
{
    let r: u64 = crate::extract::random_in(0, n as u64);
    r as usize
}

/// A tracked reward's use of its swap limit.
#[derive(Debug)]
pub struct SwapStats {
    pub reward_id: String,
    pub limit: Option<u16>,
    pub count: usize,
}

/// The reward has room for another swapped-in emote.
pub open spec fn has_capacity(s: SwapStats) -> bool {
    match s.limit {
        Some(l) => s.count < l,
        None => true,
    }
}

/// The first reward of `stats` at or after `i` with room left.
pub open spec fn first_with_capacity(stats: Seq<SwapStats>, i: int) -> Option<int>
    decreases stats.len() - i,
{
    if i < 0 || i >= stats.len() {
        None
    } else if has_capacity(stats[i]) {
        Some(i)
    } else {
        first_with_capacity(stats, i + 1)
    }
}

/// Picks the reward that tracks an emote added by hand: the first one with
/// room left; otherwise the user is told to reload the emotes, with the
/// bot's command prefix.
pub fn choose_swap_reward(stats: &Vec<SwapStats>, prefix: &str) -> (r: Result<usize, String>)
    ensures
        match first_with_capacity(stats@, 0) {
            Some(i) => r == Ok::<usize, String>(i as usize),
            None => r matches Err(e) && e@ == "No reward with enough capacity, try "@ + prefix@
                + "emote reload"@,
        },
{
    let mut i: usize = 0;
    while i < stats.len()
        invariant
            i <= stats@.len(),
            first_with_capacity(stats@, 0) == first_with_capacity(stats@, i as int),
        decreases stats@.len() - i,
    {
        let fits = match stats[i].limit {
            Some(l) => stats[i].count < l as usize,
            None => true,
        };
        if fits {
            return Ok(i);
        }
        i = i + 1;
    }
    let mut s = String::from_str("No reward with enough capacity, try ");
    s.append(prefix);
    s.append("emote reload");
    Err(s)
}

/// Where a swap redemption stands: the step whose outcome it waits for.
#[derive(Clone, Copy, Debug, PartialEq, Eq, Structural)]
pub enum SwapStage {
    /// Whether the emote is banned in the channel.
    CheckBan,
    /// The channel's emotes and limits, and the emote itself.
    LoadData,
    /// The removal of the oldest swapped-in emote.
    RemoveOldest,
    /// Adding the emote on the platform.
    AddEmote,
    /// Tracking the emote in the database.
    SaveSwap,
    /// Nothing: the redemption is answered.
    Finished,
}

/// A swap redemption in progress.
pub struct SwapFlow {
    pub stage: SwapStage,
    pub limit: Option<u16>,
    pub override_name: Option<String>,
    pub removed: Option<String>,
    pub name: Option<String>,
}

/// The outcome of the step a swap waits for.
pub enum SwapEvent {
    /// The ban check: whether the emote is banned.
    Banned(bool),
    /// The emote can be added: how many emotes the reward swapped in so far,
    /// how many the platform holds and may hold, and the emote's own name.
    Data { history_len: usize, current_emotes: usize, max_emotes: usize, emote_name: String },
    /// Loading the data or removing the oldest emote failed with this message.
    Failed(String),
    /// The oldest emote, with this name, was removed.
    Removed(String),
    /// The platform added the emote.
    Added,
    /// The platform refused the emote with this message.
    AddFailed(String),
    /// Whether the emote is tracked now.
    Saved(bool),
}

/// What a swap does next.
pub enum SwapAction {
    CheckBan,
    LoadData,
    RemoveOldest,
    AddEmote,
    /// Track the emote under this name.
    SaveSwap(String),
    /// Answer the redemption: the removed emote and the added emote's name,
    /// or why it failed.
    Finish(Result<(Option<String>, String), String>),
}

/// How far a swap has come; every step moves it forward.
pub open spec fn swap_rank(stage: SwapStage) -> int {
    match stage {
        SwapStage::CheckBan => 0,
        SwapStage::LoadData => 1,
        SwapStage::RemoveOldest => 2,
        SwapStage::AddEmote => 3,
        SwapStage::SaveSwap => 4,
        SwapStage::Finished => 5,
    }
}

/// The event is the outcome of the step the flow waits for.
pub open spec fn fits(stage: SwapStage, event: SwapEvent) -> bool {
    match stage {
        SwapStage::CheckBan => event is Banned,
        SwapStage::LoadData => event is Data || event is Failed,
        SwapStage::RemoveOldest => event is Removed || event is Failed,
        SwapStage::AddEmote => event is Added || event is AddFailed,
        SwapStage::SaveSwap => event is Saved,
        SwapStage::Finished => false,
    }
}

/// An optional string as an optional character sequence.
pub open spec fn opt_seq(o: Option<String>) -> Option<Seq<char>> {
    match o {
        Some(s) => Some(s@),
        None => None,
    }
}

impl SwapFlow {
    /// Once the emote's data is known, the flow knows the name the emote
    /// goes by.
    pub open spec fn well_formed(&self) -> bool {
        (self.stage == SwapStage::RemoveOldest || self.stage == SwapStage::AddEmote || self.stage
            == SwapStage::SaveSwap) ==> self.name is Some
    }

    /// A swap of an emote (with an optional alias) for a reward that keeps
    /// at most `limit` emotes; it starts with the ban check.
    pub fn start(limit: Option<u16>, override_name: Option<String>) -> (r: (SwapFlow, SwapAction))
        ensures
            r.0.stage == SwapStage::CheckBan,
            r.0.limit == limit,
            r.0.override_name == override_name,
            r.0.removed is None,
            r.0.name is None,
            r.0.well_formed(),
            r.1 is CheckBan,
    {
        (SwapFlow { stage: SwapStage::CheckBan, limit, override_name, removed: None, name: None }, SwapAction::CheckBan)
    }

    /// Takes the outcome of the step the swap waits for and names the next
    /// one: a banned emote is refused; an emote goes in after the oldest one
    /// is removed where the limit or the platform ask for it; a refusal of
    /// the platform names the removed emote; the emote is tracked under its
    /// alias or its own name.
    pub fn step(&mut self, event: SwapEvent) -> (action: SwapAction)
        requires
            old(self).well_formed(),
            fits(old(self).stage, event),
            event matches SwapEvent::AddFailed(e) ==> trim_to_allowed(
                add_failure_text(opt_seq(old(self).removed), e@),
                200,
            ),
        ensures
            final(self).well_formed(),
            swap_rank(final(self).stage) > swap_rank(old(self).stage),
            final(self).limit == old(self).limit,
            final(self).override_name == old(self).override_name,
            match event {
                SwapEvent::Banned(true) => final(self).stage == SwapStage::Finished && (action matches SwapAction::Finish(Err(m)) && m@ == "This emote is banned"@),
                SwapEvent::Banned(false) => final(self).stage == SwapStage::LoadData && action is LoadData
                    && final(self).removed == old(self).removed && final(self).name == old(self).name,
                SwapEvent::Data { history_len, current_emotes, max_emotes, emote_name } => {
                    &&& final(self).removed == old(self).removed
                    &&& opt_seq(final(self).name) == Some(shown_name(opt_seq(old(self).override_name), emote_name@))
                    &&& if removal_needed(old(self).limit, history_len, current_emotes, max_emotes) {
                        final(self).stage == SwapStage::RemoveOldest && action is RemoveOldest
                    } else {
                        final(self).stage == SwapStage::AddEmote && action is AddEmote
                    }
                },
                SwapEvent::Failed(m) => final(self).stage == SwapStage::Finished && (action matches SwapAction::Finish(Err(e)) && e == m),
                SwapEvent::Removed(n) => final(self).stage == SwapStage::AddEmote && action is AddEmote
                    && final(self).removed == Some(n) && final(self).name == old(self).name,
                SwapEvent::Added => final(self).stage == SwapStage::SaveSwap && final(self).removed == old(self).removed
                    && final(self).name == old(self).name && (old(self).name matches Some(n) && action matches SwapAction::SaveSwap(s) && s@ == n@),
                SwapEvent::AddFailed(e) => final(self).stage == SwapStage::Finished && (action matches SwapAction::Finish(Err(m))
                    && encode_utf8(m@) == trim_to_bytes(encode_utf8(add_failure_text(opt_seq(old(self).removed), e@)), 200)),
                SwapEvent::Saved(false) => final(self).stage == SwapStage::Finished && (action matches SwapAction::Finish(Err(m)) && m@ == "Could not save emote in DB"@),
                SwapEvent::Saved(true) => final(self).stage == SwapStage::Finished && (old(self).name matches Some(n) && action matches SwapAction::Finish(Ok((r, a))) && opt_seq(r) == opt_seq(old(self).removed) && a@ == n@),
            },
    {
        match event {
            SwapEvent::Banned(banned) => {
                if banned {
                    self.stage = SwapStage::Finished;
                    SwapAction::Finish(Err(String::from_str("This emote is banned")))
                } else {
                    self.stage = SwapStage::LoadData;
                    SwapAction::LoadData
                }
            },
            SwapEvent::Data { history_len, current_emotes, max_emotes, emote_name } => {
                let name = match &self.override_name {
                    Some(n) => String::from_str(n.as_str()),
                    None => emote_name,
                };
                self.name = Some(name);
                if needs_removal(self.limit, history_len, current_emotes, max_emotes) {
                    self.stage = SwapStage::RemoveOldest;
                    SwapAction::RemoveOldest
                } else {
                    self.stage = SwapStage::AddEmote;
                    SwapAction::AddEmote
                }
            },
            SwapEvent::Failed(m) => {
                self.stage = SwapStage::Finished;
                SwapAction::Finish(Err(m))
            },
            SwapEvent::Removed(n) => {
                self.removed = Some(n);
                self.stage = SwapStage::AddEmote;
                SwapAction::AddEmote
            },
            SwapEvent::Added => {
                self.stage = SwapStage::SaveSwap;
                let name = match &self.name {
                    Some(n) => String::from_str(n.as_str()),
                    None => String::new(),
                };
                SwapAction::SaveSwap(name)
            },
            SwapEvent::AddFailed(e) => {
                self.stage = SwapStage::Finished;
                let removed = match &self.removed {
                    Some(r) => Some(r.as_str()),
                    None => None,
                };
                SwapAction::Finish(Err(add_failure_message(removed, e.as_str())))
            },
            SwapEvent::Saved(saved) => {
                self.stage = SwapStage::Finished;
                if saved {
                    let removed = match &self.removed {
                        Some(r) => Some(String::from_str(r.as_str())),
                        None => None,
                    };
                    let name = match &self.name {
                        Some(n) => String::from_str(n.as_str()),
                        None => String::new(),
                    };
                    SwapAction::Finish(Ok((removed, name)))
                } else {
                    SwapAction::Finish(Err(String::from_str("Could not save emote in DB")))
                }
            },
        }
    }
}

} // verus!
