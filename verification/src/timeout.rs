//! Timeout rewards: which viewer is timed out, and when the bot refuses.

use crate::extract::{duration, duration_error_text, duration_range, extract_message, username, username_of, ExtractError};
use crate::ivr::ModVips;
use vstd::prelude::*;

verus! {

/// What `str::to_lowercase` makes of a text (Unicode lower-casing).
pub uninterp spec fn lowercase(s: Seq<char>) -> Seq<char>;

/// An ASCII character in lower case.
pub open spec fn ascii_lower(c: char) -> char {
    if 'A' <= c <= 'Z' {
        ((c as u32) + 32) as char
    } else {
        c
    }
}

/// `str::to_lowercase`. Its result is named `lowercase`; as std documents,
/// ASCII letters become their lower-case forms and other ASCII characters
/// stay, so an ASCII text keeps its length.
#[verifier::external_body]
pub fn to_lowercase(s: &str) -> (r: String)
    ensures
        r@ == lowercase(s@),
        (forall|i: int| 0 <= i < s@.len() ==> (s@[i] as u32) < 128) ==> r@.len() == s@.len()
            && forall|i: int| 0 <= i < s@.len() ==> r@[i] == ascii_lower(#[trigger] s@[i]),
{
    s.to_lowercase()
}

/// The login of the viewer a redemption names, in lower case.
pub open spec fn target_of(input: Seq<char>) -> Option<Seq<char>> {
    match username_of(input) {
        Some(u) => Some(lowercase(u)),
        None => None,
    }
}

/// Reads the login of the viewer to time out.
pub fn timeout_target(input: &str) -> (r: Result<String, ExtractError>)
    ensures
        match target_of(input@) {
            Some(u) => r matches Ok(s) && s@ == u,
            None => r == Err::<String, ExtractError>(ExtractError::NoUser),
        },
{
    match username(input) {
        Ok(u) => Ok(to_lowercase(u.as_str())),
        Err(e) => Err(e),
    }
}

/// Whether the user with `user_id` is one of the channel's VIPs.
pub open spec fn is_vip(vips: ModVips, user_id: Seq<char>) -> bool {
    exists|i: int| 0 <= i < vips.vips@.len() && vips.vips@[i].id@ == user_id
}

/// Refuses to time out a VIP when the reward spares them.
pub fn check_vip(spare_vips: bool, vips: &ModVips, user_id: &str) -> (r: Result<(), String>)
    ensures
        if spare_vips && is_vip(*vips, user_id@) {
            r matches Err(e) && e@ == "I won't timeout VIPs."@
        } else {
            r is Ok
        },
{
    if !spare_vips {
        return Ok(());
    }
    let mut i: usize = 0;
    while i < vips.vips.len()
        invariant
            spare_vips,
            i <= vips.vips@.len(),
            forall|j: int| 0 <= j < i ==> vips.vips@[j].id@ != user_id@,
        decreases vips.vips@.len() - i,
    {
        if crate::text::str_eq(vips.vips[i].id.as_str(), user_id) {
            assert(vips.vips@[i as int].id@ == user_id@);
            return Err(String::from_str("I won't timeout VIPs."));
        }
        i = i + 1;
    }
    assert(!is_vip(*vips, user_id@));
    Ok(())
}

/// Refuses to time out a viewer that another moderator timed out already.
pub fn check_not_timed_out(valid: bool) -> (r: Result<(), String>)
    ensures
        if valid {
            r is Ok
        } else {
            r matches Err(e) && e@ == "This user was timed out by another moderator."@
        },
{
    if valid {
        Ok(())
    } else {
        Err(String::from_str("This user was timed out by another moderator."))
    }
}

/// The reason given to Twitch for a timeout.
pub fn timeout_reason(redeemer: &str) -> (r: String)
    ensures
        r@ == "Redemption from "@ + redeemer@,
{
    let mut s = String::from_str("Redemption from ");
    s.append(redeemer);
    s
}

/// `needle` occurs in `hay` at `p`.
pub open spec fn occurs_at(hay: Seq<char>, needle: Seq<char>, p: int) -> bool {
    0 <= p && p + needle.len() <= hay.len() && hay.subrange(p, p + needle.len()) == needle
}

/// `needle` occurs somewhere in `hay`.
pub open spec fn contains_text(hay: Seq<char>, needle: Seq<char>) -> bool {
    exists|p: int| occurs_at(hay, needle, p)
}

/// Whether `needle` occurs in `hay`.
pub fn contains_str(hay: &str, needle: &str) -> (r: bool)
    ensures
        r == contains_text(hay@, needle@),
{
    let h = crate::text::chars_of(hay);
    let n = crate::text::chars_of(needle);
    if n.len() > h.len() {
        proof {
            assert forall|p: int| !occurs_at(hay@, needle@, p) by {}
        }
        return false;
    }
    let last = h.len() - n.len();
    let mut p: usize = 0;
    while p <= last
        invariant
            h@ == hay@,
            n@ == needle@,
            last == h@.len() - n@.len(),
            n@.len() <= h@.len(),
            forall|q: int| 0 <= q < p ==> !occurs_at(hay@, needle@, q),
        decreases last + 1 - p,
    {
        let mut k: usize = 0;
        let mut same = true;
        while k < n.len()
            invariant
                h@ == hay@,
                n@ == needle@,
                p <= last,
                last == h.len() - n.len(),
                k <= n.len(),
                same == forall|j: int| 0 <= j < k ==> h@[p + j] == n@[j],
            decreases n@.len() - k,
        {
            same = same && h[p + k] == n[k];
            k = k + 1;
        }
        if same {
            assert(hay@.subrange(p as int, p + needle@.len()) =~= needle@);
            assert(occurs_at(hay@, needle@, p as int));
            return true;
        }
        proof {
            let j = choose|j: int| 0 <= j < n@.len() && h@[p + j] != n@[j];
            assert(hay@.subrange(p as int, p + needle@.len())[j] != needle@[j]);
        }
        if p == last {
            proof {
                assert forall|q: int| !occurs_at(hay@, needle@, q) by {
                    if 0 <= q < p {
                    }
                }
            }
            return false;
        }
        p = p + 1;
    }
    false
}

/// What the chat is told when Twitch refused a timeout, for the two refusals
/// the bot words itself; other refusals keep Twitch's message.
pub open spec fn timeout_refusal(status: u16, message: Seq<char>) -> Option<Seq<char>> {
    if status == 400 && contains_text(message, "user specified in the user_id field is already banned"@) {
        Some("I can't timeout banned users."@)
    } else if status == 400 && contains_text(message, "user specified in the user_id field may not be banned"@) {
        Some("I can't timeout mods or broadcasters."@)
    } else {
        None
    }
}

/// Words Twitch's refusal of a timeout when it is one the bot explains.
pub fn explain_timeout_refusal(status: u16, message: &str) -> (r: Option<String>)
    ensures
        match timeout_refusal(status, message@) {
            Some(m) => r matches Some(s) && s@ == m,
            None => r is None,
        },
{
    if status == 400 && contains_str(message, "user specified in the user_id field is already banned") {
        return Some(String::from_str("I can't timeout banned users."));
    }
    if status == 400 && contains_str(message, "user specified in the user_id field may not be banned") {
        return Some(String::from_str("I can't timeout mods or broadcasters."));
    }
    None
}

/// Where a timeout redemption stands: the step whose outcome it waits for.
#[derive(Clone, Copy, Debug, PartialEq, Eq, Structural)]
pub enum TimeoutStage {
    LookupUser,
    ReadVips,
    CheckValid,
    Register,
    Timeout,
    Finished,
}

/// A timeout redemption in progress: the viewer to time out, for how long,
/// whether VIPs are spared, who redeemed it, and the viewer's id once known.
pub struct TimeoutFlow {
    pub stage: TimeoutStage,
    pub login: String,
    pub secs: u64,
    pub spare_vips: bool,
    pub redeemer: String,
    pub user_id: String,
}

/// The outcome of the step a timeout redemption waits for.
pub enum TimeoutEvent {
    /// The viewer's id, or why no user with the login was found.
    User(Result<String, String>),
    /// The channel's VIPs, or why they could not be read.
    Vips(Result<ModVips, String>),
    /// Whether the viewer may still be timed out (no other moderator timed
    /// them out), or why that could not be checked.
    Valid(Result<bool, String>),
    /// The bot's timeout tracker did not answer.
    Busy,
    /// The timeout tracker noted the bot's own timeout.
    Registered,
    /// Whether Twitch timed the viewer out, or why not.
    Done(Result<(), String>),
}

/// What a timeout redemption does next.
pub enum TimeoutAction {
    /// Look up the user with this login.
    LookupUser(String),
    /// Read the channel's VIPs.
    ReadVips,
    /// Ask whether the viewer with this id may still be timed out.
    CheckValid(String),
    /// Tell the timeout tracker that the bot times this viewer out for so
    /// many seconds.
    Register(String, u64),
    /// Time the viewer out on Twitch with this reason.
    Timeout { user_id: String, secs: u64, reason: String },
    /// The redemption is over: done, or why it failed.
    Finish(Result<(), String>),
}

/// How far a timeout redemption has come; every step moves it forward.
pub open spec fn timeout_rank(stage: TimeoutStage) -> int {
    match stage {
        TimeoutStage::LookupUser => 0,
        TimeoutStage::ReadVips => 1,
        TimeoutStage::CheckValid => 2,
        TimeoutStage::Register => 3,
        TimeoutStage::Timeout => 4,
        TimeoutStage::Finished => 5,
    }
}

/// The event is an outcome of the step the flow waits for.
pub open spec fn timeout_event_fits(stage: TimeoutStage, event: TimeoutEvent) -> bool {
    match stage {
        TimeoutStage::LookupUser => event is User,
        TimeoutStage::ReadVips => event is Vips,
        TimeoutStage::CheckValid => event is Valid || event is Busy,
        TimeoutStage::Register => event is Registered || event is Busy,
        TimeoutStage::Timeout => event is Done,
        TimeoutStage::Finished => false,
    }
}

/// The failure of a finished redemption, or success.
pub open spec fn finishes_with(action: TimeoutAction, m: Seq<char>) -> bool {
    action matches TimeoutAction::Finish(Err(e)) && e@ == m
}

impl TimeoutFlow {
    /// Reads what the redemption asks for: the viewer named in `input`
    /// (refused when there is none) and the reward's duration (refused when
    /// it is no duration; a random one is drawn now); then the user is
    /// looked up.
    pub fn start(input: &str, duration_text: &str, spare_vips: bool, redeemer: &str) -> (r: (TimeoutFlow, TimeoutAction))
        ensures
            r.0.spare_vips == spare_vips,
            r.0.redeemer@ == redeemer@,
            match target_of(input@) {
                None => r.0.stage == TimeoutStage::Finished && finishes_with(r.1, extract_message(ExtractError::NoUser)),
                Some(u) => match duration_range(duration_text@) {
                    Err(f) => r.0.stage == TimeoutStage::Finished && finishes_with(r.1, duration_error_text(f)),
                    Ok((lo, hi)) => r.0.stage == TimeoutStage::LookupUser && r.0.login@ == u
                        && lo <= r.0.secs <= hi && (lo < hi ==> r.0.secs < hi)
                        && (r.1 matches TimeoutAction::LookupUser(l) && l@ == u),
                },
            },
    {
        let mut flow = TimeoutFlow {
            stage: TimeoutStage::Finished,
            login: String::new(),
            secs: 0,
            spare_vips,
            redeemer: String::from_str(redeemer),
            user_id: String::new(),
        };
        let login = match timeout_target(input) {
            Ok(l) => l,
            Err(e) => return (flow, TimeoutAction::Finish(Err(String::from_str(e.message())))),
        };
        let secs = match duration(duration_text) {
            Ok(v) => v,
            Err(e) => return (flow, TimeoutAction::Finish(Err(e.message()))),
        };
        flow.stage = TimeoutStage::LookupUser;
        flow.login = String::from_str(login.as_str());
        flow.secs = secs;
        (flow, TimeoutAction::LookupUser(login))
    }

    /// Takes the outcome of the step the redemption waits for and names the
    /// next one: an unknown user is refused; a VIP is spared when the reward
    /// says so; a viewer another moderator timed out is left alone; then the
    /// timeout is noted with the tracker and sent to Twitch.
    pub fn step(&mut self, event: TimeoutEvent) -> (action: TimeoutAction)
        requires
            timeout_event_fits(old(self).stage, event),
        ensures
            timeout_rank(final(self).stage) > timeout_rank(old(self).stage),
            final(self).login == old(self).login,
            final(self).secs == old(self).secs,
            final(self).spare_vips == old(self).spare_vips,
            final(self).redeemer == old(self).redeemer,
            match event {
                TimeoutEvent::User(Err(e)) => final(self).stage == TimeoutStage::Finished
                    && finishes_with(action, "This user doesn't seem to exist: "@ + e@),
                TimeoutEvent::User(Ok(id)) => final(self).user_id@ == id@ && if old(self).spare_vips {
                    final(self).stage == TimeoutStage::ReadVips && action is ReadVips
                } else {
                    final(self).stage == TimeoutStage::CheckValid && (action matches TimeoutAction::CheckValid(u) && u == id)
                },
                TimeoutEvent::Vips(Err(e)) => final(self).stage == TimeoutStage::Finished
                    && finishes_with(action, "Attempt to read VIPs failed: "@ + e@),
                TimeoutEvent::Vips(Ok(v)) => final(self).user_id == old(self).user_id && if is_vip(v, old(self).user_id@) {
                    final(self).stage == TimeoutStage::Finished && finishes_with(action, "I won't timeout VIPs."@)
                } else {
                    final(self).stage == TimeoutStage::CheckValid
                        && (action matches TimeoutAction::CheckValid(u) && u@ == old(self).user_id@)
                },
                TimeoutEvent::Valid(Err(e)) => final(self).stage == TimeoutStage::Finished
                    && finishes_with(action, "Cannot check "@ + old(self).login@ + "'s timeout/ban status: "@ + e@),
                TimeoutEvent::Valid(Ok(false)) => final(self).stage == TimeoutStage::Finished
                    && finishes_with(action, "This user was timed out by another moderator."@),
                TimeoutEvent::Valid(Ok(true)) => final(self).stage == TimeoutStage::Register
                    && final(self).user_id == old(self).user_id
                    && (action matches TimeoutAction::Register(u, n) && u@ == old(self).user_id@ && n == old(self).secs),
                TimeoutEvent::Busy => final(self).stage == TimeoutStage::Finished
                    && finishes_with(action, "Too much traffic"@),
                TimeoutEvent::Registered => final(self).stage == TimeoutStage::Timeout
                    && (action matches TimeoutAction::Timeout { user_id, secs, reason } && user_id@ == old(self).user_id@
                        && secs == old(self).secs && reason@ == "Redemption from "@ + old(self).redeemer@),
                TimeoutEvent::Done(Err(e)) => final(self).stage == TimeoutStage::Finished
                    && finishes_with(action, "Cannot timeout user: "@ + e@),
                TimeoutEvent::Done(Ok(())) => final(self).stage == TimeoutStage::Finished
                    && action == TimeoutAction::Finish(Ok(())),
            },
    {
        match event {
            TimeoutEvent::User(Err(e)) => {
                self.stage = TimeoutStage::Finished;
                let mut m = String::from_str("This user doesn't seem to exist: ");
                m.append(e.as_str());
                TimeoutAction::Finish(Err(m))
            },
            TimeoutEvent::User(Ok(id)) => {
                self.user_id = String::from_str(id.as_str());
                if self.spare_vips {
                    self.stage = TimeoutStage::ReadVips;
                    TimeoutAction::ReadVips
                } else {
                    self.stage = TimeoutStage::CheckValid;
                    TimeoutAction::CheckValid(id)
                }
            },
            TimeoutEvent::Vips(Err(e)) => {
                self.stage = TimeoutStage::Finished;
                let mut m = String::from_str("Attempt to read VIPs failed: ");
                m.append(e.as_str());
                TimeoutAction::Finish(Err(m))
            },
            TimeoutEvent::Vips(Ok(v)) => match check_vip(true, &v, self.user_id.as_str()) {
                Err(m) => {
                    self.stage = TimeoutStage::Finished;
                    TimeoutAction::Finish(Err(m))
                },
                Ok(()) => {
                    self.stage = TimeoutStage::CheckValid;
                    TimeoutAction::CheckValid(String::from_str(self.user_id.as_str()))
                },
            },
            TimeoutEvent::Valid(Err(e)) => {
                self.stage = TimeoutStage::Finished;
                let mut m = String::from_str("Cannot check ");
                m.append(self.login.as_str());
                m.append("'s timeout/ban status: ");
                m.append(e.as_str());
                TimeoutAction::Finish(Err(m))
            },
            TimeoutEvent::Valid(Ok(valid)) => match check_not_timed_out(valid) {
                Err(m) => {
                    self.stage = TimeoutStage::Finished;
                    TimeoutAction::Finish(Err(m))
                },
                Ok(()) => {
                    self.stage = TimeoutStage::Register;
                    TimeoutAction::Register(String::from_str(self.user_id.as_str()), self.secs)
                },
            },
            TimeoutEvent::Busy => {
                self.stage = TimeoutStage::Finished;
                TimeoutAction::Finish(Err(String::from_str("Too much traffic")))
            },
            TimeoutEvent::Registered => {
                self.stage = TimeoutStage::Timeout;
                TimeoutAction::Timeout {
                    user_id: String::from_str(self.user_id.as_str()),
                    secs: self.secs,
                    reason: timeout_reason(self.redeemer.as_str()),
                }
            },
            TimeoutEvent::Done(Err(e)) => {
                self.stage = TimeoutStage::Finished;
                let mut m = String::from_str("Cannot timeout user: ");
                m.append(e.as_str());
                TimeoutAction::Finish(Err(m))
            },
            TimeoutEvent::Done(Ok(())) => {
                self.stage = TimeoutStage::Finished;
                TimeoutAction::Finish(Ok(()))
            },
        }
    }
}

} // verus!
