//! What the chat and the log are told about a redemption, and how its
//! status on Twitch is settled.

use vstd::prelude::*;

verus! {

/// What a Spotify reward did.
#[derive(Clone, Copy, Debug, PartialEq, Eq, Structural)]
pub enum SpotifyAction {
    Skip,
    Play,
    Queue,
}

/// The words that open the reply of a Spotify reward.
pub open spec fn spotify_prefix(action: SpotifyAction) -> Seq<char> {
    match action {
        SpotifyAction::Skip => "⏭ Skipped"@,
        SpotifyAction::Play => "▶ Playing"@,
        SpotifyAction::Queue => "🗒 Queued"@,
    }
}

/// Prefixes the outcome of a Spotify reward with what it did; an error is
/// passed on as it is.
pub fn format_spotify_result<E>(res: Result<String, E>, action: SpotifyAction) -> (r: Result<String, E>)
    ensures
        match res {
            Ok(msg) => r matches Ok(m) && m@ == spotify_prefix(action) + " "@ + msg@,
            Err(e) => r == Err::<String, E>(e),
        },
{
    match res {
        Ok(msg) => {
            let mut s = String::from_str(
                match action {
                    SpotifyAction::Skip => "⏭ Skipped",
                    SpotifyAction::Play => "▶ Playing",
                    SpotifyAction::Queue => "🗒 Queued",
                },
            );
            s.append(" ");
            s.append(msg.as_str());
            Ok(s)
        },
        Err(e) => Err(e),
    }
}

/// The chat message after a redemption: its reply if it has one, and for an
/// error a mention of the viewer saying that the points are refunded.
pub open spec fn reply_of(res: Result<Option<Seq<char>>, Seq<char>>, user: Seq<char>) -> Option<Seq<char>> {
    match res {
        Ok(Some(msg)) => Some(msg),
        Ok(None) => None,
        Err(e) => Some("@"@ + user + " [⚠ Refund] "@ + e),
    }
}

/// Decides what the chat is told after a redemption.
pub fn reply_message(res: &Result<Option<String>, String>, user: &str) -> (r: Option<String>)
    ensures
        match reply_of(
            match res {
                Ok(Some(m)) => Ok(Some(m@)),
                Ok(None) => Ok(None),
                Err(e) => Err(e@),
            },
            user@,
        ) {
            Some(m) => r matches Some(s) && s@ == m,
            None => r is None,
        },
{
    match res {
        Ok(Some(msg)) => Some(String::from_str(msg.as_str())),
        Ok(None) => None,
        Err(e) => {
            let mut s = String::from_str("@");
            s.append(user);
            s.append(" [⚠ Refund] ");
            s.append(e.as_str());
            Some(s)
        },
    }
}

/// A reply is only sent when the reward asks for replies.
pub fn gated_reply(reply: bool, msg: String) -> (r: Option<String>)
    ensures
        if reply {
            r == Some(msg)
        } else {
            r is None
        },
{
    if reply {
        Some(msg)
    } else {
        None
    }
}

/// Why a redemption is not taken on.
#[derive(Clone, Copy, Debug, PartialEq, Eq, Structural)]
pub enum ReceiveRedemptionError {
    /// The reward is not one of the bot's.
    NoReward,
}

impl ReceiveRedemptionError {
    /// The error's message.
    pub fn message(&self) -> (r: &'static str)
        ensures
            r@ == "This reward isn't handled by RewardMore"@,
    {
        match self {
            ReceiveRedemptionError::NoReward => "This reward isn't handled by RewardMore",
        }
    }
}

/// The status a redemption is given on Twitch.
#[derive(Clone, Copy, Debug, PartialEq, Eq, Structural)]
pub enum RedemptionStatus {
    /// The reward ran: the points are spent.
    Fulfilled,
    /// The reward failed: the points go back.
    Canceled,
}

/// A redemption is fulfilled exactly when its reward ran without error.
pub fn redemption_status(executed: bool) -> (r: RedemptionStatus)
    ensures
        r == (if executed {
            RedemptionStatus::Fulfilled
        } else {
            RedemptionStatus::Canceled
        }),
{
    if executed {
        RedemptionStatus::Fulfilled
    } else {
        RedemptionStatus::Canceled
    }
}

/// The status is written to Twitch only for rewards that accept
/// automatically.
pub fn status_update(auto_accept: bool, status: RedemptionStatus) -> (r: Option<RedemptionStatus>)
    ensures
        r == (if auto_accept {
            Some(status)
        } else {
            None
        }),
{
    if auto_accept {
        Some(status)
    } else {
        None
    }
}

/// How a viewer's input is shown in the log: as it is, or `<no input>`.
pub fn logged_input(input: &str) -> (r: String)
    ensures
        r@ == (if input@.len() == 0 {
            "<no input>"@
        } else {
            input@
        }),
{
    if input.unicode_len() == 0 {
        String::from_str("<no input>")
    } else {
        String::from_str(input)
    }
}

/// The chat message that answers a swap with a mention: the viewer is
/// mentioned before what was added and removed, or before the error.
pub open spec fn mention_reply_of(user: Seq<char>, data: Result<(Option<Seq<char>>, Seq<char>), Seq<char>>) -> Seq<
    char,
> {
    match data {
        Ok((Some(removed), added)) => "@"@ + user + " ☑ Added "@ + added + " - 🗑 Removed "@
            + removed,
        Ok((None, added)) => "@"@ + user + " ☑ Added "@ + added,
        Err(e) => "@"@ + user + " ⚠ "@ + e,
    }
}

/// Words the mention that answers a swap.
pub fn mention_reply(user: &str, data: &Result<(Option<String>, String), String>) -> (r: String)
    ensures
        r@ == mention_reply_of(
            user@,
            match data {
                Ok((Some(removed), added)) => Ok((Some(removed@), added@)),
                Ok((None, added)) => Ok((None, added@)),
                Err(e) => Err(e@),
            },
        ),
{
    let mut s = String::from_str("@");
    s.append(user);
    match data {
        Ok((removed, added)) => {
            s.append(" ☑ Added ");
            s.append(added.as_str());
            if let Some(removed) = removed {
                s.append(" - 🗑 Removed ");
                s.append(removed.as_str());
            }
        },
        Err(e) => {
            s.append(" ⚠ ");
            s.append(e.as_str());
        },
    }
    s
}

/// Twitch's answer to a chat message: sent, or dropped with a reason.
pub fn chat_send_outcome(is_sent: bool, drop_reason: Option<String>) -> (r: Result<(), String>)
    ensures
        is_sent ==> r is Ok,
        !is_sent ==> match drop_reason {
            Some(m) => r == Err::<(), String>(m),
            None => r matches Err(e) && e@ == "No drop reason given"@,
        },
{
    if is_sent {
        Ok(())
    } else {
        match drop_reason {
            Some(m) => Err(m),
            None => Err(String::from_str("No drop reason given")),
        }
    }
}

} // verus!
