//! Whether the bot may edit a channel's emotes on BTTV and 7TV, and how the
//! platforms' answers are read.

use crate::bttv::{editor_index_from, find_user_limits, BttvEditor, BttvLimits};
use crate::formatting::{decimal, push_decimal};
use crate::seven_tv::{SevenEditor, SevenEditorRelation, SevenEditorStatus};
use crate::text::str_eq;
use vstd::prelude::*;

verus! {

/// The limits of the BTTV channel `bttv_id`, when the bot edits it.
pub fn get_user_limits(dashboards: &Vec<BttvEditor>, bttv_id: &str) -> (r: Result<BttvLimits, String>)
    ensures
        match editor_index_from(dashboards@, bttv_id@, 0) {
            Some(i) => r == Ok::<BttvLimits, String>(dashboards@[i].limits),
            None => r matches Err(e) && e@ == "User isn't an editor"@,
        },
{
    match find_user_limits(dashboards, bttv_id) {
        Some(l) => Ok(BttvLimits { shared_emotes: l.shared_emotes }),
        None => Err(String::from_str("User isn't an editor")),
    }
}

/// The BTTV id of a broadcaster: the stored one, or else the one BTTV
/// reports (`None` when the broadcaster is not on BTTV).
pub fn bttv_id_of(stored: Option<String>, fetched: Option<String>) -> (r: Result<String, String>)
    ensures
        match (stored, fetched) {
            (Some(id), _) => r == Ok::<String, String>(id),
            (None, Some(id)) => r == Ok::<String, String>(id),
            (None, None) => r matches Err(e) && e@ == "The user hasn't registered on bttv yet"@,
        },
{
    match stored {
        Some(id) => Ok(id),
        None => match fetched {
            Some(id) => Ok(id),
            None => Err(String::from_str("The user hasn't registered on bttv yet")),
        },
    }
}

/// Verifies that the bot edits the broadcaster's BTTV channel.
pub fn verify_bttv_editor(dashboards: &Vec<BttvEditor>, bttv_id: &str) -> (r: Result<(), String>)
    ensures
        match editor_index_from(dashboards@, bttv_id@, 0) {
            Some(_) => r is Ok,
            None => r matches Err(e) && e@ == "RewardMore isn't an editor for the user"@,
        },
{
    match find_user_limits(dashboards, bttv_id) {
        Some(_) => Ok(()),
        None => Err(String::from_str("RewardMore isn't an editor for the user")),
    }
}

/// The bot's 7TV account is among the editors.
pub open spec fn edits_on_seventv(editors: Seq<SevenEditor>, bot_id: Seq<char>) -> bool {
    exists|i: int| 0 <= i < editors.len() && editors[i].id@ == bot_id
}

/// Verifies that the bot's 7TV account edits the broadcaster's channel.
pub fn verify_seventv_editor(editors: &Vec<SevenEditor>, bot_id: &str) -> (r: Result<(), String>)
    ensures
        if edits_on_seventv(editors@, bot_id@) {
            r is Ok
        } else {
            r matches Err(e) && e@
                == "RewardMore isn't an editor for the user - if you just registered, please wait a minute"@
        },
{
    let mut i: usize = 0;
    while i < editors.len()
        invariant
            i <= editors@.len(),
            forall|j: int| 0 <= j < i ==> editors@[j].id@ != bot_id@,
        decreases editors@.len() - i,
    {
        if str_eq(editors[i].id.as_str(), bot_id) {
            assert(editors@[i as int].id@ == bot_id@);
            return Ok(());
        }
        i = i + 1;
    }
    Err(
        String::from_str(
            "RewardMore isn't an editor for the user - if you just registered, please wait a minute",
        ),
    )
}

/// The pending editor requests, as `(user, editor)`, in order.
pub open spec fn pending_of(relations: Seq<SevenEditorRelation>) -> Seq<(Seq<char>, Seq<char>)>
    decreases relations.len(),
{
    if relations.len() == 0 {
        Seq::empty()
    } else if relations.last().status == SevenEditorStatus::Pending {
        pending_of(relations.drop_last()).push((relations.last().user_id@, relations.last().editor_id@))
    } else {
        pending_of(relations.drop_last())
    }
}

/// The views of a list of `(user, editor)` pairs.
pub open spec fn pair_views(v: Seq<(String, String)>) -> Seq<(Seq<char>, Seq<char>)> {
    v.map_values(|x: (String, String)| (x.0@, x.1@))
}

/// The editor requests that still wait for the bot's approval.
pub fn pending_editor_requests(relations: &Vec<SevenEditorRelation>) -> (r: Vec<(String, String)>)
    ensures
        pair_views(r@) == pending_of(relations@),
{
    let mut out: Vec<(String, String)> = Vec::new();
    let mut i: usize = 0;
    assert(pair_views(out@) =~= pending_of(relations@.take(0)));
    while i < relations.len()
        invariant
            i <= relations@.len(),
            pair_views(out@) == pending_of(relations@.take(i as int)),
        decreases relations@.len() - i,
    {
        proof {
            assert(relations@.take(i + 1).drop_last() =~= relations@.take(i as int));
            assert(relations@.take(i + 1).last() == relations@[i as int]);
        }
        let ghost before = out@;
        if relations[i].status == SevenEditorStatus::Pending {
            out.push(
                (
                    String::from_str(relations[i].user_id.as_str()),
                    String::from_str(relations[i].editor_id.as_str()),
                ),
            );
            assert(pair_views(out@) =~= pair_views(before).push(
                (relations@[i as int].user_id@, relations@[i as int].editor_id@),
            ));
        }
        i = i + 1;
    }
    assert(relations@.take(relations@.len() as int) =~= relations@);
    out
}

/// The failure a 7TV GraphQL answer carries: its first error, with the
/// HTTP status.
pub open spec fn gql_failure_of(errors: Option<Seq<String>>, status: u16) -> Option<Seq<char>> {
    match errors {
        Some(e) => if e.len() > 0 {
            Some("7TV Error: "@ + e[0]@ + " (http-status="@ + decimal(status as nat) + ")"@)
        } else {
            None
        },
        None => None,
    }
}

/// Reads the errors of a 7TV GraphQL answer.
pub fn gql_failure(errors: &Option<Vec<String>>, status: u16) -> (r: Option<String>)
    ensures
        match gql_failure_of(
            match errors {
                Some(e) => Some(e@),
                None => None,
            },
            status,
        ) {
            Some(m) => r matches Some(s) && s@ == m,
            None => r is None,
        },
{
    match errors {
        Some(e) => if e.len() > 0 {
            let mut s = String::from_str("7TV Error: ");
            s.append(e[0].as_str());
            s.append(" (http-status=");
            push_decimal(&mut s, status as u64);
            s.append(")");
            Some(s)
        } else {
            None
        },
        None => None,
    }
}

/// The outcome of a 7TV REST request by its status: success, not found, or
/// the body as the error.
pub open spec fn rest_outcome(status: u16, body: Seq<char>) -> Result<(), Seq<char>> {
    if 200 <= status <= 299 {
        Ok(())
    } else if status == 404 {
        Err("7TV error: Not found"@)
    } else {
        Err("7TV error: "@ + body)
    }
}

/// Reads the status of a 7TV REST request.
pub fn rest_result(status: u16, body: &str) -> (r: Result<(), String>)
    ensures
        match (r, rest_outcome(status, body@)) {
            (Ok(_), Ok(_)) => true,
            (Err(e), Err(m)) => e@ == m,
            _ => false,
        },
{
    if 200 <= status && status <= 299 {
        Ok(())
    } else if status == 404 {
        Err(String::from_str("7TV error: Not found"))
    } else {
        let mut s = String::from_str("7TV error: ");
        s.append(body);
        Err(s)
    }
}

/// Whose channel a request of the web API acts on: the user's own when the
/// user is the broadcaster; otherwise the broadcaster the user edits for,
/// as the lookup `as_editor` found it (`None`: the user edits not for
/// them), which is refused.
pub fn user_or_editor<U>(user: U, user_id: &str, broadcaster_id: &str, as_editor: Option<U>) -> (r: Result<U, String>)
    ensures
        user_id@ == broadcaster_id@ ==> r == Ok::<U, String>(user),
        user_id@ != broadcaster_id@ ==> match as_editor {
            Some(b) => r == Ok::<U, String>(b),
            None => r matches Err(m) && m@ == "The user isn't an editor for the broadcaster."@,
        },
{
    if str_eq(user_id, broadcaster_id) {
        Ok(user)
    } else {
        match as_editor {
            Some(b) => Ok(b),
            None => Err(String::from_str("The user isn't an editor for the broadcaster.")),
        }
    }
}

} // verus!
