use rewards::reply::{
    chat_send_outcome, format_spotify_result, gated_reply, logged_input, mention_reply,
    redemption_status, reply_message, status_update, ReceiveRedemptionError, RedemptionStatus,
    SpotifyAction,
};

#[test]
fn spotify_results() {
    let r: Result<String, u8> = Ok("\"Song\" by A".into());
    assert_eq!(format_spotify_result(r, SpotifyAction::Skip).unwrap(), "⏭ Skipped \"Song\" by A");
    let r: Result<String, u8> = Ok("x".into());
    assert_eq!(format_spotify_result(r, SpotifyAction::Play).unwrap(), "▶ Playing x");
    let r: Result<String, u8> = Ok("x".into());
    assert_eq!(format_spotify_result(r, SpotifyAction::Queue).unwrap(), "🗒 Queued x");
    let r: Result<String, u8> = Err(7);
    assert_eq!(format_spotify_result(r, SpotifyAction::Queue), Err(7));
}

#[test]
fn chat_replies() {
    assert_eq!(reply_message(&Ok(Some("hi".into())), "v"), Some("hi".to_string()));
    assert_eq!(reply_message(&Ok(None), "v"), None);
    assert_eq!(
        reply_message(&Err("boom".into()), "viewer"),
        Some("@viewer [⚠ Refund] boom".to_string())
    );
    assert_eq!(gated_reply(true, "m".into()), Some("m".to_string()));
    assert_eq!(gated_reply(false, "m".into()), None);
}

#[test]
fn statuses() {
    assert_eq!(redemption_status(true), RedemptionStatus::Fulfilled);
    assert_eq!(redemption_status(false), RedemptionStatus::Canceled);
    assert_eq!(status_update(true, RedemptionStatus::Canceled), Some(RedemptionStatus::Canceled));
    assert_eq!(status_update(false, RedemptionStatus::Fulfilled), None);
    assert_eq!(ReceiveRedemptionError::NoReward.message(), "This reward isn't handled by RewardMore");
    assert_eq!(logged_input(""), "<no input>");
    assert_eq!(logged_input("abc"), "abc");
}

#[test]
fn mention_replies() {
    assert_eq!(
        mention_reply("u", &Ok((Some("Old".into()), "New".into()))),
        "@u ☑ Added New - 🗑 Removed Old"
    );
    assert_eq!(mention_reply("u", &Ok((None, "New".into()))), "@u ☑ Added New");
    assert_eq!(mention_reply("u", &Err("nope".into())), "@u ⚠ nope");
}

#[test]
fn chat_sending() {
    assert!(chat_send_outcome(true, None).is_ok());
    assert_eq!(chat_send_outcome(false, Some("spam".into())).unwrap_err(), "spam");
    assert_eq!(chat_send_outcome(false, None).unwrap_err(), "No drop reason given");
}
