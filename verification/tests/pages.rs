use rewards::editors::{
    bttv_id_of, get_user_limits, gql_failure, pending_editor_requests, rest_result,
    verify_bttv_editor, verify_seventv_editor,
};
use rewards::bttv::{BttvEditor, BttvLimits};
use rewards::ffz_page::{check_for_success, is_editor_in, parse_channels, FfzChange};
use rewards::http::{activity_outcome, ivr_failure};
use rewards::seven_tv::{SevenEditor, SevenEditorRelation, SevenEditorStatus};

const FRONT: &str = "<ul><li><a href=\"/channel/forsen\">Forsen</a></li>\
<li><a href=\"/channel/my_channel\">My Channel</a></li>\
<li><a href=\"/channel/xqc\">xQc</a></li>\
<li><a href=\"/channel/nymn\">NymN</a></li></ul>";

#[test]
fn ffz_channels() {
    assert_eq!(parse_channels(FRONT), vec!["forsen".to_string(), "xqc".to_string()]);
    assert!(is_editor_in(Some(FRONT), "xqc"));
    assert!(!is_editor_in(Some(FRONT), "nymn"));
    assert!(!is_editor_in(Some(FRONT), "my_channel"));
    assert!(!is_editor_in(None, "nymn"));
    assert!(parse_channels("").is_empty());
}

#[test]
fn ffz_outcomes() {
    assert!(check_for_success("<p>Added the emote Pog to the channel nymn.</p>", FfzChange::Add).is_ok());
    assert!(check_for_success("Removed the emote Pog from the channel", FfzChange::Remove).is_ok());
    let refusal = "<div>&times;</span></button>\nYou can't do that.\n</div>";
    assert_eq!(check_for_success(refusal, FfzChange::Add).unwrap_err(), "You can't do that.");
    assert_eq!(check_for_success("nothing", FfzChange::Remove).unwrap_err(), "No reason found");
}

#[test]
fn bttv_editors() {
    let dash = vec![BttvEditor {
        id: "b1".into(),
        name: "n".into(),
        provider_id: "p".into(),
        limits: BttvLimits { shared_emotes: 20 },
    }];
    assert_eq!(get_user_limits(&dash, "b1").unwrap().shared_emotes, 20);
    assert_eq!(get_user_limits(&dash, "b2").unwrap_err(), "User isn't an editor");
    assert!(verify_bttv_editor(&dash, "b1").is_ok());
    assert_eq!(verify_bttv_editor(&dash, "zz").unwrap_err(), "RewardMore isn't an editor for the user");
    assert_eq!(bttv_id_of(Some("a".into()), Some("b".into())).unwrap(), "a");
    assert_eq!(bttv_id_of(None, Some("b".into())).unwrap(), "b");
    assert_eq!(bttv_id_of(None, None).unwrap_err(), "The user hasn't registered on bttv yet");
}

#[test]
fn seventv_editors() {
    let editors = vec![SevenEditor { id: "bot".into() }];
    assert!(verify_seventv_editor(&editors, "bot").is_ok());
    assert_eq!(
        verify_seventv_editor(&editors, "other").unwrap_err(),
        "RewardMore isn't an editor for the user - if you just registered, please wait a minute"
    );
    let rel = |u: &str, s| SevenEditorRelation { user_id: u.into(), editor_id: "bot".into(), status: s };
    let pending = pending_editor_requests(&vec![
        rel("a", SevenEditorStatus::Pending),
        rel("b", SevenEditorStatus::Accepted),
        rel("c", SevenEditorStatus::Pending),
    ]);
    assert_eq!(pending, vec![("a".to_string(), "bot".to_string()), ("c".to_string(), "bot".to_string())]);
    assert_eq!(
        gql_failure(&Some(vec!["bad".into(), "worse".into()]), 200),
        Some("7TV Error: bad (http-status=200)".to_string())
    );
    assert_eq!(gql_failure(&Some(vec![]), 200), None);
    assert_eq!(gql_failure(&None, 500), None);
    assert!(rest_result(204, "").is_ok());
    assert_eq!(rest_result(404, "").unwrap_err(), "7TV error: Not found");
    assert_eq!(rest_result(500, "oops").unwrap_err(), "7TV error: oops");
}

#[test]
fn http_texts() {
    assert!(activity_outcome(200).is_ok());
    assert_eq!(activity_outcome(503).unwrap_err(), "Bad response - status=503 Service Unavailable");
    assert_eq!(ivr_failure(404, Some("no user")), "IVR Error - no user (404 Not Found)");
    assert_eq!(ivr_failure(500, None), "IVR error 500 Internal Server Error + failed to decode error response");
}
