use rewards::extract::ExtractError;
use rewards::ivr::{ModVips, User};
use rewards::timeout::{
    check_not_timed_out, check_vip, contains_str, explain_timeout_refusal, timeout_reason,
    timeout_target, to_lowercase, TimeoutAction, TimeoutEvent, TimeoutFlow,
};

#[test]
fn targets_are_lower_case() {
    assert_eq!(timeout_target("@SomeUser").unwrap(), "someuser");
    assert_eq!(timeout_target("bye @Mixed_Case now").unwrap(), "mixed_case");
    assert_eq!(timeout_target("nobody here"), Err(ExtractError::NoUser));
    assert_eq!(to_lowercase("ÀB"), "àb");
}

#[test]
fn vips_and_moderators() {
    let vips = ModVips { vips: vec![User { id: "1".into() }, User { id: "2".into() }] };
    assert_eq!(check_vip(true, &vips, "2").unwrap_err(), "I won't timeout VIPs.");
    assert!(check_vip(false, &vips, "2").is_ok());
    assert!(check_vip(true, &vips, "3").is_ok());
    assert_eq!(
        check_not_timed_out(false).unwrap_err(),
        "This user was timed out by another moderator."
    );
    assert!(check_not_timed_out(true).is_ok());
    assert_eq!(timeout_reason("viewer"), "Redemption from viewer");
}

#[test]
fn refusals() {
    assert_eq!(
        explain_timeout_refusal(400, "The user specified in the user_id field is already banned."),
        Some("I can't timeout banned users.".to_string())
    );
    assert_eq!(
        explain_timeout_refusal(400, "The user specified in the user_id field may not be banned."),
        Some("I can't timeout mods or broadcasters.".to_string())
    );
    assert_eq!(explain_timeout_refusal(403, "The user specified in the user_id field is already banned."), None);
    assert_eq!(explain_timeout_refusal(400, "other"), None);
    assert!(contains_str("abcdef", "cde"));
    assert!(contains_str("abc", ""));
    assert!(!contains_str("abc", "abcd"));
    assert!(!contains_str("abc", "bd"));
}

fn failure(a: TimeoutAction) -> String {
    match a {
        TimeoutAction::Finish(Err(m)) => m,
        _ => panic!("expected a failure"),
    }
}

#[test]
fn timeout_flow_in_order() {
    let (mut flow, action) = TimeoutFlow::start("@SomeViewer", "10m", true, "redeemer");
    match action {
        TimeoutAction::LookupUser(l) => assert_eq!(l, "someviewer"),
        _ => panic!("expected a lookup"),
    }
    assert_eq!(flow.secs, 600);
    assert!(matches!(flow.step(TimeoutEvent::User(Ok("77".into()))), TimeoutAction::ReadVips));
    let vips = ModVips { vips: vec![User { id: "5".into() }] };
    match flow.step(TimeoutEvent::Vips(Ok(vips))) {
        TimeoutAction::CheckValid(id) => assert_eq!(id, "77"),
        _ => panic!("expected the check"),
    }
    match flow.step(TimeoutEvent::Valid(Ok(true))) {
        TimeoutAction::Register(id, secs) => assert_eq!((id.as_str(), secs), ("77", 600)),
        _ => panic!("expected the registration"),
    }
    match flow.step(TimeoutEvent::Registered) {
        TimeoutAction::Timeout { user_id, secs, reason } => {
            assert_eq!((user_id.as_str(), secs, reason.as_str()), ("77", 600, "Redemption from redeemer"))
        }
        _ => panic!("expected the timeout"),
    }
    assert!(matches!(flow.step(TimeoutEvent::Done(Ok(()))), TimeoutAction::Finish(Ok(()))));
}

#[test]
fn timeout_flow_refusals() {
    assert_eq!(failure(TimeoutFlow::start("no mention here", "10m", false, "r").1), "No user submitted");
    assert_eq!(failure(TimeoutFlow::start("viewer", "soon", false, "r").1), "expected number at 0");
    let (mut flow, _) = TimeoutFlow::start("viewer", "10m", false, "r");
    assert_eq!(failure(flow.step(TimeoutEvent::User(Err("Could not find user".into())))), "This user doesn't seem to exist: Could not find user");
    let (mut flow, _) = TimeoutFlow::start("viewer", "10m", true, "r");
    flow.step(TimeoutEvent::User(Ok("5".into())));
    let vips = ModVips { vips: vec![User { id: "5".into() }] };
    assert_eq!(failure(flow.step(TimeoutEvent::Vips(Ok(vips)))), "I won't timeout VIPs.");
    let (mut flow, _) = TimeoutFlow::start("viewer", "10m", true, "r");
    flow.step(TimeoutEvent::User(Ok("5".into())));
    assert_eq!(failure(flow.step(TimeoutEvent::Vips(Err("down".into())))), "Attempt to read VIPs failed: down");
    let (mut flow, _) = TimeoutFlow::start("viewer", "10m", false, "r");
    assert!(matches!(flow.step(TimeoutEvent::User(Ok("5".into()))), TimeoutAction::CheckValid(_)));
    assert_eq!(failure(flow.step(TimeoutEvent::Valid(Ok(false)))), "This user was timed out by another moderator.");
    let (mut flow, _) = TimeoutFlow::start("viewer", "10m", false, "r");
    flow.step(TimeoutEvent::User(Ok("5".into())));
    assert_eq!(failure(flow.step(TimeoutEvent::Valid(Err("nope".into())))), "Cannot check viewer's timeout/ban status: nope");
    let (mut flow, _) = TimeoutFlow::start("viewer", "10m", false, "r");
    flow.step(TimeoutEvent::User(Ok("5".into())));
    assert_eq!(failure(flow.step(TimeoutEvent::Busy)), "Too much traffic");
    let (mut flow, _) = TimeoutFlow::start("viewer", "10m", false, "r");
    flow.step(TimeoutEvent::User(Ok("5".into())));
    flow.step(TimeoutEvent::Valid(Ok(true)));
    flow.step(TimeoutEvent::Registered);
    assert_eq!(failure(flow.step(TimeoutEvent::Done(Err("banned".into())))), "Cannot timeout user: banned");
}
