use rewards::emotes::EmoteEnvData;
use rewards::platform::SlotPlatform;
use rewards::slots::{ResizeAction, ResizeEvent, ResizeFlow, SlotAction, SlotEntry, SlotEvent, SlotFlow};
use rewards::swap::{SwapAction, SwapEvent, SwapFlow};

#[test]
fn swap_with_removal() {
    let (mut flow, action) = SwapFlow::start(Some(3), Some("Alias".into()));
    assert!(matches!(action, SwapAction::CheckBan));
    assert!(matches!(flow.step(SwapEvent::Banned(false)), SwapAction::LoadData));
    let next = flow.step(SwapEvent::Data { history_len: 3, current_emotes: 5, max_emotes: 50, emote_name: "Orig".into() });
    assert!(matches!(next, SwapAction::RemoveOldest));
    assert!(matches!(flow.step(SwapEvent::Removed("Old".into())), SwapAction::AddEmote));
    match flow.step(SwapEvent::Added) {
        SwapAction::SaveSwap(name) => assert_eq!(name, "Alias"),
        _ => panic!("expected to save the swap"),
    }
    match flow.step(SwapEvent::Saved(true)) {
        SwapAction::Finish(Ok((removed, added))) => {
            assert_eq!(removed.as_deref(), Some("Old"));
            assert_eq!(added, "Alias");
        }
        _ => panic!("expected success"),
    }
}

#[test]
fn swap_without_removal_and_failures() {
    let (mut flow, _) = SwapFlow::start(None, None);
    match flow.step(SwapEvent::Banned(true)) {
        SwapAction::Finish(Err(m)) => assert_eq!(m, "This emote is banned"),
        _ => panic!("expected a refusal"),
    }
    let (mut flow, _) = SwapFlow::start(None, None);
    flow.step(SwapEvent::Banned(false));
    let next = flow.step(SwapEvent::Data { history_len: 100, current_emotes: 1, max_emotes: 50, emote_name: "E".into() });
    assert!(matches!(next, SwapAction::AddEmote));
    match flow.step(SwapEvent::AddFailed("nope".into())) {
        SwapAction::Finish(Err(m)) => assert_eq!(m, "Couldn't add emote: nope"),
        _ => panic!("expected a failure"),
    }
    let (mut flow, _) = SwapFlow::start(None, None);
    flow.step(SwapEvent::Banned(false));
    match flow.step(SwapEvent::Failed("The emote is already added".into())) {
        SwapAction::Finish(Err(m)) => assert_eq!(m, "The emote is already added"),
        _ => panic!("expected a failure"),
    }
    let (mut flow, _) = SwapFlow::start(None, None);
    flow.step(SwapEvent::Banned(false));
    flow.step(SwapEvent::Data { history_len: 0, current_emotes: 1, max_emotes: 50, emote_name: "E".into() });
    flow.step(SwapEvent::Added);
    match flow.step(SwapEvent::Saved(false)) {
        SwapAction::Finish(Err(m)) => assert_eq!(m, "Could not save emote in DB"),
        _ => panic!("expected a failure"),
    }
}

fn free(id: i32) -> SlotEntry {
    SlotEntry { id, emote_id: None, name: None, expires: None, added_by: None, added_at: None }
}

#[test]
fn slot_fill_closing_the_reward() {
    let (mut flow, action) = SlotFlow::start("e1".into(), "viewer".into(), "1h".into());
    assert!(matches!(action, SlotAction::CheckBan));
    assert!(matches!(flow.step(SlotEvent::Banned(false)), SlotAction::LoadSlots));
    assert!(matches!(flow.step(SlotEvent::Slots(Some(vec![free(4)]))), SlotAction::LoadData));
    let next = flow.step(SlotEvent::Data { current_emotes: 1, max_emotes: 5, emote_name: "Pog".into() });
    assert!(matches!(next, SlotAction::AddEmote));
    match flow.step(SlotEvent::Added) {
        SlotAction::ReadClock(nanos) => assert_eq!(nanos, 3_600_000_000_000),
        _ => panic!("expected the clock"),
    }
    match flow.step(SlotEvent::Clock { now: 1_000_000_000_000 }) {
        SlotAction::SaveSlot(s) => {
            assert_eq!(s.id, 4);
            assert_eq!(s.emote_id.as_deref(), Some("e1"));
            assert_eq!(s.name.as_deref(), Some("Pog"));
            assert_eq!(s.added_by.as_deref(), Some("viewer"));
            assert_eq!((s.added_at, s.expires), (Some(1_000_000_000_000), Some(4_600_000_000_000)));
        }
        _ => panic!("expected to save the slot"),
    }
    assert!(matches!(flow.step(SlotEvent::Saved(true)), SlotAction::PauseReward));
    match flow.step(SlotEvent::Paused) {
        SlotAction::Finish(Ok((name, open))) => assert_eq!((name.as_str(), open), ("Pog", 0)),
        _ => panic!("expected success"),
    }
}

#[test]
fn slot_fill_refusals() {
    let (mut flow, _) = SlotFlow::start("e".into(), "v".into(), "1h".into());
    flow.step(SlotEvent::Banned(false));
    match flow.step(SlotEvent::Slots(Some(vec![]))) {
        SlotAction::Finish(Err(m)) => assert_eq!(m, "No free slot is available!"),
        _ => panic!("expected a refusal"),
    }
    let (mut flow, _) = SlotFlow::start("e".into(), "v".into(), "1h".into());
    flow.step(SlotEvent::Banned(false));
    flow.step(SlotEvent::Slots(Some(vec![free(1), free(2)])));
    match flow.step(SlotEvent::Data { current_emotes: 5, max_emotes: 5, emote_name: "X".into() }) {
        SlotAction::Finish(Err(m)) => assert_eq!(m, "There's no free slot!"),
        _ => panic!("expected a refusal"),
    }
    let (mut flow, _) = SlotFlow::start("e".into(), "v".into(), "whenever".into());
    flow.step(SlotEvent::Banned(false));
    flow.step(SlotEvent::Slots(Some(vec![free(1), free(2)])));
    flow.step(SlotEvent::Data { current_emotes: 1, max_emotes: 5, emote_name: "X".into() });
    match flow.step(SlotEvent::Added) {
        SlotAction::Finish(Err(m)) => assert_eq!(m, "No expiration set!"),
        _ => panic!("expected a refusal"),
    }
    let (mut flow, _) = SlotFlow::start("e".into(), "v".into(), "1h".into());
    flow.step(SlotEvent::Banned(false));
    flow.step(SlotEvent::Slots(Some(vec![free(1), free(2)])));
    flow.step(SlotEvent::Data { current_emotes: 1, max_emotes: 5, emote_name: "X".into() });
    flow.step(SlotEvent::Added);
    match flow.step(SlotEvent::Clock { now: 0 }) {
        SlotAction::SaveSlot(s) => assert_eq!((s.added_at, s.expires), (Some(0), Some(3_600_000_000_000))),
        _ => panic!("expected to save the slot"),
    }
    match flow.step(SlotEvent::Saved(true)) {
        SlotAction::Finish(Ok((name, open))) => assert_eq!((name.as_str(), open), ("X", 1)),
        _ => panic!("expected success"),
    }
    let (mut flow, _) = SlotFlow::start("e".into(), "v".into(), "1h".into());
    flow.step(SlotEvent::Banned(false));
    match flow.step(SlotEvent::Slots(None)) {
        SlotAction::Finish(Err(m)) => assert_eq!(m, "Internal error"),
        _ => panic!("expected a failure"),
    }
}

fn filled(id: i32, emote: &str) -> SlotEntry {
    SlotEntry { id, emote_id: Some(emote.into()), name: Some(emote.into()), expires: None, added_by: None, added_at: None }
}

#[test]
fn resizing_down_and_up() {
    match ResizeFlow::start(SlotPlatform::Bttv, 0).1 {
        ResizeAction::Finish(Err(m)) => assert_eq!(m, "You can't have 0 slots"),
        _ => panic!("expected a refusal"),
    }
    let (mut flow, action) = ResizeFlow::start(SlotPlatform::Bttv, 1);
    assert!(matches!(action, ResizeAction::LoadSlots));
    match flow.step(ResizeEvent::Slots(Ok(vec![filled(1, "a"), free(2), filled(3, "c")]))) {
        ResizeAction::DeleteSlots { emotes, rows } => {
            assert_eq!(rows, vec![2, 1]);
            assert_eq!(emotes, vec!["a".to_string()]);
        }
        _ => panic!("expected deletions"),
    }
    assert!(matches!(flow.step(ResizeEvent::Deleted(Ok(()))), ResizeAction::CountAvailable));
    assert!(matches!(flow.step(ResizeEvent::Available(Ok(0))), ResizeAction::SetPaused(true)));
    assert!(matches!(flow.step(ResizeEvent::PausedSet(Ok(()))), ResizeAction::Finish(Ok(()))));

    let (mut flow, _) = ResizeFlow::start(SlotPlatform::SevenTv, 4);
    assert!(matches!(flow.step(ResizeEvent::Slots(Ok(vec![free(1)]))), ResizeAction::LoadRoom));
    let env = EmoteEnvData { max_emotes: 10, current_emotes: 5 };
    assert!(matches!(flow.step(ResizeEvent::Room(Ok((env, 1)))), ResizeAction::CreateSlots(3)));
    assert!(matches!(flow.step(ResizeEvent::Created(Ok(()))), ResizeAction::CountAvailable));
    assert!(matches!(flow.step(ResizeEvent::Available(Ok(4))), ResizeAction::SetPaused(false)));

    let (mut flow, _) = ResizeFlow::start(SlotPlatform::Ffz, 4);
    flow.step(ResizeEvent::Slots(Ok(vec![free(1)])));
    let env = EmoteEnvData { max_emotes: 10, current_emotes: 9 };
    match flow.step(ResizeEvent::Room(Ok((env, 0)))) {
        ResizeAction::Finish(Err(m)) => assert_eq!(
            m,
            "There are 1 free slots on Ffz (actually 1 because 0 are already uses as slots here) but I need 3"
        ),
        _ => panic!("expected a refusal"),
    }
    let (mut flow, _) = ResizeFlow::start(SlotPlatform::Ffz, 2);
    assert!(matches!(flow.step(ResizeEvent::Slots(Ok(vec![free(1), free(2)]))), ResizeAction::CountAvailable));
    match flow.step(ResizeEvent::Available(Err("db".into()))) {
        ResizeAction::Finish(Err(m)) => assert_eq!(m, "db"),
        _ => panic!("expected a failure"),
    }
}

#[test]
fn slot_expiry_keeps_fractions_of_a_second() {
    let (mut flow, _) = SlotFlow::start("e".into(), "v".into(), "1500ms".into());
    flow.step(SlotEvent::Banned(false));
    flow.step(SlotEvent::Slots(Some(vec![free(1), free(2)])));
    flow.step(SlotEvent::Data { current_emotes: 1, max_emotes: 5, emote_name: "X".into() });
    match flow.step(SlotEvent::Added) {
        SlotAction::ReadClock(nanos) => assert_eq!(nanos, 1_500_000_000),
        _ => panic!("expected the clock"),
    }
    match flow.step(SlotEvent::Clock { now: 1_700_000_000_123_456_789 }) {
        SlotAction::SaveSlot(s) => {
            assert_eq!(s.added_at, Some(1_700_000_000_123_456_789));
            assert_eq!(s.expires, Some(1_700_000_001_623_456_789));
        }
        _ => panic!("expected to save the slot"),
    }
}
