use rewards::platform::SlotPlatform;
use rewards::reward_data::{
    RemEmoteRewardData, RewardData, SlotRewardData, SpotifyPlayOptions, SwapRewardData,
    TimedModeKind, TimeoutRewardData,
};
use rewards::rewards::{
    chat_settings_change, check_timed_mode, execution, Execution, ffz_editor_outcome, remaining_secs, required_check,
    save_reward, verify_live_delay, verify_reward, PlatformCheck, SaveAction, VerifyError,
};

fn slot(slots: usize, expiration: &str) -> SlotRewardData {
    SlotRewardData { slots, expiration: expiration.into(), reply: true }
}

fn swap(limit: Option<u16>) -> SwapRewardData {
    SwapRewardData { limit, allow_unlisted: false, reply: true }
}

#[test]
fn checks_by_reward() {
    assert_eq!(required_check(&RewardData::SubOnly("1m".into())), PlatformCheck::Nothing);
    assert_eq!(required_check(&RewardData::BttvSlot(slot(1, "1h"))), PlatformCheck::BttvEditor);
    assert_eq!(required_check(&RewardData::FfzSwap(swap(None))), PlatformCheck::FfzEditor);
    assert_eq!(required_check(&RewardData::SpotifySkip), PlatformCheck::SpotifyToken);
    assert_eq!(
        required_check(&RewardData::RemEmote(RemEmoteRewardData { platform: SlotPlatform::SevenTv, reply: false })),
        PlatformCheck::SevenTvEditor
    );
    assert_eq!(ffz_editor_outcome(false).unwrap_err(), "RewardMore isn't an editor for the user");
    assert!(ffz_editor_outcome(true).is_ok());
}

#[test]
fn verifying_rewards() {
    assert!(verify_reward(&RewardData::EmoteOnly("10m".into()), Ok(())).is_ok());
    assert!(matches!(
        verify_reward(&RewardData::EmoteOnly("ten".into()), Ok(())),
        Err(VerifyError::Duration(_))
    ));
    let timeout = RewardData::Timeout(TimeoutRewardData { duration: "rand(1m;2m)".into(), vip: false });
    assert!(verify_reward(&timeout, Err("ignored".into())).is_ok());
    assert!(matches!(
        verify_reward(&RewardData::BttvSlot(slot(51, "1h")), Ok(())),
        Err(VerifyError::TooManySlots(50))
    ));
    assert!(verify_reward(&RewardData::SevenTvSlot(slot(100, "1h")), Ok(())).is_ok());
    assert!(matches!(
        verify_reward(&RewardData::SevenTvSlot(slot(101, "1h")), Ok(())),
        Err(VerifyError::TooManySlots(100))
    ));
    match verify_reward(&RewardData::FfzSlot(slot(99, "x")), Err("no editor".into())) {
        Err(VerifyError::Check(m)) => assert_eq!(m, "no editor"),
        _ => panic!("the platform check comes first"),
    }
    assert!(matches!(
        verify_reward(&RewardData::FfzSlot(slot(3, "soon")), Ok(())),
        Err(VerifyError::Duration(_))
    ));
    assert!(verify_reward(&RewardData::SpotifyQueue(SpotifyPlayOptions { allow_explicit: true }), Ok(())).is_ok());
    assert_eq!(VerifyError::slot_message(50), "50 slots is the max");
}

#[test]
fn live_delays() {
    assert!(verify_live_delay(&None).is_ok());
    assert!(verify_live_delay(&Some("5s".into())).is_ok());
    let e = verify_live_delay(&Some("later".into())).unwrap_err();
    assert!(e.starts_with("Could not parse duration: "));
}

#[test]
fn saving_rewards() {
    assert_eq!(save_reward(&RewardData::BttvSwap(swap(Some(4)))), SaveAction::PruneSwaps(SlotPlatform::Bttv, 4));
    assert_eq!(save_reward(&RewardData::SevenTvSwap(swap(None))), SaveAction::Nothing);
    assert_eq!(save_reward(&RewardData::FfzSlot(slot(6, "1h"))), SaveAction::ResizeSlots(SlotPlatform::Ffz, 6));
    assert_eq!(save_reward(&RewardData::SpotifySkip), SaveAction::Nothing);
}

#[test]
fn timed_modes() {
    assert_eq!(
        check_timed_mode(TimedModeKind::Subonly, true, false).unwrap_err(),
        "This chat is already in subscriber mode."
    );
    assert_eq!(
        check_timed_mode(TimedModeKind::Emoteonly, false, true).unwrap_err(),
        "This chat is already in emote only mode."
    );
    assert!(check_timed_mode(TimedModeKind::Emoteonly, true, false).is_ok());
    assert_eq!(chat_settings_change(TimedModeKind::Emoteonly, true), (Some(true), None));
    assert_eq!(chat_settings_change(TimedModeKind::Subonly, false), (None, Some(false)));
    assert_eq!(remaining_secs(100, 40), 60);
    assert_eq!(remaining_secs(100, 400), 0);
    assert_eq!(remaining_secs(i64::MAX, i64::MIN), u64::MAX);
}

#[test]
fn executions() {
    assert_eq!(execution(&RewardData::SubOnly("1m".into())), Execution::TimedMode(TimedModeKind::Subonly));
    assert_eq!(execution(&RewardData::FfzSlot(slot(2, "1h"))), Execution::Slot(SlotPlatform::Ffz));
    assert_eq!(execution(&RewardData::SevenTvSwap(swap(None))), Execution::Swap(SlotPlatform::SevenTv));
    assert_eq!(
        execution(&RewardData::SpotifyPlay(SpotifyPlayOptions { allow_explicit: false })),
        Execution::Spotify(rewards::reply::SpotifyAction::Play)
    );
}
