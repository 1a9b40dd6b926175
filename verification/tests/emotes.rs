use rewards::bttv::{BttvEditor, BttvEmote, BttvLimits, BttvUserInfo};
use rewards::emote_checks::{
    bttv_env_data, bttv_initial_data, check_rename, ffz_env_data, ffz_initial_data, room_emotes,
    seventv_env_data, seventv_initial_data,
};
use rewards::emotes::{
    find_by_name, find_by_num_id, find_by_str_id, format_emote_url, num_id_or_default,
    parse_usize_exec, BttvEmotes, EmoteId, FfzEmotes, SevenTvEmotes,
};
use rewards::ffz::{FfzEmote, FfzEmoteSet, FfzRoom, FfzRoomData, FfzUser};
use rewards::platform::SlotPlatform;
use rewards::seven_tv::{emote_set_id, SevenEmote, SevenEmoteSet, SevenUser, SevenUserResponse};

fn bemote(id: &str, code: &str) -> BttvEmote {
    BttvEmote { id: id.into(), code: code.into() }
}

fn femote(id: usize, name: &str) -> FfzEmote {
    FfzEmote { id, name: name.into() }
}

fn semote(id: &str, name: &str, listed: bool) -> SevenEmote {
    SevenEmote { id: id.into(), name: name.into(), listed }
}

fn bttv_user() -> BttvUserInfo {
    BttvUserInfo {
        id: "u".into(),
        channel_emotes: vec![bemote("c1", "Chan")],
        shared_emotes: vec![bemote("s1", "Shared"), bemote("s2", "Other")],
    }
}

#[test]
fn renaming() {
    assert_eq!(
        check_rename(SlotPlatform::Bttv, Some("x")).unwrap_err(),
        "BTTV doesn't support renaming emotes"
    );
    assert_eq!(
        check_rename(SlotPlatform::Ffz, Some("x")).unwrap_err(),
        "FFZ doesn't support renaming emotes"
    );
    assert!(check_rename(SlotPlatform::SevenTv, Some("x")).is_ok());
    assert!(check_rename(SlotPlatform::Bttv, None).is_ok());
}

#[test]
fn bttv_checks() {
    let limits = BttvLimits { shared_emotes: 15 };
    let err = bttv_initial_data("s1", 0, "bid".into(), bttv_user(), &limits, bemote("s1", "New"))
        .err()
        .unwrap();
    assert_eq!(err, "The emote already exists as a shared emote");
    let err = bttv_initial_data("x", 0, "bid".into(), bttv_user(), &limits, bemote("x", "Chan"))
        .err()
        .unwrap();
    assert_eq!(err, "The emote already exists as a channel emote");
    let data = bttv_initial_data("x", 4, "bid".into(), bttv_user(), &limits, bemote("x", "New"))
        .ok()
        .unwrap();
    assert_eq!((data.max_emotes, data.current_emotes, data.history_len), (15, 2, 4));
    assert_eq!(data.platform_id, "bid");
    let env = bttv_env_data(&limits, &bttv_user());
    assert_eq!((env.max_emotes, env.current_emotes), (15, 2));
}

fn room() -> FfzRoomData {
    FfzRoomData {
        sets: vec![
            ("1".into(), FfzEmoteSet { id: 1, emoticons: vec![femote(10, "A"), femote(11, "B")] }),
            ("2".into(), FfzEmoteSet { id: 2, emoticons: vec![femote(12, "C")] }),
        ],
        room: FfzRoom { _id: 77 },
    }
}

#[test]
fn ffz_checks() {
    let names: Vec<String> = room_emotes(room().sets).into_iter().map(|e| e.name).collect();
    assert_eq!(names, vec!["A", "B", "C"]);
    let user = FfzUser { max_emoticons: 5, id: 1, name: "u".into() };
    assert_eq!(
        ffz_initial_data(room(), &user, femote(12, "Z"), 0).err().unwrap(),
        "The emote is already added"
    );
    assert_eq!(
        ffz_initial_data(room(), &user, femote(99, "B"), 0).err().unwrap(),
        "The emote is already added"
    );
    let d = ffz_initial_data(room(), &user, femote(99, "Z"), 3).ok().unwrap();
    assert_eq!((d.max_emotes, d.current_emotes, d.history_len, d.platform_id), (5, 3, 3, 77));
    let env = ffz_env_data(&user, room());
    assert_eq!((env.max_emotes, env.current_emotes), (5, 3));
}

fn seven_user(with_set: bool) -> SevenUserResponse {
    SevenUserResponse {
        emote_set: with_set.then(|| SevenEmoteSet {
            id: "set".into(),
            capacity: 300,
            emotes: vec![semote("a", "Alpha", true)],
        }),
        user: SevenUser { editors: vec![] },
    }
}

#[test]
fn seventv_checks() {
    assert_eq!(
        seventv_initial_data(seven_user(false), semote("b", "Beta", true), None, false, 0)
            .err()
            .unwrap(),
        "No 7TV emote set selected"
    );
    assert_eq!(
        seventv_initial_data(seven_user(true), semote("b", "Beta", true), Some("Alpha"), false, 0)
            .err()
            .unwrap(),
        "The emote or an emote with the same name already exists."
    );
    assert_eq!(
        seventv_initial_data(seven_user(true), semote("b", "Beta", false), None, false, 0)
            .err()
            .unwrap(),
        "Attempted to add an unlisted emote, but unlisted emotes aren't allowed."
    );
    let d = seventv_initial_data(seven_user(true), semote("b", "Beta", false), None, true, 2)
        .ok()
        .unwrap();
    assert_eq!((d.max_emotes, d.current_emotes, d.history_len), (300, 1, 2));
    assert_eq!(d.platform_id, "set");
    let env = seventv_env_data(seven_user(true)).ok().unwrap();
    assert_eq!((env.max_emotes, env.current_emotes), (300, 1));
    assert_eq!(seventv_env_data(seven_user(false)).err().unwrap(), "No 7TV emote set selected");
}

#[test]
fn lookups() {
    let emotes = vec![bemote("a", "X"), bemote("b", "Y"), bemote("c", "Y")];
    assert_eq!(find_by_name(&emotes, "Y"), Some(1));
    assert_eq!(find_by_str_id(&emotes, "c"), Some(2));
    assert_eq!(find_by_str_id(&emotes, "d"), None);
    let f = vec![femote(3, "P"), femote(4, "Q")];
    assert_eq!(find_by_num_id(&f, 4), Some(1));
    assert_eq!(find_by_num_id(&f, 5), None);
}

#[test]
fn numeric_ids() {
    assert_eq!(parse_usize_exec("123"), Some(123));
    assert_eq!(parse_usize_exec("+7"), Some(7));
    assert_eq!(parse_usize_exec(""), None);
    assert_eq!(parse_usize_exec("12a"), None);
    assert_eq!(parse_usize_exec("99999999999999999999999999"), None);
    assert_eq!(num_id_or_default("x"), 0);
    assert_eq!(num_id_or_default("42"), 42);
    assert_eq!(<usize as EmoteId>::from_db("17").ok(), Some(17));
    assert!(<usize as EmoteId>::from_db("-1").is_err());
    assert_eq!(<String as EmoteId>::from_db("abc").ok().as_deref(), Some("abc"));
}

#[test]
fn emote_urls() {
    assert_eq!(format_emote_url(SlotPlatform::Bttv, "x"), "https://betterttv.com/emotes/x");
    assert_eq!(format_emote_url(SlotPlatform::Ffz, "1"), "https://www.frankerfacez.com/emoticon/1");
    assert_eq!(format_emote_url(SlotPlatform::SevenTv, "y"), "https://7tv.app/emotes/y");
    assert_eq!(BttvEmotes::format_emote_url("x"), "https://cdn.betterttv.net/emote/x/3x");
    assert_eq!(FfzEmotes::format_emote_url("1"), "https://cdn.frankerfacez.com/emote/1/4");
    assert_eq!(SevenTvEmotes::format_emote_url("y"), "https://cdn.7tv.app/emote/y/4x");
    assert_eq!(SevenTvEmotes::format_emote_page("y"), "https://7tv.app/emotes/y");
    assert_eq!(BttvEmotes::platform(), SlotPlatform::Bttv);
    assert_eq!(FfzEmotes::platform(), SlotPlatform::Ffz);
}

#[test]
fn emote_equality() {
    assert!(bemote("a", "X") == bemote("a", "Y"));
    assert!(bemote("a", "X") == bemote("b", "X"));
    assert!(bemote("a", "X") != bemote("b", "Y"));
    assert!(femote(1, "A") == femote(1, "B"));
    assert!(femote(1, "A") != femote(2, "B"));
}

#[test]
fn dashboards() {
    let dash = vec![BttvEditor {
        id: "b1".into(),
        name: "n".into(),
        provider_id: "p".into(),
        limits: BttvLimits { shared_emotes: 20 },
    }];
    assert_eq!(rewards::bttv::find_user_limits(&dash, "b1").map(|l| l.shared_emotes), Some(20));
    assert!(rewards::bttv::find_user_limits(&dash, "b2").is_none());
}

#[test]
fn seventv_emote_set_for_saving() {
    assert_eq!(emote_set_id(&seven_user(true)), Ok("set".to_string()));
    assert_eq!(emote_set_id(&seven_user(false)), Err("No 7TV emote set selected".to_string()));
}
