use rewards::bttv::{BttvEmote, BttvUserInfo};
use rewards::ffz::{FfzEmote, FfzEmoteSet, FfzRoom, FfzRoomData};
use rewards::platform::SlotPlatform;
use rewards::removal::{select_by_num_id, select_by_str_id, IdOrName};
use rewards::search::EmoteCache;
use rewards::seven_tv::{SevenEmote, SevenEmoteSet, SevenUser, SevenUserResponse};

#[test]
fn parse_id_or_name() {
    let bttv = "https://betterttv.com/emotes/5f1b0186cf6d2144653d2970";
    match IdOrName::parse(bttv, SlotPlatform::Bttv) {
        IdOrName::Id(i) => assert_eq!(i, "5f1b0186cf6d2144653d2970"),
        IdOrName::Name(_) => panic!("expected an id"),
    }
    match IdOrName::parse("Kappa please", SlotPlatform::Bttv) {
        IdOrName::Name(n) => assert_eq!(n, "Kappa"),
        IdOrName::Id(_) => panic!("expected a name"),
    }
    match IdOrName::parse("emoticon/123", SlotPlatform::Ffz) {
        IdOrName::Id(i) => assert_eq!(i, "123"),
        IdOrName::Name(_) => panic!("expected an id"),
    }
    assert_eq!(IdOrName::parse("Kappa", SlotPlatform::Ffz).describe(), "name:Kappa");
    assert_eq!(IdOrName::Id("9").describe(), "id:9");
}

#[test]
fn select_emotes() {
    let emotes = vec![
        BttvEmote { id: "a".into(), code: "X".into() },
        BttvEmote { id: "b".into(), code: "Y".into() },
    ];
    assert_eq!(select_by_str_id(&emotes, &IdOrName::Name("Y"), SlotPlatform::Bttv).unwrap(), 1);
    assert_eq!(select_by_str_id(&emotes, &IdOrName::Id("a"), SlotPlatform::Bttv).unwrap(), 0);
    assert_eq!(
        select_by_str_id(&emotes, &IdOrName::Id("z"), SlotPlatform::SevenTv).unwrap_err(),
        "This 7TV emote isn't added!"
    );
    let ffz = vec![FfzEmote { id: 5, name: "F".into() }];
    assert_eq!(select_by_num_id(&ffz, &IdOrName::Id("5"), SlotPlatform::Ffz).unwrap(), 0);
    assert_eq!(
        select_by_num_id(&ffz, &IdOrName::Id("five"), SlotPlatform::Ffz).unwrap_err(),
        "Invalid emote ID"
    );
    assert_eq!(
        select_by_num_id(&ffz, &IdOrName::Name("G"), SlotPlatform::Ffz).unwrap_err(),
        "This FFZ emote isn't added!"
    );
}

#[test]
fn cache_names() {
    let cache = EmoteCache::assemble(
        Some(SevenUserResponse {
            emote_set: Some(SevenEmoteSet {
                id: "s".into(),
                capacity: 10,
                emotes: vec![SevenEmote { id: "7a".into(), name: "Seven".into(), listed: true }],
            }),
            user: SevenUser { editors: vec![] },
        }),
        Some(BttvUserInfo {
            id: "u".into(),
            channel_emotes: vec![BttvEmote { id: "c".into(), code: "Chan".into() }],
            shared_emotes: vec![BttvEmote { id: "b1".into(), code: "Shared".into() }],
        }),
        Some(FfzRoomData {
            sets: vec![("1".into(), FfzEmoteSet { id: 1, emoticons: vec![FfzEmote { id: 3, name: "Frank".into() }] })],
            room: FfzRoom { _id: 1 },
        }),
    );
    assert_eq!(cache.find_name_by_id("b1", SlotPlatform::Bttv), Some("Shared"));
    assert_eq!(cache.find_name_by_id("c", SlotPlatform::Bttv), None);
    assert_eq!(cache.find_name_by_id("3", SlotPlatform::Ffz), Some("Frank"));
    assert_eq!(cache.find_name_by_id("x3", SlotPlatform::Ffz), None);
    assert_eq!(cache.find_name_by_id("7a", SlotPlatform::SevenTv), Some("Seven"));
    let empty = EmoteCache::assemble(None, None, None);
    assert!(empty.bttv.is_empty() && empty.ffz.is_empty() && empty.seventv.is_empty());
}
