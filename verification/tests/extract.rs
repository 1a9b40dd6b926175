use rewards::extract::{
    bttv, bttv_id, duration, duration_range_exec, extract_username, ffz, ffz_id,
    parse_overridden, seventv, seventv_id, username, DurationError, ExtractError,
    duration_bound_fits, read_duration_exec,
};

const BTTV: &str = "5f1b0186cf6d2144653d2970";
const SEVENTV: &str = "01F6MZGCNG000255K4X1K8Q4X8";

#[test]
fn bttv_bare_id() {
    assert_eq!(bttv_id(BTTV).unwrap(), BTTV);
}

#[test]
fn bttv_link() {
    let link = format!("https://betterttv.com/emotes/{BTTV}");
    assert_eq!(bttv_id(&link).unwrap(), BTTV);
    let spec = bttv(&link).unwrap();
    assert_eq!(spec.id, BTTV);
    assert!(spec.override_name.is_none());
}

#[test]
fn bttv_id_needs_separation() {
    let glued = format!("x{BTTV}");
    assert_eq!(bttv_id(&glued), Err(ExtractError::NoEmoteCode));
    let after_word = format!("take {BTTV} please");
    assert_eq!(bttv_id(&after_word).unwrap(), BTTV);
}

#[test]
fn bttv_id_missing() {
    assert_eq!(bttv_id("no emote here"), Err(ExtractError::NoEmoteCode));
    assert_eq!(ExtractError::NoEmoteCode.message(), "Could not find an emote code there!");
}

#[test]
fn seventv_bare_and_link() {
    assert_eq!(seventv_id(SEVENTV).unwrap(), SEVENTV);
    let link = format!("https://7tv.app/emotes/{SEVENTV}");
    assert_eq!(seventv_id(&link).unwrap(), SEVENTV);
    assert_eq!(seventv_id("8F6MZGCNG000255K4X1K8Q4X8X"), Err(ExtractError::NoEmoteCode));
}

#[test]
fn seventv_alias() {
    let input = format!("{SEVENTV} as=PogChamp");
    let spec = seventv(&input).unwrap();
    assert_eq!(spec.id, SEVENTV);
    assert_eq!(spec.override_name, Some("PogChamp"));
    assert_eq!(parse_overridden("as=x"), None);
    assert_eq!(parse_overridden("nope"), None);
}

#[test]
fn ffz_links() {
    assert_eq!(ffz_id("https://www.frankerfacez.com/emoticon/720507-Pog").unwrap(), "720507");
    assert_eq!(ffz_id("emoticon/42").unwrap(), "42");
    assert_eq!(ffz_id("42"), Err(ExtractError::NoEmote));
    assert_eq!(ExtractError::NoEmote.message(), "Could not find an emote there!");
    let spec = ffz("frankerfacez.com/emoticon/9").unwrap();
    assert_eq!(spec.id, "9");
}

#[test]
fn usernames() {
    assert_eq!(username("@Forsen").unwrap(), "Forsen");
    assert_eq!(username("  nymn  ").unwrap(), "nymn");
    assert_eq!(username("time out @some_user please").unwrap(), "some_user");
    assert_eq!(username("no mention here"), Err(ExtractError::NoUser));
    assert_eq!(ExtractError::NoUser.message(), "No user submitted");
}

#[test]
fn mentions_keep_the_at_sign() {
    assert_eq!(extract_username("hello @someone there").unwrap(), "@someone");
    assert_eq!(extract_username("@@x").unwrap(), "x");
}

#[test]
fn fixed_duration() {
    assert_eq!(duration("1h").unwrap(), 3600);
    assert_eq!(duration("  2m 30s ").unwrap(), 150);
}

#[test]
fn random_duration_within_bounds() {
    for _ in 0..50 {
        let d = duration("rand( 10m ; 1h )").unwrap();
        assert!(600 <= d && d < 3600);
    }
    assert_eq!(duration_range_exec("rand( 10m ; 10h )").ok(), Some((600, 36000)));
}

#[test]
fn random_duration_order_does_not_matter() {
    assert_eq!(duration_range_exec("rand(1h;10m)").ok(), duration_range_exec("rand(10m;1h)").ok());
    assert_eq!(duration("rand(5s;5s)").unwrap(), 5);
}

#[test]
fn invalid_durations() {
    assert!(matches!(duration("forever"), Err(DurationError::Invalid(_))));
    match duration("rand(1h;soon)") {
        Err(DurationError::Range(a, b)) => {
            assert_eq!(a, Ok(3600));
            assert!(b.is_err());
        }
        _ => panic!("expected a range error"),
    }
}

#[test]
fn documented_duration_forms() {
    assert_eq!(duration("1hour 3min 4ms").unwrap(), 3780);
    let d = duration("rand( 10m ; 10h )").unwrap();
    assert!(600 <= d && d < 36000);
}

#[test]
fn durations_that_could_reach_the_seconds_limit_are_refused() {
    let overflow = "number is too large or cannot be represented without a lack of precision (values below 1ns are not supported)";
    match duration("18446744073709551615s 1000000000ns") {
        Err(DurationError::Invalid(m)) => assert_eq!(m, overflow),
        _ => panic!("expected a refusal"),
    }
    match read_duration_exec("18446744073709551614s") {
        Err((m, d)) => assert_eq!((m.as_str(), d.as_str()), (overflow, "NumberOverflow")),
        _ => panic!("expected a refusal"),
    }
    assert_eq!(read_duration_exec("18446744073709551613s"), Ok((18_446_744_073_709_551_613, 0)));
    assert_eq!(duration("100000000000s").unwrap(), 100_000_000_000);
    assert_eq!(duration("99999999999y").unwrap(), 99_999_999_999 * 31_557_600);
    assert_eq!(duration("584000000000y").unwrap(), 584_000_000_000 * 31_557_600);
    let v = duration("rand(100000000000s;1s)").unwrap();
    assert!((1..100_000_000_000).contains(&v));
    assert!(duration_bound_fits("1h 30m 5s"));
    assert!(duration_bound_fits("9223372036854775807 s 500 ms"));
    assert!(!duration_bound_fits("584542046091y"));
    assert_eq!(read_duration_exec("2h 37min"), Ok((9420, 0)));
    assert_eq!(read_duration_exec("4.2s"), Ok((4, 200_000_000)));
    assert_eq!(read_duration_exec("1 000 s"), Ok((1000, 0)));
}

#[test]
fn duration_error_messages() {
    let e = duration("rand(1h;soon)").unwrap_err();
    let expected = format!(
        "Could not parse duration: {:?}",
        (Some(Ok::<u64, humantime::DurationError>(3600)), Some(humantime::parse_duration("soon").map(|d| d.as_secs())))
    );
    assert_eq!(e.message(), expected);
    assert_eq!(e.message(), "Could not parse duration: (Some(Ok(3600)), Some(Err(NumberExpected(0))))");
    let e = duration("forever").unwrap_err();
    assert_eq!(e.message(), humantime::parse_duration("forever").unwrap_err().to_string());
}

#[test]
fn random_durations_stay_in_their_range() {
    for _ in 0..50 {
        let v = duration("rand(10m;1h)").unwrap();
        assert!((600..3600).contains(&v));
    }
}
