use rewards::twitch::{
    is_ngrok_callback, plan_user_lookup, subscription_cleanup, CreateFailure, HelixAnswer, HelixFailure, HelixMethod,
    TwitchApiError, UserLookup,
};

#[test]
fn classifying_failures() {
    assert!(matches!(TwitchApiError::from(HelixFailure::Request), TwitchApiError::ReqwestError));
    assert!(matches!(TwitchApiError::from(HelixFailure::Hyper), TwitchApiError::ReqwestError));
    assert!(matches!(TwitchApiError::from(HelixFailure::NoPage), TwitchApiError::NoPage));
    assert!(matches!(
        TwitchApiError::from(HelixFailure::Create(CreateFailure::InvalidUri)),
        TwitchApiError::InvalidUri
    ));
    match TwitchApiError::from(HelixFailure::Helix(HelixMethod::Post, HelixAnswer::Error(404, "gone".into()))) {
        TwitchApiError::Response(s, m) => assert_eq!((s, m.as_str()), (404, "gone")),
        _ => panic!("expected a response"),
    }
    assert!(matches!(
        TwitchApiError::from(HelixFailure::Helix(HelixMethod::Get, HelixAnswer::Deserialize)),
        TwitchApiError::Serde
    ));
    assert!(matches!(
        TwitchApiError::from(HelixFailure::Helix(HelixMethod::Delete, HelixAnswer::Deserialize)),
        TwitchApiError::Unknown
    ));
    assert_eq!(TwitchApiError::Response(429, "x".into()).status_code(), 429);
    assert_eq!(TwitchApiError::Serde.status_code(), 500);
}

#[test]
fn user_lookups() {
    let ids = vec!["1".to_string(), "2".to_string(), "3".to_string()];
    match plan_user_lookup(ids.clone(), Some(vec![Some("u1"), None, Some("u3")])) {
        UserLookup::Partial(done, pending) => {
            assert_eq!(done, vec!["u1", "u3"]);
            assert_eq!(pending, vec!["2".to_string()]);
        }
        _ => panic!("expected a partial answer"),
    }
    match plan_user_lookup(ids.clone(), Some(vec![Some(1), Some(2), Some(3)])) {
        UserLookup::AllCached(done) => assert_eq!(done, vec![1, 2, 3]),
        _ => panic!("expected all cached"),
    }
    match plan_user_lookup::<u8>(ids.clone(), Some(vec![Some(1)])) {
        UserLookup::FetchAll(all) => assert_eq!(all, ids),
        _ => panic!("expected a full fetch"),
    }
    assert!(matches!(plan_user_lookup::<u8>(ids, None), UserLookup::FetchAll(_)));
}

#[test]
fn subscription_cleanups() {
    let server = "https://rewards.example";
    assert_eq!(subscription_cleanup(true, "https://rewards.example/api", server), (false, false));
    assert_eq!(subscription_cleanup(false, "https://rewards.example/api", server), (true, true));
    assert_eq!(subscription_cleanup(true, "https://other.example/api", server), (true, false));
    assert_eq!(subscription_cleanup(true, "https://abc123.ngrok.io/api", server), (true, true));
}

#[test]
fn twitch_error_messages() {
    let e = TwitchApiError::from(HelixFailure::Helix(
        HelixMethod::Get,
        HelixAnswer::Error(404, "Could not find user".into()),
    ));
    assert_eq!(e.status_code(), 404);
    assert_eq!(e.message(), "TwitchError: 404 Not Found - Could not find user");
    assert_eq!(TwitchApiError::NoPage.message(), "No Page");
    assert_eq!(TwitchApiError::Unknown.message(), "Unknown and unexpected Twitch error (no further info)");
    assert_eq!(TwitchApiError::Other("custom".into()).message(), "custom");
}

#[test]
fn ngrok_pattern_as_the_regex_reads_it() {
    let re = regex::Regex::new("https?://[\\w_-]+(:?\\.\\w+)?.ngrok.io").unwrap();
    let cases = [
        "https://abc123.ngrok.io/api",
        "http://abc-1_2.ngrok.io",
        "https://abc.eu.ngrok.io/x",
        "https://abc:.eu.ngrok.io",
        "https://abc:.eu-ngrok-io",
        "https://abcXngrokYio",
        "http://a.ngrok.i",
        "https://.ngrok.io",
        "https://ab\nngrok.io",
        "xx http://tünnel.ngrok.io yy",
        "https://abc.ngrok.com",
        "https://rewards.example/api",
        "ftp://abc.ngrok.io",
        "httpss://abc.ngrok.io",
        "https://a.b.c.ngrok.io",
        "https://a.b_c.ngrok.io",
        "https://a:b.ngrok.io",
        "",
    ];
    for c in cases {
        assert_eq!(is_ngrok_callback(c), re.is_match(c), "{c:?}");
    }
    assert!(is_ngrok_callback("https://abc123.ngrok.io/api"));
    assert!(!is_ngrok_callback("https://abc.ngrok.com"));
}
