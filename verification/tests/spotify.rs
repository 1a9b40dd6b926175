use rewards::spotify::{
    basic_auth, check_explicit, check_playing, command_result, expects_body, extract_spotify_id,
    get_redirect_url, pick_track, player_or_idle, skipped_text, ArtistObject, EpisodeObject,
    PagingObject, PlayerResponse, PlayingItem, SearchResponse, SimplifiedShowObject, TrackObject,
};

fn track(name: &str, artists: &[&str], explicit: bool) -> TrackObject {
    TrackObject {
        name: name.into(),
        artists: artists.iter().map(|a| ArtistObject { name: a.to_string() }).collect(),
        uri: format!("spotify:track:{name}"),
        explicit,
    }
}

#[test]
fn track_texts() {
    assert_eq!(track("Song", &["A", "B"], false).to_string(), "\"Song\" by A, B");
    assert_eq!(track("Solo", &["C"], false).to_string(), "\"Solo\" by C");
    assert_eq!(track("Nobody", &[], false).to_string(), "\"Nobody\" by ");
    let ep = PlayingItem::Episode(EpisodeObject {
        name: "Ep 1".into(),
        show: SimplifiedShowObject { name: "Show".into() },
    });
    assert_eq!(ep.to_string(), "Ep 1 from Show");
}

#[test]
fn spotify_ids() {
    let id = "4uLU6hMCjMI75M1A2tKUQC";
    assert_eq!(extract_spotify_id(id), Some(id));
    let link = format!("https://open.spotify.com/track/{id}?si=abc");
    assert_eq!(extract_spotify_id(&link), Some(id));
    assert_eq!(extract_spotify_id("never gonna give you up"), None);
    assert_eq!(extract_spotify_id("x_4uLU6hMCjMI75M1A2tKUQC"), None);
}

#[test]
fn choosing_tracks() {
    assert!(check_explicit(track("E", &["A"], true), true).is_ok());
    assert_eq!(
        check_explicit(track("E", &["A"], true), false).unwrap_err(),
        "Explicit tracks are disallowed!"
    );
    let res = SearchResponse {
        tracks: Some(PagingObject { items: vec![track("Dirty", &["A"], true), track("Clean", &["B"], false)] }),
    };
    assert_eq!(pick_track(res, false).unwrap().name, "Clean");
    let res = SearchResponse {
        tracks: Some(PagingObject { items: vec![track("Dirty", &["A"], true), track("Clean", &["B"], false)] }),
    };
    assert_eq!(pick_track(res, true).unwrap().name, "Dirty");
    assert_eq!(pick_track(SearchResponse { tracks: None }, true).unwrap_err(), "No track found");
}

#[test]
fn players() {
    let idle = player_or_idle(None);
    assert!(!idle.is_playing && idle.item.is_none());
    assert_eq!(check_playing(idle).unwrap_err(), "There's no song playing");
    let playing = PlayerResponse { is_playing: true, item: Some(PlayingItem::Track(track("S", &["A"], false))) };
    assert_eq!(skipped_text(&playing), "\"S\" by A");
    assert!(check_playing(playing).is_ok());
    assert_eq!(skipped_text(&PlayerResponse { is_playing: true, item: None }), "?");
}

#[test]
fn player_statuses() {
    assert!(command_result(204, false).is_ok());
    assert!(command_result(200, true).is_ok());
    assert_eq!(command_result(200, false).unwrap_err(), "Expected 204 - got 200 OK");
    assert_eq!(
        command_result(403, true).unwrap_err(),
        "Controlling the player requires Spotify premium :/"
    );
    assert_eq!(expects_body(204).unwrap(), false);
    assert_eq!(expects_body(200).unwrap(), true);
    assert_eq!(expects_body(500).unwrap_err(), "Bad status: 500 Internal Server Error");
}

#[test]
fn auth_texts() {
    assert_eq!(basic_auth("id", "secret"), "Basic aWQ6c2VjcmV0");
    assert_eq!(basic_auth("a", "b"), "Basic YTpi");
    assert_eq!(basic_auth("a", ""), "Basic YTo=");
    assert_eq!(basic_auth("", ""), "Basic Og==");
    assert_eq!(basic_auth("é", "~?>"), "Basic w6k6fj8+");
    assert_eq!(get_redirect_url(), "https://rewards.nerixyz.de/api/v1/connections/spotify-callback");
}
