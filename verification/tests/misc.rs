use rewards::discord::{added_fields, emote_embed, webhook_outcome, EmbedField, EMOTE_COLOR};
use rewards::editors::user_or_editor;
use rewards::jwt::JwtClaims;
use rewards::util::ResultCExt;

#[test]
fn embeds() {
    let f = EmbedField::new("User".into(), "viewer".into());
    assert!(f.inline);
    let fields = added_fields("viewer".into(), "New".into(), Some("Old".into()));
    let names: Vec<&str> = fields.iter().map(|f| f.name.as_str()).collect();
    assert_eq!(names, vec!["User", "Emote", "Removed"]);
    assert_eq!(added_fields("v".into(), "N".into(), None).len(), 2);
    let e = emote_embed("Added an emote", fields, "img".into(), "page".into());
    assert_eq!(e.title, "Emotes");
    assert_eq!(e.color, EMOTE_COLOR);
    assert_eq!(e.image.as_deref(), Some("img"));
    assert!(webhook_outcome(true, None).is_ok());
    assert_eq!(webhook_outcome(false, None).unwrap_err(), "Bad response");
    assert_eq!(webhook_outcome(false, Some("x".into())).unwrap_err(), "x");
}

#[test]
fn claims() {
    let c = JwtClaims::new("42".into(), 1_000);
    assert_eq!(c.exp, 1_000 + 31_536_000);
    assert_eq!(c.user_id(), "42");
    let before_epoch = JwtClaims::new("7".into(), -31_536_001);
    assert_eq!(before_epoch.exp, usize::MAX);
    assert_eq!(before_epoch.user_id(), "7");
}

#[test]
fn error_conversion() {
    let r: Result<u8, u8> = Err(3);
    let c: Result<u8, u32> = r.err_into();
    assert_eq!(c, Err(3u32));
    let r: Result<u8, u8> = Ok(1);
    assert_eq!(r.err_into(), Ok::<u8, u64>(1));
}

#[test]
fn acting_for_a_broadcaster() {
    assert_eq!(user_or_editor("me", "1", "1", None), Ok("me"));
    assert_eq!(user_or_editor("me", "1", "1", Some("other")), Ok("me"));
    assert_eq!(user_or_editor("me", "1", "2", Some("streamer")), Ok("streamer"));
    assert_eq!(
        user_or_editor("me", "1", "2", None),
        Err("The user isn't an editor for the broadcaster.".to_string())
    );
}
