//! Messages to the Discord webhook that logs what the bot does.

use vstd::prelude::*;

verus! {

/// A field of an embed; fields are shown side by side.
#[derive(Debug)]
pub struct EmbedField {
    pub name: String,
    pub value: String,
    pub inline: bool,
}

impl EmbedField {
    /// A field shown side by side with the others.
    pub fn new(name: String, value: String) -> (r: EmbedField)
        ensures
            r.name == name,
            r.value == value,
            r.inline,
    {
        EmbedField { name, value, inline: true }
    }
}

/// A Discord embed, optionally with an image and a link.
#[derive(Debug)]
pub struct Embed {
    pub title: String,
    pub description: String,
    pub fields: Vec<EmbedField>,
    pub color: u32,
    pub image: Option<String>,
    pub url: Option<String>,
}

/// The color of the embeds about emotes.
pub const EMOTE_COLOR: u32 = 0x00c8af;

/// The embed that logs an emote change: `description` ("Added an emote",
/// "Removed an emote"), the fields in order, the emote's image and page.
pub fn emote_embed(description: &str, fields: Vec<EmbedField>, image: String, url: String) -> (r: Embed)
    ensures
        r.title@ == "Emotes"@,
        r.description@ == description@,
        r.fields@ == fields@,
        r.color == EMOTE_COLOR,
        r.image == Some(image),
        r.url == Some(url),
{
    Embed {
        title: String::from_str("Emotes"),
        description: String::from_str(description),
        fields,
        color: EMOTE_COLOR,
        image: Some(image),
        url: Some(url),
    }
}

/// The fields of the embed that logs an added emote: who redeemed, the
/// emote, and the emote that went for it, if one did.
pub fn added_fields(user: String, added: String, removed: Option<String>) -> (r: Vec<EmbedField>)
    ensures
        r@.len() == (if removed is Some {
            3int
        } else {
            2int
        }),
        r@[0].name@ == "User"@ && r@[0].value == user && r@[0].inline,
        r@[1].name@ == "Emote"@ && r@[1].value == added && r@[1].inline,
        removed matches Some(v) ==> r@[2].name@ == "Removed"@ && r@[2].value == v && r@[2].inline,
{
    let mut v: Vec<EmbedField> = Vec::new();
    v.push(EmbedField::new(String::from_str("User"), user));
    v.push(EmbedField::new(String::from_str("Emote"), added));
    if let Some(r) = removed {
        v.push(EmbedField::new(String::from_str("Removed"), r));
    }
    v
}

/// What is posted to the webhook: plain text or embeds.
pub enum WebhookReq {
    Content(String),
    Embeds(Vec<Embed>),
}

/// Reads the webhook's answer: success, or the body of the response as the
/// error ("Bad response" when it has none).
pub fn webhook_outcome(success: bool, body: Option<String>) -> (r: Result<(), String>)
    ensures
        success ==> r is Ok,
        !success ==> match body {
            Some(b) => r == Err::<(), String>(b),
            None => r matches Err(e) && e@ == "Bad response"@,
        },
{
    if success {
        Ok(())
    } else {
        match body {
            Some(b) => Err(b),
            None => Err(String::from_str("Bad response")),
        }
    }
}

} // verus!
