//! Verified core of the RewardMore Twitch reward bot: parsing of redemption
//! input, text formatting, and the decisions behind emote swaps and slots.

pub mod bttv;
pub mod chars;
pub mod discord;
pub mod editors;
pub mod emote_checks;
pub mod emote_ids;
pub mod emotes;
pub mod extract;
pub mod ffz;
pub mod ffz_page;
pub mod formatting;
pub mod grammar;
pub mod http;
pub mod ivr;
pub mod jwt;
pub mod platform;
pub mod removal;
pub mod reply;
pub mod reward_data;
pub mod rewards;
pub mod search;
pub mod seven_tv;
pub mod slots;
pub mod spotify;
pub mod swap;
pub mod text;
pub mod timeout;
pub mod twitch;
pub mod util;
