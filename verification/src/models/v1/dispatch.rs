//! Dispatches and Steam news of the v1 API.

use crate::decimal::{int_chars, with_number};
use crate::HellApi;
use chrono::NaiveDateTime;
use vstd::prelude::*;

verus! {

/// A message that can either be a simple String or a LocalizedMessage.
#[derive(Debug, PartialEq, Eq)]
pub enum Message {
    /// One text for every reader.
    Simple(String),
    /// A text for each language that has one.
    Localized(LocalizedMessage),
}

impl Message {
    /// The simple message that holds `value`.
    pub fn simple(value: &str) -> (r: Message)
        ensures
            r matches Message::Simple(text) && text@ == value@,
    {
        Message::Simple(String::from_str(value))
    }
}

impl From<&str> for Message {
    fn from(value: &str) -> (r: Message)
        ensures
            r matches Message::Simple(text) && text@ == value@,
    {
        Message::simple(value)
    }
}

impl vstd::std_specs::convert::FromSpecImpl<&str> for Message {
    open spec fn obeys_from_spec() -> bool {
        false
    }

    open spec fn from_spec(value: &str) -> Message {
        arbitrary()
    }
}

/// A localized message for a specific language.
#[allow(non_snake_case)]
#[derive(Debug, PartialEq, Eq)]
pub struct LocalizedMessage {
    /// The message in en-US.
    pub en_US: Option<String>,
    /// The message in de-DE.
    pub de_DE: Option<String>,
    /// The message in es-ES.
    pub es_ES: Option<String>,
    /// The message in ru-RU.
    pub ru_RU: Option<String>,
    /// The message in fr-FR.
    pub fr_FR: Option<String>,
    /// The message in it-IT.
    pub it_IT: Option<String>,
    /// The message in pl-PL.
    pub pl_PL: Option<String>,
    /// The message in zh-Hans.
    pub zh_Hans: Option<String>,
    /// The message in zh-Hant.
    pub zh_Hant: Option<String>,
}

/// Represents a message from high command to the players like updates on the
/// status of the war effort.
#[derive(Debug, PartialEq, Eq)]
pub struct Dispatch {
    /// The unique identifier of the dispatch.
    pub id: i32,
    /// The time when the dispatch was published.
    pub published: NaiveDateTime,
    /// The type of dispatch. Purpose unknown as of now.
    pub _type: i32,
    /// The message that this dispatch represents.
    pub message: Message,
}

/// Represents a news article from Steam's news feed.
#[derive(Debug, PartialEq, Eq)]
pub struct SteamNews {
    /// The identifier assigned by Steam to this news item.
    pub id: String,
    /// The title of the Steam news item.
    pub title: String,
    /// The URL to the Steam news item.
    pub url: String,
    /// The author of the news item.
    pub author: String,
    /// The message posted formatted in Steam Markdown Format.
    pub content: String,
    /// When the message was posted.
    pub published: NaiveDateTime,
}

impl HellApi {
    /// The endpoint of all available dispatches: `/api/v1/dispatches`.
    pub fn dispatches_endpoint() -> (r: &'static str)
        ensures
            r@ == "/api/v1/dispatches"@,
    {
        "/api/v1/dispatches"
    }

    /// The endpoint of the dispatch with identifier `id`:
    /// `/api/v1/dispatches/{id}`.
    pub fn dispatch_endpoint(id: i32) -> (r: String)
        ensures
            r@ == "/api/v1/dispatches/"@ + int_chars(id as int),
    {
        with_number("/api/v1/dispatches/", id as i64)
    }

    /// The endpoint of the Steam newsfeed: `/api/v1/steam`.
    pub fn steam_newsfeed_endpoint() -> (r: &'static str)
        ensures
            r@ == "/api/v1/steam"@,
    {
        "/api/v1/steam"
    }

    /// The endpoint of one item of the Steam newsfeed:
    /// `/api/v1/steam/{gid}`.
    pub fn steam_newsitem_endpoint(gid: &String) -> (r: String)
        ensures
            r@ == "/api/v1/steam/"@ + gid@,
    {
        let mut path = String::from_str("/api/v1/steam/");
        path.append(gid.as_str());
        path
    }
}

} // verus!
