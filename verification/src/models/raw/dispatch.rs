//! The news feed of the raw API.

use crate::decimal::{int_chars, with_number};
use crate::models::raw::war::WarId;
use crate::HellApi;
use chrono::NaiveDateTime;
use vstd::prelude::*;

verus! {

/// Represents an item in the newsfeed of Super Earth.
#[derive(Debug, PartialEq, Eq)]
pub struct NewsFeedItem {
    /// The identifier of this newsfeed item.
    pub id: i32,
    /// The time when this item was published.
    pub published: NaiveDateTime,
    /// A numerical type. Purpose is unknown.
    pub _type: i32,
    /// The message.
    pub message: String,
}

impl HellApi {
    /// The endpoint of the news messages from Super Earth in a war:
    /// `/raw/api/NewsFeed/{war_id}`.
    pub fn news_feed_endpoint(war_id: &WarId) -> (r: String)
        ensures
            r@ == "/raw/api/NewsFeed/"@ + int_chars(war_id.id as int),
    {
        with_number("/raw/api/NewsFeed/", war_id.id as i64)
    }
}

} // verus!
