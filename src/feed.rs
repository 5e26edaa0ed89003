use vstd::prelude::*;

use crate::chrono_utils::{datetime_of, parse_datetime, Timestamp};
use crate::subscription::SubscriptionError;

verus! {

/// One entry of a fetched feed. Any field may be absent.
#[derive(Debug)]
pub struct FeedItem {
    pub title: Option<String>,
    pub description: Option<String>,
    pub link: Option<String>,
    pub pub_date: Option<String>,
}

/// The text of a feed item's fields.
pub struct FeedItemView {
    pub title: Option<Seq<char>>,
    pub description: Option<Seq<char>>,
    pub link: Option<Seq<char>>,
    pub pub_date: Option<Seq<char>>,
}

pub open spec fn text_of(s: Option<String>) -> Option<Seq<char>> {
    match s {
        Some(s) => Some(s@),
        None => None,
    }
}

impl View for FeedItem {
    type V = FeedItemView;

    open spec fn view(&self) -> FeedItemView {
        FeedItemView {
            title: text_of(self.title),
            description: text_of(self.description),
            link: text_of(self.link),
            pub_date: text_of(self.pub_date),
        }
    }
}

pub open spec fn item_views(items: Seq<FeedItem>) -> Seq<FeedItemView> {
    items.map_values(|i: FeedItem| i@)
}

/// The items, in document order, that the rss crate reads from `body`, or
/// `None` where it rejects `body`.
pub uninterp spec fn channel_items(body: Seq<char>) -> Option<Seq<FeedItemView>>;

/// Relies on rss::Channel::from_str: parses an RSS document and hands out
/// the title, description, link and publication date of each item; on
/// failure, the text of the rss error.
#[verifier::external_body]
fn read_channel(body: &str) -> (r: Result<Vec<FeedItem>, String>)
    ensures
        r is Ok <==> channel_items(body@) is Some,
        r matches Ok(items) ==> channel_items(body@) == Some(item_views(items@)),
{
    match <rss::Channel as std::str::FromStr>::from_str(body) {
        Ok(ch) => Ok(ch.items().iter().map(|i| FeedItem {
            title: i.title().map(String::from),
            description: i.description().map(String::from),
            link: i.link().map(String::from),
            pub_date: i.pub_date().map(String::from),
        }).collect()),
        Err(e) => Err(e.to_string()),
    }
}

/// Parses a fetched feed document into its items.
pub fn parse_feed(body: &str) -> (r: Result<Vec<FeedItem>, SubscriptionError>)
    ensures
        r is Ok <==> channel_items(body@) is Some,
        r matches Ok(items) ==> channel_items(body@) == Some(item_views(items@)),
        r matches Err(e) ==> e is ParseError,
{
    match read_channel(body) {
        Ok(items) => Ok(items),
        Err(e) => Err(SubscriptionError::ParseError(e)),
    }
}

/// The publication instant of an item: absent where the item has no date or
/// no format accepts it.
pub open spec fn item_date(i: FeedItemView) -> Option<Timestamp> {
    match i.pub_date {
        Some(s) => datetime_of(s),
        None => None,
    }
}

pub open spec fn item_dates(items: Seq<FeedItemView>) -> Seq<Option<Timestamp>> {
    items.map_values(|i: FeedItemView| item_date(i))
}

/// The publication instant of each item, in order.
pub fn publication_dates(items: &Vec<FeedItem>) -> (r: Vec<Option<Timestamp>>)
    ensures
        r@ == item_dates(item_views(items@)),
{
    let mut out: Vec<Option<Timestamp>> = Vec::new();
    let mut i: usize = 0;
    while i < items.len()
        invariant
            i <= items@.len(),
            out@ == item_dates(item_views(items@)).take(i as int),
        decreases items@.len() - i,
    {
        let d = match &items[i].pub_date {
            Some(s) => parse_datetime(s.as_str()),
            None => None,
        };
        out.push(d);
        i = i + 1;
        assert(out@ == item_dates(item_views(items@)).take(i as int));
    }
    assert(item_dates(item_views(items@)).take(i as int) == item_dates(item_views(items@)));
    out
}

} // verus!
