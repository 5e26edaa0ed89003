use vstd::prelude::*;

use crate::chrono_utils::Timestamp;
use crate::text::{decimal, push_decimal};

verus! {

/// A stored subscription: deliver new items of the feed at `url` to the chat
/// `target_chat` on behalf of the user `user_refer`.
///
/// `watermark` is the publication instant up to which items count as seen;
/// `last_updated` is the time of the last attempt, successful or not;
/// `last_sent` is the publication instant of the newest item delivered;
/// `last_error` describes the last attempt's failure, if it failed.
#[derive(Debug)]
pub struct Model {
    pub id: i32,
    pub created_at: Timestamp,
    pub user_refer: i64,
    pub target_chat: i64,
    pub url: String,
    pub watermark: Timestamp,
    pub last_updated: Timestamp,
    pub last_sent: Option<Timestamp>,
    pub last_error: Option<String>,
}

impl Model {
    /// A new subscription, created at `now`: items published up to `now` count
    /// as seen, so nothing older is delivered.
    pub fn new(id: i32, user_refer: i64, target_chat: i64, url: String, now: Timestamp) -> (r: Model)
        ensures
            r.id == id,
            r.user_refer == user_refer,
            r.target_chat == target_chat,
            r.url == url,
            r.created_at == now,
            r.watermark == now,
            r.last_updated == now,
            r.last_sent is None,
            r.last_error is None,
    {
        Model {
            id,
            created_at: now,
            user_refer,
            target_chat,
            url,
            watermark: now,
            last_updated: now,
            last_sent: None,
            last_error: None,
        }
    }

    /// A field-by-field copy.
    pub fn duplicate(&self) -> (r: Model)
        ensures
            r == *self,
    {
        Model {
            id: self.id,
            created_at: self.created_at,
            user_refer: self.user_refer,
            target_chat: self.target_chat,
            url: self.url.clone(),
            watermark: self.watermark,
            last_updated: self.last_updated,
            last_sent: self.last_sent,
            last_error: match &self.last_error {
                Some(e) => Some(e.clone()),
                None => None,
            },
        }
    }
}

impl Model {
    /// The record of a successful attempt at `now` that moves the watermark to
    /// `watermark` and delivered items up to `sent`, if any.
    pub fn after_success(&self, now: Timestamp, watermark: Timestamp, sent: Option<Timestamp>) -> (r: Model)
        ensures
            recorded_success(*self, r, now, watermark, sent),
    {
        Model {
            id: self.id,
            created_at: self.created_at,
            user_refer: self.user_refer,
            target_chat: self.target_chat,
            url: self.url.clone(),
            watermark,
            last_updated: now,
            last_sent: if sent.is_some() { sent } else { self.last_sent },
            last_error: None,
        }
    }

    /// The record of an attempt at `now` that failed with the text `error`.
    pub fn after_failure(&self, now: Timestamp, error: String) -> (r: Model)
        ensures
            recorded_failure(*self, r, now, error@),
    {
        Model {
            id: self.id,
            created_at: self.created_at,
            user_refer: self.user_refer,
            target_chat: self.target_chat,
            url: self.url.clone(),
            watermark: self.watermark,
            last_updated: now,
            last_sent: self.last_sent,
            last_error: Some(error),
        }
    }
}

/// `r` is `s` after an attempt at `now` that succeeded: the watermark moves to
/// `watermark`, `last_sent` to `sent` where something was delivered, and the
/// error is cleared.
pub open spec fn recorded_success(
    s: Model,
    r: Model,
    now: Timestamp,
    watermark: Timestamp,
    sent: Option<Timestamp>,
) -> bool {
    &&& same_subscription(s, r)
    &&& r.watermark == watermark
    &&& r.last_updated == now
    &&& r.last_sent == (if sent is Some { sent } else { s.last_sent })
    &&& r.last_error is None
}

/// `r` is `s` after an attempt at `now` that failed: only the attempt time
/// and the error change, and some error is set.
pub open spec fn recorded_some_failure(s: Model, r: Model, now: Timestamp) -> bool {
    &&& same_subscription(s, r)
    &&& r.watermark == s.watermark
    &&& r.last_updated == now
    &&& r.last_sent == s.last_sent
    &&& r.last_error is Some
}

/// `r` is `s` after an attempt at `now` that failed with the text `error`.
pub open spec fn recorded_failure(s: Model, r: Model, now: Timestamp, error: Seq<char>) -> bool {
    &&& recorded_some_failure(s, r, now)
    &&& r.last_error matches Some(e) && e@ == error
}

/// `r` and `s` are the same subscription: identity, owner, target and feed.
pub open spec fn same_subscription(s: Model, r: Model) -> bool {
    &&& r.id == s.id
    &&& r.created_at == s.created_at
    &&& r.user_refer == s.user_refer
    &&& r.target_chat == s.target_chat
    &&& r.url == s.url
}

/// Why fetching or reading a feed failed.
#[derive(Debug)]
pub enum SubscriptionError {
    /// The request did not complete (connection, timeout, name lookup) or
    /// the body could not be read; the text says why.
    FetchError(String),
    /// The body is not a syndication document; the text says why.
    ParseError(String),
    /// The server answered with a status outside the success range.
    ResponseStatusNotOk(u16),
}

pub open spec fn subscription_error_text(e: SubscriptionError) -> Seq<char> {
    match e {
        SubscriptionError::FetchError(m) => "Failed to fetch feed: "@ + m@,
        SubscriptionError::ParseError(m) => "Failed to parse feed: "@ + m@,
        SubscriptionError::ResponseStatusNotOk(code) => "Response status is not OK: "@
            + decimal(code as nat),
    }
}

impl SubscriptionError {
    /// The human-readable description of this failure.
    pub fn message(&self) -> (r: String)
        ensures
            r@ == subscription_error_text(*self),
    {
        match self {
            SubscriptionError::FetchError(m) => {
                let mut s = String::from_str("Failed to fetch feed: ");
                s.append(m.as_str());
                s
            },
            SubscriptionError::ParseError(m) => {
                let mut s = String::from_str("Failed to parse feed: ");
                s.append(m.as_str());
                s
            },
            SubscriptionError::ResponseStatusNotOk(code) => {
                let mut s = String::from_str("Response status is not OK: ");
                push_decimal(&mut s, *code as u64);
                s
            },
        }
    }
}

/// Errors of the subscription service.
#[derive(Debug)]
pub enum Error {
    SubscriptionAlreadyExists,
    SubscriptionCreatedByOtherUser,
    /// The store failed; the text says why.
    Database(String),
    /// Fetching or reading the feed failed.
    Rss(SubscriptionError),
}

pub open spec fn error_text(e: Error) -> Seq<char> {
    match e {
        Error::SubscriptionAlreadyExists => "Subscription already exists"@,
        Error::SubscriptionCreatedByOtherUser => "Subscription created by other user"@,
        Error::Database(m) => "Database error: "@ + m@,
        Error::Rss(inner) => "RSS error: "@ + subscription_error_text(inner),
    }
}

impl Error {
    /// The human-readable description of this error.
    pub fn message(&self) -> (r: String)
        ensures
            r@ == error_text(*self),
    {
        match self {
            Error::SubscriptionAlreadyExists => String::from_str("Subscription already exists"),
            Error::SubscriptionCreatedByOtherUser => String::from_str(
                "Subscription created by other user",
            ),
            Error::Database(m) => {
                let mut s = String::from_str("Database error: ");
                s.append(m.as_str());
                s
            },
            Error::Rss(inner) => {
                let mut s = String::from_str("RSS error: ");
                let t = inner.message();
                s.append(t.as_str());
                s
            },
        }
    }
}

/// Decides whether a user may add a subscription to `url`, given the stored
/// subscription to that url found for the user, if any.
pub fn check_new_subscription(existing: Option<&Model>, user_id: i64) -> (r: Result<(), Error>)
    ensures
        existing is None <==> r is Ok,
        existing matches Some(m) ==> (m.user_refer != user_id <==> r matches Err(
            Error::SubscriptionCreatedByOtherUser,
        )),
        existing matches Some(m) ==> (m.user_refer == user_id <==> r matches Err(
            Error::SubscriptionAlreadyExists,
        )),
{
    match existing {
        Some(m) => {
            if m.user_refer != user_id {
                Err(Error::SubscriptionCreatedByOtherUser)
            } else {
                Err(Error::SubscriptionAlreadyExists)
            }
        },
        None => Ok(()),
    }
}

} // verus!
