use vstd::prelude::*;

use crate::notify::{parse_url, url_text};

verus! {

pub open spec fn is_digit(c: char) -> bool {
    48 <= (c as u32) <= 57
}

/// The value of the decimal digits `s`.
pub open spec fn digits_value(s: Seq<char>) -> int
    decreases s.len(),
{
    if s.len() == 0 {
        0
    } else {
        digits_value(s.drop_last()) * 10 + ((s.last() as u32) - 48)
    }
}

/// What std reads from `s` as an `i32`: an optional `+` or `-` and at least
/// one decimal digit, nothing else, with a value in range.
pub open spec fn decimal_i32(s: Seq<char>) -> Option<i32> {
    let signed = s.len() > 0 && (s[0] == '-' || s[0] == '+');
    let body = if signed { s.drop_first() } else { s };
    let v = if signed && s[0] == '-' { -digits_value(body) } else { digits_value(body) };
    if body.len() > 0 && (forall|i: int| 0 <= i < body.len() ==> is_digit(#[trigger] body[i]))
        && i32::MIN <= v <= i32::MAX {
        Some(v as i32)
    } else {
        None
    }
}

/// Relies on std's `str::parse::<i32>`, documented to accept exactly an
/// optional sign followed by decimal digits whose value fits.
#[verifier::external_body]
fn parse_i32(s: &str) -> (r: Option<i32>)
    ensures
        r == decimal_i32(s@),
{
    s.parse::<i32>().ok()
}

/// The answer to the "which subscription to remove" question.
#[derive(Clone, Copy, Debug, PartialEq, Eq, Structural)]
pub enum UnsubscribeChoice {
    /// The user cancelled.
    Cancel,
    /// Remove the subscription with this id.
    Remove(i32),
    /// The answer names no subscription.
    Invalid,
}

/// Reads the data of an unsubscribe button: `cancel`, or a subscription id.
pub fn read_unsubscribe_choice(data: &str) -> (r: UnsubscribeChoice)
    ensures
        data@ == "cancel"@ ==> r == UnsubscribeChoice::Cancel,
        data@ != "cancel"@ ==> r == match decimal_i32(data@) {
            Some(id) => UnsubscribeChoice::Remove(id),
            None => UnsubscribeChoice::Invalid,
        },
{
    let cancel = String::from_str("cancel");
    let given = String::from_str(data);
    if given == cancel {
        UnsubscribeChoice::Cancel
    } else {
        match parse_i32(data) {
            Some(id) => UnsubscribeChoice::Remove(id),
            None => UnsubscribeChoice::Invalid,
        }
    }
}

/// Why a message does not name a feed.
#[derive(Clone, Copy, Debug, PartialEq, Eq, Structural)]
pub enum FeedUrlError {
    /// The message has no text.
    Missing,
    /// The text is not an absolute URL.
    Invalid,
}

impl FeedUrlError {
    /// The reply that explains the problem.
    pub fn message(&self) -> (r: String)
        ensures
            *self == FeedUrlError::Missing ==> r@ == "You didn't provide a URL"@,
            *self == FeedUrlError::Invalid ==> r@ == "Invalid URL"@,
    {
        match self {
            FeedUrlError::Missing => String::from_str("You didn't provide a URL"),
            FeedUrlError::Invalid => String::from_str("Invalid URL"),
        }
    }
}

/// Reads the feed URL that a user sent, in normal form.
pub fn read_feed_url(text: Option<&str>) -> (r: Result<String, FeedUrlError>)
    ensures
        text is None ==> r == Err::<String, FeedUrlError>(FeedUrlError::Missing),
        text matches Some(t) ==> (url_text(t@) is None <==> r == Err::<String, FeedUrlError>(
            FeedUrlError::Invalid,
        )),
        text matches Some(t) ==> (url_text(t@) matches Some(u) ==> (r matches Ok(s) && s@ == u)),
{
    match text {
        None => Err(FeedUrlError::Missing),
        Some(t) => match parse_url(t) {
            Some(u) => Ok(u),
            None => Err(FeedUrlError::Invalid),
        },
    }
}

} // verus!
