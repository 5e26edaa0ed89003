use vstd::prelude::*;

use crate::chrono_utils::Timestamp;
use crate::diff::positions;
use crate::feed::{item_views, FeedItem, FeedItemView};
use crate::text::{escaped, push_char, push_escaped};

verus! {

/// A message to deliver for one new item: MarkdownV2 text for the chat
/// `chat`, with a button that opens `link`, an absolute URL in normal form.
#[derive(Debug)]
pub struct Notice {
    pub chat: i64,
    pub text: String,
    pub link: String,
    pub published: Timestamp,
}

pub struct NoticeView {
    pub chat: i64,
    pub text: Seq<char>,
    pub link: Seq<char>,
    pub published: Timestamp,
}

impl View for Notice {
    type V = NoticeView;

    open spec fn view(&self) -> NoticeView {
        NoticeView { chat: self.chat, text: self.text@, link: self.link@, published: self.published }
    }
}

impl Notice {
    /// A field-by-field copy.
    pub fn duplicate(&self) -> (r: Notice)
        ensures
            r == *self,
    {
        Notice {
            chat: self.chat,
            text: self.text.clone(),
            link: self.link.clone(),
            published: self.published,
        }
    }
}

/// The serialisation of the absolute URL that the url crate reads from `s`,
/// or `None` where it reads none.
pub uninterp spec fn url_text(s: Seq<char>) -> Option<Seq<char>>;

/// Relies on url::Url::parse and Url::as_str: `s` read as an absolute URL
/// and written back in normal form.
#[verifier::external_body]
pub(crate) fn parse_url(s: &str) -> (r: Option<String>)
    ensures
        r is Some <==> url_text(s@) is Some,
        r matches Some(t) ==> url_text(s@) == Some(t@),
{
    match url::Url::parse(s) {
        Ok(u) => Some(u.as_str().to_string()),
        Err(_) => None,
    }
}

/// The newspaper emoji that opens every message.
pub const NEWSPAPER: char = '\u{1F4F0}';

/// The text of the message for an item: the newspaper emoji, the title in
/// bold, a blank line and the description, both escaped for MarkdownV2.
pub open spec fn message_text(title: Seq<char>, description: Seq<char>) -> Seq<char> {
    seq![NEWSPAPER, ' ', '*'] + escaped(title) + seq!['*', '\n', '\n'] + escaped(description)
}

/// Builds the message text for an item.
pub fn compose_message(title: &str, description: &str) -> (r: String)
    ensures
        r@ == message_text(title@, description@),
{
    let mut s = String::new();
    push_char(&mut s, NEWSPAPER);
    push_char(&mut s, ' ');
    push_char(&mut s, '*');
    push_escaped(&mut s, title);
    push_char(&mut s, '*');
    push_char(&mut s, '\n');
    push_char(&mut s, '\n');
    push_escaped(&mut s, description);
    assert(s@ == message_text(title@, description@));
    s
}

/// The notice for an item published at `published`, for the chat `chat`:
/// absent where the item lacks a title, a description or a link, or where
/// its link is no URL.
pub open spec fn notice_of(item: FeedItemView, published: Timestamp, chat: i64) -> Option<NoticeView> {
    match (item.title, item.description, item.link) {
        (Some(t), Some(d), Some(l)) => match url_text(l) {
            Some(u) => Some(NoticeView { chat, text: message_text(t, d), link: u, published }),
            None => None,
        },
        _ => None,
    }
}

/// Builds the notice for one item, or `None` where the item is skipped.
pub fn notice_for(item: &FeedItem, published: Timestamp, chat: i64) -> (r: Option<Notice>)
    ensures
        r is Some <==> notice_of(item@, published, chat) is Some,
        r matches Some(n) ==> notice_of(item@, published, chat) == Some(n@),
{
    match (&item.title, &item.description, &item.link) {
        (Some(t), Some(d), Some(l)) => {
            match parse_url(l.as_str()) {
                Some(link) => {
                    let text = compose_message(t.as_str(), d.as_str());
                    Some(Notice { chat, text, link, published })
                },
                None => None,
            }
        },
        _ => None,
    }
}

/// The notices for the items at positions `fresh`, in that order, skipping
/// items that cannot be announced.
pub open spec fn notices_of(
    items: Seq<FeedItemView>,
    dates: Seq<Option<Timestamp>>,
    fresh: Seq<int>,
    chat: i64,
) -> Seq<NoticeView>
    decreases fresh.len(),
{
    if fresh.len() == 0 {
        Seq::empty()
    } else {
        let before = notices_of(items, dates, fresh.drop_last(), chat);
        let k = fresh.last();
        match notice_of(items[k], dates[k]->0, chat) {
            Some(n) => before.push(n),
            None => before,
        }
    }
}

pub open spec fn notice_views(v: Seq<Notice>) -> Seq<NoticeView> {
    v.map_values(|n: Notice| n@)
}

/// Builds the notices for the new items at positions `fresh`, whose dates are
/// in `dates`.
pub(crate) fn plan_notices(
    items: &Vec<FeedItem>,
    dates: &Vec<Option<Timestamp>>,
    fresh: &Vec<usize>,
    chat: i64,
) -> (r: Vec<Notice>)
    requires
        dates@.len() == items@.len(),
        forall|k: int| 0 <= k < fresh@.len() ==> fresh@[k] < items@.len() && #[trigger] dates@[fresh@[k] as int] is Some,
    ensures
        notice_views(r@) == notices_of(
            item_views(items@),
            dates@,
            positions(fresh@),
            chat,
        ),
{
    let ghost views = item_views(items@);
    let mut out: Vec<Notice> = Vec::new();
    let mut j: usize = 0;
    while j < fresh.len()
        invariant
            j <= fresh@.len(),
            dates@.len() == items@.len(),
            views == item_views(items@),
            forall|k: int| 0 <= k < fresh@.len() ==> fresh@[k] < items@.len() && #[trigger] dates@[fresh@[k] as int] is Some,
            notice_views(out@) == notices_of(views, dates@, positions(fresh@).take(j as int), chat),
        decreases fresh@.len() - j,
    {
        let k = fresh[j];
        assert(dates@[fresh@[j as int] as int] is Some);
        let published = dates[k].unwrap();
        proof {
            assert(positions(fresh@).take(j + 1).drop_last() == positions(fresh@).take(j as int));
            assert(positions(fresh@).take(j + 1).last() == k as int);
        }
        match notice_for(&items[k], published, chat) {
            Some(n) => {
                let ghost before = out@;
                out.push(n);
                assert(notice_views(out@) == notice_views(before).push(n@));
            },
            None => {},
        }
        j = j + 1;
    }
    assert(positions(fresh@).take(j as int) == positions(fresh@));
    out
}

} // verus!
