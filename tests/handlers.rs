use rssbot::chrono_utils::Timestamp;
use rssbot::commands::{read_feed_url, read_unsubscribe_choice, FeedUrlError, UnsubscribeChoice};
use rssbot::config::OtelExporter;
use rssbot::data::SelectChatSessionData;
use rssbot::listing::{chat_listing, owner_listing, push_signed};
use rssbot::subscription::{check_new_subscription, Error, Model, SubscriptionError};
use rssbot::user;
use rssbot::user::display_name;

const OCT_02_1500: i64 = 1727881200;

fn sub(id: i32, owner: i64, chat: i64, url: &str) -> Model {
    Model::new(id, owner, chat, url.to_string(), Timestamp { secs: OCT_02_1500, nanos: 0 })
}

#[test]
fn cancel_choice() {
    assert_eq!(read_unsubscribe_choice("cancel"), UnsubscribeChoice::Cancel);
}

#[test]
fn numeric_choice() {
    assert_eq!(read_unsubscribe_choice("42"), UnsubscribeChoice::Remove(42));
    assert_eq!(read_unsubscribe_choice("+7"), UnsubscribeChoice::Remove(7));
    assert_eq!(read_unsubscribe_choice("-3"), UnsubscribeChoice::Remove(-3));
    assert_eq!(read_unsubscribe_choice("2147483647"), UnsubscribeChoice::Remove(i32::MAX));
}

#[test]
fn invalid_choice() {
    for s in ["", "Cancel", "4 2", " 42", "2147483648", "-", "x1", "1.0"] {
        assert_eq!(read_unsubscribe_choice(s), UnsubscribeChoice::Invalid, "{:?}", s);
    }
}

#[test]
fn feed_url_entry() {
    assert_eq!(read_feed_url(None), Err(FeedUrlError::Missing));
    assert_eq!(read_feed_url(Some("not a url")), Err(FeedUrlError::Invalid));
    assert_eq!(read_feed_url(Some("HTTPS://Example.org")), Ok("https://example.org/".to_string()));
    assert_eq!(FeedUrlError::Missing.message(), "You didn't provide a URL");
    assert_eq!(FeedUrlError::Invalid.message(), "Invalid URL");
}

#[test]
fn display_names() {
    assert_eq!(display_name(Some("neo"), "Thomas", Some("Anderson")), "neo");
    assert_eq!(display_name(None, "Thomas", Some("Anderson")), "Thomas Anderson");
    assert_eq!(display_name(None, "Thomas", None), "Thomas");
}

#[test]
fn duplicate_subscription_checks() {
    assert!(check_new_subscription(None, 5).is_ok());
    let mine = sub(1, 5, 9, "https://example.com/feed");
    assert!(matches!(check_new_subscription(Some(&mine), 5), Err(Error::SubscriptionAlreadyExists)));
    assert!(matches!(check_new_subscription(Some(&mine), 6), Err(Error::SubscriptionCreatedByOtherUser)));
}

#[test]
fn error_messages() {
    assert_eq!(Error::SubscriptionAlreadyExists.message(), "Subscription already exists");
    assert_eq!(Error::SubscriptionCreatedByOtherUser.message(), "Subscription created by other user");
    assert_eq!(Error::Database("gone".to_string()).message(), "Database error: gone");
    assert_eq!(
        Error::Rss(SubscriptionError::ParseError("bad".to_string())).message(),
        "RSS error: Failed to parse feed: bad"
    );
    assert_eq!(SubscriptionError::FetchError("timeout".to_string()).message(), "Failed to fetch feed: timeout");
    assert_eq!(SubscriptionError::ResponseStatusNotOk(404).message(), "Response status is not OK: 404");
}

#[test]
fn signed_numerals() {
    let mut s = String::new();
    push_signed(&mut s, -1001234567890);
    assert_eq!(s, "-1001234567890");
    let mut t = String::new();
    push_signed(&mut t, i64::MIN);
    assert_eq!(t, "-9223372036854775808");
    let mut u = String::new();
    push_signed(&mut u, 0);
    assert_eq!(u, "0");
}

#[test]
fn owner_listing_layout() {
    let mut a = sub(3, 5, -100, "https://example.com/a");
    a.last_sent = Some(Timestamp { secs: OCT_02_1500 + 61, nanos: 0 });
    a.last_error = Some("boom".to_string());
    let b = sub(4, 5, 77, "https://example.com/b");
    let text = owner_listing(&vec![a, b]);
    assert_eq!(
        text,
        "<b>Your subscriptions:</b>\n\
         \n\nID 3: https://example.com/a -> Chat `-100`\nLast Updated: 2024-10-02 15:00:00\nLast Sent: 2024-10-02 15:01:01\nLast Error: boom\
         \n\nID 4: https://example.com/b -> Chat `77`\nLast Updated: 2024-10-02 15:00:00\nLast Sent: N/A\nLast Error: N/A"
    );
    assert_eq!(owner_listing(&vec![]), "<b>Your subscriptions:</b>\n");
}

#[test]
fn chat_listing_layout() {
    let subs = vec![sub(1, 5, 9, "https://example.com/a"), sub(2, 6, 9, "https://example.com/b")];
    let users = vec![user::Model { telegram_user_id: 5, username: "alice".to_string() }];
    assert_eq!(
        chat_listing(&subs, &users),
        "<b>Subscriptions:</b>\n\nID 1: https://example.com/a by <a href=\"tg://user?id=5\">alice</a>\nID 2: https://example.com/b by unknown user"
    );
}

#[test]
fn default_exporter_is_grpc() {
    assert_eq!(OtelExporter::default(), OtelExporter::OtlpGrpc);
}

#[test]
fn session_data_holds_choice() {
    let d = SelectChatSessionData { user_id: 5, target_url: "https://example.com/".to_string() };
    assert_eq!(d.user_id, 5);
    assert_eq!(d.target_url, "https://example.com/");
}

#[test]
fn records_after_attempts() {
    let mut s = sub(8, 1, 2, "https://example.com/feed");
    s.last_error = Some("earlier".to_string());
    s.last_sent = Some(Timestamp { secs: 5, nanos: 0 });
    let now = Timestamp { secs: OCT_02_1500 + 3600, nanos: 0 };
    let ok = s.after_success(now, Timestamp { secs: OCT_02_1500 + 10, nanos: 0 }, None);
    assert_eq!(ok.watermark, Timestamp { secs: OCT_02_1500 + 10, nanos: 0 });
    assert_eq!(ok.last_updated, now);
    assert_eq!(ok.last_sent, Some(Timestamp { secs: 5, nanos: 0 }));
    assert_eq!(ok.last_error, None);
    let failed = s.after_failure(now, "down".to_string());
    assert_eq!(failed.watermark, s.watermark);
    assert_eq!(failed.last_updated, now);
    assert_eq!(failed.last_error.as_deref(), Some("down"));
    let copy = s.duplicate();
    assert_eq!(copy.url, s.url);
    assert_eq!(copy.last_error, s.last_error);
    assert_eq!(copy.id, 8);
}
