use vstd::prelude::*;

use crate::chrono_utils::{Timestamp, PLAIN_PATTERN};
use crate::subscription::Model;
use crate::text::{decimal, push_decimal};
use crate::user;

verus! {

/// The text that chrono writes for the UTC instant `secs`/`nanos` by the
/// `YYYY-MM-DD HH:MM:SS` pattern, or `None` where chrono has no such instant.
pub uninterp spec fn plain_text_of(secs: i64, nanos: u32) -> Option<Seq<char>>;

/// Relies on chrono::DateTime::from_timestamp and DateTime::format.
#[verifier::external_body]
fn format_plain(t: Timestamp) -> (r: Option<String>)
    ensures
        r is Some <==> plain_text_of(t.secs, t.nanos) is Some,
        r matches Some(s) ==> plain_text_of(t.secs, t.nanos) == Some(s@),
{
    match chrono::DateTime::from_timestamp(t.secs, t.nanos) {
        Some(d) => Some(d.format(PLAIN_PATTERN).to_string()),
        None => None,
    }
}

/// The decimal numeral of a signed integer.
pub open spec fn signed_decimal(n: int) -> Seq<char> {
    if n < 0 {
        seq!['-'] + decimal((-n) as nat)
    } else {
        decimal(n as nat)
    }
}

/// Appends the decimal numeral of `n` to `out`.
pub fn push_signed(out: &mut String, n: i64)
    ensures
        final(out)@ == old(out)@ + signed_decimal(n as int),
{
    if n < 0 {
        crate::text::push_char(out, '-');
        let magnitude: u64 = if n == i64::MIN {
            9223372036854775808u64
        } else {
            (-n) as u64
        };
        push_decimal(out, magnitude);
        assert(old(out)@.push('-') + decimal(magnitude as nat) == old(out)@ + (seq!['-'] + decimal(magnitude as nat)));
    } else {
        push_decimal(out, n as u64);
    }
}

/// An instant as shown in listings; `N/A` where it cannot be written.
pub open spec fn shown_instant(t: Timestamp) -> Seq<char> {
    match plain_text_of(t.secs, t.nanos) {
        Some(s) => s,
        None => "N/A"@,
    }
}

pub open spec fn shown_optional_instant(t: Option<Timestamp>) -> Seq<char> {
    match t {
        Some(t) => shown_instant(t),
        None => "N/A"@,
    }
}

pub open spec fn shown_error(e: Option<String>) -> Seq<char> {
    match e {
        Some(e) => e@,
        None => "N/A"@,
    }
}

/// One subscription as its owner sees it in a listing.
pub open spec fn owner_entry(m: Model) -> Seq<char> {
    "\n\nID "@ + signed_decimal(m.id as int) + ": "@ + m.url@ + " -> Chat `"@ + signed_decimal(
        m.target_chat as int,
    ) + "`\nLast Updated: "@ + shown_instant(m.last_updated) + "\nLast Sent: "@
        + shown_optional_instant(m.last_sent) + "\nLast Error: "@ + shown_error(m.last_error)
}

pub open spec fn owner_entries(subs: Seq<Model>) -> Seq<char>
    decreases subs.len(),
{
    if subs.len() == 0 {
        Seq::empty()
    } else {
        owner_entries(subs.drop_last()) + owner_entry(subs.last())
    }
}

fn push_instant(out: &mut String, t: Timestamp)
    ensures
        final(out)@ == old(out)@ + shown_instant(t),
{
    match format_plain(t) {
        Some(s) => out.append(s.as_str()),
        None => out.append("N/A"),
    }
}

fn push_owner_entry(out: &mut String, m: &Model)
    ensures
        final(out)@ == old(out)@ + owner_entry(*m),
{
    out.append("\n\nID ");
    push_signed(out, m.id as i64);
    out.append(": ");
    out.append(m.url.as_str());
    out.append(" -> Chat `");
    push_signed(out, m.target_chat);
    out.append("`\nLast Updated: ");
    push_instant(out, m.last_updated);
    out.append("\nLast Sent: ");
    match m.last_sent {
        Some(t) => push_instant(out, t),
        None => out.append("N/A"),
    }
    out.append("\nLast Error: ");
    match &m.last_error {
        Some(e) => out.append(e.as_str()),
        None => out.append("N/A"),
    }
}

/// The listing of a user's own subscriptions, for an HTML message.
pub fn owner_listing(subs: &Vec<Model>) -> (r: String)
    ensures
        r@ == "<b>Your subscriptions:</b>\n"@ + owner_entries(subs@),
{
    let mut out = String::from_str("<b>Your subscriptions:</b>\n");
    let mut i: usize = 0;
    while i < subs.len()
        invariant
            i <= subs@.len(),
            out@ == "<b>Your subscriptions:</b>\n"@ + owner_entries(subs@.take(i as int)),
        decreases subs@.len() - i,
    {
        proof {
            assert(subs@.take(i + 1).drop_last() == subs@.take(i as int));
        }
        push_owner_entry(&mut out, &subs[i]);
        i = i + 1;
    }
    assert(subs@.take(i as int) == subs@);
    out
}

/// The first user in `users` with the id `id`.
pub open spec fn owner_in(users: Seq<user::Model>, id: i64) -> Option<user::Model>
    decreases users.len(),
{
    if users.len() == 0 {
        None
    } else if users[0].telegram_user_id == id {
        Some(users[0])
    } else {
        owner_in(users.drop_first(), id)
    }
}

/// One subscription as a chat's members see it, with a link to its owner.
pub open spec fn chat_entry(m: Model, owner: Option<user::Model>) -> Seq<char> {
    "\nID "@ + signed_decimal(m.id as int) + ": "@ + m.url@ + match owner {
        Some(u) => " by <a href=\"tg://user?id="@ + signed_decimal(u.telegram_user_id as int)
            + "\">"@ + u.username@ + "</a>"@,
        None => " by unknown user"@,
    }
}

pub open spec fn chat_entries(subs: Seq<Model>, users: Seq<user::Model>) -> Seq<char>
    decreases subs.len(),
{
    if subs.len() == 0 {
        Seq::empty()
    } else {
        chat_entries(subs.drop_last(), users) + chat_entry(
            subs.last(),
            owner_in(users, subs.last().user_refer),
        )
    }
}

fn find_owner(users: &Vec<user::Model>, id: i64) -> (r: Option<&user::Model>)
    ensures
        r is Some <==> owner_in(users@, id) is Some,
        r matches Some(u) ==> owner_in(users@, id) == Some(*u),
{
    let mut i: usize = 0;
    assert(users@.skip(0) == users@);
    while i < users.len()
        invariant
            i <= users@.len(),
            owner_in(users@, id) == owner_in(users@.skip(i as int), id),
        decreases users@.len() - i,
    {
        proof {
            assert(users@.skip(i as int).drop_first() == users@.skip(i + 1));
        }
        if users[i].telegram_user_id == id {
            return Some(&users[i]);
        }
        i = i + 1;
    }
    None
}

/// The listing of the subscriptions that deliver to a chat, for an HTML
/// message; `users` are the known users, looked up as owners.
pub fn chat_listing(subs: &Vec<Model>, users: &Vec<user::Model>) -> (r: String)
    ensures
        r@ == "<b>Subscriptions:</b>\n"@ + chat_entries(subs@, users@),
{
    let mut out = String::from_str("<b>Subscriptions:</b>\n");
    let mut i: usize = 0;
    while i < subs.len()
        invariant
            i <= subs@.len(),
            out@ == "<b>Subscriptions:</b>\n"@ + chat_entries(subs@.take(i as int), users@),
        decreases subs@.len() - i,
    {
        proof {
            assert(subs@.take(i + 1).drop_last() == subs@.take(i as int));
        }
        let m = &subs[i];
        out.append("\nID ");
        push_signed(&mut out, m.id as i64);
        out.append(": ");
        out.append(m.url.as_str());
        match find_owner(users, m.user_refer) {
            Some(u) => {
                out.append(" by <a href=\"tg://user?id=");
                push_signed(&mut out, u.telegram_user_id);
                out.append("\">");
                out.append(u.username.as_str());
                out.append("</a>");
            },
            None => out.append(" by unknown user"),
        }
        i = i + 1;
    }
    assert(subs@.take(i as int) == subs@);
    out
}

} // verus!
