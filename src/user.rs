use vstd::prelude::*;

use crate::text::push_char;

verus! {

/// A known user of the bot.
#[derive(Debug)]
pub struct Model {
    pub telegram_user_id: i64,
    pub username: String,
}

/// The name shown for a user: the username where there is one, otherwise
/// the first name followed by the last name, if any.
pub open spec fn display_name_of(
    username: Option<Seq<char>>,
    first_name: Seq<char>,
    last_name: Option<Seq<char>>,
) -> Seq<char> {
    match username {
        Some(u) => u,
        None => match last_name {
            Some(l) => first_name.push(' ') + l,
            None => first_name,
        },
    }
}

/// The name to store for a user.
pub fn display_name(username: Option<&str>, first_name: &str, last_name: Option<&str>) -> (r: String)
    ensures
        r@ == display_name_of(
            match username { Some(u) => Some(u@), None => None },
            first_name@,
            match last_name { Some(l) => Some(l@), None => None },
        ),
{
    match username {
        Some(u) => String::from_str(u),
        None => match last_name {
            Some(l) => {
                let mut s = String::from_str(first_name);
                push_char(&mut s, ' ');
                s.append(l);
                s
            },
            None => String::from_str(first_name),
        },
    }
}

} // verus!

verus! {

/// Errors of the user service.
#[derive(Debug)]
pub enum Error {
    /// The store failed; the text says why.
    DatabaseError(String),
}

impl Error {
    /// The human-readable description of this error.
    pub fn message(&self) -> (r: String)
        ensures
            self matches Error::DatabaseError(m) ==> r@ == "Database error: "@ + m@,
    {
        match self {
            Error::DatabaseError(m) => {
                let mut s = String::from_str("Database error: ");
                s.append(m.as_str());
                s
            },
        }
    }
}

} // verus!
