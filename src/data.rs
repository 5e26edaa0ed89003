use vstd::prelude::*;

verus! {

/// What a user chose while subscribing, kept until a chat is picked: the
/// user and the feed URL.
#[derive(Debug)]
pub struct SelectChatSessionData {
    pub user_id: i64,
    pub target_url: String,
}

} // verus!
