//! The calls that the relay asks of the persistence gateway, and what the
//! gateway answers. The relay performs none of them itself: it names the
//! call, and whoever runs the session makes it and hands back the reply.

use crate::records::DbMessage;
use crate::records::DbMessageView;
use crate::records::DbReaction;
use crate::records::DbReactionView;
use crate::records::DbUser;
use crate::records::DbUserView;
use vstd::prelude::*;

verus! {

/// One call on the persistence gateway.
#[derive(Debug, PartialEq, Eq)]
#[allow(inconsistent_fields)]
pub enum StoreRequest {
    /// Find the account with this username.
    GetUserByUsername { username: String },
    /// Create an account.
    CreateUser { id: String, username: String, password_hash: String },
    /// Set the account's last-seen time to the current time.
    UpdateLastSeen { user_id: String },
    /// Store a message.
    SaveMessage { message: DbMessage },
    /// Fetch the messages between two users, newest first: at most `limit`
    /// of them, after skipping `offset`.
    GetMessagesBetweenUsers { user1_id: String, user2_id: String, limit: i32, offset: i32 },
    /// Count the messages between two users.
    GetMessageCountBetweenUsers { user1_id: String, user2_id: String },
    /// Fetch the reactions on all of these messages.
    GetReactionsBatch { message_ids: Vec<String> },
    /// Set the read flag of a message.
    MarkMessageRead { message_id: String },
    /// Store a user's reaction on a message, in place of any earlier one.
    AddReaction { message_id: String, user_id: String, emoji: String },
    /// Delete a user's reaction on a message.
    RemoveReaction { message_id: String, user_id: String },
}

/// The value of a [`StoreRequest`].
#[allow(inconsistent_fields)]
pub enum StoreRequestView {
    GetUserByUsername { username: Seq<char> },
    CreateUser { id: Seq<char>, username: Seq<char>, password_hash: Seq<char> },
    UpdateLastSeen { user_id: Seq<char> },
    SaveMessage { message: DbMessageView },
    GetMessagesBetweenUsers { user1_id: Seq<char>, user2_id: Seq<char>, limit: i32, offset: i32 },
    GetMessageCountBetweenUsers { user1_id: Seq<char>, user2_id: Seq<char> },
    GetReactionsBatch { message_ids: Seq<Seq<char>> },
    MarkMessageRead { message_id: Seq<char> },
    AddReaction { message_id: Seq<char>, user_id: Seq<char>, emoji: Seq<char> },
    RemoveReaction { message_id: Seq<char>, user_id: Seq<char> },
}

impl View for StoreRequest {
    type V = StoreRequestView;

    open spec fn view(&self) -> StoreRequestView {
        match *self {
            StoreRequest::GetUserByUsername { username } => StoreRequestView::GetUserByUsername {
                username: username@,
            },
            StoreRequest::CreateUser { id, username, password_hash } => StoreRequestView::CreateUser {
                id: id@,
                username: username@,
                password_hash: password_hash@,
            },
            StoreRequest::UpdateLastSeen { user_id } => StoreRequestView::UpdateLastSeen {
                user_id: user_id@,
            },
            StoreRequest::SaveMessage { message } => StoreRequestView::SaveMessage {
                message: message@,
            },
            StoreRequest::GetMessagesBetweenUsers {
                user1_id,
                user2_id,
                limit,
                offset,
            } => StoreRequestView::GetMessagesBetweenUsers {
                user1_id: user1_id@,
                user2_id: user2_id@,
                limit,
                offset,
            },
            StoreRequest::GetMessageCountBetweenUsers {
                user1_id,
                user2_id,
            } => StoreRequestView::GetMessageCountBetweenUsers {
                user1_id: user1_id@,
                user2_id: user2_id@,
            },
            StoreRequest::GetReactionsBatch { message_ids } => StoreRequestView::GetReactionsBatch {
                message_ids: message_ids.deep_view(),
            },
            StoreRequest::MarkMessageRead { message_id } => StoreRequestView::MarkMessageRead {
                message_id: message_id@,
            },
            StoreRequest::AddReaction { message_id, user_id, emoji } => StoreRequestView::AddReaction {
                message_id: message_id@,
                user_id: user_id@,
                emoji: emoji@,
            },
            StoreRequest::RemoveReaction { message_id, user_id } => StoreRequestView::RemoveReaction {
                message_id: message_id@,
                user_id: user_id@,
            },
        }
    }
}

impl DeepView for StoreRequest {
    type V = StoreRequestView;

    open spec fn deep_view(&self) -> StoreRequestView {
        self@
    }
}

/// What the gateway answered to one call.
#[derive(Debug, PartialEq, Eq)]
pub enum StoreReply {
    /// The account that was looked for, or that there is none.
    User(Option<DbUser>),
    /// The call was carried out, and there is nothing to hand back.
    Done,
    /// The messages that were fetched, newest first.
    Messages(Vec<DbMessage>),
    /// The number that was counted.
    Count(i32),
    /// The reactions that were fetched.
    Reactions(Vec<DbReaction>),
    /// The call failed.
    Failed,
}

/// The value of a [`StoreReply`].
pub enum StoreReplyView {
    User(Option<DbUserView>),
    Done,
    Messages(Seq<DbMessageView>),
    Count(i32),
    Reactions(Seq<DbReactionView>),
    Failed,
}

impl View for StoreReply {
    type V = StoreReplyView;

    open spec fn view(&self) -> StoreReplyView {
        match *self {
            StoreReply::User(found) => StoreReplyView::User(
                match found {
                    Some(user) => Some(user@),
                    None => None,
                },
            ),
            StoreReply::Done => StoreReplyView::Done,
            StoreReply::Messages(rows) => StoreReplyView::Messages(rows.deep_view()),
            StoreReply::Count(count) => StoreReplyView::Count(count),
            StoreReply::Reactions(rows) => StoreReplyView::Reactions(rows.deep_view()),
            StoreReply::Failed => StoreReplyView::Failed,
        }
    }
}

} // verus!
