//! The records that the relay stores, routes and reports, each with the
//! mathematical value it stands for.

use crate::time::rfc3339_text;
use crate::time::Timestamp;
use vstd::prelude::*;

verus! {

/// The value of an optional text.
pub open spec fn text_opt(text: Option<String>) -> Option<Seq<char>> {
    match text {
        Some(t) => Some(t@),
        None => None,
    }
}

/// A copy of an optional text.
pub fn copy_text_opt(text: &Option<String>) -> (copy: Option<String>)
    ensures
        copy == *text,
{
    match text {
        Some(t) => Some(t.clone()),
        None => None,
    }
}

/// A presence record: who a user is, whether they are connected, and when
/// they were last seen.
#[derive(Debug, PartialEq, Eq)]
pub struct User {
    pub id: String,
    pub username: String,
    pub online: bool,
    pub last_seen: Timestamp,
}

/// The value of a [`User`].
pub struct UserView {
    pub id: Seq<char>,
    pub username: Seq<char>,
    pub online: bool,
    pub last_seen: Timestamp,
}

impl View for User {
    type V = UserView;

    open spec fn view(&self) -> UserView {
        UserView {
            id: self.id@,
            username: self.username@,
            online: self.online,
            last_seen: self.last_seen,
        }
    }
}

impl DeepView for User {
    type V = UserView;

    open spec fn deep_view(&self) -> UserView {
        self@
    }
}

impl Clone for User {
    fn clone(&self) -> (copy: User)
        ensures
            copy == *self,
    {
        User {
            id: self.id.clone(),
            username: self.username.clone(),
            online: self.online,
            last_seen: self.last_seen,
        }
    }
}

/// A stored account.
#[derive(Debug, PartialEq, Eq)]
pub struct DbUser {
    pub id: String,
    pub username: String,
    pub password_hash: String,
    pub created_at: String,
    pub last_seen: String,
}

/// The value of a [`DbUser`].
pub struct DbUserView {
    pub id: Seq<char>,
    pub username: Seq<char>,
    pub password_hash: Seq<char>,
    pub created_at: Seq<char>,
    pub last_seen: Seq<char>,
}

impl View for DbUser {
    type V = DbUserView;

    open spec fn view(&self) -> DbUserView {
        DbUserView {
            id: self.id@,
            username: self.username@,
            password_hash: self.password_hash@,
            created_at: self.created_at@,
            last_seen: self.last_seen@,
        }
    }
}

impl DeepView for DbUser {
    type V = DbUserView;

    open spec fn deep_view(&self) -> DbUserView {
        self@
    }
}

impl Clone for DbUser {
    fn clone(&self) -> (copy: DbUser)
        ensures
            copy == *self,
    {
        DbUser {
            id: self.id.clone(),
            username: self.username.clone(),
            password_hash: self.password_hash.clone(),
            created_at: self.created_at.clone(),
            last_seen: self.last_seen.clone(),
        }
    }
}

impl DbUser {
    /// The account as it stands when it has just been created at `now`:
    /// created then, and last seen then.
    pub fn created(id: String, username: String, password_hash: String, now: &Timestamp) -> (account:
        DbUser)
        ensures
            account@ == (DbUserView {
                id: id@,
                username: username@,
                password_hash: password_hash@,
                created_at: rfc3339_text(now.secs(), now.nanos()),
                last_seen: rfc3339_text(now.secs(), now.nanos()),
            }),
    {
        let text = now.to_rfc3339();
        DbUser { id, username, password_hash, created_at: text.clone(), last_seen: text }
    }
}

/// A stored message. `audio_duration` holds the bits of the duration in
/// seconds, an IEEE 754 double, exactly as they were handed in.
#[derive(Debug, PartialEq, Eq)]
pub struct DbMessage {
    pub id: String,
    pub from_user_id: String,
    pub to_user_id: String,
    pub content: String,
    pub timestamp: String,
    pub read: bool,
    pub file_data: Option<String>,
    pub file_name: Option<String>,
    pub file_type: Option<String>,
    pub audio_duration: Option<u64>,
}

/// The value of a [`DbMessage`].
pub struct DbMessageView {
    pub id: Seq<char>,
    pub from_user_id: Seq<char>,
    pub to_user_id: Seq<char>,
    pub content: Seq<char>,
    pub timestamp: Seq<char>,
    pub read: bool,
    pub file_data: Option<Seq<char>>,
    pub file_name: Option<Seq<char>>,
    pub file_type: Option<Seq<char>>,
    pub audio_duration: Option<u64>,
}

impl View for DbMessage {
    type V = DbMessageView;

    open spec fn view(&self) -> DbMessageView {
        DbMessageView {
            id: self.id@,
            from_user_id: self.from_user_id@,
            to_user_id: self.to_user_id@,
            content: self.content@,
            timestamp: self.timestamp@,
            read: self.read,
            file_data: text_opt(self.file_data),
            file_name: text_opt(self.file_name),
            file_type: text_opt(self.file_type),
            audio_duration: self.audio_duration,
        }
    }
}

impl DeepView for DbMessage {
    type V = DbMessageView;

    open spec fn deep_view(&self) -> DbMessageView {
        self@
    }
}

impl Clone for DbMessage {
    fn clone(&self) -> (copy: DbMessage)
        ensures
            copy == *self,
    {
        DbMessage {
            id: self.id.clone(),
            from_user_id: self.from_user_id.clone(),
            to_user_id: self.to_user_id.clone(),
            content: self.content.clone(),
            timestamp: self.timestamp.clone(),
            read: self.read,
            file_data: copy_text_opt(&self.file_data),
            file_name: copy_text_opt(&self.file_name),
            file_type: copy_text_opt(&self.file_type),
            audio_duration: self.audio_duration,
        }
    }
}

/// The read flag that a stored number stands for: zero is unread, any
/// other number is read.
pub fn read_flag(column: i32) -> (read: bool)
    ensures
        read == read_flag_of(column),
{
    column != 0
}

/// The number that a read flag is stored as: 1 for read, 0 for unread.
pub fn read_column(read: bool) -> (column: i32)
    ensures
        column == (if read {
            1i32
        } else {
            0i32
        }),
        read_flag_of(column) == read,
{
    if read {
        1
    } else {
        0
    }
}

/// The read flag that a stored number stands for.
pub open spec fn read_flag_of(column: i32) -> bool {
    column != 0
}

/// A stored reaction: one user's emoji on one message.
#[derive(Debug, PartialEq, Eq)]
pub struct DbReaction {
    pub message_id: String,
    pub user_id: String,
    pub emoji: String,
}

/// The value of a [`DbReaction`].
pub struct DbReactionView {
    pub message_id: Seq<char>,
    pub user_id: Seq<char>,
    pub emoji: Seq<char>,
}

impl View for DbReaction {
    type V = DbReactionView;

    open spec fn view(&self) -> DbReactionView {
        DbReactionView { message_id: self.message_id@, user_id: self.user_id@, emoji: self.emoji@ }
    }
}

impl DeepView for DbReaction {
    type V = DbReactionView;

    open spec fn deep_view(&self) -> DbReactionView {
        self@
    }
}

impl Clone for DbReaction {
    fn clone(&self) -> (copy: DbReaction)
        ensures
            copy == *self,
    {
        DbReaction {
            message_id: self.message_id.clone(),
            user_id: self.user_id.clone(),
            emoji: self.emoji.clone(),
        }
    }
}

} // verus!
