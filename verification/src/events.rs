//! What clients send to the relay and what the relay sends to clients.

use crate::message::ChatMessage;
use crate::message::ChatMessageView;
use crate::records::text_opt;
use crate::records::User;
use crate::records::UserView;
use vstd::prelude::*;

verus! {

/// One inbound event, decoded from a frame that a client sent.
/// `audio_duration` holds the bits of an IEEE 754 double.
#[derive(Debug, PartialEq, Eq)]
#[allow(inconsistent_fields)]
pub enum ClientEvent {
    Register { username: String, password: String },
    Login { username: String, password: Option<String> },
    SendMessage {
        to_user_id: String,
        content: String,
        file_data: Option<String>,
        file_name: Option<String>,
        file_type: Option<String>,
        audio_duration: Option<u64>,
    },
    MarkAsRead { message_id: String },
    Typing { to_user_id: String, is_typing: bool },
    GetOnlineUsers,
    GetMessageHistory { other_user_id: String, limit: Option<i32>, offset: Option<i32> },
    AddReaction { message_id: String, emoji: String },
    RemoveReaction { message_id: String },
    CallOffer { to_user_id: String, offer: String },
    CallAnswer { to_user_id: String, answer: String },
    IceCandidate { to_user_id: String, candidate: String },
    CallEnd { to_user_id: String },
}

/// The value of a [`ClientEvent`].
#[allow(inconsistent_fields)]
pub enum ClientEventView {
    Register { username: Seq<char>, password: Seq<char> },
    Login { username: Seq<char>, password: Option<Seq<char>> },
    SendMessage {
        to_user_id: Seq<char>,
        content: Seq<char>,
        file_data: Option<Seq<char>>,
        file_name: Option<Seq<char>>,
        file_type: Option<Seq<char>>,
        audio_duration: Option<u64>,
    },
    MarkAsRead { message_id: Seq<char> },
    Typing { to_user_id: Seq<char>, is_typing: bool },
    GetOnlineUsers,
    GetMessageHistory { other_user_id: Seq<char>, limit: Option<i32>, offset: Option<i32> },
    AddReaction { message_id: Seq<char>, emoji: Seq<char> },
    RemoveReaction { message_id: Seq<char> },
    CallOffer { to_user_id: Seq<char>, offer: Seq<char> },
    CallAnswer { to_user_id: Seq<char>, answer: Seq<char> },
    IceCandidate { to_user_id: Seq<char>, candidate: Seq<char> },
    CallEnd { to_user_id: Seq<char> },
}

impl View for ClientEvent {
    type V = ClientEventView;

    open spec fn view(&self) -> ClientEventView {
        match *self {
            ClientEvent::Register { username, password } => ClientEventView::Register {
                username: username@,
                password: password@,
            },
            ClientEvent::Login { username, password } => ClientEventView::Login {
                username: username@,
                password: text_opt(password),
            },
            ClientEvent::SendMessage {
                to_user_id,
                content,
                file_data,
                file_name,
                file_type,
                audio_duration,
            } => ClientEventView::SendMessage {
                to_user_id: to_user_id@,
                content: content@,
                file_data: text_opt(file_data),
                file_name: text_opt(file_name),
                file_type: text_opt(file_type),
                audio_duration,
            },
            ClientEvent::MarkAsRead { message_id } => ClientEventView::MarkAsRead {
                message_id: message_id@,
            },
            ClientEvent::Typing { to_user_id, is_typing } => ClientEventView::Typing {
                to_user_id: to_user_id@,
                is_typing,
            },
            ClientEvent::GetOnlineUsers => ClientEventView::GetOnlineUsers,
            ClientEvent::GetMessageHistory {
                other_user_id,
                limit,
                offset,
            } => ClientEventView::GetMessageHistory { other_user_id: other_user_id@, limit, offset },
            ClientEvent::AddReaction { message_id, emoji } => ClientEventView::AddReaction {
                message_id: message_id@,
                emoji: emoji@,
            },
            ClientEvent::RemoveReaction { message_id } => ClientEventView::RemoveReaction {
                message_id: message_id@,
            },
            ClientEvent::CallOffer { to_user_id, offer } => ClientEventView::CallOffer {
                to_user_id: to_user_id@,
                offer: offer@,
            },
            ClientEvent::CallAnswer { to_user_id, answer } => ClientEventView::CallAnswer {
                to_user_id: to_user_id@,
                answer: answer@,
            },
            ClientEvent::IceCandidate { to_user_id, candidate } => ClientEventView::IceCandidate {
                to_user_id: to_user_id@,
                candidate: candidate@,
            },
            ClientEvent::CallEnd { to_user_id } => ClientEventView::CallEnd {
                to_user_id: to_user_id@,
            },
        }
    }
}

/// One outbound event, to be encoded and sent to a client.
#[derive(Debug, PartialEq)]
#[allow(inconsistent_fields)]
pub enum ServerEvent {
    LoginSuccess { user: User },
    RegisterSuccess { user: User },
    AuthError { message: String },
    UserOnline { user: User },
    UserOffline { user_id: String },
    NewMessage { message: ChatMessage },
    MessageHistory { messages: Vec<ChatMessage>, total_count: i32, has_more: bool },
    MessageRead { message_id: String, user_id: String },
    Typing { from_user_id: String, is_typing: bool },
    OnlineUsers { users: Vec<User> },
    Error { message: String },
    Success { message: String },
    MessageReaction { message_id: String, user_id: String, emoji: Option<String> },
    CallOffer { from_user_id: String, offer: String },
    CallAnswer { from_user_id: String, answer: String },
    IceCandidate { from_user_id: String, candidate: String },
    CallEnd { from_user_id: String },
}

/// The value of a [`ServerEvent`].
#[allow(inconsistent_fields)]
pub enum ServerEventView {
    LoginSuccess { user: UserView },
    RegisterSuccess { user: UserView },
    AuthError { message: Seq<char> },
    UserOnline { user: UserView },
    UserOffline { user_id: Seq<char> },
    NewMessage { message: ChatMessageView },
    MessageHistory { messages: Seq<ChatMessageView>, total_count: i32, has_more: bool },
    MessageRead { message_id: Seq<char>, user_id: Seq<char> },
    Typing { from_user_id: Seq<char>, is_typing: bool },
    OnlineUsers { users: Seq<UserView> },
    Error { message: Seq<char> },
    Success { message: Seq<char> },
    MessageReaction { message_id: Seq<char>, user_id: Seq<char>, emoji: Option<Seq<char>> },
    CallOffer { from_user_id: Seq<char>, offer: Seq<char> },
    CallAnswer { from_user_id: Seq<char>, answer: Seq<char> },
    IceCandidate { from_user_id: Seq<char>, candidate: Seq<char> },
    CallEnd { from_user_id: Seq<char> },
}

impl View for ServerEvent {
    type V = ServerEventView;

    open spec fn view(&self) -> ServerEventView {
        match *self {
            ServerEvent::LoginSuccess { user } => ServerEventView::LoginSuccess { user: user@ },
            ServerEvent::RegisterSuccess { user } => ServerEventView::RegisterSuccess {
                user: user@,
            },
            ServerEvent::AuthError { message } => ServerEventView::AuthError {
                message: message@,
            },
            ServerEvent::UserOnline { user } => ServerEventView::UserOnline { user: user@ },
            ServerEvent::UserOffline { user_id } => ServerEventView::UserOffline {
                user_id: user_id@,
            },
            ServerEvent::NewMessage { message } => ServerEventView::NewMessage {
                message: message@,
            },
            ServerEvent::MessageHistory {
                messages,
                total_count,
                has_more,
            } => ServerEventView::MessageHistory {
                messages: messages.deep_view(),
                total_count,
                has_more,
            },
            ServerEvent::MessageRead { message_id, user_id } => ServerEventView::MessageRead {
                message_id: message_id@,
                user_id: user_id@,
            },
            ServerEvent::Typing { from_user_id, is_typing } => ServerEventView::Typing {
                from_user_id: from_user_id@,
                is_typing,
            },
            ServerEvent::OnlineUsers { users } => ServerEventView::OnlineUsers {
                users: users.deep_view(),
            },
            ServerEvent::Error { message } => ServerEventView::Error { message: message@ },
            ServerEvent::Success { message } => ServerEventView::Success { message: message@ },
            ServerEvent::MessageReaction {
                message_id,
                user_id,
                emoji,
            } => ServerEventView::MessageReaction {
                message_id: message_id@,
                user_id: user_id@,
                emoji: text_opt(emoji),
            },
            ServerEvent::CallOffer { from_user_id, offer } => ServerEventView::CallOffer {
                from_user_id: from_user_id@,
                offer: offer@,
            },
            ServerEvent::CallAnswer { from_user_id, answer } => ServerEventView::CallAnswer {
                from_user_id: from_user_id@,
                answer: answer@,
            },
            ServerEvent::IceCandidate { from_user_id, candidate } => ServerEventView::IceCandidate {
                from_user_id: from_user_id@,
                candidate: candidate@,
            },
            ServerEvent::CallEnd { from_user_id } => ServerEventView::CallEnd {
                from_user_id: from_user_id@,
            },
        }
    }
}

} // verus!
