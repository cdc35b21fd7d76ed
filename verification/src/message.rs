//! A chat message as clients see it, and its stored form.

use crate::reactions::Reactions;
use crate::records::copy_text_opt;
use crate::records::text_opt;
use crate::records::DbMessage;
use crate::records::DbMessageView;
use crate::time::rfc3339_instant;
use crate::time::rfc3339_text;
use crate::time::Timestamp;
use vstd::prelude::*;

verus! {

/// A message between two users. `audio_duration` holds the bits of the
/// duration in seconds, an IEEE 754 double, and is carried unchanged.
#[derive(Debug, PartialEq)]
pub struct ChatMessage {
    pub id: String,
    pub from_user_id: String,
    pub to_user_id: String,
    pub content: String,
    pub timestamp: Timestamp,
    pub read: bool,
    pub file_data: Option<String>,
    pub file_name: Option<String>,
    pub file_type: Option<String>,
    pub audio_duration: Option<u64>,
    pub reactions: Reactions,
}

/// The value of a [`ChatMessage`].
pub struct ChatMessageView {
    pub id: Seq<char>,
    pub from_user_id: Seq<char>,
    pub to_user_id: Seq<char>,
    pub content: Seq<char>,
    pub timestamp: Timestamp,
    pub read: bool,
    pub file_data: Option<Seq<char>>,
    pub file_name: Option<Seq<char>>,
    pub file_type: Option<Seq<char>>,
    pub audio_duration: Option<u64>,
    pub reactions: Map<Seq<char>, Seq<char>>,
}

impl View for ChatMessage {
    type V = ChatMessageView;

    open spec fn view(&self) -> ChatMessageView {
        ChatMessageView {
            id: self.id@,
            from_user_id: self.from_user_id@,
            to_user_id: self.to_user_id@,
            content: self.content@,
            timestamp: self.timestamp,
            read: self.read,
            file_data: text_opt(self.file_data),
            file_name: text_opt(self.file_name),
            file_type: text_opt(self.file_type),
            audio_duration: self.audio_duration,
            reactions: self.reactions@,
        }
    }
}

impl DeepView for ChatMessage {
    type V = ChatMessageView;

    open spec fn deep_view(&self) -> ChatMessageView {
        self@
    }
}

impl Clone for ChatMessage {
    fn clone(&self) -> (copy: ChatMessage)
        ensures
            copy@ == self@,
    {
        ChatMessage {
            id: self.id.clone(),
            from_user_id: self.from_user_id.clone(),
            to_user_id: self.to_user_id.clone(),
            content: self.content.clone(),
            timestamp: self.timestamp,
            read: self.read,
            file_data: copy_text_opt(&self.file_data),
            file_name: copy_text_opt(&self.file_name),
            file_type: copy_text_opt(&self.file_type),
            audio_duration: self.audio_duration,
            reactions: self.reactions.clone(),
        }
    }
}

/// A stored message as clients see it, given the instant that its timestamp
/// stands for and the reactions on it.
pub open spec fn shown(
    stored: DbMessageView,
    timestamp: Timestamp,
    reactions: Map<Seq<char>, Seq<char>>,
) -> ChatMessageView {
    ChatMessageView {
        id: stored.id,
        from_user_id: stored.from_user_id,
        to_user_id: stored.to_user_id,
        content: stored.content,
        timestamp,
        read: stored.read,
        file_data: stored.file_data,
        file_name: stored.file_name,
        file_type: stored.file_type,
        audio_duration: stored.audio_duration,
        reactions,
    }
}

/// The stored form of a message: every field but the reactions, the
/// timestamp as RFC 3339 text.
pub open spec fn stored_form(message: ChatMessageView) -> DbMessageView {
    DbMessageView {
        id: message.id,
        from_user_id: message.from_user_id,
        to_user_id: message.to_user_id,
        content: message.content,
        timestamp: rfc3339_text(message.timestamp.secs(), message.timestamp.nanos()),
        read: message.read,
        file_data: message.file_data,
        file_name: message.file_name,
        file_type: message.file_type,
        audio_duration: message.audio_duration,
    }
}

/// The reactions handed over, or none.
pub open spec fn reactions_or_none(reactions: Option<Reactions>) -> Map<Seq<char>, Seq<char>> {
    match reactions {
        Some(r) => r@,
        None => Map::empty(),
    }
}

impl ChatMessage {
    /// Turns a stored message into the message that clients see. The
    /// timestamp is the instant that the stored text denotes; where the text
    /// is not RFC 3339, the current instant stands in for it. Without
    /// reactions handed over the message has none.
    pub fn from_stored(stored: DbMessage, reactions: Option<Reactions>) -> (message: ChatMessage)
        ensures
            message@ == shown(stored@, message.timestamp, reactions_or_none(reactions)),
            rfc3339_instant(stored.timestamp@) matches Some(t) ==> message.timestamp == t,
    {
        let timestamp = Timestamp::parse_or_now(stored.timestamp.as_str());
        let reactions = match reactions {
            Some(r) => r,
            None => Reactions::new(),
        };
        ChatMessage {
            id: stored.id,
            from_user_id: stored.from_user_id,
            to_user_id: stored.to_user_id,
            content: stored.content,
            timestamp,
            read: stored.read,
            file_data: stored.file_data,
            file_name: stored.file_name,
            file_type: stored.file_type,
            audio_duration: stored.audio_duration,
            reactions,
        }
    }

    /// The stored form of this message.
    pub fn to_stored(&self) -> (stored: DbMessage)
        ensures
            stored@ == stored_form(self@),
    {
        DbMessage {
            id: self.id.clone(),
            from_user_id: self.from_user_id.clone(),
            to_user_id: self.to_user_id.clone(),
            content: self.content.clone(),
            timestamp: self.timestamp.to_rfc3339(),
            read: self.read,
            file_data: copy_text_opt(&self.file_data),
            file_name: copy_text_opt(&self.file_name),
            file_type: copy_text_opt(&self.file_type),
            audio_duration: self.audio_duration,
        }
    }
}

} // verus!
