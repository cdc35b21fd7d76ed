//! The router: what one inbound event, one gateway reply or the end of a
//! connection does to the session and the hub, and which step comes of it.
//!
//! The router never calls the gateway and never sends. It is a state
//! machine: `dispatch` takes a client's event, `resume` the gateway's reply
//! to a query that an earlier step asked, `disconnect` the end of the
//! connection, and each hands back a [`Step`] for the session's owner to
//! carry out.

use crate::events::ClientEvent;
use crate::events::ClientEventView;
use crate::events::ServerEvent;
use crate::events::ServerEventView;
use crate::gateway::StoreReply;
use crate::gateway::StoreReplyView;
use crate::gateway::StoreRequest;
use crate::gateway::StoreRequestView;
use crate::history::history_event;
use crate::history::ids_of;
use crate::history::is_history;
use crate::history::message_ids;
use crate::history::page_bounds;
use crate::history::DEFAULT_LIMIT;
use crate::ident::fresh_id;
use crate::ident::is_uuid_text;
use crate::message::stored_form;
use crate::message::ChatMessage;
use crate::message::ChatMessageView;
use crate::password::admits;
use crate::password::empty_password_record;
use crate::password::password_admits;
use crate::password::password_record;
use crate::password::stores_password;
use crate::reactions::Reactions;
use crate::records::text_opt;
use crate::records::DbMessageView;
use crate::records::User;
use crate::records::UserView;
use crate::registry::gone_offline;
use crate::registry::is_fanout;
use crate::registry::is_snapshot;
use crate::registry::SocketDirectory;
use crate::session::asks;
use crate::session::idle;
use crate::session::tells;
use crate::session::Hub;
use crate::session::HubView;
use crate::session::Outbound;
use crate::session::OutboundView;
use crate::session::Pending;
use crate::session::PendingView;
use crate::session::Session;
use crate::session::SessionView;
use crate::session::Step;
use crate::session::StepView;
use crate::time::Timestamp;
use vstd::prelude::*;

verus! {

/// A new message: unread, without reactions.
pub open spec fn composed(
    id: Seq<char>,
    timestamp: Timestamp,
    from_user_id: Seq<char>,
    to_user_id: Seq<char>,
    content: Seq<char>,
    file_data: Option<Seq<char>>,
    file_name: Option<Seq<char>>,
    file_type: Option<Seq<char>>,
    audio_duration: Option<u64>,
) -> ChatMessageView {
    ChatMessageView {
        id,
        from_user_id,
        to_user_id,
        content,
        timestamp,
        read: false,
        file_data,
        file_name,
        file_type,
        audio_duration,
        reactions: Map::empty(),
    }
}

/// The step that forwards `event` to the connection of `to`, or does
/// nothing where `to` has none.
pub open spec fn relays(sockets: Map<Seq<char>, u64>, to: Seq<char>, event: ServerEventView) -> StepView {
    if sockets.contains_key(to) {
        tells(sockets[to], event)
    } else {
        idle()
    }
}

/// Whether `step` makes the one gateway call `write` and sends `event` to
/// every connection of `sockets`.
pub open spec fn announces(
    step: StepView,
    sockets: Map<Seq<char>, u64>,
    write: StoreRequestView,
    event: ServerEventView,
) -> bool {
    &&& step.query is None
    &&& step.writes == seq![write]
    &&& step.outbound.len() == 1
    &&& step.outbound[0].event == event
    &&& is_fanout(step.outbound[0].to, sockets)
}

/// Whether `step` is what sending a message comes to: a new message, under
/// an id of the shape of a UUID and with a timestamp of the router's
/// choosing, stored whether or not its recipient is connected, sent to the
/// recipient's connection where there is one, and then back to the
/// sender's own connection.
pub open spec fn sends(
    step: StepView,
    conn: u64,
    me: Seq<char>,
    sockets: Map<Seq<char>, u64>,
    to_user_id: Seq<char>,
    content: Seq<char>,
    file_data: Option<Seq<char>>,
    file_name: Option<Seq<char>>,
    file_type: Option<Seq<char>>,
    audio_duration: Option<u64>,
) -> bool {
    &&& step.query is None
    &&& step.outbound.len() == 1
    &&& step.outbound[0].event matches ServerEventView::NewMessage { message }
    &&& message == composed(
        message.id,
        message.timestamp,
        me,
        to_user_id,
        content,
        file_data,
        file_name,
        file_type,
        audio_duration,
    )
    &&& is_uuid_text(message.id)
    &&& step.outbound[0].to == (if sockets.contains_key(to_user_id) {
        seq![sockets[to_user_id], conn]
    } else {
        seq![conn]
    })
    &&& step.writes == seq![StoreRequestView::SaveMessage { message: stored_form(message) }]
}

/// Whether `step` sends `conn` a snapshot of everyone online.
pub open spec fn reports_online(step: StepView, conn: u64, presence: Map<Seq<char>, UserView>) -> bool {
    &&& step.query is None
    &&& step.writes.len() == 0
    &&& step.outbound.len() == 1
    &&& step.outbound[0].to == seq![conn]
    &&& step.outbound[0].event matches ServerEventView::OnlineUsers { users }
    &&& is_snapshot(users, presence, None)
}

/// The limit of a history request, 50 where the client names none.
pub open spec fn limit_or_default(limit: Option<i32>) -> i32 {
    match limit {
        Some(l) => l,
        None => DEFAULT_LIMIT,
    }
}

/// The offset of a history request, 0 where the client names none.
pub open spec fn offset_or_default(offset: Option<i32>) -> i32 {
    match offset {
        Some(o) => o,
        None => 0i32,
    }
}

/// The step for an event on a session that has not authenticated: a
/// registration or a login starts by looking the username up, and every
/// other event is ignored.
pub open spec fn opening(event: ClientEventView) -> StepView {
    match event {
        ClientEventView::Register { username, password } => asks(
            StoreRequestView::GetUserByUsername { username },
            PendingView::RegisterLookup { username, password },
        ),
        ClientEventView::Login { username, password } => asks(
            StoreRequestView::GetUserByUsername { username },
            PendingView::LoginLookup { username, password },
        ),
        _ => idle(),
    }
}

/// Whether `step` is the step for `event` on a session that has
/// authenticated as `me` and sends on `conn`.
pub open spec fn routed(
    conn: u64,
    me: Seq<char>,
    hub: HubView,
    event: ClientEventView,
    step: StepView,
) -> bool {
    match event {
        ClientEventView::Register { .. } => step == idle(),
        ClientEventView::Login { .. } => step == idle(),
        ClientEventView::SendMessage {
            to_user_id,
            content,
            file_data,
            file_name,
            file_type,
            audio_duration,
        } => sends(
            step,
            conn,
            me,
            hub.sockets,
            to_user_id,
            content,
            file_data,
            file_name,
            file_type,
            audio_duration,
        ),
        ClientEventView::MarkAsRead { message_id } => announces(
            step,
            hub.sockets.remove(me),
            StoreRequestView::MarkMessageRead { message_id },
            ServerEventView::MessageRead { message_id, user_id: me },
        ),
        ClientEventView::Typing { to_user_id, is_typing } => step == relays(
            hub.sockets,
            to_user_id,
            ServerEventView::Typing { from_user_id: me, is_typing },
        ),
        ClientEventView::GetOnlineUsers => reports_online(step, conn, hub.presence),
        ClientEventView::GetMessageHistory { other_user_id, limit, offset } => step == asks(
            StoreRequestView::GetMessagesBetweenUsers {
                user1_id: me,
                user2_id: other_user_id,
                limit: limit_or_default(limit),
                offset: offset_or_default(offset),
            },
            PendingView::HistoryMessages {
                user_id: me,
                other_user_id,
                limit: limit_or_default(limit),
                offset: offset_or_default(offset),
            },
        ),
        ClientEventView::AddReaction { message_id, emoji } => announces(
            step,
            hub.sockets,
            StoreRequestView::AddReaction { message_id, user_id: me, emoji },
            ServerEventView::MessageReaction { message_id, user_id: me, emoji: Some(emoji) },
        ),
        ClientEventView::RemoveReaction { message_id } => announces(
            step,
            hub.sockets,
            StoreRequestView::RemoveReaction { message_id, user_id: me },
            ServerEventView::MessageReaction { message_id, user_id: me, emoji: None },
        ),
        ClientEventView::CallOffer { to_user_id, offer } => step == relays(
            hub.sockets,
            to_user_id,
            ServerEventView::CallOffer { from_user_id: me, offer },
        ),
        ClientEventView::CallAnswer { to_user_id, answer } => step == relays(
            hub.sockets,
            to_user_id,
            ServerEventView::CallAnswer { from_user_id: me, answer },
        ),
        ClientEventView::IceCandidate { to_user_id, candidate } => step == relays(
            hub.sockets,
            to_user_id,
            ServerEventView::IceCandidate { from_user_id: me, candidate },
        ),
        ClientEventView::CallEnd { to_user_id } => step == relays(
            hub.sockets,
            to_user_id,
            ServerEventView::CallEnd { from_user_id: me },
        ),
    }
}

/// Whether `step` is the step for `event` on `session`.
pub open spec fn dispatched(
    session: SessionView,
    hub: HubView,
    event: ClientEventView,
    step: StepView,
) -> bool {
    match session.user_id {
        None => step == opening(event),
        Some(me) => routed(session.conn, me, hub, event, step),
    }
}

/// A text of the program as an owned string.
fn text(literal: &str) -> (owned: String)
    ensures
        owned@ == literal@,
{
    literal.to_owned()
}

/// The list with the one connection `conn`.
fn only(conn: u64) -> (to: Vec<u64>)
    ensures
        to@ == seq![conn],
{
    let mut to: Vec<u64> = Vec::new();
    to.push(conn);
    to
}

/// The step that makes one gateway call and sends one event.
fn announce(to: Vec<u64>, write: StoreRequest, event: ServerEvent) -> (step: Step)
    ensures
        step@ == (StepView {
            outbound: seq![OutboundView { to: to@, event: event@ }],
            writes: seq![write@],
            query: None,
        }),
{
    let mut outbound: Vec<Outbound> = Vec::new();
    outbound.push(Outbound { to, event });
    let mut writes: Vec<StoreRequest> = Vec::new();
    writes.push(write);
    let step = Step { outbound, writes, query: None };
    assert(step.outbound.deep_view() =~= seq![OutboundView { to: to@, event: event@ }]);
    assert(step.writes.deep_view() =~= seq![write@]);
    step
}

/// The step that forwards `event` to the connection of `to`, if it has one.
fn relay(sockets: &SocketDirectory, to: &String, event: ServerEvent) -> (step: Step)
    ensures
        step@ == relays(sockets@, to@, event@),
{
    match sockets.lookup(to) {
        Some(conn) => Step::tell(conn, event),
        None => Step::idle(),
    }
}

/// A new message from its parts: unread, without reactions.
pub fn compose_message(
    id: String,
    timestamp: Timestamp,
    from_user_id: String,
    to_user_id: String,
    content: String,
    file_data: Option<String>,
    file_name: Option<String>,
    file_type: Option<String>,
    audio_duration: Option<u64>,
) -> (message: ChatMessage)
    ensures
        message@ == composed(
            id@,
            timestamp,
            from_user_id@,
            to_user_id@,
            content@,
            text_opt(file_data),
            text_opt(file_name),
            text_opt(file_type),
            audio_duration,
        ),
{
    ChatMessage {
        id,
        from_user_id,
        to_user_id,
        content,
        timestamp,
        read: false,
        file_data,
        file_name,
        file_type,
        audio_duration,
        reactions: Reactions::new(),
    }
}

/// The step that stores `message` and delivers it: to the connection of its
/// recipient, where there is one, and then to `conn`, the sender's own.
pub fn deliver_message(conn: u64, sockets: &SocketDirectory, message: ChatMessage) -> (step: Step)
    ensures
        step@ == (StepView {
            outbound: seq![
                OutboundView {
                    to: if sockets@.contains_key(message@.to_user_id) {
                        seq![sockets@[message@.to_user_id], conn]
                    } else {
                        seq![conn]
                    },
                    event: ServerEventView::NewMessage { message: message@ },
                },
            ],
            writes: seq![StoreRequestView::SaveMessage { message: stored_form(message@) }],
            query: None,
        }),
{
    let write = StoreRequest::SaveMessage { message: message.to_stored() };
    let mut to: Vec<u64> = Vec::new();
    match sockets.lookup(&message.to_user_id) {
        Some(recipient) => {
            to.push(recipient);
        },
        None => {},
    }
    to.push(conn);
    assert(to@ =~= (if sockets@.contains_key(message@.to_user_id) {
        seq![sockets@[message@.to_user_id], conn]
    } else {
        seq![conn]
    }));
    announce(to, write, ServerEvent::NewMessage { message })
}

/// Routes one event of a session that has authenticated as `me`.
fn route(conn: u64, me: &String, hub: &Hub, event: ClientEvent) -> (step: Step)
    ensures
        routed(conn, me@, hub@, event@, step@),
{
    match event {
        ClientEvent::Register { .. } => Step::idle(),
        ClientEvent::Login { .. } => Step::idle(),
        ClientEvent::SendMessage {
            to_user_id,
            content,
            file_data,
            file_name,
            file_type,
            audio_duration,
        } => {
            let message = compose_message(
                fresh_id(),
                Timestamp::now(),
                me.clone(),
                to_user_id,
                content,
                file_data,
                file_name,
                file_type,
                audio_duration,
            );
            deliver_message(conn, &hub.sockets, message)
        },
        ClientEvent::MarkAsRead { message_id } => {
            let to = hub.sockets.connections(&Some(me.clone()));
            announce(
                to,
                StoreRequest::MarkMessageRead { message_id: message_id.clone() },
                ServerEvent::MessageRead { message_id, user_id: me.clone() },
            )
        },
        ClientEvent::Typing { to_user_id, is_typing } => relay(
            &hub.sockets,
            &to_user_id,
            ServerEvent::Typing { from_user_id: me.clone(), is_typing },
        ),
        ClientEvent::GetOnlineUsers => {
            let users = hub.presence.online_users(&None);
            Step::tell(conn, ServerEvent::OnlineUsers { users })
        },
        ClientEvent::GetMessageHistory { other_user_id, limit, offset } => {
            let (limit, offset) = page_bounds(limit, offset);
            Step::ask(
                StoreRequest::GetMessagesBetweenUsers {
                    user1_id: me.clone(),
                    user2_id: other_user_id.clone(),
                    limit,
                    offset,
                },
                Pending::HistoryMessages { user_id: me.clone(), other_user_id, limit, offset },
            )
        },
        ClientEvent::AddReaction { message_id, emoji } => {
            let to = hub.sockets.connections(&None);
            announce(
                to,
                StoreRequest::AddReaction {
                    message_id: message_id.clone(),
                    user_id: me.clone(),
                    emoji: emoji.clone(),
                },
                ServerEvent::MessageReaction { message_id, user_id: me.clone(), emoji: Some(emoji) },
            )
        },
        ClientEvent::RemoveReaction { message_id } => {
            let to = hub.sockets.connections(&None);
            announce(
                to,
                StoreRequest::RemoveReaction { message_id: message_id.clone(), user_id: me.clone() },
                ServerEvent::MessageReaction { message_id, user_id: me.clone(), emoji: None },
            )
        },
        ClientEvent::CallOffer { to_user_id, offer } => relay(
            &hub.sockets,
            &to_user_id,
            ServerEvent::CallOffer { from_user_id: me.clone(), offer },
        ),
        ClientEvent::CallAnswer { to_user_id, answer } => relay(
            &hub.sockets,
            &to_user_id,
            ServerEvent::CallAnswer { from_user_id: me.clone(), answer },
        ),
        ClientEvent::IceCandidate { to_user_id, candidate } => relay(
            &hub.sockets,
            &to_user_id,
            ServerEvent::IceCandidate { from_user_id: me.clone(), candidate },
        ),
        ClientEvent::CallEnd { to_user_id } => relay(
            &hub.sockets,
            &to_user_id,
            ServerEvent::CallEnd { from_user_id: me.clone() },
        ),
    }
}

/// Routes one inbound event. Neither the session nor the hub changes: an
/// event that is to change them first asks the gateway, and the change
/// comes when the session is resumed with the reply.
///
/// Before authentication only a registration and a login are heard; after
/// it, those two are ignored, since a session keeps its identity.
pub fn dispatch(session: &Session, hub: &Hub, event: ClientEvent) -> (step: Step)
    ensures
        dispatched(session@, hub@, event@, step@),
{
    let conn = session.conn();
    match session.user_id() {
        Some(me) => route(conn, me, hub, event),
        None => match event {
            ClientEvent::Register { username, password } => Step::ask(
                StoreRequest::GetUserByUsername { username: username.clone() },
                Pending::RegisterLookup { username, password },
            ),
            ClientEvent::Login { username, password } => Step::ask(
                StoreRequest::GetUserByUsername { username: username.clone() },
                Pending::LoginLookup { username, password },
            ),
            _ => Step::idle(),
        },
    }
}

/// What a session shows once it has authenticated as `user_id` on the
/// channel `conn`.
pub open spec fn signed_session(conn: u64, user_id: Seq<char>) -> SessionView {
    SessionView { conn, user_id: Some(user_id) }
}

/// Whether the session and the hub have gone from `s` and `h` to `s2` and
/// `h2`, and `step` has come of it, by the session authenticating as
/// `user_id`, known as `username`.
///
/// The session is bound to the identity. The identity's presence record
/// says that it is online, with a last-seen instant of the router's
/// choosing. The session's connection becomes the identity's socket, in
/// place of any other. The session is
/// sent its own record, as a registration's or a login's success, and then
/// a snapshot of everyone else online; every other socket is told that the
/// identity is online. After a login into an account that was there before,
/// the gateway is asked to update the account's last-seen time.
pub open spec fn signed_in(
    s: SessionView,
    h: HubView,
    user_id: Seq<char>,
    username: Seq<char>,
    registered: bool,
    touch: bool,
    s2: SessionView,
    h2: HubView,
    step: StepView,
) -> bool {
    let user = UserView { id: user_id, username, online: true, last_seen: h2.presence[user_id].last_seen };
    &&& s2 == signed_session(s.conn, user_id)
    &&& h2.presence == h.presence.insert(user_id, user)
    &&& h2.sockets == h.sockets.insert(user_id, s.conn)
    &&& step.query is None
    &&& step.writes == (if touch {
        seq![StoreRequestView::UpdateLastSeen { user_id }]
    } else {
        Seq::empty()
    })
    &&& step.outbound.len() == 3
    &&& step.outbound[0] == (OutboundView {
        to: seq![s.conn],
        event: if registered {
            ServerEventView::RegisterSuccess { user }
        } else {
            ServerEventView::LoginSuccess { user }
        },
    })
    &&& step.outbound[1].to == seq![s.conn]
    &&& step.outbound[1].event matches ServerEventView::OnlineUsers { users }
    &&& is_snapshot(users, h2.presence, Some(user_id))
    &&& step.outbound[2].event == (ServerEventView::UserOnline { user })
    &&& is_fanout(step.outbound[2].to, h2.sockets.remove(user_id))
}

/// Whether `step` asks the gateway to create an account for `username`
/// under an identity of the shape of a UUID, with something stored for
/// `password` that verifies against it or, where hashing failed, is
/// `fallback`.
pub open spec fn creates(
    step: StepView,
    username: Seq<char>,
    password: Seq<char>,
    fallback: Seq<char>,
    registering: bool,
) -> bool {
    &&& step.outbound.len() == 0
    &&& step.writes.len() == 0
    &&& step.query matches Some(query)
    &&& query.request matches StoreRequestView::CreateUser { id, username: name, password_hash }
    &&& is_uuid_text(id)
    &&& name == username
    &&& stores_password(password_hash, password, fallback)
    &&& query.pending == (if registering {
        PendingView::RegisterCreate { user_id: id, username }
    } else {
        PendingView::LoginCreate { user_id: id, username }
    })
}

/// A registration goes on once the username has been looked up: a username
/// that is taken is refused; a free one has its account created, under the
/// hash of the password, or under the password itself where hashing fails.
pub open spec fn register_looked_up(
    conn: u64,
    username: Seq<char>,
    password: Seq<char>,
    reply: StoreReplyView,
    step: StepView,
) -> bool {
    match reply {
        StoreReplyView::User(Some(_)) => step == tells(
            conn,
            ServerEventView::AuthError { message: "Username already exists"@ },
        ),
        StoreReplyView::User(None) => creates(step, username, password, password, true),
        _ => step == tells(conn, ServerEventView::AuthError { message: "Database error"@ }),
    }
}

/// A login goes on once the username has been looked up. Into an account
/// that is there, a login without password is let in, and one with a
/// password where the password verifies against the stored hash. Under a
/// username that is free, a login without password has an account created,
/// and one with a password is refused.
pub open spec fn login_looked_up(
    s: SessionView,
    h: HubView,
    username: Seq<char>,
    password: Option<Seq<char>>,
    reply: StoreReplyView,
    s2: SessionView,
    h2: HubView,
    step: StepView,
) -> bool {
    match reply {
        StoreReplyView::User(Some(account)) => if admits(password, account.password_hash) {
            signed_in(s, h, account.id, account.username, false, true, s2, h2, step)
        } else {
            &&& s2 == s
            &&& h2 == h
            &&& step == tells(s.conn, ServerEventView::AuthError { message: "Invalid password"@ })
        },
        StoreReplyView::User(None) => {
            &&& s2 == s
            &&& h2 == h
            &&& if password is None {
                creates(step, username, Seq::empty(), Seq::empty(), false)
            } else {
                step == tells(s.conn, ServerEventView::AuthError { message: "User not found"@ })
            }
        },
        _ => {
            &&& s2 == s
            &&& h2 == h
            &&& step == tells(s.conn, ServerEventView::AuthError { message: "Database error"@ })
        },
    }
}

/// An account has been asked for; once the gateway has answered, the
/// session authenticates, or is told that the account could not be made.
pub open spec fn account_created(
    s: SessionView,
    h: HubView,
    user_id: Seq<char>,
    username: Seq<char>,
    registering: bool,
    reply: StoreReplyView,
    s2: SessionView,
    h2: HubView,
    step: StepView,
) -> bool {
    match reply {
        StoreReplyView::Done => signed_in(s, h, user_id, username, registering, false, s2, h2, step),
        _ => {
            &&& s2 == s
            &&& h2 == h
            &&& step == tells(
                s.conn,
                ServerEventView::AuthError {
                    message: if registering {
                        "Failed to register user"@
                    } else {
                        "Failed to create user"@
                    },
                },
            )
        },
    }
}

/// A history request goes on once its page has been fetched: with the
/// count of the conversation, or with an error to the client where the
/// fetch failed.
pub open spec fn history_fetched(
    conn: u64,
    user_id: Seq<char>,
    other_user_id: Seq<char>,
    limit: i32,
    offset: i32,
    reply: StoreReplyView,
) -> StepView {
    match reply {
        StoreReplyView::Messages(rows) => asks(
            StoreRequestView::GetMessageCountBetweenUsers {
                user1_id: user_id,
                user2_id: other_user_id,
            },
            PendingView::HistoryCount { limit, offset, rows },
        ),
        _ => tells(
            conn,
            ServerEventView::Error { message: "Failed to load message history"@ },
        ),
    }
}

/// A history request goes on once its conversation has been counted: with
/// the reactions on the fetched messages. A count that failed is taken as
/// zero.
pub open spec fn history_counted(
    limit: i32,
    offset: i32,
    rows: Seq<DbMessageView>,
    reply: StoreReplyView,
) -> StepView {
    asks(
        StoreRequestView::GetReactionsBatch { message_ids: ids_of(rows) },
        PendingView::HistoryReactions {
            limit,
            offset,
            rows,
            total_count: match reply {
                StoreReplyView::Count(count) => count,
                _ => 0i32,
            },
        },
    )
}

/// A history request ends once the reactions have been fetched: the client
/// is sent the page. Reactions that could not be fetched are taken as none.
pub open spec fn history_shown(
    conn: u64,
    limit: i32,
    offset: i32,
    rows: Seq<DbMessageView>,
    total_count: i32,
    reply: StoreReplyView,
    step: StepView,
) -> bool {
    &&& step.query is None
    &&& step.writes.len() == 0
    &&& step.outbound.len() == 1
    &&& step.outbound[0].to == seq![conn]
    &&& is_history(
        step.outbound[0].event,
        rows,
        match reply {
            StoreReplyView::Reactions(reactions) => reactions,
            _ => Seq::empty(),
        },
        total_count,
        limit as int,
        offset as int,
    )
}

/// Whether the session and the hub have gone from `s` and `h` to `s2` and
/// `h2`, and `step` has come of it, by the session being resumed at
/// `pending` with the gateway's `reply`. A reply of a kind that the pending
/// work does not expect counts as a failed call. A session that has
/// authenticated is not authenticated again: on it, pending work of a
/// registration or a login is dropped.
pub open spec fn resumed(
    s: SessionView,
    h: HubView,
    pending: PendingView,
    reply: StoreReplyView,
    s2: SessionView,
    h2: HubView,
    step: StepView,
) -> bool {
    match pending {
        PendingView::RegisterLookup { username, password } => {
            &&& s2 == s
            &&& h2 == h
            &&& if s.user_id is Some {
                step == idle()
            } else {
                register_looked_up(s.conn, username, password, reply, step)
            }
        },
        PendingView::RegisterCreate { user_id, username } => if s.user_id is Some {
            s2 == s && h2 == h && step == idle()
        } else {
            account_created(s, h, user_id, username, true, reply, s2, h2, step)
        },
        PendingView::LoginLookup { username, password } => if s.user_id is Some {
            s2 == s && h2 == h && step == idle()
        } else {
            login_looked_up(s, h, username, password, reply, s2, h2, step)
        },
        PendingView::LoginCreate { user_id, username } => if s.user_id is Some {
            s2 == s && h2 == h && step == idle()
        } else {
            account_created(s, h, user_id, username, false, reply, s2, h2, step)
        },
        PendingView::HistoryMessages { user_id, other_user_id, limit, offset } => {
            &&& s2 == s
            &&& h2 == h
            &&& step == history_fetched(s.conn, user_id, other_user_id, limit, offset, reply)
        },
        PendingView::HistoryCount { limit, offset, rows } => {
            &&& s2 == s
            &&& h2 == h
            &&& step == history_counted(limit, offset, rows, reply)
        },
        PendingView::HistoryReactions { limit, offset, rows, total_count } => {
            &&& s2 == s
            &&& h2 == h
            &&& history_shown(s.conn, limit, offset, rows, total_count, reply, step)
        },
    }
}

/// Whether the hub has gone from `h` to `h2`, and `step` has come of it, by
/// the connection of `s` ending. The end of a session that has not
/// authenticated changes nothing. Otherwise the identity's socket is taken
/// out of the directory, its presence record, if it has one, says that it
/// is offline, with a last-seen instant of the router's choosing, the
/// gateway is asked to update its last-seen time, and every socket that
/// remains is told that the identity is offline.
pub open spec fn disconnected(s: SessionView, h: HubView, h2: HubView, step: StepView) -> bool {
    match s.user_id {
        None => h2 == h && step == idle(),
        Some(me) => {
            &&& h2.presence == gone_offline(h.presence, me, h2.presence[me].last_seen)
            &&& h2.sockets == h.sockets.remove(me)
            &&& announces(
                step,
                h2.sockets,
                StoreRequestView::UpdateLastSeen { user_id: me },
                ServerEventView::UserOffline { user_id: me },
            )
        },
    }
}

/// The presence record of a user who is online and was last seen at `now`.
pub fn present_user(id: String, username: String, now: Timestamp) -> (user: User)
    ensures
        user@ == (UserView { id: id@, username: username@, online: true, last_seen: now }),
{
    User { id, username, online: true, last_seen: now }
}

/// Authenticates the session as `user_id`.
fn sign_in(
    session: &mut Session,
    hub: &mut Hub,
    user_id: String,
    username: String,
    registered: bool,
    touch: bool,
) -> (step: Step)
    requires
        old(session)@.user_id is None,
    ensures
        signed_in(
            old(session)@,
            old(hub)@,
            user_id@,
            username@,
            registered,
            touch,
            final(session)@,
            final(hub)@,
            step@,
        ),
{
    let conn = session.conn();
    let user = present_user(user_id.clone(), username, Timestamp::now());
    hub.presence.record(user.clone());
    session.authenticate(user_id.clone());
    hub.sockets.register(user_id.clone(), conn);
    let me = Some(user_id.clone());
    let users = hub.presence.online_users(&me);
    let others = hub.sockets.connections(&me);
    let welcome = if registered {
        ServerEvent::RegisterSuccess { user: user.clone() }
    } else {
        ServerEvent::LoginSuccess { user: user.clone() }
    };
    let mut writes: Vec<StoreRequest> = Vec::new();
    if touch {
        writes.push(StoreRequest::UpdateLastSeen { user_id });
    }
    let mut outbound: Vec<Outbound> = Vec::new();
    outbound.push(Outbound { to: only(conn), event: welcome });
    outbound.push(Outbound { to: only(conn), event: ServerEvent::OnlineUsers { users } });
    outbound.push(Outbound { to: others, event: ServerEvent::UserOnline { user } });
    let step = Step { outbound, writes, query: None };
    proof {
        assert(step@.writes =~= (if touch {
            seq![StoreRequestView::UpdateLastSeen { user_id: user_id@ }]
        } else {
            Seq::empty()
        }));
    }
    step
}

/// Asks the gateway to create an account under a fresh identity.
fn create_account(username: String, password_hash: String, registering: bool) -> (step: Step)
    ensures
        step@.outbound.len() == 0,
        step@.writes.len() == 0,
        step@.query matches Some(query) && query.request matches StoreRequestView::CreateUser {
            id,
            username: name,
            password_hash: hash,
        } && is_uuid_text(id) && name == username@ && hash == password_hash@ && query.pending == (
        if registering {
            PendingView::RegisterCreate { user_id: id, username: username@ }
        } else {
            PendingView::LoginCreate { user_id: id, username: username@ }
        }),
{
    let id = fresh_id();
    let pending = if registering {
        Pending::RegisterCreate { user_id: id.clone(), username: username.clone() }
    } else {
        Pending::LoginCreate { user_id: id.clone(), username: username.clone() }
    };
    Step::ask(StoreRequest::CreateUser { id, username, password_hash }, pending)
}

/// Tells the session's own connection that authentication failed.
fn refuse(conn: u64, message: &str) -> (step: Step)
    ensures
        step@ == tells(conn, ServerEventView::AuthError { message: message@ }),
{
    Step::tell(conn, ServerEvent::AuthError { message: text(message) })
}

/// Resumes a session with the gateway's reply to the query of an earlier
/// step.
pub fn resume(session: &mut Session, hub: &mut Hub, pending: Pending, reply: StoreReply) -> (step:
    Step)
    ensures
        resumed(
            old(session)@,
            old(hub)@,
            pending@,
            reply@,
            final(session)@,
            final(hub)@,
            step@,
        ),
{
    let conn = session.conn();
    let authenticated = session.is_authenticated();
    match pending {
        Pending::RegisterLookup { username, password } => {
            if authenticated {
                Step::idle()
            } else {
                match reply {
                    StoreReply::User(Some(_)) => refuse(conn, "Username already exists"),
                    StoreReply::User(None) => {
                        let stored = password_record(&password);
                        create_account(username, stored, true)
                    },
                    _ => refuse(conn, "Database error"),
                }
            }
        },
        Pending::RegisterCreate { user_id, username } => {
            if authenticated {
                Step::idle()
            } else {
                match reply {
                    StoreReply::Done => sign_in(session, hub, user_id, username, true, false),
                    _ => refuse(conn, "Failed to register user"),
                }
            }
        },
        Pending::LoginLookup { username, password } => {
            if authenticated {
                Step::idle()
            } else {
                match reply {
                    StoreReply::User(Some(account)) => {
                        if password_admits(&password, &account.password_hash) {
                            sign_in(session, hub, account.id, account.username, false, true)
                        } else {
                            refuse(conn, "Invalid password")
                        }
                    },
                    StoreReply::User(None) => {
                        if password.is_none() {
                            create_account(username, empty_password_record(), false)
                        } else {
                            refuse(conn, "User not found")
                        }
                    },
                    _ => refuse(conn, "Database error"),
                }
            }
        },
        Pending::LoginCreate { user_id, username } => {
            if authenticated {
                Step::idle()
            } else {
                match reply {
                    StoreReply::Done => sign_in(session, hub, user_id, username, false, false),
                    _ => refuse(conn, "Failed to create user"),
                }
            }
        },
        Pending::HistoryMessages { user_id, other_user_id, limit, offset } => {
            match reply {
                StoreReply::Messages(rows) => Step::ask(
                    StoreRequest::GetMessageCountBetweenUsers {
                        user1_id: user_id,
                        user2_id: other_user_id,
                    },
                    Pending::HistoryCount { limit, offset, rows },
                ),
                _ => Step::tell(
                    conn,
                    ServerEvent::Error { message: text("Failed to load message history") },
                ),
            }
        },
        Pending::HistoryCount { limit, offset, rows } => {
            let total_count = match reply {
                StoreReply::Count(count) => count,
                _ => 0,
            };
            Step::ask(
                StoreRequest::GetReactionsBatch { message_ids: message_ids(&rows) },
                Pending::HistoryReactions { limit, offset, rows, total_count },
            )
        },
        Pending::HistoryReactions { limit, offset, rows, total_count } => {
            let reactions = match reply {
                StoreReply::Reactions(reactions) => reactions,
                _ => Vec::new(),
            };
            Step::tell(conn, history_event(rows, &reactions, total_count, limit, offset))
        },
    }
}

/// Ends a session. The session is used up, so its end is routed once.
pub fn disconnect(session: Session, hub: &mut Hub) -> (step: Step)
    ensures
        disconnected(session@, old(hub)@, final(hub)@, step@),
{
    match session.user_id() {
        None => Step::idle(),
        Some(me) => {
            hub.presence.mark_offline(me, Timestamp::now());
            hub.sockets.unregister(me);
            let to = hub.sockets.connections(&None);
            announce(
                to,
                StoreRequest::UpdateLastSeen { user_id: me.clone() },
                ServerEvent::UserOffline { user_id: me.clone() },
            )
        },
    }
}

/// What a routing call may do to the socket directory.
pub enum DirectoryOp {
    /// A session that sends on `conn` authenticates as `user_id`.
    SignIn { user_id: Seq<char>, conn: u64 },
    /// A session that had authenticated as `user_id` ends.
    Leave { user_id: Seq<char> },
}

/// The directory after one operation.
pub open spec fn directory_step(sockets: Map<Seq<char>, u64>, op: DirectoryOp) -> Map<
    Seq<char>,
    u64,
> {
    match op {
        DirectoryOp::SignIn { user_id, conn } => sockets.insert(user_id, conn),
        DirectoryOp::Leave { user_id } => sockets.remove(user_id),
    }
}

/// The directory after a run of operations on an empty directory.
pub open spec fn directory_after(ops: Seq<DirectoryOp>) -> Map<Seq<char>, u64>
    decreases ops.len(),
{
    if ops.len() == 0 {
        Map::empty()
    } else {
        directory_step(directory_after(ops.drop_last()), ops.last())
    }
}

/// The connection of the session that authenticated as `user_id` last.
pub open spec fn latest_sign_in(ops: Seq<DirectoryOp>, user_id: Seq<char>) -> Option<u64>
    decreases ops.len(),
{
    if ops.len() == 0 {
        None
    } else {
        match ops.last() {
            DirectoryOp::SignIn { user_id: who, conn } => if who == user_id {
                Some(conn)
            } else {
                latest_sign_in(ops.drop_last(), user_id)
            },
            DirectoryOp::Leave { .. } => latest_sign_in(ops.drop_last(), user_id),
        }
    }
}

/// One routing call that may change the hub: a session is resumed, or a
/// session ends. (Dispatching an event changes nothing.)
pub enum Transition {
    /// The session that showed `s` is resumed at `pending` with `reply`,
    /// shows `s2` afterwards, and is handed `step`.
    Resumed {
        s: SessionView,
        pending: PendingView,
        reply: StoreReplyView,
        s2: SessionView,
        step: StepView,
    },
    /// The session that showed `s` ends, and `step` comes of it.
    Disconnected { s: SessionView, step: StepView },
}

/// Whether the transition takes the hub from `h` to `h2`.
pub open spec fn takes(h: HubView, transition: Transition, h2: HubView) -> bool {
    match transition {
        Transition::Resumed { s, pending, reply, s2, step } => resumed(
            s,
            h,
            pending,
            reply,
            s2,
            h2,
            step,
        ),
        Transition::Disconnected { s, step } => disconnected(s, h, h2, step),
    }
}

/// What the transition does to the socket directory, if anything: a
/// session that comes by an identity signs in, on its own connection; the
/// end of a session that had an identity takes the identity out.
pub open spec fn directory_op(transition: Transition) -> Option<DirectoryOp> {
    match transition {
        Transition::Resumed { s, s2, .. } => match s2.user_id {
            Some(user_id) => if s.user_id == s2.user_id {
                None
            } else {
                Some(DirectoryOp::SignIn { user_id, conn: s.conn })
            },
            None => None,
        },
        Transition::Disconnected { s, .. } => match s.user_id {
            Some(user_id) => Some(DirectoryOp::Leave { user_id }),
            None => None,
        },
    }
}

/// The directory operations of a run of transitions, in order.
pub open spec fn directory_ops(transitions: Seq<Transition>) -> Seq<DirectoryOp>
    decreases transitions.len(),
{
    if transitions.len() == 0 {
        Seq::empty()
    } else {
        match directory_op(transitions.last()) {
            Some(op) => directory_ops(transitions.drop_last()).push(op),
            None => directory_ops(transitions.drop_last()),
        }
    }
}

/// Whether `hubs` are the states of a hub that starts without sockets and
/// goes through `transitions`, one after the other.
pub open spec fn is_run(hubs: Seq<HubView>, transitions: Seq<Transition>) -> bool {
    &&& hubs.len() == transitions.len() + 1
    &&& hubs[0].sockets == Map::<Seq<char>, u64>::empty()
    &&& forall|i: int|
        0 <= i < transitions.len() ==> takes(hubs[i], #[trigger] transitions[i], hubs[i + 1])
}

/// Resuming a session leaves the socket directory as it is or signs the
/// session in, and it never changes the identity of a session that has one.
pub proof fn lemma_resume_signs_in_or_keeps(
    s: SessionView,
    h: HubView,
    pending: PendingView,
    reply: StoreReplyView,
    s2: SessionView,
    h2: HubView,
    step: StepView,
)
    requires
        resumed(s, h, pending, reply, s2, h2, step),
    ensures
        s2.conn == s.conn,
        s.user_id is Some ==> s2 == s && h2 == h,
        s2.user_id == s.user_id ==> h2.sockets == h.sockets,
        s2.user_id != s.user_id ==> s2.user_id is Some && h2.sockets == directory_step(
            h.sockets,
            DirectoryOp::SignIn { user_id: s2.user_id->0, conn: s.conn },
        ),
{
}

/// The end of a session that had authenticated takes its identity out of
/// the socket directory; the end of another leaves the directory as it is.
pub proof fn lemma_disconnect_leaves(s: SessionView, h: HubView, h2: HubView, step: StepView)
    requires
        disconnected(s, h, h2, step),
    ensures
        match s.user_id {
            Some(me) => h2.sockets == directory_step(h.sockets, DirectoryOp::Leave { user_id: me }),
            None => h2.sockets == h.sockets,
        },
{
}

/// After any run of sign-ins and ends of sessions on an empty directory,
/// the connection that the directory holds for an identity is that of the
/// session that authenticated as that identity last.
pub proof fn lemma_directory_names_latest_session(ops: Seq<DirectoryOp>, user_id: Seq<char>)
    ensures
        directory_after(ops).contains_key(user_id) ==> latest_sign_in(ops, user_id) == Some(
            directory_after(ops)[user_id],
        ),
    decreases ops.len(),
{
    if ops.len() > 0 {
        lemma_directory_names_latest_session(ops.drop_last(), user_id);
    }
}

/// The socket directory of a hub is what the sign-ins and ends of sessions
/// of its run make of an empty directory.
pub proof fn lemma_run_follows_its_ops(hubs: Seq<HubView>, transitions: Seq<Transition>)
    requires
        is_run(hubs, transitions),
    ensures
        hubs.last().sockets == directory_after(directory_ops(transitions)),
    decreases transitions.len(),
{
    if transitions.len() > 0 {
        let n = transitions.len() as int;
        let earlier = transitions.drop_last();
        let before = hubs.drop_last();
        assert(is_run(before, earlier)) by {
            assert forall|i: int| 0 <= i < earlier.len() implies takes(
                before[i],
                #[trigger] earlier[i],
                before[i + 1],
            ) by {
                assert(takes(hubs[i], transitions[i], hubs[i + 1]));
            }
        }
        lemma_run_follows_its_ops(before, earlier);
        assert(before.last() == hubs[n - 1]);
        assert(takes(hubs[n - 1], transitions[n - 1], hubs[n]));
        match transitions.last() {
            Transition::Resumed { s, pending, reply, s2, step } => {
                lemma_resume_signs_in_or_keeps(s, hubs[n - 1], pending, reply, s2, hubs[n], step);
            },
            Transition::Disconnected { s, step } => {
                lemma_disconnect_leaves(s, hubs[n - 1], hubs[n], step);
            },
        }
        let ops = directory_ops(transitions);
        match directory_op(transitions.last()) {
            Some(op) => {
                assert(ops.drop_last() =~= directory_ops(earlier));
            },
            None => {},
        }
    }
}

/// However sessions are resumed and ended, at every instant the
/// connection that the socket directory, a map from identities to
/// connections, holds for an identity is that of the session that
/// authenticated as that identity last.
pub proof fn lemma_socket_belongs_to_latest_session(
    hubs: Seq<HubView>,
    transitions: Seq<Transition>,
    user_id: Seq<char>,
)
    requires
        is_run(hubs, transitions),
    ensures
        hubs.last().sockets.contains_key(user_id) ==> latest_sign_in(
            directory_ops(transitions),
            user_id,
        ) == Some(hubs.last().sockets[user_id]),
{
    lemma_run_follows_its_ops(hubs, transitions);
    lemma_directory_names_latest_session(directory_ops(transitions), user_id);
}

} // verus!
