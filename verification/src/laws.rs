//! What holds of routing and the gateway together: the steps that the
//! router hands back, carried out by a gateway that does what the store
//! model says.

use crate::events::ClientEventView;
use crate::gateway::StoreRequestView;
use crate::history::paged_from;
use crate::password::admits;
use crate::password::lemma_registered_password_admits;
use crate::router::register_looked_up;
use crate::gateway::StoreReplyView;
use crate::router::dispatched;
use crate::session::HubView;
use crate::session::SessionView;
use crate::session::StepView;
use crate::store::lemma_mark_read_idempotent;
use crate::store::lemma_reaction_round_trip;
use crate::store::lemma_saved_message_is_fetched;
use crate::store::Store;
use vstd::prelude::*;

verus! {

/// A message to a recipient who is not connected is still stored, and the
/// history of the two shows it. The step for the message sends it to the
/// sender's own connection alone and asks the gateway to save it; once the
/// gateway has saved it under its new id, paging through the conversation
/// of sender and recipient, whatever the page size, comes upon it.
pub proof fn lemma_offline_message_is_kept(
    s: SessionView,
    h: HubView,
    to_user_id: Seq<char>,
    content: Seq<char>,
    file_data: Option<Seq<char>>,
    file_name: Option<Seq<char>>,
    file_type: Option<Seq<char>>,
    audio_duration: Option<u64>,
    step: StepView,
    store: Store,
    listing: Seq<crate::records::DbMessageView>,
    limit: int,
)
    requires
        s.user_id is Some,
        !h.sockets.contains_key(to_user_id),
        dispatched(
            s,
            h,
            ClientEventView::SendMessage {
                to_user_id,
                content,
                file_data,
                file_name,
                file_type,
                audio_duration,
            },
            step,
        ),
        step.writes[0] matches StoreRequestView::SaveMessage { message } ==> !store.holds(
            message.id,
        ),
        store.after(step.writes[0]).lists_conversation(listing, to_user_id, s.user_id->0),
        limit > 0,
    ensures
        step.outbound.len() == 1,
        step.outbound[0].to == seq![s.conn],
        step.writes.len() == 1,
        step.writes[0] matches StoreRequestView::SaveMessage { message } && message.to_user_id
            == to_user_id && message.from_user_id == s.user_id->0 && message.content == content
            && paged_from(listing, limit, 0).contains(message),
{
    let write = step.writes[0];
    match write {
        StoreRequestView::SaveMessage { message } => {
            lemma_saved_message_is_fetched(store, message, listing, limit);
        },
        _ => {},
    }
}

/// A reaction round trip through the router. The step for a user's
/// reaction asks the gateway for one call, after which the reactions on
/// the message are what they were with the user's emoji put in; the step
/// for a second reaction of the same user replaces the emoji; the step
/// for removing the reaction leaves the user without an entry.
pub proof fn lemma_routed_reactions_round_trip(
    s: SessionView,
    h: HubView,
    message_id: Seq<char>,
    emoji: Seq<char>,
    second: Seq<char>,
    added: StepView,
    replaced: StepView,
    removed: StepView,
    store: Store,
)
    requires
        s.user_id is Some,
        dispatched(s, h, ClientEventView::AddReaction { message_id, emoji }, added),
        dispatched(s, h, ClientEventView::AddReaction { message_id, emoji: second }, replaced),
        dispatched(s, h, ClientEventView::RemoveReaction { message_id }, removed),
    ensures
        added.writes.len() == 1 && replaced.writes.len() == 1 && removed.writes.len() == 1,
        store.after(added.writes[0]).reactions_of(message_id) == store.reactions_of(
            message_id,
        ).insert(s.user_id->0, emoji),
        store.reactions_of(message_id) == Map::<Seq<char>, Seq<char>>::empty() ==> store.after(
            added.writes[0],
        ).reactions_of(message_id) == Map::<Seq<char>, Seq<char>>::empty().insert(
            s.user_id->0,
            emoji,
        ),
        store.after(added.writes[0]).after(replaced.writes[0]).reactions_of(message_id)
            == store.reactions_of(message_id).insert(s.user_id->0, second),
        !store.after(added.writes[0]).after(removed.writes[0]).reactions_of(
            message_id,
        ).contains_key(s.user_id->0),
        store.after(added.writes[0]).after(removed.writes[0]).reactions_of(message_id)
            == store.reactions_of(message_id).remove(s.user_id->0),
{
    lemma_reaction_round_trip(store, message_id, s.user_id->0, emoji, second);
}

/// Marking as read is idempotent through the router: the steps for two
/// marks of one message ask the gateway for the same call, and the second
/// call changes nothing. A message with that id is read after the first.
pub proof fn lemma_marking_read_twice(
    s: SessionView,
    h: HubView,
    message_id: Seq<char>,
    first: StepView,
    second: StepView,
    store: Store,
)
    requires
        s.user_id is Some,
        dispatched(s, h, ClientEventView::MarkAsRead { message_id }, first),
        dispatched(s, h, ClientEventView::MarkAsRead { message_id }, second),
    ensures
        first.writes == second.writes,
        first.writes.len() == 1,
        store.after(first.writes[0]).after(second.writes[0]) == store.after(first.writes[0]),
        forall|i: int|
            0 <= i < store.messages.len() && (#[trigger] store.messages[i]).id == message_id
                ==> store.after(first.writes[0]).messages[i].read,
{
    lemma_mark_read_idempotent(store, message_id);
}

/// Who has registered can log in. Where a registration for a free
/// username asks the gateway to create the account, and hashing did not
/// fail, so that the password itself is not what is stored, a later login
/// with the same password is admitted to that account.
pub proof fn lemma_registered_user_is_admitted(
    conn: u64,
    username: Seq<char>,
    password: Seq<char>,
    step: StepView,
)
    requires
        register_looked_up(conn, username, password, StoreReplyView::User(None), step),
        step.query matches Some(query) ==> (query.request matches StoreRequestView::CreateUser {
            password_hash,
            ..
        } ==> password_hash != password),
    ensures
        step.query matches Some(query) && query.request matches StoreRequestView::CreateUser {
            username: name,
            password_hash,
            ..
        } && name == username && admits(Some(password), password_hash),
{
    match step.query {
        Some(query) => match query.request {
            StoreRequestView::CreateUser { password_hash, .. } => {
                lemma_registered_password_admits(password, password_hash);
            },
            _ => {},
        },
        None => {},
    }
}

} // verus!
