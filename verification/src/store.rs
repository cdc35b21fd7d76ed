//! What the persistence gateway is to do with the calls that the router
//! asks of it, as a model, and what follows for messages and reactions.

use crate::gateway::StoreRequestView;
use crate::history::paged_from;
use crate::history::lemma_pagination_complete;
use crate::reactions::reactions_on;
use crate::records::DbMessageView;
use crate::records::DbReactionView;
use vstd::prelude::*;

verus! {

/// The messages and reactions that a gateway holds. `messages` are in the
/// order in which they were saved; `reactions` maps a message id and a
/// user to that user's emoji on that message.
pub struct Store {
    pub messages: Seq<DbMessageView>,
    pub reactions: Map<(Seq<char>, Seq<char>), Seq<char>>,
}

/// A message, read.
pub open spec fn marked_read(message: DbMessageView) -> DbMessageView {
    DbMessageView {
        id: message.id,
        from_user_id: message.from_user_id,
        to_user_id: message.to_user_id,
        content: message.content,
        timestamp: message.timestamp,
        read: true,
        file_data: message.file_data,
        file_name: message.file_name,
        file_type: message.file_type,
        audio_duration: message.audio_duration,
    }
}

/// Whether a message runs between `a` and `b`, in either direction.
pub open spec fn runs_between(message: DbMessageView, a: Seq<char>, b: Seq<char>) -> bool {
    (message.from_user_id == a && message.to_user_id == b) || (message.from_user_id == b
        && message.to_user_id == a)
}

impl Store {
    /// Whether a message with this id is held.
    pub open spec fn holds(self, id: Seq<char>) -> bool {
        exists|i: int| 0 <= i < self.messages.len() && (#[trigger] self.messages[i]).id == id
    }

    /// Whether no two messages share an id.
    pub open spec fn ids_unique(self) -> bool {
        forall|i: int, j: int|
            0 <= i < j < self.messages.len() ==> (#[trigger] self.messages[i]).id != (
            #[trigger] self.messages[j]).id
    }

    /// The store once the gateway has carried out `request`. A message is
    /// saved unless its id is taken; marking as read sets the flag of the
    /// message with that id; a reaction replaces the user's earlier one on
    /// that message; removing deletes it. The other calls leave messages
    /// and reactions alone.
    pub open spec fn after(self, request: StoreRequestView) -> Store {
        match request {
            StoreRequestView::SaveMessage { message } => if self.holds(message.id) {
                self
            } else {
                Store { messages: self.messages.push(message), reactions: self.reactions }
            },
            StoreRequestView::MarkMessageRead { message_id } => Store {
                messages: Seq::new(
                    self.messages.len(),
                    |i: int|
                        if self.messages[i].id == message_id {
                            marked_read(self.messages[i])
                        } else {
                            self.messages[i]
                        },
                ),
                reactions: self.reactions,
            },
            StoreRequestView::AddReaction { message_id, user_id, emoji } => Store {
                messages: self.messages,
                reactions: self.reactions.insert((message_id, user_id), emoji),
            },
            StoreRequestView::RemoveReaction { message_id, user_id } => Store {
                messages: self.messages,
                reactions: self.reactions.remove((message_id, user_id)),
            },
            _ => self,
        }
    }

    /// The reactions on one message, by user.
    pub open spec fn reactions_of(self, message_id: Seq<char>) -> Map<Seq<char>, Seq<char>> {
        Map::new(
            |user_id: Seq<char>| self.reactions.contains_key((message_id, user_id)),
            |user_id: Seq<char>| self.reactions[(message_id, user_id)],
        )
    }

    /// The messages between two users, in the order in which they were
    /// saved.
    pub open spec fn between(self, a: Seq<char>, b: Seq<char>) -> Seq<DbMessageView> {
        self.messages.filter(|message: DbMessageView| runs_between(message, a, b))
    }

    /// Whether `listing` holds the messages between two users, each as
    /// often as it is held, in whatever order the gateway lists them.
    pub open spec fn lists_conversation(
        self,
        listing: Seq<DbMessageView>,
        a: Seq<char>,
        b: Seq<char>,
    ) -> bool {
        listing.to_multiset() == self.between(a, b).to_multiset()
    }

    /// Whether `rows` hold the reactions on the messages `ids`: every row
    /// is a reaction that is held, on one of these messages; no two rows
    /// are of the same user on the same message; and no reaction that is
    /// held on one of these messages is missing.
    pub open spec fn lists_reactions(self, rows: Seq<DbReactionView>, ids: Set<Seq<char>>) -> bool {
        &&& forall|i: int|
            0 <= i < rows.len() ==> {
                &&& ids.contains((#[trigger] rows[i]).message_id)
                &&& self.reactions.contains_key((rows[i].message_id, rows[i].user_id))
                &&& self.reactions[(rows[i].message_id, rows[i].user_id)] == rows[i].emoji
            }
        &&& forall|i: int, j: int|
            0 <= i < j < rows.len() ==> !((#[trigger] rows[i]).message_id == (
            #[trigger] rows[j]).message_id && rows[i].user_id == rows[j].user_id)
        &&& forall|message_id: Seq<char>, user_id: Seq<char>|
            ids.contains(message_id) && #[trigger] self.reactions.contains_key(
                (message_id, user_id),
            ) ==> exists|i: int|
                0 <= i < rows.len() && (#[trigger] rows[i]).message_id == message_id
                    && rows[i].user_id == user_id
    }
}

/// A reaction round trip. Once a user's reaction on a message is stored,
/// the reactions on that message are what they were, with that emoji for
/// that user: on a message without reactions, that one entry alone. A
/// second reaction of the same user replaces the first. Removing the
/// reaction leaves no entry for the user.
pub proof fn lemma_reaction_round_trip(
    store: Store,
    message_id: Seq<char>,
    user_id: Seq<char>,
    emoji: Seq<char>,
    second: Seq<char>,
)
    ensures
        store.after(
            StoreRequestView::AddReaction { message_id, user_id, emoji },
        ).reactions_of(message_id) == store.reactions_of(message_id).insert(user_id, emoji),
        store.reactions_of(message_id) == Map::<Seq<char>, Seq<char>>::empty() ==> store.after(
            StoreRequestView::AddReaction { message_id, user_id, emoji },
        ).reactions_of(message_id) == Map::<Seq<char>, Seq<char>>::empty().insert(user_id, emoji),
        store.after(StoreRequestView::AddReaction { message_id, user_id, emoji }).after(
            StoreRequestView::AddReaction { message_id, user_id, emoji: second },
        ).reactions_of(message_id) == store.reactions_of(message_id).insert(user_id, second),
        store.after(StoreRequestView::AddReaction { message_id, user_id, emoji }).after(
            StoreRequestView::RemoveReaction { message_id, user_id },
        ).reactions_of(message_id) == store.reactions_of(message_id).remove(user_id),
        !store.after(StoreRequestView::AddReaction { message_id, user_id, emoji }).after(
            StoreRequestView::RemoveReaction { message_id, user_id },
        ).reactions_of(message_id).contains_key(user_id),
{
    let added = store.after(StoreRequestView::AddReaction { message_id, user_id, emoji });
    let again = added.after(StoreRequestView::AddReaction { message_id, user_id, emoji: second });
    let removed = added.after(StoreRequestView::RemoveReaction { message_id, user_id });
    assert(added.reactions_of(message_id) =~= store.reactions_of(message_id).insert(
        user_id,
        emoji,
    ));
    assert(again.reactions_of(message_id) =~= store.reactions_of(message_id).insert(
        user_id,
        second,
    ));
    assert(removed.reactions_of(message_id) =~= store.reactions_of(message_id).remove(user_id));
}

/// Reactions on other messages stay as they are when a reaction is stored
/// or removed on one message.
pub proof fn lemma_reaction_is_local(
    store: Store,
    message_id: Seq<char>,
    user_id: Seq<char>,
    emoji: Seq<char>,
    other: Seq<char>,
)
    requires
        other != message_id,
    ensures
        store.after(
            StoreRequestView::AddReaction { message_id, user_id, emoji },
        ).reactions_of(other) == store.reactions_of(other),
        store.after(StoreRequestView::RemoveReaction { message_id, user_id }).reactions_of(other)
            == store.reactions_of(other),
{
    assert(store.after(
        StoreRequestView::AddReaction { message_id, user_id, emoji },
    ).reactions_of(other) =~= store.reactions_of(other));
    assert(store.after(StoreRequestView::RemoveReaction { message_id, user_id }).reactions_of(
        other,
    ) =~= store.reactions_of(other));
}

/// The rows that the gateway fetches for a batch of messages give each of
/// these messages the reactions that the store holds on it.
pub proof fn lemma_fetched_reactions(
    store: Store,
    rows: Seq<DbReactionView>,
    ids: Set<Seq<char>>,
    message_id: Seq<char>,
)
    requires
        store.lists_reactions(rows, ids),
        ids.contains(message_id),
    ensures
        reactions_on(rows, message_id) == store.reactions_of(message_id),
{
    lemma_reactions_on(rows, message_id);
    let held = store.reactions_of(message_id);
    let given = reactions_on(rows, message_id);
    assert forall|user_id: Seq<char>| given.contains_key(user_id) <==> held.contains_key(
        user_id,
    ) by {
        if held.contains_key(user_id) {
            assert(store.reactions.contains_key((message_id, user_id)));
        }
    }
    assert forall|user_id: Seq<char>| given.contains_key(user_id) implies given[user_id]
        == held[user_id] by {
        let i = choose|i: int|
            0 <= i < rows.len() && (#[trigger] rows[i]).message_id == message_id && rows[i].user_id
                == user_id && given[user_id] == rows[i].emoji;
        assert(store.reactions[(rows[i].message_id, rows[i].user_id)] == rows[i].emoji);
    }
    assert(given =~= held);
}

/// What rows give a message: a user has a reaction exactly if a row of that
/// message names the user, and the emoji is that of such a row.
proof fn lemma_reactions_on(rows: Seq<DbReactionView>, message_id: Seq<char>)
    ensures
        forall|user_id: Seq<char>|
            reactions_on(rows, message_id).contains_key(user_id) <==> exists|i: int|
                0 <= i < rows.len() && (#[trigger] rows[i]).message_id == message_id
                    && rows[i].user_id == user_id,
        forall|user_id: Seq<char>|
            #![trigger reactions_on(rows, message_id)[user_id]]
            reactions_on(rows, message_id).contains_key(user_id) ==> exists|i: int|
                0 <= i < rows.len() && (#[trigger] rows[i]).message_id == message_id
                    && rows[i].user_id == user_id && reactions_on(rows, message_id)[user_id]
                    == rows[i].emoji,
    decreases rows.len(),
{
    if rows.len() > 0 {
        let front = rows.drop_last();
        let last = rows.last();
        lemma_reactions_on(front, message_id);
        let n = rows.len() as int;
        assert(rows[n - 1] == last);
        assert forall|user_id: Seq<char>|
            reactions_on(rows, message_id).contains_key(user_id) <==> exists|i: int|
                0 <= i < rows.len() && (#[trigger] rows[i]).message_id == message_id
                    && rows[i].user_id == user_id by {
            if reactions_on(rows, message_id).contains_key(user_id) {
                if last.message_id == message_id && last.user_id == user_id {
                    assert(rows[n - 1].message_id == message_id && rows[n - 1].user_id == user_id);
                } else {
                    assert(reactions_on(front, message_id).contains_key(user_id));
                    let i = choose|i: int|
                        0 <= i < front.len() && (#[trigger] front[i]).message_id == message_id
                            && front[i].user_id == user_id;
                    assert(front[i] == rows[i]);
                    assert(rows[i].message_id == message_id && rows[i].user_id == user_id);
                }
            }
            if exists|i: int|
                0 <= i < rows.len() && (#[trigger] rows[i]).message_id == message_id
                    && rows[i].user_id == user_id {
                let i = choose|i: int|
                    0 <= i < rows.len() && (#[trigger] rows[i]).message_id == message_id
                        && rows[i].user_id == user_id;
                if i < front.len() {
                    assert(front[i] == rows[i]);
                    assert(front[i].message_id == message_id && front[i].user_id == user_id);
                    assert(reactions_on(front, message_id).contains_key(user_id));
                } else {
                    assert(rows[i] == last);
                }
                assert(reactions_on(rows, message_id).contains_key(user_id));
            }
        }
        assert forall|user_id: Seq<char>|
            #![trigger reactions_on(rows, message_id)[user_id]]
            reactions_on(rows, message_id).contains_key(user_id) implies exists|i: int|
            0 <= i < rows.len() && (#[trigger] rows[i]).message_id == message_id && rows[i].user_id
                == user_id && reactions_on(rows, message_id)[user_id] == rows[i].emoji by {
            if last.message_id == message_id && last.user_id == user_id {
                assert(rows[n - 1].message_id == message_id && rows[n - 1].user_id == user_id);
            } else {
                assert(reactions_on(front, message_id).contains_key(user_id));
                let i = choose|i: int|
                    0 <= i < front.len() && (#[trigger] front[i]).message_id == message_id
                        && front[i].user_id == user_id && reactions_on(front, message_id)[user_id]
                        == front[i].emoji;
                assert(front[i] == rows[i]);
                assert(rows[i].message_id == message_id && rows[i].user_id == user_id);
            }
        }
    }
}

/// Marking as read is idempotent: a second mark changes nothing, and the
/// message is read after either.
pub proof fn lemma_mark_read_idempotent(store: Store, message_id: Seq<char>)
    ensures
        store.after(StoreRequestView::MarkMessageRead { message_id }).after(
            StoreRequestView::MarkMessageRead { message_id },
        ) == store.after(StoreRequestView::MarkMessageRead { message_id }),
        forall|i: int|
            0 <= i < store.messages.len() && (#[trigger] store.messages[i]).id == message_id
                ==> store.after(StoreRequestView::MarkMessageRead { message_id }).messages[i].read,
{
    let once = store.after(StoreRequestView::MarkMessageRead { message_id });
    let twice = once.after(StoreRequestView::MarkMessageRead { message_id });
    assert(twice.messages =~= once.messages);
}

/// No call deletes a message, changes a message's id, or makes a read
/// message unread.
pub proof fn lemma_messages_persist(store: Store, request: StoreRequestView)
    ensures
        store.after(request).messages.len() >= store.messages.len(),
        forall|i: int|
            0 <= i < store.messages.len() ==> {
                &&& (#[trigger] store.after(request).messages[i]).id == store.messages[i].id
                &&& store.after(request).messages[i] == store.messages[i] || store.after(
                    request,
                ).messages[i] == marked_read(store.messages[i])
                &&& store.messages[i].read ==> store.after(request).messages[i].read
            },
{
}

/// Message ids stay unique.
pub proof fn lemma_ids_stay_unique(store: Store, request: StoreRequestView)
    requires
        store.ids_unique(),
    ensures
        store.after(request).ids_unique(),
{
    lemma_messages_persist(store, request);
    let next = store.after(request);
    assert forall|i: int, j: int| 0 <= i < j < next.messages.len() implies (
    #[trigger] next.messages[i]).id != (#[trigger] next.messages[j]).id by {
        if j < store.messages.len() {
            assert(store.messages[i].id != store.messages[j].id);
        } else {
            assert(store.messages[i].id == next.messages[i].id);
        }
    }
}

/// A message that is saved is part of its conversation, whoever is
/// connected: once the gateway has saved a message under a new id, paging
/// through the history of the sender and the recipient shows it.
pub proof fn lemma_saved_message_is_fetched(
    store: Store,
    message: DbMessageView,
    listing: Seq<DbMessageView>,
    limit: int,
)
    requires
        !store.holds(message.id),
        store.after(StoreRequestView::SaveMessage { message }).lists_conversation(
            listing,
            message.to_user_id,
            message.from_user_id,
        ),
        limit > 0,
    ensures
        store.after(StoreRequestView::SaveMessage { message }).between(
            message.to_user_id,
            message.from_user_id,
        ) == store.between(message.to_user_id, message.from_user_id).push(message),
        paged_from(listing, limit, 0).contains(message),
{
    let a = message.to_user_id;
    let b = message.from_user_id;
    let pred = |m: DbMessageView| runs_between(m, a, b);
    let saved = store.after(StoreRequestView::SaveMessage { message });
    store.messages.lemma_filter_push(message, pred);
    assert(saved.between(a, b) == store.between(a, b).push(message));
    let held = saved.between(a, b);
    assert(held[held.len() - 1] == message);
    assert(held.contains(message));
    held.to_multiset_ensures();
    listing.to_multiset_ensures();
    assert(held.to_multiset().count(message) > 0);
    assert(listing.to_multiset().count(message) > 0);
    assert(listing.contains(message));
    lemma_pagination_complete(listing, limit);
    let i = choose|i: int| 0 <= i < listing.len() && listing[i] == message;
    assert(listing.reverse()[listing.len() - 1 - i] == message);
}

} // verus!
