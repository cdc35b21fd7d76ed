//! Pages of message history: what a page shows, whether more remain, and
//! why paging to the end shows everything once.

use crate::events::ServerEvent;
use crate::events::ServerEventView;
use crate::message::shown;
use crate::message::ChatMessage;
use crate::message::ChatMessageView;
use crate::reactions::reactions_on;
use crate::reactions::Reactions;
use crate::records::DbMessage;
use crate::records::DbMessageView;
use crate::records::DbReaction;
use crate::records::DbReactionView;
use crate::time::rfc3339_instant;
use vstd::prelude::*;

verus! {

/// The page size where a client names none.
pub const DEFAULT_LIMIT: i32 = 50;

/// Whether messages remain beyond the page of `limit` messages at `offset`,
/// out of `total` in all.
pub open spec fn has_more(limit: int, offset: int, total: int) -> bool {
    offset + limit < total
}

/// The ids of stored messages, in order.
pub open spec fn ids_of(rows: Seq<DbMessageView>) -> Seq<Seq<char>> {
    Seq::new(rows.len(), |i: int| rows[i].id)
}

/// Whether `message` shows the stored `row` with the reactions that
/// `reactions` give it. Its timestamp is the instant that the stored text
/// denotes, where the text denotes one.
pub open spec fn shows_row(
    message: ChatMessageView,
    row: DbMessageView,
    reactions: Seq<DbReactionView>,
) -> bool {
    &&& message == shown(row, message.timestamp, reactions_on(reactions, row.id))
    &&& rfc3339_instant(row.timestamp) matches Some(t) ==> message.timestamp == t
}

/// Whether `messages` shows `rows`, one for one and in the same order.
pub open spec fn shows(
    messages: Seq<ChatMessageView>,
    rows: Seq<DbMessageView>,
    reactions: Seq<DbReactionView>,
) -> bool {
    &&& messages.len() == rows.len()
    &&& forall|i: int|
        0 <= i < rows.len() ==> shows_row(#[trigger] messages[i], rows[i], reactions)
}

/// The limit and offset of a page request, with their defaults: 50
/// messages, from the newest on.
pub fn page_bounds(limit: Option<i32>, offset: Option<i32>) -> (bounds: (i32, i32))
    ensures
        bounds.0 == (match limit {
            Some(l) => l,
            None => DEFAULT_LIMIT,
        }),
        bounds.1 == (match offset {
            Some(o) => o,
            None => 0i32,
        }),
{
    let limit = match limit {
        Some(l) => l,
        None => DEFAULT_LIMIT,
    };
    let offset = match offset {
        Some(o) => o,
        None => 0,
    };
    (limit, offset)
}

/// Whether messages remain beyond a page.
pub fn more_remain(limit: i32, offset: i32, total_count: i32) -> (more: bool)
    ensures
        more == has_more(limit as int, offset as int, total_count as int),
{
    (offset as i64) + (limit as i64) < (total_count as i64)
}

/// The ids of stored messages, in order.
pub fn message_ids(rows: &Vec<DbMessage>) -> (ids: Vec<String>)
    ensures
        ids.deep_view() == ids_of(rows.deep_view()),
{
    let mut ids: Vec<String> = Vec::new();
    let mut i: usize = 0;
    while i < rows.len()
        invariant
            i <= rows.len(),
            ids.len() == i,
            forall|k: int| 0 <= k < i ==> #[trigger] ids[k]@ == rows[k].id@,
        decreases rows.len() - i,
    {
        ids.push(rows[i].id.clone());
        i += 1;
    }
    ids
}

/// The same items, last first.
fn reversed<T>(items: Vec<T>) -> (turned: Vec<T>)
    ensures
        turned@ == items@.reverse(),
{
    let ghost all = items@;
    let mut items = items;
    let mut turned: Vec<T> = Vec::new();
    while items.len() > 0
        invariant
            items.len() <= all.len(),
            items@ == all.take(items.len() as int),
            turned.len() == all.len() - items.len(),
            forall|k: int| 0 <= k < turned.len() ==> #[trigger] turned[k] == all[all.len() - 1 - k],
        decreases items.len(),
    {
        match items.pop() {
            Some(item) => {
                turned.push(item);
            },
            None => {},
        }
    }
    turned
}

/// Shows stored messages, last row first.
fn shown_backwards(rows: Vec<DbMessage>, reactions: &Vec<DbReaction>) -> (messages: Vec<
    ChatMessage,
>)
    ensures
        shows(messages.deep_view(), rows.deep_view().reverse(), reactions.deep_view()),
{
    let ghost all = rows.deep_view();
    let ghost given = reactions.deep_view();
    let mut rows = rows;
    let mut messages: Vec<ChatMessage> = Vec::new();
    while rows.len() > 0
        invariant
            given == reactions.deep_view(),
            rows.len() <= all.len(),
            rows.deep_view() == all.take(rows.len() as int),
            messages.len() == all.len() - rows.len(),
            forall|k: int|
                0 <= k < messages.len() ==> shows_row(
                    #[trigger] messages.deep_view()[k],
                    all[all.len() - 1 - k],
                    given,
                ),
        decreases rows.len(),
    {
        let n = rows.len();
        let ghost before = messages.deep_view();
        let ghost held = rows.deep_view();
        let last = rows.pop();
        match last {
            Some(row) => {
                assert(row@ == held[n - 1]);
                let on_row = Reactions::from_rows(reactions, &row.id);
                let message = ChatMessage::from_stored(row, Some(on_row));
                messages.push(message);
                assert(messages.deep_view() =~= before.push(message@));
            },
            None => {},
        }
    }
    messages
}

/// Shows stored messages in the order in which they were handed over, each
/// with the reactions that `reactions` give it.
pub fn with_reactions(rows: Vec<DbMessage>, reactions: &Vec<DbReaction>) -> (messages: Vec<
    ChatMessage,
>)
    ensures
        shows(messages.deep_view(), rows.deep_view(), reactions.deep_view()),
{
    shown_backwards(reversed(rows), reactions)
}

/// The history page that a client is sent: the fetched rows, which come
/// newest first, shown oldest first; the total; and whether more remain.
pub fn history_event(
    rows: Vec<DbMessage>,
    reactions: &Vec<DbReaction>,
    total_count: i32,
    limit: i32,
    offset: i32,
) -> (event: ServerEvent)
    ensures
        is_history(
            event@,
            rows.deep_view(),
            reactions.deep_view(),
            total_count,
            limit as int,
            offset as int,
        ),
{
    let messages = shown_backwards(rows, reactions);
    let has_more = more_remain(limit, offset, total_count);
    ServerEvent::MessageHistory { messages, total_count, has_more }
}

/// Whether `event` is the history page for these fetched rows.
pub open spec fn is_history(
    event: ServerEventView,
    rows: Seq<DbMessageView>,
    reactions: Seq<DbReactionView>,
    total_count: i32,
    limit: int,
    offset: int,
) -> bool {
    &&& event matches ServerEventView::MessageHistory { messages, total_count: total, has_more: more }
    &&& shows(messages, rows.reverse(), reactions)
    &&& total == total_count
    &&& more == has_more(limit, offset, total_count as int)
}

/// The page that the gateway is to fetch from `listing`, the messages of a
/// conversation newest first: at most `limit` messages after skipping
/// `offset`.
pub open spec fn page_of<A>(listing: Seq<A>, limit: int, offset: int) -> Seq<A>
    recommends
        limit >= 0,
        offset >= 0,
{
    if offset >= listing.len() {
        Seq::empty()
    } else if offset + limit >= listing.len() {
        listing.subrange(offset, listing.len() as int)
    } else {
        listing.subrange(offset, offset + limit)
    }
}

/// Everything that a client has once it has fetched the page at `offset`
/// and, as long as more remain, the page after it, and so on: each page
/// turned oldest first, an older page in front of a newer one.
pub open spec fn paged_from<A>(listing: Seq<A>, limit: int, offset: int) -> Seq<A>
    recommends
        limit > 0,
        offset >= 0,
    decreases listing.len() - offset,
{
    if limit > 0 && offset >= 0 && has_more(limit, offset, listing.len() as int) {
        paged_from(listing, limit, offset + limit) + page_of(listing, limit, offset).reverse()
    } else {
        page_of(listing, limit, offset).reverse()
    }
}

/// Paging from `offset` to the end gives every message from `offset` on.
proof fn lemma_paged_from<A>(listing: Seq<A>, limit: int, offset: int)
    requires
        limit > 0,
        0 <= offset,
    ensures
        paged_from(listing, limit, offset) == page_of(
            listing,
            listing.len() as int,
            offset,
        ).reverse(),
    decreases listing.len() - offset,
{
    let n = listing.len() as int;
    if has_more(limit, offset, n) {
        lemma_paged_from(listing, limit, offset + limit);
        let first = listing.subrange(offset, offset + limit);
        let later = listing.subrange(offset + limit, n);
        assert(listing.subrange(offset, n) =~= first + later);
    }
}

/// Pagination is complete: for the `listing` of a conversation, newest
/// first, fetching pages of `limit` messages at offsets 0, `limit`, twice
/// `limit` and so on, until a page says that no more remain, and putting
/// each older page in front, gives every message of the conversation once,
/// oldest first.
pub proof fn lemma_pagination_complete<A>(listing: Seq<A>, limit: int)
    requires
        limit > 0,
    ensures
        paged_from(listing, limit, 0) == listing.reverse(),
        paged_from(listing, limit, 0).len() == listing.len(),
        listing.no_duplicates() ==> paged_from(listing, limit, 0).no_duplicates(),
        forall|i: int|
            0 <= i < listing.len() ==> #[trigger] paged_from(listing, limit, 0)[i]
                == listing[listing.len() - 1 - i],
{
    lemma_paged_from(listing, limit, 0);
    let turned = listing.reverse();
    if listing.no_duplicates() {
        assert forall|i: int, j: int| 0 <= i < turned.len() && 0 <= j < turned.len() && i
            != j implies turned[i] != turned[j] by {
            assert(turned[i] == listing[listing.len() - 1 - i]);
            assert(turned[j] == listing[listing.len() - 1 - j]);
        }
    }
}

} // verus!
