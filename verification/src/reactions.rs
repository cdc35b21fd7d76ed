//! The reactions on one message: at most one emoji per user.

use crate::records::DbReaction;
use crate::records::DbReactionView;
use vstd::prelude::*;
use vstd::set_lib::lemma_subset_equality;
use vstd::std_specs::cmp::PartialEqSpecImpl;

verus! {

/// One user's emoji.
#[derive(Debug, PartialEq, Eq)]
pub struct Reaction {
    pub user_id: String,
    pub emoji: String,
}

/// The value of a [`Reaction`].
pub struct ReactionView {
    pub user_id: Seq<char>,
    pub emoji: Seq<char>,
}

impl View for Reaction {
    type V = ReactionView;

    open spec fn view(&self) -> ReactionView {
        ReactionView { user_id: self.user_id@, emoji: self.emoji@ }
    }
}

impl DeepView for Reaction {
    type V = ReactionView;

    open spec fn deep_view(&self) -> ReactionView {
        self@
    }
}

impl Clone for Reaction {
    fn clone(&self) -> (copy: Reaction)
        ensures
            copy == *self,
    {
        Reaction { user_id: self.user_id.clone(), emoji: self.emoji.clone() }
    }
}

/// The reactions that stored rows give to the message `message_id`: the rows
/// of that message taken in order, a later row of a user replacing an
/// earlier one.
pub open spec fn reactions_on(rows: Seq<DbReactionView>, message_id: Seq<char>) -> Map<
    Seq<char>,
    Seq<char>,
>
    decreases rows.len(),
{
    if rows.len() == 0 {
        Map::empty()
    } else if rows.last().message_id == message_id {
        reactions_on(rows.drop_last(), message_id).insert(rows.last().user_id, rows.last().emoji)
    } else {
        reactions_on(rows.drop_last(), message_id)
    }
}

/// Whether no user occurs twice.
pub open spec fn distinct_users(entries: Seq<ReactionView>) -> bool {
    forall|i: int, j: int|
        0 <= i < j < entries.len() ==> (#[trigger] entries[i]).user_id != (
        #[trigger] entries[j]).user_id
}

/// The map from user to emoji that a list of reactions without repeated
/// users stands for.
pub open spec fn emoji_by_user(entries: Seq<ReactionView>) -> Map<Seq<char>, Seq<char>> {
    Map::new(
        |user: Seq<char>| exists|i: int| 0 <= i < entries.len() && entries[i].user_id == user,
        |user: Seq<char>|
            entries[choose|i: int| 0 <= i < entries.len() && entries[i].user_id == user].emoji,
    )
}

/// The reactions on one message, keyed by user.
#[derive(Debug)]
pub struct Reactions {
    entries: Vec<Reaction>,
}

impl View for Reactions {
    type V = Map<Seq<char>, Seq<char>>;

    closed spec fn view(&self) -> Map<Seq<char>, Seq<char>> {
        emoji_by_user(self.entries.deep_view())
    }
}

impl Clone for Reactions {
    fn clone(&self) -> (copy: Reactions)
        ensures
            copy@ == self@,
    {
        proof {
            use_type_invariant(self);
        }
        let mut entries: Vec<Reaction> = Vec::new();
        let mut i: usize = 0;
        while i < self.entries.len()
            invariant
                i <= self.entries.len(),
                entries.deep_view() == self.entries.deep_view().take(i as int),
            decreases self.entries.len() - i,
        {
            let ghost before = entries.deep_view();
            entries.push(self.entries[i].clone());
            assert(entries.deep_view() =~= before.push(self.entries[i as int]@));
            assert(self.entries.deep_view().take(i + 1) =~= before.push(self.entries[i as int]@));
            i += 1;
        }
        assert(self.entries.deep_view().take(i as int) =~= self.entries.deep_view());
        Reactions { entries }
    }
}

/// A list without repeated users stands for as many entries as it has, and
/// each of its items is the entry of its user.
proof fn lemma_entries(entries: Seq<ReactionView>)
    requires
        distinct_users(entries),
    ensures
        emoji_by_user(entries).dom().finite(),
        emoji_by_user(entries).dom().len() == entries.len(),
        forall|i: int|
            0 <= i < entries.len() ==> emoji_by_user(entries).contains_key(
                (#[trigger] entries[i]).user_id,
            ) && emoji_by_user(entries)[entries[i].user_id] == entries[i].emoji,
    decreases entries.len(),
{
    assert forall|i: int| 0 <= i < entries.len() implies emoji_by_user(entries).contains_key(
        (#[trigger] entries[i]).user_id,
    ) && emoji_by_user(entries)[entries[i].user_id] == entries[i].emoji by {
        let k = choose|k: int| 0 <= k < entries.len() && entries[k].user_id == entries[i].user_id;
        assert(k == i);
    }
    if entries.len() == 0 {
        assert(emoji_by_user(entries).dom() =~= Set::<Seq<char>>::empty());
    } else {
        let front = entries.drop_last();
        let last = entries.last();
        assert forall|i: int, j: int| 0 <= i < j < front.len() implies (
        #[trigger] front[i]).user_id != (#[trigger] front[j]).user_id by {
            assert(front[i] == entries[i]);
            assert(front[j] == entries[j]);
        }
        lemma_entries(front);
        assert(!emoji_by_user(front).dom().contains(last.user_id)) by {
            if emoji_by_user(front).dom().contains(last.user_id) {
                let k = choose|k: int| 0 <= k < front.len() && front[k].user_id == last.user_id;
                assert(front[k] == entries[k]);
                assert(entries[k].user_id != entries[entries.len() - 1].user_id);
            }
        }
        assert(emoji_by_user(entries).dom() =~= emoji_by_user(front).dom().insert(last.user_id)) by {
            assert forall|user: Seq<char>|
                emoji_by_user(entries).dom().contains(user) <==> emoji_by_user(front).dom().insert(
                    last.user_id,
                ).contains(user) by {
                if emoji_by_user(entries).dom().contains(user) {
                    let k = choose|k: int| 0 <= k < entries.len() && entries[k].user_id == user;
                    if k < front.len() {
                        assert(front[k] == entries[k]);
                    }
                }
                if emoji_by_user(front).dom().contains(user) {
                    let k = choose|k: int| 0 <= k < front.len() && front[k].user_id == user;
                    assert(front[k] == entries[k]);
                }
                if user == last.user_id {
                    assert(entries[entries.len() - 1].user_id == user);
                }
            }
        }
    }
}

impl PartialEq for Reactions {
    /// Whether the two hold the same emoji for the same users, in whatever
    /// order.
    fn eq(&self, other: &Reactions) -> (same: bool) {
        proof {
            use_type_invariant(self);
            use_type_invariant(other);
            lemma_entries(self.entries.deep_view());
            lemma_entries(other.entries.deep_view());
        }
        if self.entries.len() != other.entries.len() {
            return false;
        }
        let ghost mine = self.entries.deep_view();
        let mut i: usize = 0;
        while i < self.entries.len()
            invariant
                i <= self.entries.len(),
                mine == self.entries.deep_view(),
                forall|k: int|
                    0 <= k < mine.len() ==> self@.contains_key((#[trigger] mine[k]).user_id)
                        && self@[mine[k].user_id] == mine[k].emoji,
                forall|k: int|
                    0 <= k < i ==> other@.contains_key((#[trigger] mine[k]).user_id)
                        && other@[mine[k].user_id] == mine[k].emoji,
            decreases self.entries.len() - i,
        {
            assert(mine[i as int] == self.entries[i as int]@);
            match other.get(&self.entries[i].user_id) {
                Some(emoji) => {
                    if !(emoji == self.entries[i].emoji) {
                        assert(self@[mine[i as int].user_id] != other@[mine[i as int].user_id]);
                        return false;
                    }
                },
                None => {
                    assert(self@.contains_key(mine[i as int].user_id));
                    return false;
                },
            }
            i += 1;
        }
        proof {
            assert(self@.dom().subset_of(other@.dom())) by {
                assert forall|user: Seq<char>| self@.dom().contains(user) implies other@.dom().contains(
                    user,
                ) by {
                    let k = choose|k: int| 0 <= k < mine.len() && mine[k].user_id == user;
                    assert(other@.contains_key(mine[k].user_id));
                }
            }
            lemma_subset_equality(self@.dom(), other@.dom());
            assert forall|user: Seq<char>| self@.contains_key(user) implies self@[user]
                == other@[user] by {
                let k = choose|k: int| 0 <= k < mine.len() && mine[k].user_id == user;
                assert(other@[mine[k].user_id] == mine[k].emoji);
            }
            assert(self@ =~= other@);
        }
        true
    }
}

impl PartialEqSpecImpl for Reactions {
    open spec fn obeys_eq_spec() -> bool {
        true
    }

    open spec fn eq_spec(&self, other: &Reactions) -> bool {
        self@ == other@
    }
}

impl Reactions {
    #[verifier::type_invariant]
    spec fn well_formed(self) -> bool {
        distinct_users(self.entries.deep_view())
    }

    /// No reactions.
    pub fn new() -> (empty: Reactions)
        ensures
            empty@ == Map::<Seq<char>, Seq<char>>::empty(),
    {
        Reactions { entries: Vec::new() }
    }

    /// The position of a user's reaction.
    fn position(&self, user_id: &String) -> (found: Option<usize>)
        ensures
            match found {
                Some(i) => i < self.entries.len() && self.entries[i as int].user_id@ == user_id@,
                None => forall|i: int|
                    0 <= i < self.entries.len() ==> self.entries[i].user_id@ != user_id@,
            },
    {
        let mut i: usize = 0;
        while i < self.entries.len()
            invariant
                i <= self.entries.len(),
                forall|k: int| 0 <= k < i ==> self.entries[k].user_id@ != user_id@,
            decreases self.entries.len() - i,
        {
            if self.entries[i].user_id == *user_id {
                return Some(i);
            }
            i += 1;
        }
        None
    }

    /// These reactions with `emoji` as the reaction of `user_id`, in place of
    /// any earlier one.
    pub fn with_reaction(self, user_id: String, emoji: String) -> (updated: Reactions)
        ensures
            updated@ == self@.insert(user_id@, emoji@),
    {
        proof {
            use_type_invariant(&self);
        }
        let ghost before = self.entries.deep_view();
        let ghost added = ReactionView { user_id: user_id@, emoji: emoji@ };
        let found = self.position(&user_id);
        let mut entries = self.entries;
        match found {
            Some(i) => {
                entries.set(i, Reaction { user_id, emoji });
                assert(entries.deep_view() =~= before.update(i as int, added));
            },
            None => {
                entries.push(Reaction { user_id, emoji });
                assert(entries.deep_view() =~= before.push(added));
            },
        }
        proof {
            let after = entries.deep_view();
            assert forall|a: int, b: int| 0 <= a < b < after.len() implies (
            #[trigger] after[a]).user_id != (#[trigger] after[b]).user_id by {
                if a < before.len() {
                    assert(after[a].user_id == before[a].user_id || after[a] == added);
                }
                if b < before.len() {
                    assert(after[b].user_id == before[b].user_id || after[b] == added);
                }
            }
            lemma_entries(before);
            lemma_entries(after);
            assert forall|user: Seq<char>| #[trigger]
                emoji_by_user(before).insert(added.user_id, added.emoji).contains_key(
                    user,
                ) implies emoji_by_user(after).contains_key(user) && emoji_by_user(after)[user]
                == emoji_by_user(before).insert(added.user_id, added.emoji)[user] by {
                if user == added.user_id {
                    let at = match found {
                        Some(i) => i as int,
                        None => before.len() as int,
                    };
                    assert(after[at] == added);
                } else {
                    let k = choose|k: int| 0 <= k < before.len() && before[k].user_id == user;
                    assert(after[k] == before[k]);
                }
            }
            assert forall|user: Seq<char>| #[trigger]
                emoji_by_user(after).contains_key(user) implies emoji_by_user(before).insert(
                added.user_id,
                added.emoji,
            ).contains_key(user) by {
                let k = choose|k: int| 0 <= k < after.len() && after[k].user_id == user;
                if user != added.user_id {
                    assert(after[k] == before[k]);
                }
            }
            assert(emoji_by_user(after) =~= emoji_by_user(before).insert(
                added.user_id,
                added.emoji,
            ));
        }
        Reactions { entries }
    }

    /// The emoji of `user_id`, if that user has reacted.
    pub fn get(&self, user_id: &String) -> (found: Option<String>)
        ensures
            match found {
                Some(emoji) => self@.contains_key(user_id@) && self@[user_id@] == emoji@,
                None => !self@.contains_key(user_id@),
            },
    {
        proof {
            use_type_invariant(self);
        }
        let ghost entries = self.entries.deep_view();
        match self.position(user_id) {
            Some(i) => {
                assert(entries[i as int].user_id == user_id@);
                let ghost k = choose|k: int|
                    0 <= k < entries.len() && entries[k].user_id == user_id@;
                assert(k == i);
                Some(self.entries[i].emoji.clone())
            },
            None => {
                assert forall|k: int| 0 <= k < entries.len() implies entries[k].user_id
                    != user_id@ by {
                    assert(entries[k].user_id == self.entries[k].user_id@);
                }
                None
            },
        }
    }

    /// The reactions as a list, one entry per user, and no user twice.
    pub fn entries(&self) -> (entries: &Vec<Reaction>)
        ensures
            distinct_users(entries.deep_view()),
            emoji_by_user(entries.deep_view()) == self@,
    {
        proof {
            use_type_invariant(self);
        }
        &self.entries
    }

    /// The reactions that `rows` give to the message `message_id`.
    pub fn from_rows(rows: &Vec<DbReaction>, message_id: &String) -> (reactions: Reactions)
        ensures
            reactions@ == reactions_on(rows.deep_view(), message_id@),
    {
        let mut reactions = Reactions::new();
        let mut i: usize = 0;
        while i < rows.len()
            invariant
                i <= rows.len(),
                reactions@ == reactions_on(rows.deep_view().take(i as int), message_id@),
            decreases rows.len() - i,
        {
            let ghost before = rows.deep_view().take(i as int);
            let ghost next = rows.deep_view().take(i + 1);
            assert(next.drop_last() =~= before);
            assert(next.last() == rows[i as int]@);
            if rows[i].message_id == *message_id {
                reactions = reactions.with_reaction(rows[i].user_id.clone(), rows[i].emoji.clone());
            }
            i += 1;
        }
        assert(rows.deep_view().take(rows.len() as int) =~= rows.deep_view());
        reactions
    }
}

} // verus!
