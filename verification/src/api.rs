//! What the bulk read surface reports of the accounts: each stored account
//! with its presence.

use crate::records::DbUser;
use crate::records::DbUserView;
use crate::records::User;
use crate::records::UserView;
use crate::registry::PresenceRegistry;
use crate::time::rfc3339_instant;
use crate::time::Timestamp;
use vstd::prelude::*;

verus! {

/// Whether `user` reports the stored `account`: its identity and name, as
/// online exactly if the presence registry holds a record of it that says
/// so, and as last seen at the instant that the account's text denotes,
/// where the text denotes one.
pub open spec fn reports(user: UserView, account: DbUserView, presence: Map<Seq<char>, UserView>) -> bool {
    &&& user.id == account.id
    &&& user.username == account.username
    &&& user.online == (presence.contains_key(account.id) && presence[account.id].online)
    &&& rfc3339_instant(account.last_seen) matches Some(t) ==> user.last_seen == t
}

/// Reports one stored account. Where the account's last-seen text is not
/// RFC 3339, the current instant stands in for it.
pub fn report_user(account: &DbUser, presence: &PresenceRegistry) -> (user: User)
    ensures
        reports(user@, account@, presence@),
{
    User {
        id: account.id.clone(),
        username: account.username.clone(),
        online: presence.is_online(&account.id),
        last_seen: Timestamp::parse_or_now(account.last_seen.as_str()),
    }
}

/// Reports every stored account, in the order in which they were handed
/// over.
pub fn list_users(accounts: &Vec<DbUser>, presence: &PresenceRegistry) -> (users: Vec<User>)
    ensures
        users.len() == accounts.len(),
        forall|i: int|
            0 <= i < accounts.len() ==> reports(#[trigger] users[i]@, accounts[i]@, presence@),
{
    let mut users: Vec<User> = Vec::new();
    let mut i: usize = 0;
    while i < accounts.len()
        invariant
            i <= accounts.len(),
            users.len() == i,
            forall|k: int| 0 <= k < i ==> reports(#[trigger] users[k]@, accounts[k]@, presence@),
        decreases accounts.len() - i,
    {
        users.push(report_user(&accounts[i], presence));
        i += 1;
    }
    users
}

} // verus!
