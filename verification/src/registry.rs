//! The two shared registries of the relay: who is present, and which
//! connection currently speaks for each identity. Both are kept in a
//! `dashmap::DashMap`.
//!
//! A registry changes only through `&mut`, and what is said of it here
//! holds while nobody else changes the map underneath: sessions that share
//! a hub take turns at it.

use crate::records::User;
use crate::records::UserView;
use crate::time::Timestamp;
use dashmap::DashMap;
use vstd::prelude::*;

verus! {

/// `dashmap::DashMap`, a concurrent hash map. The verifier sees nothing
/// inside it: what a map holds is known only through the names and the
/// operations below.
#[verifier::external_type_specification]
#[verifier::external_body]
#[verifier::reject_recursive_types(K)]
#[verifier::reject_recursive_types(V)]
#[verifier::reject_recursive_types(S)]
pub struct ExDashMap<K, V, S>(DashMap<K, V, S>);

/// What a presence map holds: for each identity in it, the record kept
/// under that identity.
pub uninterp spec fn presence_entries(map: DashMap<String, User>) -> Map<Seq<char>, UserView>;

/// What a socket map holds: for each identity in it, the connection kept
/// under that identity.
pub uninterp spec fn socket_entries(map: DashMap<String, u64>) -> Map<Seq<char>, u64>;

/// Whether `ids` names every member of `members` once, and nothing else.
pub open spec fn enumerates(ids: Seq<Seq<char>>, members: Set<Seq<char>>) -> bool {
    &&& ids.no_duplicates()
    &&& forall|id: Seq<char>| members.contains(id) <==> ids.contains(id)
}

/// `DashMap::new`: a map that holds nothing.
#[verifier::external_body]
fn presence_map_new() -> (created: DashMap<String, User>)
    ensures
        forall|id: Seq<char>| !presence_entries(created).contains_key(id),
{
    DashMap::new()
}

/// `DashMap::insert`: the record stands under the key afterwards, in place
/// of any record that stood there; the other entries stay.
#[verifier::external_body]
fn presence_map_insert(map: &mut DashMap<String, User>, key: String, record: User)
    ensures
        presence_entries(*final(map)) == presence_entries(*old(map)).insert(key@, record@),
{
    map.insert(key, record);
}

/// `DashMap::get`: a copy of the record under the key, if there is one.
#[verifier::external_body]
fn presence_map_get(map: &DashMap<String, User>, key: &String) -> (found: Option<User>)
    ensures
        match found {
            Some(record) => presence_entries(*map).contains_key(key@) && presence_entries(
                *map,
            )[key@] == record@,
            None => !presence_entries(*map).contains_key(key@),
        },
{
    map.get(key).map(|entry| entry.value().clone())
}

/// `DashMap::iter`, keeping a copy of each key: every key of the map once,
/// in no order that can be relied on.
#[verifier::external_body]
fn presence_map_keys(map: &DashMap<String, User>) -> (keys: Vec<String>)
    ensures
        enumerates(keys.deep_view(), presence_entries(*map).dom()),
{
    map.iter().map(|entry| entry.key().clone()).collect()
}

/// `DashMap::new`: a map that holds nothing.
#[verifier::external_body]
fn socket_map_new() -> (created: DashMap<String, u64>)
    ensures
        forall|id: Seq<char>| !socket_entries(created).contains_key(id),
{
    DashMap::new()
}

/// `DashMap::insert`: the connection stands under the key afterwards, in
/// place of any connection that stood there; the other entries stay.
#[verifier::external_body]
fn socket_map_insert(map: &mut DashMap<String, u64>, key: String, conn: u64)
    ensures
        socket_entries(*final(map)) == socket_entries(*old(map)).insert(key@, conn),
{
    map.insert(key, conn);
}

/// `DashMap::remove`: the key holds nothing afterwards; the other entries
/// stay.
#[verifier::external_body]
fn socket_map_remove(map: &mut DashMap<String, u64>, key: &String)
    ensures
        socket_entries(*final(map)) == socket_entries(*old(map)).remove(key@),
{
    map.remove(key);
}

/// `DashMap::get`: the connection under the key, if there is one.
#[verifier::external_body]
fn socket_map_get(map: &DashMap<String, u64>, key: &String) -> (found: Option<u64>)
    ensures
        match found {
            Some(conn) => socket_entries(*map).contains_key(key@) && socket_entries(*map)[key@]
                == conn,
            None => !socket_entries(*map).contains_key(key@),
        },
{
    map.get(key).map(|entry| *entry.value())
}

/// `DashMap::iter`, keeping a copy of each key: every key of the map once,
/// in no order that can be relied on.
#[verifier::external_body]
fn socket_map_keys(map: &DashMap<String, u64>) -> (keys: Vec<String>)
    ensures
        enumerates(keys.deep_view(), socket_entries(*map).dom()),
{
    map.iter().map(|entry| entry.key().clone()).collect()
}

/// Whether `users` is a snapshot of every online record of `presence` but
/// the one of `except`: each such record once, in some order.
pub open spec fn is_snapshot(
    users: Seq<UserView>,
    presence: Map<Seq<char>, UserView>,
    except: Option<Seq<char>>,
) -> bool {
    &&& forall|i: int|
        0 <= i < users.len() ==> {
            &&& presence.contains_key((#[trigger] users[i]).id)
            &&& presence[users[i].id] == users[i]
            &&& users[i].online
            &&& except != Some(users[i].id)
        }
    &&& forall|i: int, j: int|
        0 <= i < j < users.len() ==> (#[trigger] users[i]).id != (#[trigger] users[j]).id
    &&& forall|id: Seq<char>|
        #![trigger presence[id]]
        presence.contains_key(id) && presence[id].online && except != Some(id) ==> exists|
            i: int,
        |
            0 <= i < users.len() && (#[trigger] users[i]).id == id
}

/// Whether `conns` holds, for each identity of `ids` in turn, the connection
/// that `sockets` keeps for it, and `ids` names every identity of `sockets`
/// once.
pub open spec fn lists_sockets(
    ids: Seq<Seq<char>>,
    conns: Seq<u64>,
    sockets: Map<Seq<char>, u64>,
) -> bool {
    &&& enumerates(ids, sockets.dom())
    &&& conns.len() == ids.len()
    &&& forall|i: int| 0 <= i < ids.len() ==> #[trigger] conns[i] == sockets[ids[i]]
}

/// Whether `conns` is a fan-out over `sockets`: the connection of every
/// registered identity, once for each identity, in some order.
pub open spec fn is_fanout(conns: Seq<u64>, sockets: Map<Seq<char>, u64>) -> bool {
    exists|ids: Seq<Seq<char>>| lists_sockets(ids, conns, sockets)
}

/// The presence registry: one record for each identity seen since the
/// process started, kept under that identity.
pub struct PresenceRegistry {
    map: DashMap<String, User>,
}

impl View for PresenceRegistry {
    type V = Map<Seq<char>, UserView>;

    /// The records by identity. A record's identity is the one it is kept
    /// under.
    closed spec fn view(&self) -> Map<Seq<char>, UserView> {
        Map::new(
            |id: Seq<char>| presence_entries(self.map).contains_key(id),
            |id: Seq<char>|
                UserView {
                    id,
                    username: presence_entries(self.map)[id].username,
                    online: presence_entries(self.map)[id].online,
                    last_seen: presence_entries(self.map)[id].last_seen,
                },
        )
    }
}

impl PresenceRegistry {
    /// Every record names the identity that it is kept under.
    pub proof fn lemma_records_name_their_key(&self)
        ensures
            forall|id: Seq<char>| #[trigger] self@.contains_key(id) ==> self@[id].id == id,
    {
    }

    /// A registry without records.
    pub fn new() -> (registry: PresenceRegistry)
        ensures
            registry@ == Map::<Seq<char>, UserView>::empty(),
    {
        PresenceRegistry { map: presence_map_new() }
    }

    /// Keeps `user` as the record of its identity, in place of any earlier
    /// record.
    pub fn record(&mut self, user: User)
        ensures
            final(self)@ == old(self)@.insert(user.id@, user@),
    {
        let key = user.id.clone();
        presence_map_insert(&mut self.map, key, user);
    }

    /// A copy of the record of `id`, if there is one.
    pub fn get(&self, id: &String) -> (found: Option<User>)
        ensures
            match found {
                Some(user) => self@.contains_key(id@) && self@[id@] == user@,
                None => !self@.contains_key(id@),
            },
    {
        match presence_map_get(&self.map, id) {
            Some(kept) => Some(
                User {
                    id: id.clone(),
                    username: kept.username,
                    online: kept.online,
                    last_seen: kept.last_seen,
                },
            ),
            None => None,
        }
    }

    /// Whether `id` has a record that says it is online.
    pub fn is_online(&self, id: &String) -> (online: bool)
        ensures
            online == (self@.contains_key(id@) && self@[id@].online),
    {
        match presence_map_get(&self.map, id) {
            Some(kept) => kept.online,
            None => false,
        }
    }

    /// Marks `id` as offline and last seen at `now`. An identity without a
    /// record stays without one.
    pub fn mark_offline(&mut self, id: &String, now: Timestamp)
        ensures
            final(self)@ == gone_offline(old(self)@, id@, now),
    {
        match presence_map_get(&self.map, id) {
            Some(kept) => {
                let offline = User {
                    id: id.clone(),
                    username: kept.username,
                    online: false,
                    last_seen: now,
                };
                presence_map_insert(&mut self.map, id.clone(), offline);
            },
            None => {},
        }
    }

    /// A snapshot of the online records, without the record of `except`.
    pub fn online_users(&self, except: &Option<String>) -> (users: Vec<User>)
        ensures
            is_snapshot(users.deep_view(), self@, crate::records::text_opt(*except)),
    {
        let keys = presence_map_keys(&self.map);
        let ghost ids = keys.deep_view();
        let ghost skip = crate::records::text_opt(*except);
        let mut users: Vec<User> = Vec::new();
        let mut i: usize = 0;
        while i < keys.len()
            invariant
                i <= keys.len(),
                ids == keys.deep_view(),
                skip == crate::records::text_opt(*except),
                enumerates(ids, self@.dom()),
                forall|a: int|
                    0 <= a < users.len() ==> {
                        &&& self@.contains_key((#[trigger] users.deep_view()[a]).id)
                        &&& self@[users.deep_view()[a].id] == users.deep_view()[a]
                        &&& users.deep_view()[a].online
                        &&& skip != Some(users.deep_view()[a].id)
                        &&& exists|k: int| 0 <= k < i && ids[k] == users.deep_view()[a].id
                    },
                forall|a: int, b: int|
                    0 <= a < b < users.len() ==> (#[trigger] users.deep_view()[a]).id != (
                    #[trigger] users.deep_view()[b]).id,
                forall|k: int|
                    0 <= k < i && self@[#[trigger] ids[k]].online && skip != Some(ids[k])
                        ==> exists|a: int|
                        0 <= a < users.len() && (#[trigger] users.deep_view()[a]).id == ids[k],
            decreases keys.len() - i,
        {
            let key = &keys[i];
            assert(ids[i as int] == key@);
            assert(ids.contains(key@));
            let skipped = match except {
                Some(e) => *e == *key,
                None => false,
            };
            assert(skipped == (skip == Some(key@)));
            match self.get(key) {
                Some(user) => {
                    if user.online && !skipped {
                        let ghost before = users.deep_view();
                        assert(user@.id == key@);
                        assert forall|a: int| 0 <= a < before.len() implies (
                        #[trigger] before[a]).id != key@ by {
                            let k = choose|k: int| 0 <= k < i && ids[k] == before[a].id;
                            assert(ids[k] != ids[i as int]);
                        }
                        users.push(user);
                        assert(users.deep_view() =~= before.push(user@));
                        assert(ids[i as int] == users.deep_view()[before.len() as int].id);
                        assert forall|k: int|
                            0 <= k < i + 1 && self@[#[trigger] ids[k]].online && skip != Some(
                                ids[k],
                            ) implies exists|a: int|
                            0 <= a < users.len() && (#[trigger] users.deep_view()[a]).id
                                == ids[k] by {
                            if k < i {
                                let a = choose|a: int|
                                    0 <= a < before.len() && (#[trigger] before[a]).id == ids[k];
                                assert(users.deep_view()[a].id == ids[k]);
                            } else {
                                assert(users.deep_view()[before.len() as int].id == ids[k]);
                            }
                        }
                    }
                },
                None => {},
            }
            i += 1;
        }
        proof {
            let shown = users.deep_view();
            assert forall|id: Seq<char>|
                #![trigger self@[id]]
                self@.contains_key(id) && self@[id].online && skip != Some(id) implies exists|
                a: int,
            |
                0 <= a < shown.len() && (#[trigger] shown[a]).id == id by {
                assert(ids.contains(id));
                let k = choose|k: int| 0 <= k < ids.len() && ids[k] == id;
                assert(self@[ids[k]].online);
            }
        }
        users
    }
}

/// The records after `id` has gone offline at `now`.
pub open spec fn gone_offline(
    presence: Map<Seq<char>, UserView>,
    id: Seq<char>,
    now: Timestamp,
) -> Map<Seq<char>, UserView> {
    if presence.contains_key(id) {
        presence.insert(
            id,
            UserView { id: presence[id].id, username: presence[id].username, online: false, last_seen: now },
        )
    } else {
        presence
    }
}

/// The socket directory: for each identity, the one connection that
/// currently receives what is sent to it.
pub struct SocketDirectory {
    map: DashMap<String, u64>,
}

impl View for SocketDirectory {
    type V = Map<Seq<char>, u64>;

    closed spec fn view(&self) -> Map<Seq<char>, u64> {
        socket_entries(self.map)
    }
}

impl SocketDirectory {
    /// A directory without entries.
    pub fn new() -> (directory: SocketDirectory)
        ensures
            directory@ == Map::<Seq<char>, u64>::empty(),
    {
        SocketDirectory { map: socket_map_new() }
    }

    /// Makes `conn` the connection of `id`, in place of any earlier one.
    pub fn register(&mut self, id: String, conn: u64)
        ensures
            final(self)@ == old(self)@.insert(id@, conn),
    {
        socket_map_insert(&mut self.map, id, conn);
    }

    /// Takes the entry of `id` out, whichever connection it names.
    pub fn unregister(&mut self, id: &String)
        ensures
            final(self)@ == old(self)@.remove(id@),
    {
        socket_map_remove(&mut self.map, id);
    }

    /// The connection of `id`, if it has one.
    pub fn lookup(&self, id: &String) -> (found: Option<u64>)
        ensures
            match found {
                Some(conn) => self@.contains_key(id@) && self@[id@] == conn,
                None => !self@.contains_key(id@),
            },
    {
        socket_map_get(&self.map, id)
    }

    /// The connection of every registered identity, without that of
    /// `except`.
    pub fn connections(&self, except: &Option<String>) -> (conns: Vec<u64>)
        ensures
            is_fanout(conns@, without(self@, crate::records::text_opt(*except))),
    {
        let keys = socket_map_keys(&self.map);
        let ghost ids = keys.deep_view();
        let ghost skip = crate::records::text_opt(*except);
        let ghost mut taken: Seq<Seq<char>> = Seq::empty();
        let mut conns: Vec<u64> = Vec::new();
        let mut i: usize = 0;
        while i < keys.len()
            invariant
                i <= keys.len(),
                ids == keys.deep_view(),
                skip == crate::records::text_opt(*except),
                enumerates(ids, self@.dom()),
                taken.len() == conns.len(),
                taken.no_duplicates(),
                forall|a: int|
                    0 <= a < taken.len() ==> {
                        &&& self@.contains_key(#[trigger] taken[a])
                        &&& skip != Some(taken[a])
                        &&& conns[a] == self@[taken[a]]
                        &&& exists|k: int| 0 <= k < i && ids[k] == taken[a]
                    },
                forall|k: int| 0 <= k < i && skip != Some(#[trigger] ids[k]) ==> taken.contains(ids[k]),
            decreases keys.len() - i,
        {
            let key = &keys[i];
            assert(ids[i as int] == key@);
            assert(ids.contains(key@));
            let skipped = match except {
                Some(e) => *e == *key,
                None => false,
            };
            if !skipped {
                match socket_map_get(&self.map, key) {
                    Some(conn) => {
                        let ghost before = taken;
                        assert forall|a: int| 0 <= a < before.len() implies #[trigger] before[a]
                            != key@ by {
                            let k = choose|k: int| 0 <= k < i && ids[k] == before[a];
                            assert(ids[k] != ids[i as int]);
                        }
                        conns.push(conn);
                        proof {
                            taken = taken.push(key@);
                            assert(taken[before.len() as int] == ids[i as int]);
                            assert forall|k: int|
                                0 <= k < i + 1 && skip != Some(#[trigger] ids[k]) implies taken.contains(
                                ids[k],
                            ) by {
                                if k < i {
                                    let a = choose|a: int|
                                        0 <= a < before.len() && before[a] == ids[k];
                                    assert(taken[a] == ids[k]);
                                } else {
                                    assert(taken[before.len() as int] == ids[k]);
                                }
                            }
                        }
                    },
                    None => {},
                }
            }
            i += 1;
        }
        proof {
            let kept = without(self@, skip);
            assert forall|id: Seq<char>| kept.dom().contains(id) <==> taken.contains(id) by {
                if kept.dom().contains(id) {
                    assert(ids.contains(id));
                    let k = choose|k: int| 0 <= k < ids.len() && ids[k] == id;
                    assert(taken.contains(ids[k]));
                }
            }
            assert(lists_sockets(taken, conns@, kept));
        }
        conns
    }
}

/// The sockets without the entry of `except`.
pub open spec fn without(sockets: Map<Seq<char>, u64>, except: Option<Seq<char>>) -> Map<
    Seq<char>,
    u64,
> {
    match except {
        Some(id) => sockets.remove(id),
        None => sockets,
    }
}

} // verus!
