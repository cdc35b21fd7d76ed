use chat_relay::records::User;
use chat_relay::registry::PresenceRegistry;
use chat_relay::registry::SocketDirectory;
use chat_relay::time::Timestamp;

fn user(id: &str, name: &str, online: bool) -> User {
    User {
        id: id.to_string(),
        username: name.to_string(),
        online,
        last_seen: Timestamp::from_parts(100, 0).unwrap(),
    }
}

fn sorted(mut conns: Vec<u64>) -> Vec<u64> {
    conns.sort();
    conns
}

#[test]
fn a_new_directory_is_empty() {
    let directory = SocketDirectory::new();
    assert_eq!(directory.lookup(&"alice".to_string()), None);
    assert!(directory.connections(&None).is_empty());
}

#[test]
fn register_puts_the_connection_under_the_identity() {
    let mut directory = SocketDirectory::new();
    directory.register("alice".to_string(), 1);
    directory.register("bob".to_string(), 2);
    assert_eq!(directory.lookup(&"alice".to_string()), Some(1));
    assert_eq!(directory.lookup(&"bob".to_string()), Some(2));
    assert_eq!(directory.lookup(&"carol".to_string()), None);
}

#[test]
fn a_second_registration_replaces_the_first() {
    let mut directory = SocketDirectory::new();
    directory.register("alice".to_string(), 1);
    directory.register("alice".to_string(), 5);
    assert_eq!(directory.lookup(&"alice".to_string()), Some(5));
    assert_eq!(directory.connections(&None), vec![5]);
}

#[test]
fn unregister_takes_the_entry_out() {
    let mut directory = SocketDirectory::new();
    directory.register("alice".to_string(), 1);
    directory.register("bob".to_string(), 2);
    directory.unregister(&"alice".to_string());
    assert_eq!(directory.lookup(&"alice".to_string()), None);
    assert_eq!(directory.lookup(&"bob".to_string()), Some(2));
    directory.unregister(&"nobody".to_string());
    assert_eq!(directory.connections(&None), vec![2]);
}

#[test]
fn connections_lists_every_socket_once() {
    let mut directory = SocketDirectory::new();
    directory.register("alice".to_string(), 1);
    directory.register("bob".to_string(), 2);
    directory.register("carol".to_string(), 3);
    assert_eq!(sorted(directory.connections(&None)), vec![1, 2, 3]);
    assert_eq!(sorted(directory.connections(&Some("bob".to_string()))), vec![1, 3]);
    assert_eq!(sorted(directory.connections(&Some("dave".to_string()))), vec![1, 2, 3]);
}

#[test]
fn two_identities_on_one_connection_are_listed_twice() {
    let mut directory = SocketDirectory::new();
    directory.register("alice".to_string(), 4);
    directory.register("bob".to_string(), 4);
    assert_eq!(directory.connections(&None), vec![4, 4]);
}

#[test]
fn a_new_registry_is_empty() {
    let registry = PresenceRegistry::new();
    assert_eq!(registry.get(&"alice".to_string()), None);
    assert!(!registry.is_online(&"alice".to_string()));
    assert!(registry.online_users(&None).is_empty());
}

#[test]
fn record_keeps_the_user_under_its_identity() {
    let mut registry = PresenceRegistry::new();
    registry.record(user("a1", "alice", true));
    assert_eq!(registry.get(&"a1".to_string()), Some(user("a1", "alice", true)));
    assert!(registry.is_online(&"a1".to_string()));
    assert_eq!(registry.get(&"alice".to_string()), None);
}

#[test]
fn record_replaces_an_earlier_record() {
    let mut registry = PresenceRegistry::new();
    registry.record(user("a1", "alice", true));
    registry.record(user("a1", "alicia", false));
    assert_eq!(registry.get(&"a1".to_string()), Some(user("a1", "alicia", false)));
    assert!(!registry.is_online(&"a1".to_string()));
}

#[test]
fn mark_offline_flips_the_flag_and_sets_last_seen() {
    let mut registry = PresenceRegistry::new();
    registry.record(user("a1", "alice", true));
    let later = Timestamp::from_parts(200, 7).unwrap();
    registry.mark_offline(&"a1".to_string(), later);
    let kept = registry.get(&"a1".to_string()).unwrap();
    assert_eq!(kept.id, "a1");
    assert_eq!(kept.username, "alice");
    assert!(!kept.online);
    assert_eq!(kept.last_seen, later);
}

#[test]
fn mark_offline_makes_no_record() {
    let mut registry = PresenceRegistry::new();
    registry.mark_offline(&"ghost".to_string(), Timestamp::from_parts(1, 0).unwrap());
    assert_eq!(registry.get(&"ghost".to_string()), None);
}

#[test]
fn online_users_leaves_out_the_offline_and_the_excepted() {
    let mut registry = PresenceRegistry::new();
    registry.record(user("a1", "alice", true));
    registry.record(user("b1", "bob", true));
    registry.record(user("c1", "carol", false));
    let mut all: Vec<String> = registry.online_users(&None).into_iter().map(|u| u.id).collect();
    all.sort();
    assert_eq!(all, vec!["a1".to_string(), "b1".to_string()]);
    let others = registry.online_users(&Some("a1".to_string()));
    assert_eq!(others, vec![user("b1", "bob", true)]);
}
