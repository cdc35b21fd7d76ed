use chat_relay::api::list_users;
use chat_relay::api::report_user;
use chat_relay::message::ChatMessage;
use chat_relay::reactions::Reactions;
use chat_relay::records::copy_text_opt;
use chat_relay::records::read_column;
use chat_relay::records::read_flag;
use chat_relay::records::DbMessage;
use chat_relay::records::DbReaction;
use chat_relay::records::DbUser;
use chat_relay::records::User;
use chat_relay::registry::PresenceRegistry;
use chat_relay::router::compose_message;
use chat_relay::router::present_user;
use chat_relay::sql::batch_placeholders;
use chat_relay::time::Timestamp;

fn account(id: &str, name: &str, last_seen: &str) -> DbUser {
    DbUser {
        id: id.to_string(),
        username: name.to_string(),
        password_hash: "hash".to_string(),
        created_at: "2024-01-01T00:00:00+00:00".to_string(),
        last_seen: last_seen.to_string(),
    }
}

#[test]
fn read_flag_is_set_by_any_number_but_zero() {
    assert!(!read_flag(0));
    assert!(read_flag(1));
    assert!(read_flag(-1));
    assert!(read_flag(7));
}

#[test]
fn read_column_is_one_or_zero() {
    assert_eq!(read_column(true), 1);
    assert_eq!(read_column(false), 0);
    assert!(read_flag(read_column(true)));
    assert!(!read_flag(read_column(false)));
}

#[test]
fn copy_text_opt_copies() {
    assert_eq!(copy_text_opt(&Some("x".to_string())), Some("x".to_string()));
    assert_eq!(copy_text_opt(&None), None);
}

#[test]
fn a_created_account_was_last_seen_when_it_was_created() {
    let now = Timestamp::from_parts(1_431_648_000, 0).unwrap();
    let made = DbUser::created("id1".to_string(), "alice".to_string(), "h".to_string(), &now);
    assert_eq!(made.id, "id1");
    assert_eq!(made.username, "alice");
    assert_eq!(made.password_hash, "h");
    assert_eq!(made.created_at, "2015-05-15T00:00:00+00:00");
    assert_eq!(made.last_seen, "2015-05-15T00:00:00+00:00");
}

#[test]
fn copies_of_records_are_equal() {
    let a = account("id1", "alice", "2024-01-01T00:00:00+00:00");
    assert_eq!(a.clone(), a);
    let r = DbReaction { message_id: "m".to_string(), user_id: "u".to_string(), emoji: "e".to_string() };
    assert_eq!(r.clone(), r);
    let u = present_user("id1".to_string(), "alice".to_string(), Timestamp::from_parts(5, 0).unwrap());
    assert_eq!(u.clone(), u);
    assert!(u.online);
}

#[test]
fn a_composed_message_is_unread_and_without_reactions() {
    let now = Timestamp::from_parts(10, 0).unwrap();
    let message = compose_message(
        "m1".to_string(),
        now,
        "a".to_string(),
        "b".to_string(),
        "hi".to_string(),
        Some("ZGF0YQ==".to_string()),
        Some("note.txt".to_string()),
        Some("text/plain".to_string()),
        Some(2.5f64.to_bits()),
    );
    assert_eq!(message.id, "m1");
    assert_eq!(message.from_user_id, "a");
    assert_eq!(message.to_user_id, "b");
    assert_eq!(message.content, "hi");
    assert_eq!(message.timestamp, now);
    assert!(!message.read);
    assert_eq!(message.file_data.as_deref(), Some("ZGF0YQ=="));
    assert_eq!(message.file_name.as_deref(), Some("note.txt"));
    assert_eq!(message.file_type.as_deref(), Some("text/plain"));
    assert_eq!(message.audio_duration.map(f64::from_bits), Some(2.5));
    assert!(message.reactions.entries().is_empty());
}

#[test]
fn a_message_goes_to_its_stored_form_and_back() {
    let now = Timestamp::from_parts(1_431_648_000, 0).unwrap();
    let message = compose_message(
        "m1".to_string(),
        now,
        "a".to_string(),
        "b".to_string(),
        "hi".to_string(),
        None,
        None,
        None,
        Some(1.25f64.to_bits()),
    );
    let stored = message.to_stored();
    assert_eq!(
        stored,
        DbMessage {
            id: "m1".to_string(),
            from_user_id: "a".to_string(),
            to_user_id: "b".to_string(),
            content: "hi".to_string(),
            timestamp: "2015-05-15T00:00:00+00:00".to_string(),
            read: false,
            file_data: None,
            file_name: None,
            file_type: None,
            audio_duration: Some(1.25f64.to_bits()),
        }
    );
    let reactions = Reactions::new().with_reaction("b".to_string(), "+1".to_string());
    let back = ChatMessage::from_stored(stored.clone(), Some(reactions));
    assert_eq!(back.id, "m1");
    assert_eq!(back.timestamp, now);
    assert_eq!(back.content, "hi");
    assert_eq!(back.audio_duration, Some(1.25f64.to_bits()));
    assert_eq!(back.reactions.get(&"b".to_string()), Some("+1".to_string()));
    let bare = ChatMessage::from_stored(stored, None);
    assert!(bare.reactions.entries().is_empty());
    let copy = back.clone();
    assert_eq!(copy.id, back.id);
    assert_eq!(copy.timestamp, back.timestamp);
    assert_eq!(copy.reactions.get(&"b".to_string()), Some("+1".to_string()));
}

#[test]
fn a_stored_message_with_a_bad_timestamp_is_shown_as_of_now() {
    let before = Timestamp::now();
    let stored = DbMessage {
        id: "m1".to_string(),
        from_user_id: "a".to_string(),
        to_user_id: "b".to_string(),
        content: "hi".to_string(),
        timestamp: "garbled".to_string(),
        read: true,
        file_data: None,
        file_name: None,
        file_type: None,
        audio_duration: None,
    };
    let shown = ChatMessage::from_stored(stored, None);
    assert!(shown.timestamp.secs() >= before.secs());
    assert!(shown.read);
}

#[test]
fn report_user_derives_the_online_flag_from_presence() {
    let mut presence = PresenceRegistry::new();
    presence.record(User {
        id: "a1".to_string(),
        username: "alice".to_string(),
        online: true,
        last_seen: Timestamp::from_parts(9, 0).unwrap(),
    });
    presence.record(User {
        id: "b1".to_string(),
        username: "bob".to_string(),
        online: false,
        last_seen: Timestamp::from_parts(9, 0).unwrap(),
    });
    let alice = report_user(&account("a1", "alice", "1970-01-01T00:00:05Z"), &presence);
    assert_eq!(
        alice,
        User {
            id: "a1".to_string(),
            username: "alice".to_string(),
            online: true,
            last_seen: Timestamp::from_parts(5, 0).unwrap(),
        }
    );
    let bob = report_user(&account("b1", "bob", "1970-01-01T00:00:06Z"), &presence);
    assert!(!bob.online);
    let carol = report_user(&account("c1", "carol", "1970-01-01T00:00:07Z"), &presence);
    assert!(!carol.online);
    assert_eq!(carol.last_seen.secs(), 7);
}

#[test]
fn list_users_reports_every_account_in_order() {
    let mut presence = PresenceRegistry::new();
    presence.record(User {
        id: "b1".to_string(),
        username: "bob".to_string(),
        online: true,
        last_seen: Timestamp::from_parts(9, 0).unwrap(),
    });
    let accounts = vec![
        account("a1", "alice", "1970-01-01T00:00:05Z"),
        account("b1", "bob", "1970-01-01T00:00:06Z"),
    ];
    let users = list_users(&accounts, &presence);
    assert_eq!(users.len(), 2);
    assert_eq!(users[0].id, "a1");
    assert!(!users[0].online);
    assert_eq!(users[1].id, "b1");
    assert!(users[1].online);
    assert_eq!(users[1].last_seen.secs(), 6);
    assert!(list_users(&Vec::new(), &presence).is_empty());
}

#[test]
fn batch_placeholders_are_question_marks_with_commas() {
    assert_eq!(batch_placeholders(0), None);
    assert_eq!(batch_placeholders(1), Some("?".to_string()));
    assert_eq!(batch_placeholders(2), Some("?,?".to_string()));
    assert_eq!(batch_placeholders(5), Some("?,?,?,?,?".to_string()));
}
