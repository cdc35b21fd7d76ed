use chat_relay::events::ServerEvent;
use chat_relay::history::history_event;
use chat_relay::history::message_ids;
use chat_relay::history::more_remain;
use chat_relay::history::page_bounds;
use chat_relay::history::with_reactions;
use chat_relay::history::DEFAULT_LIMIT;
use chat_relay::records::DbMessage;
use chat_relay::records::DbReaction;

fn stored(id: &str, from: &str, to: &str, content: &str, secs: u32) -> DbMessage {
    DbMessage {
        id: id.to_string(),
        from_user_id: from.to_string(),
        to_user_id: to.to_string(),
        content: content.to_string(),
        timestamp: format!("2024-01-01T00:00:{:02}+00:00", secs),
        read: false,
        file_data: None,
        file_name: None,
        file_type: None,
        audio_duration: None,
    }
}

fn reaction(message_id: &str, user_id: &str, emoji: &str) -> DbReaction {
    DbReaction {
        message_id: message_id.to_string(),
        user_id: user_id.to_string(),
        emoji: emoji.to_string(),
    }
}

#[test]
fn page_bounds_default_to_fifty_from_the_start() {
    assert_eq!(DEFAULT_LIMIT, 50);
    assert_eq!(page_bounds(None, None), (50, 0));
    assert_eq!(page_bounds(Some(10), None), (10, 0));
    assert_eq!(page_bounds(None, Some(20)), (50, 20));
    assert_eq!(page_bounds(Some(-1), Some(-5)), (-1, -5));
}

#[test]
fn more_remain_exactly_when_the_page_ends_before_the_total() {
    assert!(more_remain(50, 0, 51));
    assert!(!more_remain(50, 0, 50));
    assert!(!more_remain(50, 0, 0));
    assert!(more_remain(2, 2, 5));
    assert!(!more_remain(2, 4, 5));
    assert!(!more_remain(2, 3, 5));
}

#[test]
fn more_remain_does_not_wrap() {
    assert!(!more_remain(i32::MAX, i32::MAX, i32::MAX));
    assert!(!more_remain(i32::MAX, 1, 0));
    assert!(more_remain(i32::MIN, i32::MIN, 0));
}

#[test]
fn message_ids_keep_the_order() {
    let rows = vec![stored("m3", "a", "b", "x", 3), stored("m1", "b", "a", "y", 1)];
    assert_eq!(message_ids(&rows), vec!["m3".to_string(), "m1".to_string()]);
    assert!(message_ids(&Vec::new()).is_empty());
}

#[test]
fn with_reactions_keeps_the_order_and_attaches_reactions() {
    let rows = vec![stored("m2", "a", "b", "second", 2), stored("m1", "b", "a", "first", 1)];
    let reactions = vec![reaction("m1", "a", "+1"), reaction("m9", "a", "fire")];
    let messages = with_reactions(rows, &reactions);
    assert_eq!(messages.len(), 2);
    assert_eq!(messages[0].id, "m2");
    assert_eq!(messages[0].content, "second");
    assert!(messages[0].reactions.entries().is_empty());
    assert_eq!(messages[1].id, "m1");
    assert_eq!(messages[1].from_user_id, "b");
    assert_eq!(messages[1].to_user_id, "a");
    assert_eq!(messages[1].reactions.get(&"a".to_string()), Some("+1".to_string()));
    assert_eq!(messages[1].timestamp.secs(), 1_704_067_201);
}

#[test]
fn history_event_turns_the_page_oldest_first() {
    let rows = vec![
        stored("m3", "a", "b", "three", 3),
        stored("m2", "b", "a", "two", 2),
        stored("m1", "a", "b", "one", 1),
    ];
    let reactions = vec![reaction("m3", "b", "heart")];
    let event = history_event(rows, &reactions, 7, 3, 0);
    match event {
        ServerEvent::MessageHistory { messages, total_count, has_more } => {
            let ids: Vec<&str> = messages.iter().map(|m| m.id.as_str()).collect();
            assert_eq!(ids, vec!["m1", "m2", "m3"]);
            assert_eq!(total_count, 7);
            assert!(has_more);
            assert_eq!(messages[2].reactions.get(&"b".to_string()), Some("heart".to_string()));
            assert!(messages[0].reactions.entries().is_empty());
        }
        other => panic!("not a history page: {:?}", other),
    }
}

#[test]
fn the_last_page_says_that_no_more_remain() {
    let rows = vec![stored("m1", "a", "b", "one", 1)];
    let event = history_event(rows, &Vec::new(), 7, 3, 6);
    match event {
        ServerEvent::MessageHistory { messages, total_count, has_more } => {
            assert_eq!(messages.len(), 1);
            assert_eq!(total_count, 7);
            assert!(!has_more);
        }
        other => panic!("not a history page: {:?}", other),
    }
}
