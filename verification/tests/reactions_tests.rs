use chat_relay::reactions::Reactions;
use chat_relay::records::DbReaction;

fn row(message_id: &str, user_id: &str, emoji: &str) -> DbReaction {
    DbReaction {
        message_id: message_id.to_string(),
        user_id: user_id.to_string(),
        emoji: emoji.to_string(),
    }
}

#[test]
fn new_reactions_are_empty() {
    let reactions = Reactions::new();
    assert!(reactions.entries().is_empty());
    assert_eq!(reactions.get(&"u".to_string()), None);
}

#[test]
fn a_reaction_is_kept_by_user() {
    let reactions = Reactions::new().with_reaction("u".to_string(), "+1".to_string());
    assert_eq!(reactions.get(&"u".to_string()), Some("+1".to_string()));
    assert_eq!(reactions.get(&"v".to_string()), None);
    assert_eq!(reactions.entries().len(), 1);
}

#[test]
fn a_second_reaction_of_a_user_replaces_the_first() {
    let reactions = Reactions::new()
        .with_reaction("u".to_string(), "+1".to_string())
        .with_reaction("v".to_string(), "heart".to_string())
        .with_reaction("u".to_string(), "-1".to_string());
    assert_eq!(reactions.get(&"u".to_string()), Some("-1".to_string()));
    assert_eq!(reactions.get(&"v".to_string()), Some("heart".to_string()));
    assert_eq!(reactions.entries().len(), 2);
}

#[test]
fn from_rows_takes_the_rows_of_one_message() {
    let rows = vec![
        row("m1", "alice", "+1"),
        row("m2", "alice", "fire"),
        row("m1", "bob", "heart"),
    ];
    let on_m1 = Reactions::from_rows(&rows, &"m1".to_string());
    assert_eq!(on_m1.entries().len(), 2);
    assert_eq!(on_m1.get(&"alice".to_string()), Some("+1".to_string()));
    assert_eq!(on_m1.get(&"bob".to_string()), Some("heart".to_string()));
    let on_m2 = Reactions::from_rows(&rows, &"m2".to_string());
    assert_eq!(on_m2.entries().len(), 1);
    assert_eq!(on_m2.get(&"alice".to_string()), Some("fire".to_string()));
    let on_m3 = Reactions::from_rows(&rows, &"m3".to_string());
    assert!(on_m3.entries().is_empty());
}

#[test]
fn from_rows_lets_a_later_row_win() {
    let rows = vec![row("m1", "alice", "+1"), row("m1", "alice", "-1")];
    let on_m1 = Reactions::from_rows(&rows, &"m1".to_string());
    assert_eq!(on_m1.entries().len(), 1);
    assert_eq!(on_m1.get(&"alice".to_string()), Some("-1".to_string()));
}

#[test]
fn a_copy_holds_the_same_reactions() {
    let reactions = Reactions::new()
        .with_reaction("u".to_string(), "+1".to_string())
        .with_reaction("v".to_string(), "heart".to_string());
    let copy = reactions.clone();
    assert_eq!(copy.entries().len(), 2);
    assert_eq!(copy.get(&"u".to_string()), Some("+1".to_string()));
    assert_eq!(copy.get(&"v".to_string()), Some("heart".to_string()));
}

#[test]
fn reactions_are_equal_whatever_their_order() {
    let one = Reactions::new()
        .with_reaction("u".to_string(), "+1".to_string())
        .with_reaction("v".to_string(), "heart".to_string());
    let other = Reactions::new()
        .with_reaction("v".to_string(), "heart".to_string())
        .with_reaction("u".to_string(), "+1".to_string());
    assert_eq!(one, other);
    assert_eq!(Reactions::new(), Reactions::new());
    assert_ne!(one, Reactions::new());
    assert_ne!(one, Reactions::new().with_reaction("u".to_string(), "+1".to_string()));
    let changed = Reactions::new()
        .with_reaction("u".to_string(), "-1".to_string())
        .with_reaction("v".to_string(), "heart".to_string());
    assert_ne!(one, changed);
    let renamed = Reactions::new()
        .with_reaction("u".to_string(), "+1".to_string())
        .with_reaction("w".to_string(), "heart".to_string());
    assert_ne!(one, renamed);
}
