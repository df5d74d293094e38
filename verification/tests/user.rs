use aibuddy::user::{User, DEFAULT_REQUESTS, HISTORY_LIMIT};

fn sample() -> User {
    User::new_at(7, "Ada".to_string(), Some("ada".to_string()), None, 1_700_000_000)
}

#[test]
fn new_session_has_the_defaults() {
    let user = User::new_at(
        42,
        "Ada".to_string(),
        Some("ada".to_string()),
        Some("https://t.me/ada".to_string()),
        1_700_000_000,
    );
    assert_eq!(user.telegram_id, 42);
    assert_eq!(user.first_name, "Ada");
    assert_eq!(user.username.as_deref(), Some("ada"));
    assert_eq!(user.url.as_deref(), Some("https://t.me/ada"));
    assert_eq!(user.requests_left, 25);
    assert_eq!(user.requests_left, DEFAULT_REQUESTS);
    assert!(user.previous_messages.is_empty());
    assert_eq!(user.last_message, 1_700_000_000);
    assert_eq!(user.total_request, 0);
    assert_eq!(user.created_at, 1_700_000_000);
    assert_eq!(user.pretend, None);
}

#[test]
fn new_session_reads_the_clock() {
    let user = User::new(1, "Ada".to_string(), None, None);
    assert!(user.created_at > 1_600_000_000);
    assert_eq!(user.last_message, user.created_at);
    assert_eq!(user.requests_left, 25);
    assert_eq!(user.total_request, 0);
}

#[test]
fn requests_are_left_unless_the_quota_is_zero() {
    let mut user = sample();
    assert!(user.has_requests_left());
    user.requests_left = 1;
    assert!(user.has_requests_left());
    user.requests_left = 0;
    assert!(!user.has_requests_left());
    user.requests_left = u32::MAX;
    assert!(user.has_requests_left());
}

#[test]
fn each_accepted_request_is_counted_once() {
    let mut user = sample();
    for n in 1..=25u32 {
        assert!(user.has_requests_left());
        user.update_requests();
        assert_eq!(user.total_request, n);
        assert_eq!(user.requests_left, 25 - n);
    }
    assert!(!user.has_requests_left());
    assert_eq!(user.requests_left, 0);
}

#[test]
fn update_requests_touches_the_counters_only() {
    let mut user = sample();
    user.previous_messages = vec!["a".to_string()];
    user.pretend = Some("a pirate".to_string());
    user.update_requests();
    assert_eq!(user.telegram_id, 7);
    assert_eq!(user.previous_messages, vec!["a".to_string()]);
    assert_eq!(user.pretend.as_deref(), Some("a pirate"));
    assert_eq!(user.last_message, 1_700_000_000);
    assert_eq!(user.created_at, 1_700_000_000);
}

#[test]
fn history_keeps_the_last_four_messages() {
    assert_eq!(HISTORY_LIMIT, 4);
    let mut user = sample();
    for (i, text) in ["a", "b", "c", "d", "e", "f"].iter().enumerate() {
        user.update_last_message_at(text.to_string(), 10 + i as i64);
        assert!(user.previous_messages.len() <= HISTORY_LIMIT);
    }
    assert_eq!(
        user.previous_messages,
        vec!["c".to_string(), "d".to_string(), "e".to_string(), "f".to_string()]
    );
    assert_eq!(user.last_message, 15);
    assert_eq!(user.created_at, 1_700_000_000);
}

#[test]
fn update_last_message_stamps_the_current_time() {
    let mut user = sample();
    user.update_last_message("hello".to_string());
    assert_eq!(user.previous_messages, vec!["hello".to_string()]);
    assert!(user.last_message > 1_700_000_000);
    assert_eq!(user.created_at, 1_700_000_000);
    assert_eq!(user.requests_left, 25);
}

#[test]
fn clear_history_forgets_the_messages_only() {
    let mut user = sample();
    user.update_last_message_at("a".to_string(), 11);
    user.update_requests();
    user.clear_history();
    assert!(user.previous_messages.is_empty());
    assert_eq!(user.requests_left, 24);
    assert_eq!(user.total_request, 1);
    assert_eq!(user.last_message, 11);
}

#[test]
fn persona_is_set_replaced_and_cleared() {
    let mut user = sample();
    user.set_persona("a pirate".to_string());
    assert_eq!(user.pretend.as_deref(), Some("a pirate"));
    user.set_persona("a poet".to_string());
    assert_eq!(user.pretend.as_deref(), Some("a poet"));
    user.clear_persona();
    assert_eq!(user.pretend, None);
    assert_eq!(user.requests_left, 25);
}
