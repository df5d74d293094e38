use aibuddy::openai::{assemble, assemble_with_estimate, ChatMessage, Role};
use aibuddy::tokens::{
    estimate_tokens, fit_to_budget, token_count, ENCODER_TEXT_LIMIT, MESSAGE_CHAR_LIMIT,
    TOKEN_BUDGET,
};
use aibuddy::user::User;

const PERSONA: &str = "You are a friendly assistant.";

fn session() -> User {
    User::new_at(7, "Ada".to_string(), None, None, 1_700_000_000)
}

fn pairs(prompt: &[ChatMessage]) -> Vec<(Role, String)> {
    prompt.iter().map(|message| (message.role, message.content.clone())).collect()
}

#[test]
fn role_names_are_those_of_the_model_interface() {
    assert_eq!(Role::System.as_str(), "system");
    assert_eq!(Role::User.as_str(), "user");
}

#[test]
fn estimate_counts_the_tokens_of_the_text() {
    assert_eq!(estimate_tokens(""), Some(0));
    assert_eq!(estimate_tokens("hello world"), Some(2));
    assert_eq!(estimate_tokens("hello world hello world"), Some(4));
}

#[test]
fn token_count_is_the_length_of_what_the_encoder_gave() {
    assert_eq!(token_count(Some(vec![31373, 995])), Some(2));
    assert_eq!(token_count(Some(Vec::new())), Some(0));
    assert_eq!(token_count(None), None);
}

#[test]
fn estimate_counts_a_special_token_as_one() {
    assert_eq!(estimate_tokens("<|endoftext|>"), Some(1));
}

#[test]
fn estimate_is_the_same_on_every_call() {
    let text = "The quick brown fox jumps over the lazy dog.";
    assert_eq!(estimate_tokens(text), estimate_tokens(text));
}

#[test]
fn message_within_budget_is_sent_whole() {
    let long = "x".repeat(MESSAGE_CHAR_LIMIT + 500);
    assert_eq!(fit_to_budget(&long, Some(TOKEN_BUDGET)), long);
    assert_eq!(fit_to_budget("hi", Some(0)), "hi");
}

#[test]
fn message_over_budget_is_cut_to_the_limit() {
    let long = "x".repeat(MESSAGE_CHAR_LIMIT + 500);
    let sent = fit_to_budget(&long, Some(TOKEN_BUDGET + 1));
    assert_eq!(sent.len(), 11000);
    assert_eq!(sent, "x".repeat(11000));
}

#[test]
fn short_message_over_budget_is_left_as_it_is() {
    assert_eq!(fit_to_budget("short", Some(usize::MAX)), "short");
    let exact = "y".repeat(MESSAGE_CHAR_LIMIT);
    assert_eq!(fit_to_budget(&exact, Some(TOKEN_BUDGET + 1)), exact);
}

#[test]
fn message_of_unknown_cost_is_cut_to_the_limit() {
    let long = "z".repeat(MESSAGE_CHAR_LIMIT + 1);
    assert_eq!(fit_to_budget(&long, None), "z".repeat(MESSAGE_CHAR_LIMIT));
    assert_eq!(fit_to_budget("hi", None), "hi");
}

#[test]
fn cut_falls_between_characters_of_any_width() {
    let long = "é".repeat(MESSAGE_CHAR_LIMIT + 10);
    let sent = fit_to_budget(&long, Some(TOKEN_BUDGET + 1));
    assert_eq!(sent.chars().count(), MESSAGE_CHAR_LIMIT);
    assert_eq!(sent, "é".repeat(MESSAGE_CHAR_LIMIT));
}

#[test]
fn prompt_of_an_empty_session_is_persona_then_message() {
    let prompt = assemble_with_estimate(&session(), "hi", PERSONA, Some(1));
    assert_eq!(
        pairs(&prompt),
        vec![(Role::System, PERSONA.to_string()), (Role::User, "hi".to_string())]
    );
}

#[test]
fn prompt_lists_the_history_oldest_first() {
    let mut user = session();
    user.update_last_message_at("first".to_string(), 1);
    user.update_last_message_at("second".to_string(), 2);
    let prompt = assemble_with_estimate(&user, "third", PERSONA, Some(1));
    assert_eq!(
        pairs(&prompt),
        vec![
            (Role::System, PERSONA.to_string()),
            (Role::User, "first".to_string()),
            (Role::User, "second".to_string()),
            (Role::User, "third".to_string()),
        ]
    );
}

#[test]
fn persona_override_replaces_the_default_until_cleared() {
    let mut user = session();
    user.set_persona("You are a pirate.".to_string());
    let prompt = assemble_with_estimate(&user, "hi", PERSONA, Some(1));
    assert_eq!(prompt[0].role, Role::System);
    assert_eq!(prompt[0].content, "You are a pirate.");

    user.update_requests();
    user.update_last_message_at("hi".to_string(), 5);
    let prompt = assemble_with_estimate(&user, "again", PERSONA, Some(1));
    assert_eq!(prompt[0].content, "You are a pirate.");

    user.clear_persona();
    let prompt = assemble_with_estimate(&user, "again", PERSONA, Some(1));
    assert_eq!(prompt[0].role, Role::System);
    assert_eq!(prompt[0].content, PERSONA);
}

#[test]
fn only_the_new_message_is_cut() {
    let old = "o".repeat(MESSAGE_CHAR_LIMIT + 100);
    let mut user = session();
    user.update_last_message_at(old.clone(), 1);
    let new = "n".repeat(MESSAGE_CHAR_LIMIT + 100);
    let prompt = assemble_with_estimate(&user, &new, PERSONA, Some(TOKEN_BUDGET + 1));
    assert_eq!(prompt.len(), 3);
    assert_eq!(prompt[1].content, old);
    assert_eq!(prompt[2].role, Role::User);
    assert_eq!(prompt[2].content, "n".repeat(MESSAGE_CHAR_LIMIT));
    assert_eq!(user.previous_messages, vec![old]);
}

#[test]
fn assemble_leaves_a_short_message_whole() {
    let prompt = assemble(&session(), "how are you", PERSONA);
    assert_eq!(
        pairs(&prompt),
        vec![(Role::System, PERSONA.to_string()), (Role::User, "how are you".to_string())]
    );
}

#[test]
fn assemble_cuts_a_message_that_costs_too_much() {
    let costly = "hello world ".repeat(2000);
    assert_eq!(estimate_tokens(&costly), Some(4001));
    let prompt = assemble(&session(), &costly, PERSONA);
    let expected: String = costly.chars().take(MESSAGE_CHAR_LIMIT).collect();
    assert_eq!(prompt.len(), 2);
    assert_eq!(prompt[1].content, expected);
    assert_eq!(prompt[1].content.chars().count(), 11000);
}

#[test]
fn assemble_goes_by_the_cost_and_not_by_the_length() {
    let cheap = " ".repeat(MESSAGE_CHAR_LIMIT + 1000);
    let estimate = estimate_tokens(&cheap).expect("the text is within the encoder's limit");
    assert!(estimate <= TOKEN_BUDGET);
    let prompt = assemble(&session(), &cheap, PERSONA);
    assert_eq!(prompt[1].content, cheap);
}

#[test]
fn estimate_is_given_up_to_the_encoder_limit() {
    let words = "ab ".repeat(ENCODER_TEXT_LIMIT / 3);
    assert!(words.chars().count() <= ENCODER_TEXT_LIMIT);
    assert_eq!(words.chars().count(), 99_999);
    assert_eq!(estimate_tokens(&words), Some(33_334));
    let full = format!("{words}c");
    assert_eq!(full.chars().count(), ENCODER_TEXT_LIMIT);
    assert!(estimate_tokens(&full).is_some());
}

#[test]
fn estimate_of_a_text_over_the_encoder_limit_is_none() {
    let long = "ab ".repeat(ENCODER_TEXT_LIMIT / 3 + 1);
    assert_eq!(long.chars().count(), ENCODER_TEXT_LIMIT + 2);
    assert_eq!(estimate_tokens(&long), None);
    let run = "a".repeat(1_200_000);
    assert_eq!(estimate_tokens(&run), None);
}

#[test]
fn estimate_counts_characters_and_not_bytes_against_the_limit() {
    let wide = "é ".repeat(ENCODER_TEXT_LIMIT / 2);
    assert_eq!(wide.chars().count(), ENCODER_TEXT_LIMIT);
    assert!(wide.len() > ENCODER_TEXT_LIMIT);
    assert!(estimate_tokens(&wide).is_some());
}

#[test]
fn estimate_of_a_long_run_of_one_letter() {
    let run = "a".repeat(20_000);
    let estimate = estimate_tokens(&run).expect("the text is within the encoder's limit");
    assert!(estimate >= 1);
    assert!(estimate <= 20_000);
}

#[test]
fn assemble_cuts_a_message_over_the_encoder_limit() {
    let long = "ab ".repeat(ENCODER_TEXT_LIMIT / 3 + 1);
    let prompt = assemble(&session(), &long, PERSONA);
    let expected: String = long.chars().take(MESSAGE_CHAR_LIMIT).collect();
    assert_eq!(prompt[1].content, expected);
}

#[test]
fn assemble_sends_a_long_message_within_budget_whole() {
    let mut user = session();
    user.update_last_message_at("earlier".to_string(), 1);
    let cheap = " ".repeat(MESSAGE_CHAR_LIMIT * 2);
    let estimate = estimate_tokens(&cheap).expect("the text is within the encoder's limit");
    assert!(estimate <= TOKEN_BUDGET);
    let prompt = assemble(&user, &cheap, PERSONA);
    assert_eq!(prompt.len(), 3);
    assert_eq!(prompt[1].content, "earlier");
    assert_eq!(prompt[2].content, cheap);
    assert_eq!(prompt[2].content.chars().count(), 22_000);
}
