use aibuddy::bot::{
    admin_notice, command_argument, is_summary_request, pretend_argument, pretend_notice,
    status_notice, status_of, summary_request,
};
use aibuddy::openai::{chat_reply, image_reply, read_reply};
use aibuddy::user::User;

#[test]
fn command_argument_is_the_text_without_the_command() {
    assert_eq!(command_argument("/ask what is Rust?", "/ask"), "what is Rust?");
    assert_eq!(command_argument("/ask", "/ask"), "");
    assert_eq!(command_argument("/ask    ", "/ask"), "");
    assert_eq!(command_argument("  /request dark mode \n", "/request"), "dark mode");
    assert_eq!(command_argument("/ask why /ask twice", "/ask"), "why  twice");
    assert_eq!(command_argument("/imagine a cat", "/ask"), "/imagine a cat");
}

#[test]
fn pretend_argument_keeps_the_rest_as_it_is() {
    assert_eq!(pretend_argument("/pretend to be a pirate"), "to be a pirate");
    assert_eq!(pretend_argument("/pretend  spaced "), " spaced ");
    assert_eq!(pretend_argument("/pretend"), "/pretend");
}

#[test]
fn pretend_notice_quotes_the_persona() {
    assert_eq!(pretend_notice("to be a pirate"), "From now on, I'll pretend \"to be a pirate\"");
}

#[test]
fn summary_request_names_the_page_and_its_text() {
    assert_eq!(
        summary_request("https://example.com", "Some text"),
        "Summarize the following content in a list, ignoring any mentions of subscribing to a newspaper or magazine. ---- \nUrl: \"https://example.com\". \n\n Content: \n\"Some text\""
    );
}

#[test]
fn summary_is_asked_for_by_a_leading_link() {
    assert!(is_summary_request(Some(0)));
    assert!(!is_summary_request(Some(5)));
    assert!(!is_summary_request(None));
}

#[test]
fn admin_notice_names_the_user_or_anon() {
    assert_eq!(
        admin_notice(Some("ada"), "tg://user/?id=7", "dark mode"),
        "New request from user:\n[ada](tg://user/?id=7)\n**Request**:\ndark mode"
    );
    assert_eq!(
        admin_notice(None, "tg://user/?id=7", "dark mode"),
        "New request from user:\n[Anon](tg://user/?id=7)\n**Request**:\ndark mode"
    );
}

#[test]
fn status_notice_counts_the_requests() {
    assert_eq!(
        status_notice(12, "2015-05-15 00:00:00 UTC"),
        "You have preformed 12 requests since 2015-05-15 00:00:00 UTC."
    );
}

#[test]
fn status_of_a_user_prints_the_time_of_creation() {
    let mut user = User::new_at(7, "Ada".to_string(), None, None, 1_431_648_000);
    assert_eq!(
        status_of(&user),
        Some("You have preformed 0 requests since 2015-05-15 00:00:00 UTC.".to_string())
    );
    user.update_requests();
    user.update_requests();
    assert_eq!(
        status_of(&user),
        Some("You have preformed 2 requests since 2015-05-15 00:00:00 UTC.".to_string())
    );
    user.created_at = 0;
    assert_eq!(
        status_of(&user),
        Some("You have preformed 2 requests since 1970-01-01 00:00:00 UTC.".to_string())
    );
}

#[test]
fn status_of_a_time_out_of_range_is_none() {
    let user = User::new_at(7, "Ada".to_string(), None, None, i64::MAX);
    assert_eq!(status_of(&user), None);
}

#[test]
fn chat_reply_hands_out_the_first_choice() {
    let body = r#"{"id":"x","choices":[{"index":0,"message":{"role":"assistant","content":"Hello there"}},{"message":{"content":"second"}}]}"#;
    assert_eq!(chat_reply(body), Some(Ok("Hello there".to_string())));
}

#[test]
fn chat_reply_hands_out_the_error_message() {
    let body = r#"{"error":{"message":"Incorrect API key","type":"invalid_request_error"}}"#;
    assert_eq!(chat_reply(body), Some(Err("Incorrect API key".to_string())));
    let both = r#"{"error":{"message":"overloaded"},"choices":[{"message":{"content":"Hi"}}]}"#;
    assert_eq!(chat_reply(both), Some(Err("overloaded".to_string())));
}

#[test]
fn chat_reply_without_answer_or_error_is_none() {
    assert_eq!(chat_reply("not json"), None);
    assert_eq!(chat_reply("{}"), None);
    assert_eq!(chat_reply(r#"{"choices":[]}"#), None);
    assert_eq!(chat_reply(r#"{"choices":[{"message":{"content":5}}]}"#), None);
    assert_eq!(chat_reply(r#"{"error":{"message":null},"choices":[]}"#), None);
}

#[test]
fn image_reply_hands_out_the_address_or_the_error() {
    let body = r#"{"created":1,"data":[{"url":"https://example.com/cat.png"}]}"#;
    assert_eq!(image_reply(body), Some(Ok("https://example.com/cat.png".to_string())));
    let refused = r#"{"error":{"message":"Your request was rejected"}}"#;
    assert_eq!(image_reply(refused), Some(Err("Your request was rejected".to_string())));
    assert_eq!(image_reply(r#"{"data":[]}"#), None);
    assert_eq!(image_reply("<html>"), None);
}

#[test]
fn read_reply_prefers_the_error() {
    let error = Some(Some("e".to_string()));
    let answer = Some(Some("a".to_string()));
    assert_eq!(read_reply(error.clone(), answer.clone()), Some(Err("e".to_string())));
    assert_eq!(read_reply(Some(None), answer.clone()), Some(Ok("a".to_string())));
    assert_eq!(read_reply(Some(None), Some(None)), None);
    assert_eq!(read_reply(Some(None), None), None);
    assert_eq!(read_reply(None, answer), None);
    assert_eq!(read_reply(None, None), None);
}
