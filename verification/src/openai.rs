//! The prompt that is sent to the language model.

use crate::tokens::{
    capped, costs_too_much, estimate_tokens, fit_to_budget, fitted, over_budget, sent_of,
    MESSAGE_CHAR_LIMIT,
};
use crate::user::{User, UserView};
use vstd::prelude::*;

verus! {

/// The system instruction of a session that has no persona override.
pub const DEFAULT_PERSONA: &'static str =
    "You are AiBuddy, a friendly chatbot for Telegram. Answer as concisely as possible but clarify what data you base your answers on.";

/// Who speaks in a message of the prompt.
#[derive(Debug, Clone, Copy, PartialEq, Eq, Structural)]
pub enum Role {
    System,
    User,
}

impl Role {
    /// The role's name as the model's interface spells it.
    pub open spec fn name(self) -> Seq<char> {
        match self {
            Role::System => "system"@,
            Role::User => "user"@,
        }
    }

    /// The role's name as the model's interface spells it.
    pub fn as_str(&self) -> (name: &'static str)
        ensures
            name@ == self.name(),
    {
        match self {
            Role::System => "system",
            Role::User => "user",
        }
    }
}

/// One message of the prompt.
#[derive(Debug, Clone)]
pub struct ChatMessage {
    pub role: Role,
    pub content: String,
}

impl View for ChatMessage {
    type V = (Role, Seq<char>);

    open spec fn view(&self) -> (Role, Seq<char>) {
        (self.role, self.content@)
    }
}

/// The role and text of every message of a prompt, in order.
pub open spec fn prompt_view(prompt: Seq<ChatMessage>) -> Seq<(Role, Seq<char>)> {
    prompt.map_values(|message: ChatMessage| message@)
}

/// The system instruction of a session: its persona override where one is
/// set, the default persona otherwise.
pub open spec fn system_instruction(session: UserView, default_persona: Seq<char>) -> Seq<char> {
    match session.pretend {
        Some(persona) => persona,
        None => default_persona,
    }
}

/// The prompt of `session` that ends in the message `sent`: the system
/// instruction, then every earlier utterance as the user's, oldest first and
/// unaltered, then `sent` as the user's.
pub open spec fn prompt_of(session: UserView, sent: Seq<char>, default_persona: Seq<char>) -> Seq<
    (Role, Seq<char>),
> {
    seq![(Role::System, system_instruction(session, default_persona))]
        + session.previous_messages.map_values(|utterance: Seq<char>| (Role::User, utterance))
        + seq![(Role::User, sent)]
}

/// The prompt for `new_message` in `session`, given the estimate of its cost:
/// the prompt that ends in the new message, cut where the estimate is over
/// budget or missing.
pub open spec fn assembled(
    session: UserView,
    new_message: Seq<char>,
    default_persona: Seq<char>,
    estimate: Option<usize>,
) -> Seq<(Role, Seq<char>)> {
    prompt_of(session, fitted(new_message, estimate), default_persona)
}

/// Builds the prompt for `new_message` given the estimate of its cost.
pub fn assemble_with_estimate(
    user: &User,
    new_message: &str,
    default_persona: &str,
    estimate: Option<usize>,
) -> (prompt: Vec<ChatMessage>)
    ensures
        prompt_view(prompt@) == assembled(user@, new_message@, default_persona@, estimate),
        prompt@.len() == user.previous_messages@.len() + 2,
{
    let instruction = match &user.pretend {
        Some(persona) => persona.clone(),
        None => default_persona.to_owned(),
    };
    let mut prompt: Vec<ChatMessage> = Vec::new();
    prompt.push(ChatMessage { role: Role::System, content: instruction });
    let mut i: usize = 0;
    while i < user.previous_messages.len()
        invariant
            i <= user.previous_messages@.len(),
            prompt@.len() == i + 1,
            prompt@[0]@ == (Role::System, system_instruction(user@, default_persona@)),
            forall|j: int| 0 <= j < i ==> (#[trigger] prompt@[j + 1])@ == (
                Role::User,
                user.previous_messages@[j]@,
            ),
        decreases user.previous_messages@.len() - i,
    {
        prompt.push(ChatMessage { role: Role::User, content: user.previous_messages[i].clone() });
        i += 1;
    }
    let ghost earlier = prompt@;
    prompt.push(ChatMessage { role: Role::User, content: fit_to_budget(new_message, estimate) });
    proof {
        let want = assembled(user@, new_message@, default_persona@, estimate);
        assert(want.len() == prompt@.len());
        assert forall|k: int| 0 <= k < prompt@.len() implies prompt_view(prompt@)[k] == want[k] by {
            if 0 < k < prompt@.len() - 1 {
                assert(earlier[(k - 1) + 1]@ == (Role::User, user.previous_messages@[k - 1]@));
            }
        }
        assert(prompt_view(prompt@) =~= want);
    }
    prompt
}

/// Builds the prompt for `new_message`: counts its tokens, then assembles.
/// The new message is sent whole where its tokens are within budget, and cut
/// to `MESSAGE_CHAR_LIMIT` characters where they are over budget or where it
/// is too long for them to be counted.
pub fn assemble(user: &User, new_message: &str, default_persona: &str) -> (prompt: Vec<ChatMessage>)
    ensures
        prompt_view(prompt@) == prompt_of(user@, sent_of(new_message@), default_persona@),
        !costs_too_much(new_message@) ==> prompt_view(prompt@) == prompt_of(
            user@,
            new_message@,
            default_persona@,
        ),
        new_message@.len() <= MESSAGE_CHAR_LIMIT ==> prompt_view(prompt@) == prompt_of(
            user@,
            new_message@,
            default_persona@,
        ),
        prompt@.len() == user.previous_messages@.len() + 2,
{
    let estimate = estimate_tokens(new_message);
    assemble_with_estimate(user, new_message, default_persona, estimate)
}

/// The persona override, once set, is the system instruction of every prompt,
/// and charging a request, recording a message or clearing the history leaves
/// it in place; once it is cleared, the default persona is the system
/// instruction again.
pub proof fn lemma_persona_rules_prompt(
    session: UserView,
    persona: Seq<char>,
    new_message: Seq<char>,
    default_persona: Seq<char>,
    estimate: Option<usize>,
    utterance: Seq<char>,
    now: int,
)
    ensures
        assembled(session.with_persona(Some(persona)), new_message, default_persona, estimate)[0]
            == (Role::System, persona),
        assembled(
            session.with_persona(Some(persona)).debited(),
            new_message,
            default_persona,
            estimate,
        )[0] == (Role::System, persona),
        assembled(
            session.with_persona(Some(persona)).with_message(utterance, now),
            new_message,
            default_persona,
            estimate,
        )[0] == (Role::System, persona),
        assembled(
            session.with_persona(Some(persona)).cleared(),
            new_message,
            default_persona,
            estimate,
        )[0] == (Role::System, persona),
        assembled(
            session.with_persona(Some(persona)).with_persona(None),
            new_message,
            default_persona,
            estimate,
        )[0] == (Role::System, default_persona),
{
}

/// A prompt holds the system instruction, the history and the new message, in
/// that order. Only the new message is ever cut, and only where its estimate
/// is over budget or missing; every earlier utterance stands as it was.
pub proof fn lemma_only_new_message_is_cut(
    session: UserView,
    new_message: Seq<char>,
    default_persona: Seq<char>,
    estimate: Option<usize>,
)
    ensures
        assembled(session, new_message, default_persona, estimate).len()
            == session.previous_messages.len() + 2,
        forall|j: int|
            0 <= j < session.previous_messages.len() ==> #[trigger] assembled(
                session,
                new_message,
                default_persona,
                estimate,
            )[j + 1] == (Role::User, session.previous_messages[j]),
        over_budget(estimate) ==> assembled(session, new_message, default_persona, estimate).last()
            == (Role::User, capped(new_message)),
        !over_budget(estimate) ==> assembled(session, new_message, default_persona, estimate).last()
            == (Role::User, new_message),
        capped(new_message).len() <= MESSAGE_CHAR_LIMIT,
        capped(new_message).is_prefix_of(new_message),
{
}

/// What stands at `pointer` in the JSON text `document`, as `serde_json` reads
/// it: `None` where `document` is no JSON text, `Some(None)` where the
/// pointer leads to nothing or to a value that is no string, and the string
/// otherwise.
pub uninterp spec fn json_string_at(document: Seq<char>, pointer: Seq<char>) -> Option<
    Option<Seq<char>>,
>;

/// Parses `document` with `serde_json::from_str` into a `Value` and follows
/// `pointer` with `Value::pointer`, a JSON Pointer such as `/data/0/url`. A
/// number in the pointer selects that element of an array, and the member of
/// that name of an object. A string found at the end is handed out; any
/// other value, or none, gives `Some(None)`; a `document` that does not parse
/// gives `None`. The result depends on the two texts alone.
#[verifier::external_body]
fn json_lookup(document: &str, pointer: &str) -> (found: Option<Option<String>>)
    ensures
        found.deep_view() == json_string_at(document@, pointer@),
{
    let value: serde_json::Value = match serde_json::from_str(document) {
        Ok(value) => value,
        Err(_) => return None,
    };
    match value.pointer(pointer) {
        Some(serde_json::Value::String(text)) => Some(Some(text.clone())),
        _ => Some(None),
    }
}

/// What a reply of the model comes to, given what was found at the place of
/// the error message and at the place of the answer: the error message where
/// there is one, the answer otherwise, and `None` where the reply holds
/// neither or is no JSON text.
pub open spec fn reply_text(error: Option<Option<Seq<char>>>, answer: Option<Option<Seq<char>>>)
    -> Option<Result<Seq<char>, Seq<char>>> {
    match error {
        None => None,
        Some(Some(message)) => Some(Err(message)),
        Some(None) => match answer {
            Some(Some(text)) => Some(Ok(text)),
            _ => None,
        },
    }
}

/// The text of a reply, whichever side it is on.
pub open spec fn reply_view(reply: Option<Result<String, String>>) -> Option<
    Result<Seq<char>, Seq<char>>,
> {
    match reply {
        None => None,
        Some(Ok(text)) => Some(Ok(text@)),
        Some(Err(message)) => Some(Err(message@)),
    }
}

/// Decides what a reply of the model comes to, given what was found at the
/// place of the error message and at the place of the answer.
pub fn read_reply(error: Option<Option<String>>, answer: Option<Option<String>>) -> (reply: Option<
    Result<String, String>,
>)
    ensures
        reply_view(reply) == reply_text(error.deep_view(), answer.deep_view()),
{
    match error {
        None => None,
        Some(Some(message)) => Some(Err(message)),
        Some(None) => match answer {
            Some(Some(text)) => Some(Ok(text)),
            _ => None,
        },
    }
}

/// Reads the reply to a prompt: `Err` with the model's error message where
/// the reply carries one, `Ok` with the text found under
/// `choices/0/message/content` otherwise, `None` where the reply holds
/// neither.
pub fn chat_reply(body: &str) -> (reply: Option<Result<String, String>>)
    ensures
        reply_view(reply) == reply_text(
            json_string_at(body@, "/error/message"@),
            json_string_at(body@, "/choices/0/message/content"@),
        ),
{
    let error = json_lookup(body, "/error/message");
    let answer = json_lookup(body, "/choices/0/message/content");
    read_reply(error, answer)
}

/// Reads the reply to a request for an image: `Err` with the model's error
/// message where the reply carries one, `Ok` with the address found under
/// `data/0/url` otherwise, `None` where the reply holds neither.
pub fn image_reply(body: &str) -> (reply: Option<Result<String, String>>)
    ensures
        reply_view(reply) == reply_text(
            json_string_at(body@, "/error/message"@),
            json_string_at(body@, "/data/0/url"@),
        ),
{
    let error = json_lookup(body, "/error/message");
    let answer = json_lookup(body, "/data/0/url");
    read_reply(error, answer)
}

} // verus!
