//! Estimating what a message costs, and cutting one that costs too much.

use vstd::prelude::*;
use vstd::string::*;

verus! {

/// Largest estimate at which a new message is still sent whole.
pub const TOKEN_BUDGET: usize = 3024;

/// Number of characters that are kept of a message that is over budget.
pub const MESSAGE_CHAR_LIMIT: usize = 11000;

/// Largest number of characters of a text whose tokens are counted. The
/// encoder's splitter keeps one pending branch for every character of a run
/// of letters, digits, white space or other signs, and gives up at a million
/// of them; a text within this limit stays far below that.
pub const ENCODER_TEXT_LIMIT: usize = 100_000;

/// The tokens that the `p50k_base` encoding of `tiktoken_rs` gives for `text`,
/// special tokens included.
pub uninterp spec fn p50k_tokens(text: Seq<char>) -> Seq<usize>;

/// Builds the `p50k_base` encoder with `tiktoken_rs::p50k_base` and encodes
/// `text` with `CoreBPE::encode_with_special_tokens`. The encoder is built
/// from the vocabulary and the splitting pattern that the crate carries,
/// from nothing else, and that data is sound, so it is built on every call
/// and the tokens depend on `text` alone. The splitter fails, and the call
/// with it, on a run of about a million characters of one kind: a text
/// within `ENCODER_TEXT_LIMIT` characters holds no such run.
#[verifier::external_body]
fn p50k_encode(text: &str) -> (tokens: Option<Vec<usize>>)
    requires
        text@.len() <= ENCODER_TEXT_LIMIT,
    ensures
        tokens is Some,
        tokens->Some_0@ == p50k_tokens(text@),
{
    match tiktoken_rs::p50k_base() {
        Ok(encoder) => Some(encoder.encode_with_special_tokens(text)),
        Err(_) => None,
    }
}

/// The estimated cost of `text`: the number of its tokens, or `None` for a
/// text of more than `ENCODER_TEXT_LIMIT` characters, whose tokens are not
/// counted.
pub fn estimate_tokens(text: &str) -> (estimate: Option<usize>)
    ensures
        text@.len() <= ENCODER_TEXT_LIMIT ==> estimate is Some && estimate->Some_0
            == p50k_tokens(text@).len(),
        text@.len() > ENCODER_TEXT_LIMIT ==> estimate is None,
        over_budget(estimate) == costs_too_much(text@),
{
    if text.unicode_len() > ENCODER_TEXT_LIMIT {
        return None;
    }
    token_count(p50k_encode(text))
}

/// The cost of a message given what the encoder made of it: the number of
/// its tokens, or `None` where the encoder gave none.
pub fn token_count(encoded: Option<Vec<usize>>) -> (count: Option<usize>)
    ensures
        encoded matches Some(tokens) ==> count matches Some(n) && n == tokens@.len(),
        encoded is None ==> count is None,
{
    match encoded {
        Some(tokens) => Some(tokens.len()),
        None => None,
    }
}

/// Whether a message with this estimate must be cut. A message without an
/// estimate is treated as one that costs too much.
pub open spec fn over_budget(estimate: Option<usize>) -> bool {
    match estimate {
        Some(n) => n > TOKEN_BUDGET,
        None => true,
    }
}

/// Whether `text` costs too much to be sent whole: its tokens are over
/// budget, or it is too long for its tokens to be counted.
pub open spec fn costs_too_much(text: Seq<char>) -> bool {
    text.len() > ENCODER_TEXT_LIMIT || p50k_tokens(text).len() > TOKEN_BUDGET
}

/// The first `MESSAGE_CHAR_LIMIT` characters of `message`, or all of it where
/// it has no more.
pub open spec fn capped(message: Seq<char>) -> Seq<char> {
    if message.len() <= MESSAGE_CHAR_LIMIT {
        message
    } else {
        message.subrange(0, MESSAGE_CHAR_LIMIT as int)
    }
}

/// What is sent of `message` given the estimate of its cost.
pub open spec fn fitted(message: Seq<char>, estimate: Option<usize>) -> Seq<char> {
    if over_budget(estimate) {
        capped(message)
    } else {
        message
    }
}

/// What is sent of `message`: its first `MESSAGE_CHAR_LIMIT` characters where
/// it costs too much, all of it otherwise.
pub open spec fn sent_of(message: Seq<char>) -> Seq<char> {
    if costs_too_much(message) {
        capped(message)
    } else {
        message
    }
}

/// Cuts `message` to its first `MESSAGE_CHAR_LIMIT` characters where its
/// estimate is over `TOKEN_BUDGET` or missing, and leaves it whole otherwise.
/// The cut falls between two characters, whatever their width in bytes.
pub fn fit_to_budget(message: &str, estimate: Option<usize>) -> (sent: String)
    ensures
        sent@ == fitted(message@, estimate),
        sent@.len() <= message@.len(),
        over_budget(estimate) ==> sent@.len() <= MESSAGE_CHAR_LIMIT,
{
    let over = match estimate {
        Some(n) => n > TOKEN_BUDGET,
        None => true,
    };
    if over && message.unicode_len() > MESSAGE_CHAR_LIMIT {
        message.substring_char(0, MESSAGE_CHAR_LIMIT).to_owned()
    } else {
        message.to_owned()
    }
}

} // verus!
