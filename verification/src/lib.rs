//! Session engine of a chat assistant that relays user messages to a language
//! model: per-user quota, a bounded window of earlier utterances, and the
//! prompt that is sent upstream.

pub mod bot;
pub mod clock;
pub mod db;
pub mod engine;
pub mod history;
pub mod markdown;
pub mod openai;
pub mod text;
pub mod tokens;
pub mod user;
