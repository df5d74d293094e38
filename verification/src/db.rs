//! The record store: the queries that are sent to it and what is read from
//! its answers. Sending and decoding are the caller's part.

use crate::engine::EngineError;
use crate::text::{decimal, push_decimal};
use vstd::prelude::*;
use vstd::string::*;

verus! {

/// The store's answer to one statement of a query: the records it yielded and
/// an optional note.
#[derive(Debug)]
pub struct Response<T> {
    pub result: Vec<T>,
    pub information: Option<String>,
}

/// The query that reads the record of user `id`.
pub open spec fn select_user_text(id: u64) -> Seq<char> {
    "SELECT * FROM user:"@ + decimal(id as nat) + ";"@
}

/// The query that replaces the record of user `id` by `content`.
pub open spec fn update_user_text(id: u64, content: Seq<char>) -> Seq<char> {
    "UPDATE user:"@ + decimal(id as nat) + " CONTENT "@ + content
}

/// The query that reads the record of user `id`.
pub fn select_user_query(id: u64) -> (query: String)
    ensures
        query@ == select_user_text(id),
{
    let mut query = "SELECT * FROM user:".to_owned();
    push_decimal(&mut query, id);
    query.append(";");
    query
}

/// The query that replaces the record of user `id` by `content`, the record
/// in the store's notation.
pub fn update_user_query(id: u64, content: &str) -> (query: String)
    ensures
        query@ == update_user_text(id, content@),
{
    let mut query = "UPDATE user:".to_owned();
    push_decimal(&mut query, id);
    query.append(" CONTENT ");
    query.append(content);
    query
}

/// The record that a query for one user yielded: the first record of the
/// first statement's answer, `None` where that answer holds no record. An
/// answer without any statement is no answer of the store, and is reported as
/// a malformed session.
pub fn first_record<T>(responses: Vec<Response<T>>) -> (record: Result<Option<T>, EngineError>)
    ensures
        responses@.len() == 0 ==> record == Err::<Option<T>, EngineError>(
            EngineError::MalformedSession,
        ),
        responses@.len() > 0 && responses@[0].result@.len() == 0 ==> record == Ok::<
            Option<T>,
            EngineError,
        >(None),
        responses@.len() > 0 && responses@[0].result@.len() > 0 ==> record == Ok::<
            Option<T>,
            EngineError,
        >(Some(responses@[0].result@[0])),
{
    let mut responses = responses;
    if responses.len() == 0 {
        return Err(EngineError::MalformedSession);
    }
    let mut first = responses.swap_remove(0);
    if first.result.len() == 0 {
        Ok(None)
    } else {
        Ok(Some(first.result.swap_remove(0)))
    }
}

} // verus!
