//! One interaction, step by step: the quota gate and the prompt before the
//! model is called, the session's update after it has answered.
//!
//! The caller loads the session, calls `begin`, forwards the prompt to the
//! model, hands the model's answer to `complete`, and saves the session. A
//! session that was refused, or whose call failed, is left as it was.

use crate::clock::unix_now;
use crate::openai::{assemble, prompt_of, prompt_view, ChatMessage};
use crate::tokens::sent_of;
use crate::history::{last_n, lemma_window_keeps_latest, window_after_all};
use crate::user::{User, UserView, HISTORY_LIMIT};
use vstd::prelude::*;

verus! {

/// Why an interaction did not go through.
#[derive(Debug, Clone, Copy, PartialEq, Eq, Structural)]
pub enum EngineError {
    /// The user has no request left.
    QuotaExhausted,
    /// The store did not load or did not save the session.
    StoreUnavailable,
    /// The call to the model failed.
    UpstreamFailure,
    /// The store holds a record that is no session.
    MalformedSession,
}

impl EngineError {
    /// The notice that the user is shown for this failure.
    pub open spec fn notice_text(self) -> Seq<char> {
        match self {
            EngineError::QuotaExhausted => "You have no requests left"@,
            EngineError::StoreUnavailable => "Your session could not be reached, please try again"@,
            EngineError::UpstreamFailure => "The assistant did not answer, please try again"@,
            EngineError::MalformedSession => "Your session could not be read"@,
        }
    }

    /// The notice that the user is shown for this failure: plain text, with
    /// nothing of what went wrong inside.
    pub fn notice(&self) -> (text: &'static str)
        ensures
            text@ == self.notice_text(),
    {
        match self {
            EngineError::QuotaExhausted => "You have no requests left",
            EngineError::StoreUnavailable => "Your session could not be reached, please try again",
            EngineError::UpstreamFailure => "The assistant did not answer, please try again",
            EngineError::MalformedSession => "Your session could not be read",
        }
    }
}

/// The session of the user `telegram_id`: the one that the store held, or a
/// new one with the default quota where it held none. Nothing is saved here.
pub fn get_or_create(
    loaded: Option<User>,
    telegram_id: u64,
    first_name: String,
    username: Option<String>,
    url: Option<String>,
) -> (user: User)
    ensures
        loaded matches Some(found) ==> user == found,
        loaded is None ==> user@ == UserView::fresh(
            telegram_id,
            first_name@,
            username.deep_view(),
            url.deep_view(),
            user.created_at as int,
        ),
{
    match loaded {
        Some(found) => found,
        None => User::new(telegram_id, first_name, username, url),
    }
}

/// Decides on an inbound message: refuses it where the user has no request
/// left, and builds the prompt for the model otherwise. The session is not
/// changed either way.
pub fn begin(user: &User, new_message: &str, default_persona: &str) -> (decision: Result<
    Vec<ChatMessage>,
    EngineError,
>)
    ensures
        !user@.has_requests_left() ==> decision == Err::<Vec<ChatMessage>, EngineError>(
            EngineError::QuotaExhausted,
        ),
        user@.has_requests_left() ==> decision is Ok && prompt_view(decision->Ok_0@) == prompt_of(
            user@,
            sent_of(new_message@),
            default_persona@,
        ),
{
    if !user.has_requests_left() {
        return Err(EngineError::QuotaExhausted);
    }
    Ok(assemble(user, new_message, default_persona))
}

/// The session after one interaction whose call was answered at time `now`:
/// one request is charged and `message` has joined the history.
pub open spec fn settled(session: UserView, message: Seq<char>, now: int) -> UserView {
    session.debited().with_message(message, now)
}

/// The session after a run of answered interactions, each given by its
/// message and the time of its answer.
pub open spec fn settled_all(session: UserView, answered: Seq<(Seq<char>, int)>) -> UserView
    decreases answered.len(),
{
    if answered.len() == 0 {
        session
    } else {
        settled(settled_all(session, answered.drop_last()), answered.last().0, answered.last().1)
    }
}

/// The session after one call to the model about `message` that ended at
/// time `now`: settled where the call was answered, as it was where the call
/// failed.
pub open spec fn after_call(session: UserView, message: Seq<char>, now: int, answered: bool)
    -> UserView {
    if answered {
        settled(session, message, now)
    } else {
        session
    }
}

/// The session after a run of calls, each given by its message, the time at
/// which it ended, and whether it was answered.
pub open spec fn after_calls(session: UserView, calls: Seq<(Seq<char>, int, bool)>) -> UserView
    decreases calls.len(),
{
    if calls.len() == 0 {
        session
    } else {
        after_call(
            after_calls(session, calls.drop_last()),
            calls.last().0,
            calls.last().1,
            calls.last().2,
        )
    }
}

/// The answered calls of a run, in order, each with its message and time.
pub open spec fn answered_of(calls: Seq<(Seq<char>, int, bool)>) -> Seq<(Seq<char>, int)>
    decreases calls.len(),
{
    if calls.len() == 0 {
        Seq::empty()
    } else if calls.last().2 {
        answered_of(calls.drop_last()).push((calls.last().0, calls.last().1))
    } else {
        answered_of(calls.drop_last())
    }
}

/// The messages of a run of interactions, in order.
pub open spec fn messages_of(answered: Seq<(Seq<char>, int)>) -> Seq<Seq<char>> {
    answered.map_values(|interaction: (Seq<char>, int)| interaction.0)
}

/// Settles an interaction whose answer came at time `now`. Where the model
/// answered, one request is charged, `message` joins the history, and the
/// answer is handed on. Where the call failed, the session stays as it was.
pub fn complete_at(user: &mut User, message: String, outcome: Result<String, String>, now: i64) -> (
    reply: Result<String, EngineError>)
    requires
        old(user)@.has_requests_left(),
        outcome is Ok ==> old(user).total_request < u32::MAX,
    ensures
        outcome is Err ==> reply == Err::<String, EngineError>(EngineError::UpstreamFailure)
            && *final(user) == *old(user),
        outcome matches Ok(text) ==> reply == Ok::<String, EngineError>(text) && final(user)@
            == settled(old(user)@, message@, now as int),
        final(user)@ == after_call(old(user)@, message@, now as int, outcome is Ok),
{
    match outcome {
        Ok(text) => {
            user.update_requests();
            user.update_last_message_at(message, now);
            Ok(text)
        },
        Err(_) => Err(EngineError::UpstreamFailure),
    }
}

/// Settles an interaction whose answer came just now, by the machine's clock.
pub fn complete(user: &mut User, message: String, outcome: Result<String, String>) -> (reply:
    Result<String, EngineError>)
    requires
        old(user)@.has_requests_left(),
        outcome is Ok ==> old(user).total_request < u32::MAX,
    ensures
        outcome is Err ==> reply == Err::<String, EngineError>(EngineError::UpstreamFailure)
            && *final(user) == *old(user),
        outcome matches Ok(text) ==> reply == Ok::<String, EngineError>(text) && final(user)@
            == settled(old(user)@, message@, final(user).last_message as int),
        final(user)@ == after_call(
            old(user)@,
            message@,
            final(user).last_message as int,
            outcome is Ok,
        ),
{
    let now = unix_now();
    complete_at(user, message, outcome, now)
}

/// Settles a request that leaves no message behind, such as one for an
/// image. Where the model answered, one request is charged; where the call
/// failed, the session stays as it was. The outcome is handed on as it came.
pub fn complete_request(user: &mut User, outcome: Result<String, String>) -> (reply: Result<
    String,
    String,
>)
    requires
        old(user)@.has_requests_left(),
        outcome is Ok ==> old(user).total_request < u32::MAX,
    ensures
        reply == outcome,
        outcome is Err ==> *final(user) == *old(user),
        outcome is Ok ==> final(user)@ == old(user)@.debited(),
{
    if outcome.is_ok() {
        user.update_requests();
    }
    outcome
}

/// Closes an interaction once the store has answered the save of `updated`.
/// Where it was saved, `updated` is the session and the model's answer is
/// handed on. Where it was not, the update is dropped: the session is
/// `previous`, as the store still holds it, and the failure is reported.
pub fn conclude(previous: User, updated: User, reply: String, saved: bool) -> (end: (
    User,
    Result<String, EngineError>,
))
    ensures
        saved ==> end.0 == updated && end.1 == Ok::<String, EngineError>(reply),
        !saved ==> end.0 == previous && end.1 == Err::<String, EngineError>(
            EngineError::StoreUnavailable,
        ),
{
    if saved {
        (updated, Ok(reply))
    } else {
        (previous, Err(EngineError::StoreUnavailable))
    }
}

/// After `n` answered interactions that the quota covered, `n` more requests
/// have been made and `n` fewer are left, the history holds the latest
/// `HISTORY_LIMIT` of the old entries and the new messages, and the user, the
/// time of creation and the persona are as they were.
pub proof fn lemma_interactions_add_up(session: UserView, answered: Seq<(Seq<char>, int)>)
    requires
        session.wf(),
        answered.len() <= session.requests_left,
    ensures
        settled_all(session, answered).total_request == session.total_request + answered.len(),
        settled_all(session, answered).requests_left == session.requests_left - answered.len(),
        settled_all(session, answered).previous_messages == last_n(
            session.previous_messages + messages_of(answered),
            HISTORY_LIMIT as nat,
        ),
        settled_all(session, answered).wf(),
        settled_all(session, answered).telegram_id == session.telegram_id,
        settled_all(session, answered).created_at == session.created_at,
        settled_all(session, answered).pretend == session.pretend,
    decreases answered.len(),
{
    lemma_history_of_interactions(session, answered);
    lemma_window_keeps_latest(
        session.previous_messages,
        messages_of(answered),
        HISTORY_LIMIT as nat,
    );
    if answered.len() > 0 {
        lemma_interactions_add_up(session, answered.drop_last());
    }
}

/// The history after a run of answered interactions is the window after the
/// appends of their messages.
proof fn lemma_history_of_interactions(session: UserView, answered: Seq<(Seq<char>, int)>)
    ensures
        settled_all(session, answered).previous_messages == window_after_all(
            session.previous_messages,
            messages_of(answered),
            HISTORY_LIMIT as nat,
        ),
    decreases answered.len(),
{
    if answered.len() > 0 {
        lemma_history_of_interactions(session, answered.drop_last());
        assert(messages_of(answered).drop_last() =~= messages_of(answered.drop_last()));
    }
}

/// A call that failed leaves the whole session as it was: nothing is charged
/// and nothing joins the history.
pub proof fn lemma_failed_call_changes_nothing(session: UserView, message: Seq<char>, now: int)
    ensures
        after_call(session, message, now, false) == session,
        after_call(session, message, now, false).requests_left == session.requests_left,
        after_call(session, message, now, false).total_request == session.total_request,
        after_call(session, message, now, false).previous_messages == session.previous_messages,
{
}

/// In a run of calls only the answered ones count: the session at the end is
/// the one that the answered calls alone would have left.
pub proof fn lemma_only_answered_calls_count(session: UserView, calls: Seq<(Seq<char>, int, bool)>)
    ensures
        after_calls(session, calls) == settled_all(session, answered_of(calls)),
        answered_of(calls).len() <= calls.len(),
    decreases calls.len(),
{
    if calls.len() > 0 {
        lemma_only_answered_calls_count(session, calls.drop_last());
        if calls.last().2 {
            let answered = answered_of(calls);
            assert(answered.drop_last() =~= answered_of(calls.drop_last()));
        }
    }
}

/// After a run of calls of which the quota covered the answered ones, as
/// many requests have been made as calls were answered and as many fewer are
/// left, and the history holds the latest `HISTORY_LIMIT` of the old entries
/// and the answered messages.
pub proof fn lemma_calls_add_up(session: UserView, calls: Seq<(Seq<char>, int, bool)>)
    requires
        session.wf(),
        answered_of(calls).len() <= session.requests_left,
    ensures
        after_calls(session, calls).total_request == session.total_request + answered_of(
            calls,
        ).len(),
        after_calls(session, calls).requests_left == session.requests_left - answered_of(
            calls,
        ).len(),
        after_calls(session, calls).previous_messages == last_n(
            session.previous_messages + messages_of(answered_of(calls)),
            HISTORY_LIMIT as nat,
        ),
        after_calls(session, calls).telegram_id == session.telegram_id,
        after_calls(session, calls).created_at == session.created_at,
{
    lemma_only_answered_calls_count(session, calls);
    lemma_interactions_add_up(session, answered_of(calls));
}

} // verus!
