//! The per-user session: identity, quota counters, persona and history.

use crate::clock::unix_now;
use crate::history::{append, clear, texts, window_after};
use vstd::prelude::*;

verus! {

/// Largest number of earlier utterances that a session keeps.
pub const HISTORY_LIMIT: usize = 4;

/// Number of requests that a newly created session may make.
pub const DEFAULT_REQUESTS: u32 = 25;

/// One user's session.
#[derive(Debug, Clone)]
pub struct User {
    /// Stable numeric identifier of the user; never changes.
    pub telegram_id: u64,
    pub first_name: String,
    pub username: Option<String>,
    /// Link to the user's public profile, if there is one.
    pub url: Option<String>,
    /// Requests that the user may still make.
    pub requests_left: u32,
    /// Earlier utterances, oldest first, at most `HISTORY_LIMIT` of them.
    pub previous_messages: Vec<String>,
    /// Time of the last accepted message, in seconds since the Unix epoch.
    pub last_message: i64,
    /// Requests accepted since the session was created.
    pub total_request: u32,
    /// Time of creation, in seconds since the Unix epoch; never changes.
    pub created_at: i64,
    /// System instruction that replaces the default persona, if set.
    pub pretend: Option<String>,
}

/// The mathematical content of a `User`.
pub ghost struct UserView {
    pub telegram_id: u64,
    pub first_name: Seq<char>,
    pub username: Option<Seq<char>>,
    pub url: Option<Seq<char>>,
    pub requests_left: nat,
    pub previous_messages: Seq<Seq<char>>,
    pub last_message: int,
    pub total_request: nat,
    pub created_at: int,
    pub pretend: Option<Seq<char>>,
}

impl UserView {
    /// The session of a user seen for the first time at time `now`.
    pub open spec fn fresh(
        telegram_id: u64,
        first_name: Seq<char>,
        username: Option<Seq<char>>,
        url: Option<Seq<char>>,
        now: int,
    ) -> UserView {
        UserView {
            telegram_id,
            first_name,
            username,
            url,
            requests_left: DEFAULT_REQUESTS as nat,
            previous_messages: Seq::empty(),
            last_message: now,
            total_request: 0,
            created_at: now,
            pretend: None,
        }
    }

    /// The history stays within its bound.
    pub open spec fn wf(self) -> bool {
        self.previous_messages.len() <= HISTORY_LIMIT
    }

    /// Whether another request may be made.
    pub open spec fn has_requests_left(self) -> bool {
        self.requests_left > 0
    }

    /// The session after one accepted request has been charged.
    pub open spec fn debited(self) -> UserView {
        UserView {
            requests_left: (self.requests_left - 1) as nat,
            total_request: self.total_request + 1,
            ..self
        }
    }

    /// The session after `n` accepted requests have been charged.
    pub open spec fn debited_times(self, n: nat) -> UserView
        decreases n,
    {
        if n == 0 {
            self
        } else {
            self.debited_times((n - 1) as nat).debited()
        }
    }

    /// The session after `message` was recorded at time `now`.
    pub open spec fn with_message(self, message: Seq<char>, now: int) -> UserView {
        UserView {
            previous_messages: window_after(
                self.previous_messages,
                message,
                HISTORY_LIMIT as nat,
            ),
            last_message: now,
            ..self
        }
    }

    /// The session with an empty history.
    pub open spec fn cleared(self) -> UserView {
        UserView { previous_messages: Seq::empty(), ..self }
    }

    /// The session with its persona override set to `persona`.
    pub open spec fn with_persona(self, persona: Option<Seq<char>>) -> UserView {
        UserView { pretend: persona, ..self }
    }

    /// The session with both timestamps set to zero.
    pub open spec fn without_times(self) -> UserView {
        UserView { last_message: 0, created_at: 0, ..self }
    }
}

impl View for User {
    type V = UserView;

    open spec fn view(&self) -> UserView {
        UserView {
            telegram_id: self.telegram_id,
            first_name: self.first_name@,
            username: self.username.deep_view(),
            url: self.url.deep_view(),
            requests_left: self.requests_left as nat,
            previous_messages: texts(self.previous_messages@),
            last_message: self.last_message as int,
            total_request: self.total_request as nat,
            created_at: self.created_at as int,
            pretend: self.pretend.deep_view(),
        }
    }
}

impl User {
    /// A new session for a user seen at time `now`: the default quota, no
    /// history, no persona override.
    pub fn new_at(
        telegram_id: u64,
        first_name: String,
        username: Option<String>,
        url: Option<String>,
        now: i64,
    ) -> (user: User)
        ensures
            user@ == UserView::fresh(
                telegram_id,
                first_name@,
                username.deep_view(),
                url.deep_view(),
                now as int,
            ),
            user@.wf(),
    {
        let user = User {
            telegram_id,
            first_name,
            username,
            url,
            requests_left: DEFAULT_REQUESTS,
            previous_messages: Vec::new(),
            last_message: now,
            total_request: 0,
            created_at: now,
            pretend: None,
        };
        assert(user@.previous_messages =~= Seq::empty());
        user
    }

    /// A new session for a user seen just now, by the machine's clock.
    pub fn new(
        telegram_id: u64,
        first_name: String,
        username: Option<String>,
        url: Option<String>,
    ) -> (user: User)
        ensures
            user@ == UserView::fresh(
                telegram_id,
                first_name@,
                username.deep_view(),
                url.deep_view(),
                user.created_at as int,
            ),
            user@.wf(),
    {
        let now = unix_now();
        User::new_at(telegram_id, first_name, username, url, now)
    }

    /// Whether the user may make another request.
    pub fn has_requests_left(&self) -> (left: bool)
        ensures
            left == self@.has_requests_left(),
            !left <==> self.requests_left == 0,
    {
        self.requests_left > 0
    }

    /// Charges one accepted request: one less is left, one more was made.
    /// The caller has made sure that a request is left.
    pub fn update_requests(&mut self)
        requires
            old(self).requests_left > 0,
            old(self).total_request < u32::MAX,
        ensures
            final(self)@ == old(self)@.debited(),
            final(self).requests_left == old(self).requests_left - 1,
            final(self).total_request == old(self).total_request + 1,
    {
        self.requests_left -= 1;
        self.total_request += 1;
    }

    /// Records `message` as the latest utterance, received at time `now`.
    /// The oldest entries leave the history until it is within its bound.
    pub fn update_last_message_at(&mut self, message: String, now: i64)
        ensures
            final(self)@ == old(self)@.with_message(message@, now as int),
            final(self)@.wf(),
    {
        append(&mut self.previous_messages, message, HISTORY_LIMIT);
        self.last_message = now;
    }

    /// Records `message` as the latest utterance, received just now by the
    /// machine's clock.
    pub fn update_last_message(&mut self, message: String)
        ensures
            final(self)@ == old(self)@.with_message(message@, final(self).last_message as int),
            final(self)@.wf(),
    {
        let now = unix_now();
        self.update_last_message_at(message, now);
    }

    /// Forgets every earlier utterance.
    pub fn clear_history(&mut self)
        ensures
            final(self)@ == old(self)@.cleared(),
            final(self)@.wf(),
    {
        clear(&mut self.previous_messages);
    }

    /// Replaces the default persona by `persona` until it is cleared or
    /// replaced again.
    pub fn set_persona(&mut self, persona: String)
        ensures
            final(self)@ == old(self)@.with_persona(Some(persona@)),
    {
        self.pretend = Some(persona);
    }

    /// Returns to the default persona.
    pub fn clear_persona(&mut self)
        ensures
            final(self)@ == old(self)@.with_persona(None),
    {
        self.pretend = None;
    }
}

/// No request is left exactly where the count stands at zero, and charging a
/// session that has one left takes exactly one away: the count goes down by
/// one and never below zero.
pub proof fn lemma_quota_never_negative(session: UserView)
    ensures
        !session.has_requests_left() <==> session.requests_left == 0,
        session.has_requests_left() ==> session.debited().requests_left == session.requests_left
            - 1,
        session.has_requests_left() ==> 0 <= session.debited().requests_left
            < session.requests_left,
        session.has_requests_left() ==> session.debited().total_request == session.total_request
            + 1,
{
}

/// After `n` charged requests, `n` more have been made and `n` fewer are
/// left, as long as the quota covered them.
pub proof fn lemma_debits_add_up(session: UserView, n: nat)
    requires
        n <= session.requests_left,
    ensures
        session.debited_times(n).total_request == session.total_request + n,
        session.debited_times(n).requests_left == session.requests_left - n,
        session.debited_times(n).has_requests_left() <==> n < session.requests_left,
    decreases n,
{
    if n > 0 {
        lemma_debits_add_up(session, (n - 1) as nat);
    }
}

/// Two sessions created for the same user differ in their timestamps at most.
pub proof fn lemma_fresh_sessions_agree(
    telegram_id: u64,
    first_name: Seq<char>,
    username: Option<Seq<char>>,
    url: Option<Seq<char>>,
    first_time: int,
    second_time: int,
)
    ensures
        UserView::fresh(telegram_id, first_name, username, url, first_time).without_times()
            == UserView::fresh(telegram_id, first_name, username, url, second_time).without_times(),
{
}

} // verus!
