//! What the chat commands read from a message and what they answer.

use crate::clock::{utc_date, utc_date_text};
use crate::text::{decimal, push_decimal, replace, replaced, trim, trimmed};
use crate::user::User;
use vstd::prelude::*;
use vstd::string::*;

verus! {

/// What is left of `text` once every occurrence of `command` is taken out and
/// the white space around the rest is dropped.
pub open spec fn argument_text(text: Seq<char>, command: Seq<char>) -> Seq<char> {
    trimmed(replaced(text, command, Seq::empty()))
}

/// The argument of a command: `text` without the command's name and without
/// the white space around the rest. An empty result means that the user gave
/// no argument.
pub fn command_argument(text: &str, command: &str) -> (argument: String)
    ensures
        argument@ == argument_text(text@, command@),
{
    let without = replace(text, command, "");
    proof {
        reveal_strlit("");
        assert(""@ =~= Seq::<char>::empty());
    }
    trim(without.as_str())
}

/// The persona that a `/pretend` message asks for: the message without the
/// command's name and the blank after it.
pub open spec fn persona_text(text: Seq<char>) -> Seq<char> {
    replaced(text, "/pretend "@, Seq::empty())
}

/// The persona that a `/pretend` message asks for.
pub fn pretend_argument(text: &str) -> (persona: String)
    ensures
        persona@ == persona_text(text@),
{
    proof {
        reveal_strlit("");
        assert(""@ =~= Seq::<char>::empty());
    }
    replace(text, "/pretend ", "")
}

/// The answer to a `/pretend` message.
pub open spec fn pretend_notice_text(persona: Seq<char>) -> Seq<char> {
    "From now on, I'll pretend \""@ + persona + "\""@
}

/// The answer to a `/pretend` message that asked for `persona`.
pub fn pretend_notice(persona: &str) -> (notice: String)
    ensures
        notice@ == pretend_notice_text(persona@),
{
    let mut notice = "From now on, I'll pretend \"".to_owned();
    notice.append(persona);
    notice.append("\"");
    notice
}

/// The message that asks the model to summarise a page.
pub open spec fn summary_request_text(url: Seq<char>, content: Seq<char>) -> Seq<char> {
    "Summarize the following content in a list, ignoring any mentions of subscribing to a newspaper or magazine. ---- \nUrl: \""@
        + url + "\". \n\n Content: \n\""@ + content + "\""@
}

/// The message that asks the model to summarise the page at `url`, whose text
/// is `content`.
pub fn summary_request(url: &str, content: &str) -> (request: String)
    ensures
        request@ == summary_request_text(url@, content@),
{
    let mut request =
        "Summarize the following content in a list, ignoring any mentions of subscribing to a newspaper or magazine. ---- \nUrl: \"".to_owned();
    request.append(url);
    request.append("\". \n\n Content: \n\"");
    request.append(content);
    request.append("\"");
    request
}

/// Whether a private message asks for a summary: it does where its first
/// link stands at the very start of its text.
pub fn is_summary_request(first_link_at: Option<usize>) -> (summary: bool)
    ensures
        summary == (first_link_at == Some(0usize)),
{
    match first_link_at {
        Some(at) => at == 0,
        None => false,
    }
}

/// The name under which a user is announced: the username, or `Anon`.
pub open spec fn shown_name(username: Option<Seq<char>>) -> Seq<char> {
    match username {
        Some(name) => name,
        None => "Anon"@,
    }
}

/// The note that tells the administrator of a feature request.
pub open spec fn admin_notice_text(
    username: Option<Seq<char>>,
    link: Seq<char>,
    request: Seq<char>,
) -> Seq<char> {
    "New request from user:\n["@ + shown_name(username) + "]("@ + link + ")\n**Request**:\n"@
        + request
}

/// The note that tells the administrator that the user `username`, reached
/// under `link`, asked for `request`.
pub fn admin_notice(username: Option<&str>, link: &str, request: &str) -> (notice: String)
    ensures
        notice@ == admin_notice_text(
            match username {
                Some(name) => Some(name@),
                None => None,
            },
            link@,
            request@,
        ),
{
    let mut notice = "New request from user:\n[".to_owned();
    match username {
        Some(name) => notice.append(name),
        None => notice.append("Anon"),
    }
    notice.append("](");
    notice.append(link);
    notice.append(")\n**Request**:\n");
    notice.append(request);
    notice
}

/// The answer to a `/status` message.
pub open spec fn status_text(total_request: u32, since: Seq<char>) -> Seq<char> {
    "You have preformed "@ + decimal(total_request as nat) + " requests since "@ + since + "."@
}

/// The answer to a `/status` message of a user who made `total_request`
/// requests since the moment that `since` names.
pub fn status_notice(total_request: u32, since: &str) -> (notice: String)
    ensures
        notice@ == status_text(total_request, since@),
{
    let mut notice = "You have preformed ".to_owned();
    push_decimal(&mut notice, total_request as u64);
    notice.append(" requests since ");
    notice.append(since);
    notice.append(".");
    notice
}

/// The answer to a `/status` message of `user`: how many requests the user
/// made, and since when. `None` where the time of creation is no date.
pub fn status_of(user: &User) -> (notice: Option<String>)
    ensures
        match utc_date_text(user.created_at as int) {
            Some(since) => notice.deep_view() == Some(status_text(user.total_request, since)),
            None => notice is None,
        },
{
    match utc_date(user.created_at) {
        Some(since) => Some(status_notice(user.total_request, since.as_str())),
        None => None,
    }
}

} // verus!
