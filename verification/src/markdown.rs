//! Escaping a reply for a chat that reads its messages as markdown.

use crate::text::{chars_of, replace_chars, replaced, string_of};
use vstd::prelude::*;

verus! {

/// Whether `c` has a meaning in the chat's markdown and is written with a
/// backslash before it.
pub open spec fn needs_escape(c: char) -> bool {
    ||| c == '_'
    ||| c == '*'
    ||| c == '['
    ||| c == ']'
    ||| c == '('
    ||| c == ')'
    ||| c == '~'
    ||| c == '>'
    ||| c == '#'
    ||| c == '+'
    ||| c == '-'
    ||| c == '='
    ||| c == '|'
    ||| c == '{'
    ||| c == '}'
    ||| c == '.'
    ||| c == '!'
}

/// `text` with a backslash before every character that needs one.
pub open spec fn escaped(text: Seq<char>) -> Seq<char>
    decreases text.len(),
{
    if text.len() == 0 {
        text
    } else if needs_escape(text.last()) {
        escaped(text.drop_last()).push('\\').push(text.last())
    } else {
        escaped(text.drop_last()).push(text.last())
    }
}

/// A code fence whose backticks each follow a backslash.
pub open spec fn escaped_fence() -> Seq<char> {
    seq!['\\', '`', '\\', '`', '\\', '`']
}

/// A code fence.
pub open spec fn fence() -> Seq<char> {
    seq!['`', '`', '`']
}

/// `text` as it is sent to the chat: escaped, and every fence whose backticks
/// carry backslashes written as a plain fence.
pub open spec fn cleaned(text: Seq<char>) -> Seq<char> {
    replaced(escaped(text), escaped_fence(), fence())
}

/// Whether `c` is written with a backslash before it.
fn is_special(c: char) -> (special: bool)
    ensures
        special == needs_escape(c),
{
    c == '_' || c == '*' || c == '[' || c == ']' || c == '(' || c == ')' || c == '~' || c == '>'
        || c == '#' || c == '+' || c == '-' || c == '=' || c == '|' || c == '{' || c == '}' || c
        == '.' || c == '!'
}

/// Puts a backslash before every character of `text` that needs one.
pub fn escape_chars(text: &Vec<char>) -> (out: Vec<char>)
    ensures
        out@ == escaped(text@),
{
    let mut out: Vec<char> = Vec::new();
    let mut i: usize = 0;
    while i < text.len()
        invariant
            i <= text@.len(),
            out@ == escaped(text@.subrange(0, i as int)),
        decreases text@.len() - i,
    {
        let c = text[i];
        proof {
            assert(text@.subrange(0, i + 1).drop_last() =~= text@.subrange(0, i as int));
        }
        if is_special(c) {
            out.push('\\');
        }
        out.push(c);
        i += 1;
    }
    assert(text@.subrange(0, i as int) =~= text@);
    out
}

/// Prepares a reply for the chat: a backslash goes before each of
/// `_ * [ ] ( ) ~ > # + - = | { } . !`, and a code fence that came with
/// backslashes before its backticks is written as a plain fence.
pub fn clean_string(s: String) -> (out: String)
    ensures
        out@ == cleaned(s@),
{
    let chars = chars_of(s.as_str());
    let escaped_chars = escape_chars(&chars);
    let mut from: Vec<char> = Vec::new();
    from.push('\\');
    from.push('`');
    from.push('\\');
    from.push('`');
    from.push('\\');
    from.push('`');
    let mut to: Vec<char> = Vec::new();
    to.push('`');
    to.push('`');
    to.push('`');
    assert(from@ =~= escaped_fence());
    assert(to@ =~= fence());
    let out = replace_chars(&escaped_chars, &from, &to);
    string_of(&out)
}

} // verus!
