//! Text as a sequence of characters: taking a string apart, putting one
//! together, replacing and trimming.

use vstd::prelude::*;
use vstd::std_specs::iter::IteratorSpec;
use vstd::string::*;
use vstd::utf8::*;

verus! {

/// `String::push` of the standard library appends one character to the end
/// of the string.
pub assume_specification[ String::push ](text: &mut String, ch: char)
    ensures
        final(text)@ == old(text)@.push(ch),
;

/// The characters of `text`, in order.
pub fn chars_of(text: &str) -> (chars: Vec<char>)
    ensures
        chars@ == text@,
{
    broadcast use vstd::string::group_string_axioms;

    let mut chars: Vec<char> = Vec::new();
    let walk = text.chars();
    for c in it: walk
        invariant
            it.seq() == text@,
            chars@ == text@.subrange(0, it.index() as int),
    {
        chars.push(c);
        assert(chars@ =~= text@.subrange(0, it.index() + 1));
    }
    assert(chars@ =~= text@);
    chars
}

/// The string made of `chars`, in order.
pub fn string_of(chars: &Vec<char>) -> (text: String)
    ensures
        text@ == chars@,
{
    let mut text = String::new();
    let mut i: usize = 0;
    while i < chars.len()
        invariant
            i <= chars@.len(),
            text@ == chars@.subrange(0, i as int),
        decreases chars@.len() - i,
    {
        text.push(chars[i]);
        i += 1;
        assert(text@ =~= chars@.subrange(0, i as int));
    }
    assert(text@ =~= chars@);
    text
}

/// `text` with every occurrence of `pattern` replaced by `with`: occurrences
/// are found from the left and do not overlap. An empty pattern occurs
/// nowhere.
pub open spec fn replaced(text: Seq<char>, pattern: Seq<char>, with: Seq<char>) -> Seq<char>
    decreases text.len(),
{
    if text.len() == 0 || pattern.len() == 0 {
        text
    } else if pattern.is_prefix_of(text) {
        with + replaced(text.skip(pattern.len() as int), pattern, with)
    } else {
        seq![text[0]] + replaced(text.drop_first(), pattern, with)
    }
}

/// Whether `pattern` stands in `text` at position `at`.
fn occurs_at(text: &Vec<char>, at: usize, pattern: &Vec<char>) -> (found: bool)
    requires
        at <= text@.len(),
    ensures
        found == pattern@.is_prefix_of(text@.skip(at as int)),
{
    if pattern.len() > text.len() - at {
        return false;
    }
    let mut k: usize = 0;
    while k < pattern.len()
        invariant
            at <= text@.len() <= usize::MAX,
            pattern@.len() <= text@.len() - at,
            k <= pattern@.len(),
            forall|j: int| 0 <= j < k ==> pattern@[j] == text@[at + j],
        decreases pattern@.len() - k,
    {
        if pattern[k] != text[at + k] {
            assert(pattern@[k as int] != text@.skip(at as int).subrange(
                0,
                pattern@.len() as int,
            )[k as int]);
            return false;
        }
        k += 1;
    }
    assert(pattern@ =~= text@.skip(at as int).subrange(0, pattern@.len() as int));
    true
}

/// Replaces every occurrence of `pattern` in `text` by `with`.
pub fn replace_chars(text: &Vec<char>, pattern: &Vec<char>, with: &Vec<char>) -> (out: Vec<char>)
    ensures
        out@ == replaced(text@, pattern@, with@),
{
    let mut out: Vec<char> = Vec::new();
    let mut i: usize = 0;
    proof {
        assert(text@.skip(0) =~= text@);
        assert(out@ + replaced(text@, pattern@, with@) =~= replaced(text@, pattern@, with@));
    }
    while i < text.len()
        invariant
            i <= text@.len(),
            out@ + replaced(text@.skip(i as int), pattern@, with@) == replaced(
                text@,
                pattern@,
                with@,
            ),
        decreases text@.len() - i,
    {
        let ghost rest = text@.skip(i as int);
        let ghost done = out@;
        if pattern.len() > 0 && occurs_at(text, i, pattern) {
            let mut k: usize = 0;
            while k < with.len()
                invariant
                    k <= with@.len(),
                    out@ == done + with@.subrange(0, k as int),
                decreases with@.len() - k,
            {
                out.push(with[k]);
                k += 1;
            }
            i += pattern.len();
            proof {
                assert(with@.subrange(0, with@.len() as int) =~= with@);
                assert(rest.skip(pattern@.len() as int) =~= text@.skip(i as int));
                assert(out@ + replaced(text@.skip(i as int), pattern@, with@) =~= done + replaced(
                    rest,
                    pattern@,
                    with@,
                ));
            }
        } else {
            out.push(text[i]);
            i += 1;
            proof {
                assert(rest.drop_first() =~= text@.skip(i as int));
                assert(out@ + replaced(text@.skip(i as int), pattern@, with@) =~= done + replaced(
                    rest,
                    pattern@,
                    with@,
                ));
            }
        }
    }
    assert(text@.skip(i as int) =~= Seq::<char>::empty());
    assert(out@ =~= out@ + Seq::<char>::empty());
    out
}

/// Replaces every occurrence of `pattern` in `text` by `with`.
pub fn replace(text: &str, pattern: &str, with: &str) -> (out: String)
    ensures
        out@ == replaced(text@, pattern@, with@),
{
    let out = replace_chars(&chars_of(text), &chars_of(pattern), &chars_of(with));
    string_of(&out)
}

/// Whether `c` is white space: a character that Unicode marks as
/// `White_Space`.
pub open spec fn is_space_char(c: char) -> bool {
    let code = c as u32;
    ||| 0x09 <= code <= 0x0D
    ||| code == 0x20
    ||| code == 0x85
    ||| code == 0xA0
    ||| code == 0x1680
    ||| 0x2000 <= code <= 0x200A
    ||| code == 0x2028
    ||| code == 0x2029
    ||| code == 0x202F
    ||| code == 0x205F
    ||| code == 0x3000
}

/// Whether `c` is white space.
pub fn is_space(c: char) -> (space: bool)
    ensures
        space == is_space_char(c),
{
    let code = c as u32;
    (0x09 <= code && code <= 0x0D) || code == 0x20 || code == 0x85 || code == 0xA0 || code
        == 0x1680 || (0x2000 <= code && code <= 0x200A) || code == 0x2028 || code == 0x2029
        || code == 0x202F || code == 0x205F || code == 0x3000
}

/// `text` without the white space at its start.
pub open spec fn trimmed_start(text: Seq<char>) -> Seq<char>
    decreases text.len(),
{
    if text.len() > 0 && is_space_char(text[0]) {
        trimmed_start(text.drop_first())
    } else {
        text
    }
}

/// `text` without the white space at its end.
pub open spec fn trimmed_end(text: Seq<char>) -> Seq<char>
    decreases text.len(),
{
    if text.len() > 0 && is_space_char(text.last()) {
        trimmed_end(text.drop_last())
    } else {
        text
    }
}

/// `text` without the white space at its start and at its end.
pub open spec fn trimmed(text: Seq<char>) -> Seq<char> {
    trimmed_end(trimmed_start(text))
}

/// Removes the white space at the start and at the end of `text`.
pub fn trim_chars(text: &Vec<char>) -> (out: Vec<char>)
    ensures
        out@ == trimmed(text@),
{
    let mut from: usize = 0;
    proof {
        assert(text@.skip(0) =~= text@);
    }
    while from < text.len() && is_space(text[from])
        invariant
            from <= text@.len(),
            trimmed_start(text@.skip(from as int)) == trimmed_start(text@),
        decreases text@.len() - from,
    {
        proof {
            assert(text@.skip(from as int).drop_first() =~= text@.skip(from + 1));
        }
        from += 1;
    }
    let ghost body = text@.skip(from as int);
    assert(trimmed_start(text@) == body);
    let mut to: usize = text.len();
    proof {
        assert(text@.subrange(from as int, to as int) =~= body);
    }
    while to > from && is_space(text[to - 1])
        invariant
            from <= to <= text@.len(),
            trimmed_end(text@.subrange(from as int, to as int)) == trimmed_end(body),
        decreases to - from,
    {
        proof {
            assert(text@.subrange(from as int, to as int).drop_last() =~= text@.subrange(
                from as int,
                to - 1,
            ));
        }
        to -= 1;
    }
    assert(trimmed_end(body) == text@.subrange(from as int, to as int));
    let mut out: Vec<char> = Vec::new();
    let mut i: usize = from;
    while i < to
        invariant
            from <= i <= to <= text@.len(),
            out@ == text@.subrange(from as int, i as int),
        decreases to - i,
    {
        out.push(text[i]);
        i += 1;
        assert(out@ =~= text@.subrange(from as int, i as int));
    }
    out
}

/// Removes the white space at the start and at the end of `text`.
pub fn trim(text: &str) -> (out: String)
    ensures
        out@ == trimmed(text@),
{
    let out = trim_chars(&chars_of(text));
    string_of(&out)
}

/// Whether the bytes `from..to` of `bytes` are whole characters: `from` and
/// `to` lie in order within the text, each between two characters or at an
/// end.
pub open spec fn is_char_range(bytes: Seq<u8>, from: int, to: int) -> bool {
    &&& 0 <= from <= to <= bytes.len()
    &&& is_char_boundary(bytes, from)
    &&& is_char_boundary(bytes, to)
}

/// Behind a character boundary, the boundaries of the rest are those of the
/// whole text.
pub proof fn lemma_boundary_of_rest(bytes: Seq<u8>, at: int, further: int)
    requires
        valid_utf8(bytes),
        is_char_boundary(bytes, at),
        0 <= at <= bytes.len(),
        0 <= further,
    ensures
        is_char_boundary(bytes.subrange(at, bytes.len() as int), further) <==> is_char_boundary(
            bytes,
            at + further,
        ),
    decreases at,
{
    if at == 0 {
        assert(bytes.subrange(0, bytes.len() as int) =~= bytes);
    } else {
        reveal_with_fuel(is_char_boundary, 2);
        let width = length_of_first_scalar(bytes);
        let rest = pop_first_scalar(bytes);
        assert(width <= at);
        assert(rest.subrange(at - width, rest.len() as int) =~= bytes.subrange(
            at,
            bytes.len() as int,
        ));
        lemma_boundary_of_rest(rest, at - width, further);
    }
}

/// The part of `text` that spans `length` bytes from byte `offset` on, where
/// these bytes are whole characters of `text`, and `None` otherwise.
pub fn byte_slice(text: &str, offset: usize, length: usize) -> (part: Option<String>)
    ensures
        part is Some <==> is_char_range(encode_utf8(text@), offset as int, offset + length),
        part matches Some(found) ==> encode_utf8(found@) == encode_utf8(text@).subrange(
            offset as int,
            offset + length,
        ),
{
    broadcast use vstd::utf8::encode_utf8_valid_utf8;

    let ghost bytes = encode_utf8(text@);
    assert(valid_utf8(bytes));
    if !text.is_char_boundary(offset) {
        return None;
    }
    assert(offset <= bytes.len());
    let (_, rest) = text.split_at(offset);
    proof {
        lemma_boundary_of_rest(bytes, offset as int, length as int);
    }
    if !rest.is_char_boundary(length) {
        return None;
    }
    assert(valid_utf8(encode_utf8(rest@)));
    assert(length <= encode_utf8(rest@).len());
    let (found, _) = rest.split_at(length);
    assert(encode_utf8(found@) =~= bytes.subrange(offset as int, offset + length));
    Some(found.to_owned())
}

/// The decimal digit for `d`, which is below ten.
pub open spec fn digit(d: nat) -> char {
    if d == 0 {
        '0'
    } else if d == 1 {
        '1'
    } else if d == 2 {
        '2'
    } else if d == 3 {
        '3'
    } else if d == 4 {
        '4'
    } else if d == 5 {
        '5'
    } else if d == 6 {
        '6'
    } else if d == 7 {
        '7'
    } else if d == 8 {
        '8'
    } else {
        '9'
    }
}

/// `n` written in decimal, without leading zeros.
pub open spec fn decimal(n: nat) -> Seq<char>
    decreases n,
{
    if n < 10 {
        seq![digit(n)]
    } else {
        decimal(n / 10).push(digit(n % 10))
    }
}

fn digit_str(d: u64) -> (text: &'static str)
    requires
        d < 10,
    ensures
        text@ == seq![digit(d as nat)],
{
    proof {
        reveal_strlit("0");
        reveal_strlit("1");
        reveal_strlit("2");
        reveal_strlit("3");
        reveal_strlit("4");
        reveal_strlit("5");
        reveal_strlit("6");
        reveal_strlit("7");
        reveal_strlit("8");
        reveal_strlit("9");
    }
    let text = if d == 0 {
        "0"
    } else if d == 1 {
        "1"
    } else if d == 2 {
        "2"
    } else if d == 3 {
        "3"
    } else if d == 4 {
        "4"
    } else if d == 5 {
        "5"
    } else if d == 6 {
        "6"
    } else if d == 7 {
        "7"
    } else if d == 8 {
        "8"
    } else {
        "9"
    };
    assert(text@ =~= seq![digit(d as nat)]);
    text
}

/// Appends `n` in decimal to `out`.
pub fn push_decimal(out: &mut String, n: u64)
    ensures
        final(out)@ == old(out)@ + decimal(n as nat),
    decreases n,
{
    if n >= 10 {
        push_decimal(out, n / 10);
    }
    out.append(digit_str(n % 10));
    assert(out@ =~= old(out)@ + decimal(n as nat));
}

} // verus!
