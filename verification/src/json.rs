//! How JSON text is read: the part of RFC 8259 without arrays, escapes in
//! strings, fractions, signs and the literal names. A text outside that part
//! is not read at all.

use crate::text::{decimal, digit, law_decimal_is_digits};
use vstd::prelude::*;

verus! {

/// A JSON value.
pub enum Json {
    Number(nat),
    Text(Seq<char>),
    /// The members, in the order in which they are written.
    Object(Seq<(Seq<char>, Json)>),
}

/// White space between the tokens of JSON.
pub open spec fn is_space(c: char) -> bool {
    c == ' ' || c == '\n' || c == '\r' || c == '\t'
}

/// `s` without the white space in front.
pub open spec fn skip_space(s: Seq<char>) -> Seq<char>
    decreases s.len(),
{
    if s.len() > 0 && is_space(s[0]) {
        skip_space(s.drop_first())
    } else {
        s
    }
}

/// A character that stands for itself between the quotes of a string.
pub open spec fn is_unescaped(c: char) -> bool {
    c >= ' ' && c != '"' && c != '\\'
}

/// Reads the rest of a string whose opening quote has been read: what it
/// holds, and what follows its closing quote.
pub open spec fn read_string(s: Seq<char>) -> Option<(Seq<char>, Seq<char>)>
    decreases s.len(),
{
    if s.len() == 0 {
        None
    } else if s[0] == '"' {
        Some((Seq::empty(), s.drop_first()))
    } else if !is_unescaped(s[0]) {
        None
    } else {
        match read_string(s.drop_first()) {
            None => None,
            Some((text, rest)) => Some((seq![s[0]] + text, rest)),
        }
    }
}

/// How many digits `s` starts with.
pub open spec fn count_digits(s: Seq<char>) -> nat
    decreases s.len(),
{
    if s.len() > 0 && '0' <= s[0] <= '9' {
        1 + count_digits(s.drop_first())
    } else {
        0
    }
}

/// The number that is written with these digits.
pub open spec fn number(digits: Seq<char>) -> nat
    decreases digits.len(),
{
    if digits.len() == 0 {
        0
    } else {
        (10 * number(digits.drop_last()) + (digits.last() as int - 48)) as nat
    }
}

/// Reads a number, which has no zero in front: its value, and what follows it.
pub open spec fn read_number(s: Seq<char>) -> Option<(nat, Seq<char>)> {
    let n = count_digits(s) as int;
    if n == 0 || (n > 1 && s[0] == '0') {
        None
    } else {
        Some((number(s.take(n)), s.skip(n)))
    }
}

/// Reads the name of a member and the colon behind it: the name, and what
/// follows the colon.
pub open spec fn read_name(s: Seq<char>) -> Option<(Seq<char>, Seq<char>)> {
    let s = skip_space(s);
    if s.len() == 0 || s[0] != '"' {
        None
    } else {
        match read_string(s.drop_first()) {
            None => None,
            Some((name, rest)) => {
                let rest = skip_space(rest);
                if rest.len() == 0 || rest[0] != ':' {
                    None
                } else {
                    Some((name, rest.drop_first()))
                }
            },
        }
    }
}

/// Reads a value: the value, and what follows it. No more than `steps` values
/// and members are read within one another or in a row.
pub open spec fn read_value(s: Seq<char>, steps: nat) -> Option<(Json, Seq<char>)>
    decreases steps,
{
    let s = skip_space(s);
    if steps == 0 || s.len() == 0 {
        None
    } else if s[0] == '"' {
        match read_string(s.drop_first()) {
            None => None,
            Some((text, rest)) => Some((Json::Text(text), rest)),
        }
    } else if s[0] == '{' {
        let inner = skip_space(s.drop_first());
        if inner.len() > 0 && inner[0] == '}' {
            Some((Json::Object(Seq::empty()), inner.drop_first()))
        } else {
            match read_members(inner, (steps - 1) as nat) {
                None => None,
                Some((members, rest)) => Some((Json::Object(members), rest)),
            }
        }
    } else {
        match read_number(s) {
            None => None,
            Some((n, rest)) => Some((Json::Number(n), rest)),
        }
    }
}

/// Reads one member or more, up to the brace that closes the object: the
/// members, and what follows the brace.
pub open spec fn read_members(s: Seq<char>, steps: nat) -> Option<
    (Seq<(Seq<char>, Json)>, Seq<char>),
>
    decreases steps,
{
    if steps == 0 {
        None
    } else {
        match read_name(s) {
            None => None,
            Some((name, rest)) => match read_value(rest, (steps - 1) as nat) {
                None => None,
                Some((value, rest)) => {
                    let rest = skip_space(rest);
                    if rest.len() > 0 && rest[0] == '}' {
                        Some((seq![(name, value)], rest.drop_first()))
                    } else if rest.len() > 0 && rest[0] == ',' {
                        match read_members(rest.drop_first(), (steps - 1) as nat) {
                            None => None,
                            Some((members, rest)) => Some((seq![(name, value)] + members, rest)),
                        }
                    } else {
                        None
                    }
                },
            },
        }
    }
}

/// Reads a JSON text: one value and nothing else but white space.
pub open spec fn read(s: Seq<char>) -> Option<Json> {
    match read_value(s, s.len()) {
        None => None,
        Some((value, rest)) => if skip_space(rest).len() == 0 {
            Some(value)
        } else {
            None
        },
    }
}

/// Characters that stand for themselves between two quotes are read back.
pub proof fn law_string_is_read(text: Seq<char>, rest: Seq<char>)
    requires
        all_unescaped(text),
    ensures
        read_string(text + (seq!['"'] + rest)) == Some((text, rest)),
    decreases text.len(),
{
    let s = text + (seq!['"'] + rest);
    if text.len() == 0 {
        assert(s.drop_first() =~= rest);
        assert(text =~= Seq::empty());
    } else {
        law_string_is_read(text.drop_first(), rest);
        assert(s.drop_first() =~= text.drop_first() + (seq!['"'] + rest));
        assert(seq![text[0]] + text.drop_first() =~= text);
    }
}

proof fn lemma_count_digits(digits: Seq<char>, rest: Seq<char>)
    requires
        forall|i: int| 0 <= i < digits.len() ==> '0' <= #[trigger] digits[i] <= '9',
        rest.len() > 0 ==> !('0' <= rest[0] <= '9'),
    ensures
        count_digits(digits + rest) == digits.len(),
    decreases digits.len(),
{
    if digits.len() == 0 {
        assert(digits + rest =~= rest);
    } else {
        lemma_count_digits(digits.drop_first(), rest);
        assert((digits + rest).drop_first() =~= digits.drop_first() + rest);
    }
}

proof fn lemma_number_of_decimal(n: nat)
    ensures
        number(decimal(n)) == n,
    decreases n,
{
    assert(decimal(n).last() == digit(n % 10));
    if n >= 10 {
        lemma_number_of_decimal(n / 10);
        assert(decimal(n).drop_last() =~= decimal(n / 10));
    } else {
        reveal_with_fuel(number, 2);
    }
}

/// A number in base ten is read back, if no digit follows it.
pub proof fn law_number_is_read(n: nat, rest: Seq<char>)
    requires
        rest.len() > 0 ==> !('0' <= rest[0] <= '9'),
    ensures
        read_number(decimal(n) + rest) == Some((n, rest)),
{
    let digits = decimal(n);
    law_decimal_is_digits(n);
    lemma_count_digits(digits, rest);
    lemma_number_of_decimal(n);
    assert((digits + rest).take(digits.len() as int) =~= digits);
    assert((digits + rest).skip(digits.len() as int) =~= rest);
    if n == 0 {
        assert(digits.len() == 1);
    }
}

/// White space in front of a token is skipped.
pub proof fn law_space_is_skipped(space: Seq<char>, rest: Seq<char>)
    requires
        all_space(space),
        rest.len() > 0 ==> !is_space(rest[0]),
    ensures
        skip_space(space + rest) == rest,
    decreases space.len(),
{
    if space.len() == 0 {
        assert(space + rest =~= rest);
    } else {
        law_space_is_skipped(space.drop_first(), rest);
        assert((space + rest).drop_first() =~= space.drop_first() + rest);
    }
}

/// A member of an object: its name between quotes, a colon, and `value`, the
/// text of its value and all that follows.
pub open spec fn member(name: Seq<char>, value: Seq<char>) -> Seq<char> {
    seq!['"'] + (name + (seq!['"'] + (seq![':'] + value)))
}

/// `s` is white space.
pub open spec fn all_space(s: Seq<char>) -> bool {
    forall|i: int| 0 <= i < s.len() ==> is_space(#[trigger] s[i])
}

/// `s` can stand between quotes as it is.
pub open spec fn all_unescaped(s: Seq<char>) -> bool {
    forall|i: int| 0 <= i < s.len() ==> is_unescaped(#[trigger] s[i])
}

/// The name of a member is read back.
pub proof fn law_name_is_read(space: Seq<char>, name: Seq<char>, value: Seq<char>)
    requires
        all_space(space),
        all_unescaped(name),
    ensures
        read_name(space + member(name, value)) == Some((name, value)),
{
    let after = seq![':'] + value;
    let quoted = name + (seq!['"'] + after);
    law_space_is_skipped(space, member(name, value));
    assert(member(name, value).drop_first() =~= quoted);
    law_string_is_read(name, after);
    assert(after.drop_first() =~= value);
}

/// A string is read as a value.
pub proof fn law_text_value_is_read(space: Seq<char>, text: Seq<char>, rest: Seq<char>, steps: nat)
    requires
        all_space(space),
        all_unescaped(text),
        steps > 0,
    ensures
        read_value(space + (seq!['"'] + (text + (seq!['"'] + rest))), steps) == Some(
            (Json::Text(text), rest),
        ),
{
    let quoted = text + (seq!['"'] + rest);
    law_space_is_skipped(space, seq!['"'] + quoted);
    assert((seq!['"'] + quoted).drop_first() =~= quoted);
    law_string_is_read(text, rest);
}

/// A number is read as a value.
pub proof fn law_number_value_is_read(space: Seq<char>, n: nat, rest: Seq<char>, steps: nat)
    requires
        all_space(space),
        rest.len() > 0 ==> !('0' <= rest[0] <= '9'),
        steps > 0,
    ensures
        read_value(space + (decimal(n) + rest), steps) == Some((Json::Number(n), rest)),
{
    law_decimal_is_digits(n);
    let s = decimal(n) + rest;
    assert(s[0] == decimal(n)[0]);
    law_space_is_skipped(space, s);
    law_number_is_read(n, rest);
}

/// An object is read as a value if its members are read.
pub proof fn law_object_value_is_read(
    space: Seq<char>,
    inner: Seq<char>,
    name: Seq<char>,
    value: Seq<char>,
    steps: nat,
)
    requires
        all_space(space),
        all_space(inner),
        steps > 0,
        read_members(member(name, value), (steps - 1) as nat) is Some,
    ensures
        ({
            let (members, rest) = read_members(member(name, value), (steps - 1) as nat)->0;
            read_value(space + (seq!['{'] + (inner + member(name, value))), steps) == Some(
                (Json::Object(members), rest),
            )
        }),
{
    let body = inner + member(name, value);
    law_space_is_skipped(space, seq!['{'] + body);
    assert((seq!['{'] + body).drop_first() =~= body);
    law_space_is_skipped(inner, member(name, value));
}

/// The last member of an object is read, up to the brace that closes it.
pub proof fn law_last_member_is_read(
    space: Seq<char>,
    name: Seq<char>,
    value: Seq<char>,
    v: Json,
    end: Seq<char>,
    rest: Seq<char>,
    steps: nat,
)
    requires
        all_space(space),
        all_unescaped(name),
        steps > 0,
        read_value(value, (steps - 1) as nat) == Some((v, end + (seq!['}'] + rest))),
        all_space(end),
    ensures
        read_members(space + member(name, value), steps) == Some(
            (seq![(name, v)], rest),
        ),
{
    law_name_is_read(space, name, value);
    law_space_is_skipped(end, seq!['}'] + rest);
    assert((seq!['}'] + rest).drop_first() =~= rest);
}

/// A member with a comma behind it is read, and then the members that follow.
pub proof fn law_member_is_read(
    space: Seq<char>,
    name: Seq<char>,
    value: Seq<char>,
    v: Json,
    next: Seq<char>,
    steps: nat,
)
    requires
        all_space(space),
        all_unescaped(name),
        steps > 0,
        read_value(value, (steps - 1) as nat) == Some((v, seq![','] + next)),
        read_members(next, (steps - 1) as nat) is Some,
    ensures
        ({
            let (members, rest) = read_members(next, (steps - 1) as nat)->0;
            read_members(space + member(name, value), steps) == Some(
                (seq![(name, v)] + members, rest),
            )
        }),
{
    law_name_is_read(space, name, value);
    assert((seq![','] + next).drop_first() =~= next);
}

} // verus!
