//! Text building blocks: characters of a string, ASCII case, decimal numbers.

use vstd::prelude::*;

verus! {

/// `String::push` appends one character to the end of the string.
pub assume_specification[ std::string::String::push ](s: &mut String, c: char)
    ensures
        final(s)@ == old(s)@.push(c),
;

/// The characters of `s`, in order.
pub fn chars_of(s: &str) -> (chars: Vec<char>)
    ensures
        chars@ == s@,
{
    let mut chars: Vec<char> = Vec::new();
    for c in it: s.chars()
        invariant
            chars@ == it.seq().take(it.index()),
            it.seq() == s@,
    {
        chars.push(c);
    }
    chars
}

/// The digit character for `d`.
pub open spec fn digit(d: nat) -> char
    recommends
        d < 10,
{
    (48 + d) as char
}

/// `n` in base ten, without leading zeros.
pub open spec fn decimal(n: nat) -> Seq<char>
    decreases n,
{
    if n < 10 {
        seq![digit(n)]
    } else {
        decimal(n / 10).push(digit(n % 10))
    }
}

/// A number in base ten is one digit or more, with no zero in front.
pub proof fn law_decimal_is_digits(n: nat)
    ensures
        decimal(n).len() > 0,
        n > 0 ==> decimal(n)[0] != '0',
        forall|i: int| 0 <= i < decimal(n).len() ==> '0' <= #[trigger] decimal(n)[i] <= '9',
    decreases n,
{
    if n >= 10 {
        law_decimal_is_digits(n / 10);
    }
}

/// No two numbers are written alike in base ten.
pub proof fn law_decimal_determines_number(m: nat, n: nat)
    requires
        decimal(m) == decimal(n),
    ensures
        m == n,
    decreases m,
{
    law_decimal_is_digits(m / 10);
    law_decimal_is_digits(n / 10);
    assert(decimal(m).last() == digit(m % 10));
    assert(decimal(n).last() == digit(n % 10));
    if m >= 10 && n >= 10 {
        assert(decimal(m).drop_last() =~= decimal(m / 10));
        assert(decimal(n).drop_last() =~= decimal(n / 10));
        law_decimal_determines_number(m / 10, n / 10);
    }
}

/// Writes `n` in base ten.
pub fn decimal_string(n: u16) -> (s: String)
    ensures
        s@ == decimal(n as nat),
    decreases n,
{
    let mut s = if n < 10 {
        String::new()
    } else {
        decimal_string(n / 10)
    };
    s.push((48u8 + (n % 10) as u8) as char);
    s
}

/// The lower-case form of an ASCII letter; any other character is itself.
pub open spec fn lower(c: char) -> char {
    if 'A' <= c <= 'Z' {
        (c as u32 + 32) as char
    } else {
        c
    }
}

/// `a` and `b` differ in nothing but the case of ASCII letters.
pub open spec fn same_ignoring_case(a: Seq<char>, b: Seq<char>) -> bool {
    &&& a.len() == b.len()
    &&& forall|i: int| 0 <= i < a.len() ==> lower(#[trigger] a[i]) == lower(b[i])
}

fn lower_char(c: char) -> (l: char)
    ensures
        l == lower(c),
{
    if 'A' <= c && c <= 'Z' {
        ((c as u8) + 32u8) as char
    } else {
        c
    }
}

/// Compares two strings, ignoring the case of ASCII letters.
pub fn eq_ignoring_case(a: &str, b: &str) -> (same: bool)
    ensures
        same == same_ignoring_case(a@, b@),
{
    let x = chars_of(a);
    let y = chars_of(b);
    if x.len() != y.len() {
        return false;
    }
    for i in 0..x.len()
        invariant
            x@ == a@,
            y@ == b@,
            x.len() == y.len(),
            forall|j: int| 0 <= j < i ==> lower(#[trigger] a@[j]) == lower(b@[j]),
    {
        if lower_char(x[i]) != lower_char(y[i]) {
            return false;
        }
    }
    true
}

} // verus!
