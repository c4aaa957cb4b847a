//! Small verified text helpers: appending characters, decimal rendering,
//! and ASCII case conversion.

use vstd::prelude::*;
use vstd::string::StringExecFns;

verus! {

/// Relies on `String::push`: appends exactly one character to the buffer.
#[verifier::external_body]
pub fn push_char(s: &mut String, c: char)
    ensures
        final(s)@ == old(s)@ + seq![c],
{
    s.push(c);
}

/// The decimal digit character for `d`.
pub open spec fn spec_digit(d: int) -> char {
    if d == 0 {
        '0'
    } else if d == 1 {
        '1'
    } else if d == 2 {
        '2'
    } else if d == 3 {
        '3'
    } else if d == 4 {
        '4'
    } else if d == 5 {
        '5'
    } else if d == 6 {
        '6'
    } else if d == 7 {
        '7'
    } else if d == 8 {
        '8'
    } else {
        '9'
    }
}

/// The usual decimal rendering of `n`, most significant digit first.
pub open spec fn spec_decimal(n: nat) -> Seq<char>
    decreases n,
{
    if n < 10 {
        seq![spec_digit(n as int)]
    } else {
        spec_decimal(n / 10) + seq![spec_digit((n % 10) as int)]
    }
}

fn digit_char(d: u64) -> (c: char)
    requires
        d < 10,
    ensures
        c == spec_digit(d as int),
{
    if d == 0 {
        '0'
    } else if d == 1 {
        '1'
    } else if d == 2 {
        '2'
    } else if d == 3 {
        '3'
    } else if d == 4 {
        '4'
    } else if d == 5 {
        '5'
    } else if d == 6 {
        '6'
    } else if d == 7 {
        '7'
    } else if d == 8 {
        '8'
    } else {
        '9'
    }
}

/// Appends the decimal rendering of `n` to `s`.
pub fn push_decimal(s: &mut String, n: u64)
    ensures
        final(s)@ == old(s)@ + spec_decimal(n as nat),
    decreases n,
{
    if n >= 10 {
        push_decimal(s, n / 10);
    }
    let c = digit_char(n % 10);
    push_char(s, c);
}

/// Whether `c` is an ASCII uppercase letter.
pub open spec fn spec_is_upper(c: char) -> bool {
    'A' <= c <= 'Z'
}

/// The ASCII lowercase counterpart of `c`; other characters are unchanged.
pub open spec fn spec_lower(c: char) -> char {
    if spec_is_upper(c) {
        (((c as u8) + 32) as u8) as char
    } else {
        c
    }
}

/// The snake-case rendering of one character at position `i`: an uppercase
/// letter is lowered, and preceded by an underscore unless it starts the
/// string.
pub open spec fn spec_snake_at(s: Seq<char>, i: int) -> Seq<char> {
    if spec_is_upper(s[i]) {
        if i > 0 {
            seq!['_', spec_lower(s[i])]
        } else {
            seq![spec_lower(s[i])]
        }
    } else {
        seq![s[i]]
    }
}

/// The snake-case rendering of the prefix `s[..n]`.
pub open spec fn spec_snake(s: Seq<char>, n: int) -> Seq<char>
    decreases n,
{
    if n <= 0 {
        Seq::empty()
    } else {
        spec_snake(s, n - 1) + spec_snake_at(s, n - 1)
    }
}

fn lower_char(c: char) -> (r: char)
    ensures
        r == spec_lower(c),
{
    if 'A' <= c && c <= 'Z' {
        (c as u8 + 32) as char
    } else {
        c
    }
}

/// Converts an ASCII `PascalCase` name to `snake_case`: every uppercase
/// letter is lowered, and preceded by an underscore unless it is the first
/// character.
pub fn to_snake_case(s: &str) -> (r: String)
    requires
        s@.len() <= usize::MAX,
    ensures
        r@ == spec_snake(s@, s@.len() as int),
{
    let n = s.unicode_len();
    let mut result = String::new();
    let mut i: usize = 0;
    while i < n
        invariant
            n == s@.len(),
            i <= n,
            result@ == spec_snake(s@, i as int),
        decreases n - i,
    {
        let c = s.get_char(i);
        if 'A' <= c && c <= 'Z' {
            if i > 0 {
                push_char(&mut result, '_');
            }
            let lowered = lower_char(c);
            push_char(&mut result, lowered);
        } else {
            push_char(&mut result, c);
        }
        i = i + 1;
    }
    result
}

} // verus!
