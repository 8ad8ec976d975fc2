use vstd::prelude::*;
use rand::RngExt;

verus! {

/// An ASCII lowercase letter, the candidate set of the `l` class.
pub open spec fn is_lowercase_letter(c: char) -> bool {
    97 <= c as u32 <= 122
}

/// An ASCII uppercase letter, the candidate set of the `u` class.
pub open spec fn is_uppercase_letter(c: char) -> bool {
    65 <= c as u32 <= 90
}

/// A member of the fixed special-character set of the `s` class.
pub open spec fn is_special_char(c: char) -> bool {
    c == '$' || c == '@' || c == '*' || c == '&' || c == '=' || c == '%' || c == '+' || c == ';'
        || c == '^' || c == '-'
}

/// What a rendered character may be for a template symbol: a member of the
/// symbol's candidate set for a class symbol, the symbol itself otherwise.
pub open spec fn replacement_matches(symbol: char, c: char) -> bool {
    if symbol == 'l' {
        is_lowercase_letter(c)
    } else if symbol == 'u' {
        is_uppercase_letter(c)
    } else if symbol == 'n' {
        crate::numerals::is_ascii_digit(c)
    } else if symbol == 's' {
        is_special_char(c)
    } else {
        c == symbol
    }
}

/// Relies on rand::rng and RngExt::random_range: a value drawn from the
/// range `0..bound`, which panics only on an empty range.
#[verifier::external_body]
fn pick_index(bound: usize) -> (i: usize)
    requires
        0 < bound,
    ensures
        i < bound,
{
    let mut rng = rand::rng();
    rng.random_range(0..bound)
}

/// One lowercase letter, drawn at random.
fn pick_lowercase() -> (c: char)
    ensures
        is_lowercase_letter(c),
{
    let i = pick_index(26);
    (97 + i as u8) as char
}

/// One uppercase letter, drawn at random.
fn pick_uppercase() -> (c: char)
    ensures
        is_uppercase_letter(c),
{
    let i = pick_index(26);
    (65 + i as u8) as char
}

/// One decimal digit, drawn at random.
fn pick_digit() -> (c: char)
    ensures
        crate::numerals::is_ascii_digit(c),
{
    let i = pick_index(10);
    (48 + i as u8) as char
}

/// One special character, drawn at random.
fn pick_special() -> (c: char)
    ensures
        is_special_char(c),
{
    let i = pick_index(10);
    match i {
        0 => '$',
        1 => '@',
        2 => '*',
        3 => '&',
        4 => '=',
        5 => '%',
        6 => '+',
        7 => ';',
        8 => '^',
        _ => '-',
    }
}

/// Render one template symbol: draw from the candidate set of a class
/// symbol, pass any other character through unchanged.
pub fn match_format_char_to_replacement(symbol: char) -> (r: char)
    ensures
        replacement_matches(symbol, r),
{
    if symbol == 'l' {
        pick_lowercase()
    } else if symbol == 'u' {
        pick_uppercase()
    } else if symbol == 'n' {
        pick_digit()
    } else if symbol == 's' {
        pick_special()
    } else {
        symbol
    }
}

/// Render the resolved template into a password: one character per template
/// symbol, in template order, each drawn from the symbol's candidate set or
/// passed through as a literal.
pub fn generate_password_from_options(options: &crate::options::Options) -> (r: String)
    ensures
        r@.len() == options.format@.len(),
        forall|i: int|
            0 <= i < r@.len() ==> replacement_matches(options.format@[i], #[trigger] r@[i]),
{
    let symbols = crate::text::str_chars(options.format.as_str());
    let mut out: Vec<char> = Vec::new();
    let mut i: usize = 0;
    while i < symbols.len()
        invariant
            i <= symbols@.len(),
            symbols@ == options.format@,
            out@.len() == i,
            forall|j: int|
                0 <= j < i ==> replacement_matches(symbols@[j], #[trigger] out@[j]),
        decreases symbols@.len() - i,
    {
        out.push(match_format_char_to_replacement(symbols[i]));
        i = i + 1;
    }
    crate::text::string_from_chars(&out)
}

} // verus!
