use vstd::prelude::*;
use vstd::string::StringSliceAdditionalSpecFns;

verus! {

/// A class symbol of a format template: lowercase, uppercase, number, special.
pub open spec fn is_class_char(c: char) -> bool {
    c == 'l' || c == 'u' || c == 'n' || c == 's'
}

/// The sequence holds at least one class symbol.
pub open spec fn contains_class_char(s: Seq<char>) -> bool {
    exists|i: int| 0 <= i < s.len() && is_class_char(#[trigger] s[i])
}

/// A well-formed template: between 6 and 255 symbols, at least one of them
/// a class symbol.
pub open spec fn valid_template(s: Seq<char>) -> bool {
    6 <= s.len() <= 255 && contains_class_char(s)
}

pub open spec fn too_short_message() -> Seq<char> {
    "The custom format was too short. Reverting to default."@
}

pub open spec fn too_long_message() -> Seq<char> {
    "The custom format was too long (max 255). Reverting to default."@
}

pub open spec fn missing_class_message() -> Seq<char> {
    "The custom format was missing at least one format character (l, u, n, s). Reverting to default."@
}

/// The verdict on a candidate format: its byte length must be between 6 and
/// 255, and its text must hold a class symbol; the checks fail in that order.
pub open spec fn format_verdict(byte_len: int, s: Seq<char>) -> Result<bool, Seq<char>> {
    if byte_len < 6 {
        Result::Err(too_short_message())
    } else if byte_len > 255 {
        Result::Err(too_long_message())
    } else if !contains_class_char(s) {
        Result::Err(missing_class_message())
    } else {
        Result::Ok(true)
    }
}

/// A result agrees with a verdict when both accept with the same value, or
/// both reject with the same diagnostic text.
pub open spec fn verdict_matches(r: Result<bool, &str>, v: Result<bool, Seq<char>>) -> bool {
    match r {
        Result::Ok(b) => v is Ok && b == v->Ok_0,
        Result::Err(m) => v is Err && m@ == v->Err_0,
    }
}

/// The sequence holds at least one class symbol — decided by a scan.
pub fn contains_class_char_exec(v: &Vec<char>) -> (r: bool)
    ensures
        r == contains_class_char(v@),
{
    let mut i: usize = 0;
    while i < v.len()
        invariant
            i <= v@.len(),
            !contains_class_char(v@.take(i as int)),
        decreases v@.len() - i,
    {
        let c = v[i];
        if c == 'l' || c == 'u' || c == 'n' || c == 's' {
            proof {
                assert(is_class_char(v@[i as int]));
            }
            return true;
        }
        proof {
            assert forall|j: int| 0 <= j < i + 1 implies !is_class_char(
                #[trigger] v@.take(i + 1)[j],
            ) by {
                if j < i {
                    assert(v@.take(i as int)[j] == v@.take(i + 1)[j]);
                }
            }
        }
        i = i + 1;
    }
    proof {
        assert(v@.take(v@.len() as int) =~= v@);
    }
    false
}

/// Judge a candidate format string, in the order the verdict fixes: too
/// short, too long, or missing every class symbol; each rejection carries
/// its diagnostic text.
pub fn validate_format(format: &str) -> (r: Result<bool, &'static str>)
    ensures
        verdict_matches(r, format_verdict(format.spec_bytes().len() as usize as int, format@)),
{
    let len = format.len();
    if len < 6 {
        return Err("The custom format was too short. Reverting to default.");
    }
    if len > 255 {
        return Err("The custom format was too long (max 255). Reverting to default.");
    }
    let chars = crate::text::str_chars(format);
    if !contains_class_char_exec(&chars) {
        return Err(
            "The custom format was missing at least one format character (l, u, n, s). Reverting to default.",
        );
    }
    Ok(true)
}

/// The verdict is a pure function of the string's text: any two results
/// `validate_format` may return for the same string carry the same verdict
/// and, on rejection, the same diagnostic text.
pub proof fn lemma_validate_format_deterministic(
    r1: Result<bool, &str>,
    r2: Result<bool, &str>,
    byte_len: int,
    s: Seq<char>,
)
    requires
        verdict_matches(r1, format_verdict(byte_len, s)),
        verdict_matches(r2, format_verdict(byte_len, s)),
    ensures
        r1 is Ok <==> r2 is Ok,
        r1 is Ok ==> r1->Ok_0 == r2->Ok_0,
        r1 is Err ==> r1->Err_0@ == r2->Err_0@,
{
}

/// How many digit symbols, and how many special symbols, a synthesized
/// template of the given length reserves.
pub open spec fn max_inserts_for(len: int) -> int {
    if len <= 8 {
        1
    } else {
        2
    }
}

/// The symbol a synthesized template of the given length puts at position
/// `i`: a run of lowercase symbols, then uppercase up to the reserved tail,
/// then the reserved digit symbols, then the reserved special symbols.
pub open spec fn synth_char(len: int, i: int) -> char {
    let m = max_inserts_for(len);
    let half = (len - m) / 2;
    if i < half {
        'l'
    } else if i < len - 2 * m {
        'u'
    } else if i < len - m {
        'n'
    } else {
        's'
    }
}

/// The template synthesized for a requested length.
pub open spec fn synth_template(len: int) -> Seq<char> {
    Seq::new(len as nat, |i: int| synth_char(len, i))
}

/// Build the template for a requested length: lowercase symbols for the
/// first half of the unreserved positions, uppercase for the rest, then the
/// reserved digit and special symbols at the end.
pub fn generate_format_from_custom_length(length: usize) -> (r: String)
    requires
        6 <= length <= 255,
    ensures
        r@ == synth_template(length as int),
{
    let mut out: Vec<char> = Vec::new();
    let max_inserts: usize = if length <= 8 {
        1
    } else {
        2
    };
    let half = (length - max_inserts) / 2;
    let body = length - max_inserts * 2;
    let mut i: usize = 0;
    while i < body
        invariant
            i <= body,
            max_inserts == max_inserts_for(length as int),
            half == (length - max_inserts) as int / 2,
            body == length - 2 * max_inserts,
            6 <= length <= 255,
            out@ =~= synth_template(length as int).take(i as int),
        decreases body - i,
    {
        if i < half {
            out.push('l');
        } else {
            out.push('u');
        }
        proof {
            assert(out@ =~= synth_template(length as int).take(i + 1));
        }
        i = i + 1;
    }
    if max_inserts == 1 {
        out.push('n');
        out.push('s');
    } else {
        out.push('n');
        out.push('n');
        out.push('s');
        out.push('s');
    }
    proof {
        assert(out@ =~= synth_template(length as int));
    }
    crate::text::string_from_chars(&out)
}

} // verus!
