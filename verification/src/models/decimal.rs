use vstd::prelude::*;
use vstd::string::is_ascii_spec_bytes;
use vstd::utf8::is_ascii_chars;

verus! {

/// Whether `c` is a decimal digit.
pub open spec fn is_digit(c: char) -> bool {
    '0' <= c && c <= '9'
}

/// Whether `c` is a sign.
pub open spec fn is_sign(c: char) -> bool {
    c == '+' || c == '-'
}

/// Whether `c` is the letter that begins an exponent.
pub open spec fn is_exponent_mark(c: char) -> bool {
    c == 'e' || c == 'E'
}

/// How many digits stand in `text` from the place `from` on without a break.
pub open spec fn digit_run(text: Seq<char>, from: int) -> nat
    decreases text.len() - from,
{
    if 0 <= from < text.len() && is_digit(text[from]) {
        1 + digit_run(text, from + 1)
    } else {
        0
    }
}

/// Whether an exponent begins in `text` at the place `at` and ends the text:
/// the letter `e` or `E`, a sign or none, and one digit or more.
pub open spec fn is_exponent(text: Seq<char>, at: int) -> bool {
    let digits = if at + 1 < text.len() && is_sign(text[at + 1]) {
        at + 2
    } else {
        at + 1
    };
    &&& 0 <= at < text.len()
    &&& is_exponent_mark(text[at])
    &&& digit_run(text, digits) > 0
    &&& digits + digit_run(text, digits) == text.len()
}

/// Whether `text` writes a decimal number: a sign or none; then digits, in
/// which a point may stand before, between or after them, with one digit at
/// least; then an exponent or none. These are the texts that the standard
/// parser of floating-point numbers reads as numbers; its words for infinity
/// and for what is no number are left out.
pub open spec fn is_decimal(text: Seq<char>) -> bool {
    let start = if text.len() > 0 && is_sign(text[0]) {
        1int
    } else {
        0int
    };
    let whole = digit_run(text, start);
    let point = start + whole;
    let has_point = point < text.len() && text[point] == '.';
    let fraction = if has_point {
        digit_run(text, point + 1)
    } else {
        0nat
    };
    let end = if has_point {
        point + 1 + fraction
    } else {
        point
    };
    &&& whole + fraction > 0
    &&& (end == text.len() || is_exponent(text, end))
}

/// A run of digits stays inside the text and holds digits only.
pub proof fn lemma_digit_run(text: Seq<char>, from: int)
    requires
        0 <= from <= text.len(),
    ensures
        from + digit_run(text, from) <= text.len(),
        forall|i: int| from <= i < from + digit_run(text, from) ==> is_digit(#[trigger] text[i]),
    decreases text.len() - from,
{
    if from < text.len() && is_digit(text[from]) {
        lemma_digit_run(text, from + 1);
    }
}

/// A decimal number is written in ASCII characters.
pub proof fn lemma_decimal_is_ascii(text: Seq<char>)
    requires
        is_decimal(text),
    ensures
        is_ascii_chars(text),
{
    let start = if text.len() > 0 && is_sign(text[0]) {
        1int
    } else {
        0int
    };
    lemma_digit_run(text, start);
    let point = start + digit_run(text, start);
    let has_point = point < text.len() && text[point] == '.';
    if has_point {
        lemma_digit_run(text, point + 1);
    }
    let end = if has_point {
        point + 1 + digit_run(text, point + 1)
    } else {
        point
    };
    if end < text.len() {
        let digits = if end + 1 < text.len() && is_sign(text[end + 1]) {
            end + 2
        } else {
            end + 1
        };
        lemma_digit_run(text, digits);
    }
    assert forall|i: int| 0 <= i < text.len() implies '\0' <= #[trigger] text[i] <= '\u{7f}' by {
        assert(is_digit(text[i]) || is_sign(text[i]) || is_exponent_mark(text[i]) || text[i]
            == '.');
    }
}

/// Whether the ASCII text `text` has the bytes `bytes`.
spec fn spelled(text: Seq<char>, bytes: Seq<u8>) -> bool {
    &&& bytes.len() == text.len()
    &&& forall|i: int|
        0 <= i < text.len() ==> (#[trigger] text[i]) <= '\u{7f}' && bytes[i] == text[i] as u8
}

proof fn lemma_byte_of(c: char, b: u8)
    requires
        c <= '\u{7f}',
        b == c as u8,
    ensures
        is_digit(c) <==> 48 <= b <= 57,
        c == '+' <==> b == 43,
        c == '-' <==> b == 45,
        c == '.' <==> b == 46,
        c == 'e' <==> b == 101,
        c == 'E' <==> b == 69,
{
}

fn skip_digits(bytes: &[u8], from: usize, Ghost(text): Ghost<Seq<char>>) -> (end: usize)
    requires
        spelled(text, bytes@),
        from <= bytes@.len(),
    ensures
        end == from + digit_run(text, from as int),
        end <= bytes@.len(),
{
    let mut end = from;
    while end < bytes.len()
        invariant
            spelled(text, bytes@),
            from <= end <= bytes@.len(),
            from + digit_run(text, from as int) == end + digit_run(text, end as int),
        ensures
            end == from + digit_run(text, from as int),
        decreases bytes@.len() - end,
    {
        proof {
            lemma_byte_of(text[end as int], bytes@[end as int]);
        }
        if !(48 <= bytes[end] && bytes[end] <= 57) {
            break ;
        }
        end += 1;
    }
    end
}

/// Whether `text` writes a decimal number.
pub fn is_decimal_text(text: &str) -> (decimal: bool)
    ensures
        decimal == is_decimal(text@),
{
    if !text.is_ascii() {
        proof {
            if is_decimal(text@) {
                lemma_decimal_is_ascii(text@);
            }
        }
        return false;
    }
    let bytes = text.as_bytes();
    let ghost chars = text@;
    proof {
        is_ascii_spec_bytes(text);
        assert(spelled(chars, bytes@));
    }
    let len = bytes.len();
    proof {
        if len > 0 {
            lemma_byte_of(chars[0], bytes@[0]);
        }
    }
    let start: usize = if len > 0 && (bytes[0] == 43 || bytes[0] == 45) {
        1
    } else {
        0
    };
    let point = skip_digits(bytes, start, Ghost(chars));
    proof {
        if point < len {
            lemma_byte_of(chars[point as int], bytes@[point as int]);
        }
    }
    let has_point = point < len && bytes[point] == 46;
    let end = if has_point {
        skip_digits(bytes, point + 1, Ghost(chars))
    } else {
        point
    };
    if end - start == (if has_point { 1usize } else { 0usize }) {
        return false;
    }
    if end == len {
        return true;
    }
    proof {
        lemma_byte_of(chars[end as int], bytes@[end as int]);
        if end + 1 < len {
            lemma_byte_of(chars[end + 1], bytes@[end + 1]);
        }
    }
    if !(bytes[end] == 101 || bytes[end] == 69) {
        return false;
    }
    let digits = if end + 1 < len && (bytes[end + 1] == 43 || bytes[end + 1] == 45) {
        end + 2
    } else {
        end + 1
    };
    let last = skip_digits(bytes, digits, Ghost(chars));
    last > digits && last == len
}

} // verus!
