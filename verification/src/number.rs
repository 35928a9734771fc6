//! The grammar of JSON numbers, and a recognizer for it.

use vstd::prelude::*;

verus! {

/// Whether `c` is one of the ten decimal digits.
pub open spec fn spec_is_digit(c: char) -> bool {
    '0' <= c && c <= '9'
}

/// Whether `text` holds digits and nothing else.
pub open spec fn spec_all_digits(text: Seq<char>) -> bool {
    forall|i: int| 0 <= i < text.len() ==> spec_is_digit(#[trigger] text[i])
}

/// The sign of a JSON number: nothing, or a minus sign.
pub open spec fn spec_is_sign(text: Seq<char>) -> bool {
    text.len() == 0 || (text.len() == 1 && text[0] == '-')
}

/// The integer part of a JSON number: one digit or more, without a leading
/// zero before another digit.
pub open spec fn spec_is_integer(text: Seq<char>) -> bool {
    &&& text.len() >= 1
    &&& spec_all_digits(text)
    &&& text.len() > 1 ==> text[0] != '0'
}

/// The fraction of a JSON number: nothing, or a point and one digit or more.
pub open spec fn spec_is_fraction(text: Seq<char>) -> bool {
    text.len() == 0 || (text.len() >= 2 && text[0] == '.' && spec_all_digits(text.skip(1)))
}

/// The exponent of a JSON number: nothing, or `e` or `E`, an optional sign,
/// and one digit or more.
pub open spec fn spec_is_exponent(text: Seq<char>) -> bool {
    text.len() == 0 || ((text[0] == 'e' || text[0] == 'E') && {
        let digits = if text.len() >= 2 && (text[1] == '+' || text[1] == '-') {
            text.skip(2)
        } else {
            text.skip(1)
        };
        digits.len() >= 1 && spec_all_digits(digits)
    })
}

/// Whether `text` splits at `a`, `b` and `c` into the four parts of a JSON
/// number: sign, integer part, fraction and exponent.
pub open spec fn spec_splits_as_number(text: Seq<char>, a: int, b: int, c: int) -> bool {
    &&& 0 <= a <= b <= c <= text.len()
    &&& spec_is_sign(text.subrange(0, a))
    &&& spec_is_integer(text.subrange(a, b))
    &&& spec_is_fraction(text.subrange(b, c))
    &&& spec_is_exponent(text.subrange(c, text.len() as int))
}

/// Whether `text` is a JSON number: a sign, an integer part, a fraction and
/// an exponent, one after the other.
pub open spec fn spec_is_json_number(text: Seq<char>) -> bool {
    exists|a: int, b: int, c: int| spec_splits_as_number(text, a, b, c)
}

/// The position at which the run of digits that starts at `start` ends:
/// the first position from `start` on that holds no digit.
spec fn spec_digits_end(text: Seq<char>, start: int) -> int
    decreases text.len() - start,
{
    if 0 <= start < text.len() && spec_is_digit(text[start]) {
        spec_digits_end(text, start + 1)
    } else {
        start
    }
}

/// The one way in which a text can split as a number: each part reaches as
/// far as its characters allow.
spec fn spec_scan(text: Seq<char>) -> (int, int, int) {
    let int_start: int = if text.len() > 0 && text[0] == '-' {
        1
    } else {
        0
    };
    let int_end = spec_digits_end(text, int_start);
    let fraction_end = if int_end < text.len() && text[int_end] == '.' {
        spec_digits_end(text, int_end + 1)
    } else {
        int_end
    };
    (int_start, int_end, fraction_end)
}

/// Where the digits of the exponent start, if the exponent starts at `at`.
spec fn spec_exponent_digits(text: Seq<char>, at: int) -> int {
    if at + 1 < text.len() && (text[at + 1] == '+' || text[at + 1] == '-') {
        at + 2
    } else {
        at + 1
    }
}

/// Whether the scan of `text` is a split into the parts of a number.
spec fn spec_scan_accepts(text: Seq<char>) -> bool {
    let (int_start, int_end, fraction_end) = spec_scan(text);
    let has_fraction = int_end < text.len() && text[int_end] == '.';
    let has_exponent = fraction_end < text.len() && (text[fraction_end] == 'e'
        || text[fraction_end] == 'E');
    let exponent_start = spec_exponent_digits(text, fraction_end);
    &&& int_end > int_start
    &&& text[int_start] == '0' ==> int_end == int_start + 1
    &&& has_fraction ==> fraction_end > int_end + 1
    &&& if has_exponent {
        let end = spec_digits_end(text, exponent_start);
        end > exponent_start && end == text.len()
    } else {
        fraction_end == text.len()
    }
}

/// A run of digits ends within the text, holds digits only, and stops at
/// the end of the text or before a character that is no digit.
proof fn lemma_digits_end(text: Seq<char>, start: int)
    requires
        0 <= start <= text.len(),
    ensures
        start <= spec_digits_end(text, start) <= text.len(),
        forall|i: int| start <= i < spec_digits_end(text, start) ==> spec_is_digit(text[i]),
        spec_digits_end(text, start) < text.len() ==> !spec_is_digit(
            text[spec_digits_end(text, start)],
        ),
    decreases text.len() - start,
{
    if start < text.len() && spec_is_digit(text[start]) {
        lemma_digits_end(text, start + 1);
    }
}

/// Digits from `start` up to `end`, and none at `end`, make the run that
/// starts at `start` end at `end`.
proof fn lemma_digits_run(text: Seq<char>, start: int, end: int)
    requires
        0 <= start <= end <= text.len(),
        forall|i: int| start <= i < end ==> spec_is_digit(text[i]),
        end < text.len() ==> !spec_is_digit(text[end]),
    ensures
        spec_digits_end(text, start) == end,
    decreases end - start,
{
    if start < end {
        lemma_digits_run(text, start + 1, end);
    }
}

/// Where the scan of a text is accepted, the scan splits the text into the
/// parts of a JSON number.
proof fn lemma_scan_is_split(text: Seq<char>)
    requires
        spec_scan_accepts(text),
    ensures
        spec_is_json_number(text),
{
    let len = text.len() as int;
    let (int_start, int_end, fraction_end) = spec_scan(text);
    lemma_digits_end(text, int_start);
    if int_end < len {
        lemma_digits_end(text, int_end + 1);
    }
    let exponent_start = spec_exponent_digits(text, fraction_end);
    if exponent_start <= len {
        lemma_digits_end(text, exponent_start);
    }
    let fraction = text.subrange(int_end, fraction_end);
    let exponent = text.subrange(fraction_end, len);
    assert(spec_is_sign(text.subrange(0, int_start)));
    assert(spec_is_integer(text.subrange(int_start, int_end)));
    assert(spec_is_fraction(fraction)) by {
        if fraction.len() > 0 {
            assert forall|i: int| 0 <= i < fraction.skip(1).len() implies spec_is_digit(
                #[trigger] fraction.skip(1)[i],
            ) by {
                assert(fraction.skip(1)[i] == text[int_end + 1 + i]);
            }
        }
    }
    assert(spec_is_exponent(exponent)) by {
        if exponent.len() > 0 {
            let digits = if exponent.len() >= 2 && (exponent[1] == '+' || exponent[1] == '-') {
                exponent.skip(2)
            } else {
                exponent.skip(1)
            };
            assert(exponent[0] == text[fraction_end]);
            if exponent.len() >= 2 {
                assert(exponent[1] == text[fraction_end + 1]);
            }
            assert forall|i: int| 0 <= i < digits.len() implies spec_is_digit(
                #[trigger] digits[i],
            ) by {
                assert(digits[i] == text[exponent_start + i]);
            }
        }
    }
    assert(spec_splits_as_number(text, int_start, int_end, fraction_end));
}

/// Where a text splits into the parts of a JSON number, the split is the
/// scan of the text, and the scan is accepted.
proof fn lemma_split_is_scan(text: Seq<char>, a: int, b: int, c: int)
    requires
        spec_splits_as_number(text, a, b, c),
    ensures
        spec_scan(text) == (a, b, c),
        spec_scan_accepts(text),
{
    let len = text.len() as int;
    let sign = text.subrange(0, a);
    let integer = text.subrange(a, b);
    let fraction = text.subrange(b, c);
    let exponent = text.subrange(c, len);
    assert(integer[0] == text[a]);
    assert(spec_is_digit(integer[0]));
    if a == 1 {
        assert(sign[0] == text[0]);
    }
    if fraction.len() > 0 {
        assert(fraction[0] == text[b]);
    }
    if exponent.len() > 0 {
        assert(exponent[0] == text[c]);
    }
    assert forall|i: int| a <= i < b implies spec_is_digit(text[i]) by {
        assert(integer[i - a] == text[i]);
    }
    lemma_digits_run(text, a, b);
    if integer.len() > 1 {
        assert(integer[0] != '0');
    }
    if fraction.len() > 0 {
        assert forall|i: int| b + 1 <= i < c implies spec_is_digit(text[i]) by {
            assert(fraction.skip(1)[i - b - 1] == text[i]);
        }
        lemma_digits_run(text, b + 1, c);
    }
    assert(spec_scan(text) == (a, b, c));
    if exponent.len() > 0 {
        let exponent_start = spec_exponent_digits(text, c);
        if exponent.len() >= 2 {
            assert(exponent[1] == text[c + 1]);
        }
        let digits = if exponent.len() >= 2 && (exponent[1] == '+' || exponent[1] == '-') {
            exponent.skip(2)
        } else {
            exponent.skip(1)
        };
        assert forall|i: int| exponent_start <= i < len implies spec_is_digit(text[i]) by {
            assert(digits[i - exponent_start] == text[i]);
        }
        lemma_digits_run(text, exponent_start, len);
    }
}

/// A text is a JSON number exactly when its scan is accepted.
proof fn lemma_scan_decides(text: Seq<char>)
    ensures
        spec_scan_accepts(text) == spec_is_json_number(text),
{
    if spec_scan_accepts(text) {
        lemma_scan_is_split(text);
    }
    if spec_is_json_number(text) {
        let (a, b, c): (int, int, int) = choose|a: int, b: int, c: int|
            spec_splits_as_number(text, a, b, c);
        lemma_split_is_scan(text, a, b, c);
    }
}

fn is_digit(c: char) -> (digit: bool)
    ensures
        digit == spec_is_digit(c),
{
    '0' <= c && c <= '9'
}

/// Finds where the run of digits that starts at `start` ends. `len` is the
/// number of characters of `text`.
fn digits_end(text: &str, len: usize, start: usize) -> (end: usize)
    requires
        len == text@.len(),
        start <= len,
    ensures
        end == spec_digits_end(text@, start as int),
        start <= end <= len,
{
    let mut end = start;
    while end < len && is_digit(text.get_char(end))
        invariant
            len == text@.len(),
            start <= end <= len,
            spec_digits_end(text@, start as int) == spec_digits_end(text@, end as int),
        decreases len - end,
    {
        end += 1;
    }
    end
}

/// Says whether `text` is a JSON number.
pub fn is_json_number(text: &str) -> (number: bool)
    ensures
        number == spec_is_json_number(text@),
{
    proof {
        lemma_scan_decides(text@);
    }
    let len = text.unicode_len();
    let int_start: usize = if len > 0 && text.get_char(0) == '-' {
        1
    } else {
        0
    };
    let int_end = digits_end(text, len, int_start);
    if int_end == int_start {
        return false;
    }
    if text.get_char(int_start) == '0' && int_end != int_start + 1 {
        return false;
    }
    let mut fraction_end = int_end;
    if int_end < len && text.get_char(int_end) == '.' {
        fraction_end = digits_end(text, len, int_end + 1);
        if fraction_end == int_end + 1 {
            return false;
        }
    }
    if fraction_end < len && (text.get_char(fraction_end) == 'e' || text.get_char(fraction_end)
        == 'E') {
        let exponent_start: usize = if fraction_end + 1 < len && (text.get_char(fraction_end + 1)
            == '+' || text.get_char(fraction_end + 1) == '-') {
            fraction_end + 2
        } else {
            fraction_end + 1
        };
        let end = digits_end(text, len, exponent_start);
        end > exponent_start && end == len
    } else {
        fraction_end == len
    }
}

} // verus!
