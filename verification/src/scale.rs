//! The scale of the window, as it is given on the command line.
use vstd::prelude::*;

verus! {

/// The smallest scale.
pub const MIN_SCALE: u32 = 1;

/// The largest scale.
pub const MAX_SCALE: u32 = 8;

/// The scale that is taken when none is given.
pub const DEFAULT_SCALE: u32 = 2;

/// A decimal digit.
pub open spec fn is_digit(c: char) -> bool {
    '0' <= c <= '9'
}

/// The number that a sequence of decimal digits stands for.
pub open spec fn digits_value(digits: Seq<char>) -> nat
    decreases digits.len(),
{
    if digits.len() == 0 {
        0
    } else {
        10 * digits_value(digits.drop_last()) + (digits.last() as nat - '0' as nat) as nat
    }
}

/// A text without the plus sign that it may start with.
pub open spec fn unsigned(text: Seq<char>) -> Seq<char> {
    if text.len() > 0 && text[0] == '+' {
        text.skip(1)
    } else {
        text
    }
}

/// `text` stands for a number of the type `u32`: it is at least one decimal digit, after at most
/// one plus sign, and the number is not too large.
pub open spec fn is_u32(text: Seq<char>) -> bool {
    let digits = unsigned(text);
    &&& digits.len() > 0
    &&& forall|i: int| 0 <= i < digits.len() ==> is_digit(#[trigger] digits[i])
    &&& digits_value(digits) <= u32::MAX
}

/// The number that `text` stands for, if `is_u32(text)`.
pub open spec fn u32_value(text: Seq<char>) -> nat {
    digits_value(unsigned(text))
}

/// The words in which the standard library explains why `text` is not a number of the type
/// `u32`.
pub uninterp spec fn parse_error_words(text: Seq<char>) -> Seq<char>;

/// Calls `str::parse::<u32>`. It is trusted to succeed exactly on an optional plus sign followed
/// by one or more decimal digits whose value fits in a `u32`, and to give that value. On any
/// other text the error is turned into the words that it displays, which depend on the text
/// alone. What the words are is left open.
#[verifier::external_body]
fn parse_u32(text: &str) -> (res: Result<u32, String>)
    ensures
        res is Ok <==> is_u32(text@),
        res matches Ok(value) ==> value == u32_value(text@),
        res matches Err(words) ==> words@ == parse_error_words(text@),
{
    match text.parse::<u32>() {
        Ok(value) => Ok(value),
        Err(error) => Err(format!("{}", error)),
    }
}

/// Decides on a scale that was read as a number, or of which `parsed` says why it could not be.
pub fn check_scale(parsed: Result<u32, String>) -> (res: Result<(), String>)
    ensures
        res is Ok <==> (parsed matches Ok(scale) && MIN_SCALE <= scale <= MAX_SCALE),
        parsed matches Ok(scale) && scale < MIN_SCALE ==> res->Err_0@ == "Scale must be at least 1"@,
        parsed matches Ok(scale) && scale > MAX_SCALE ==> res->Err_0@ == "Scale may be at most 8"@,
        parsed matches Err(words) ==> res->Err_0@ == "Could not parse scale: "@ + words@,
        res is Ok <==> (parsed matches Ok(scale) && 1 <= scale <= 8),
        parsed matches Ok(scale) && scale < 1 ==> res->Err_0@ == "Scale must be at least 1"@,
        parsed matches Ok(scale) && scale > 8 ==> res->Err_0@ == "Scale may be at most 8"@,
{
    match parsed {
        Err(words) => Err("Could not parse scale: ".to_owned().concat(words.as_str())),
        Ok(scale) => {
            if scale < MIN_SCALE {
                Err("Scale must be at least 1".to_owned())
            } else if scale > MAX_SCALE {
                Err("Scale may be at most 8".to_owned())
            } else {
                Ok(())
            }
        },
    }
}

/// `text` can be given as the scale.
pub open spec fn is_scale(text: Seq<char>) -> bool {
    is_u32(text) && MIN_SCALE <= u32_value(text) <= MAX_SCALE
}

/// Decides whether `text` can be given as the scale, and says why if it cannot.
pub fn validate_scale(text: &str) -> (res: Result<(), String>)
    ensures
        res is Ok <==> is_scale(text@),
        is_u32(text@) && u32_value(text@) < MIN_SCALE ==> res->Err_0@
            == "Scale must be at least 1"@,
        is_u32(text@) && u32_value(text@) > MAX_SCALE ==> res->Err_0@ == "Scale may be at most 8"@,
        !is_u32(text@) ==> res->Err_0@ == "Could not parse scale: "@ + parse_error_words(text@),
        res is Ok <==> is_u32(text@) && 1 <= u32_value(text@) <= 8,
        is_u32(text@) && u32_value(text@) == 0 ==> res->Err_0@ == "Scale must be at least 1"@,
        is_u32(text@) && u32_value(text@) > 8 ==> res->Err_0@ == "Scale may be at most 8"@,
{
    check_scale(parse_u32(text))
}

/// The scale that the command line asks for. `value` is what was given as the scale, if
/// anything was. If it was accepted, or if nothing was given, the scale is within the limits.
pub fn scale_of(value: Option<&str>) -> (res: u32)
    requires
        value matches Some(text) ==> is_u32(text@),
    ensures
        value matches Some(text) ==> res == u32_value(text@),
        value is None ==> res == DEFAULT_SCALE,
        (value matches Some(text) ==> is_scale(text@)) ==> MIN_SCALE <= res <= MAX_SCALE,
        value is None ==> res == 2,
{
    let text = match value {
        Some(text) => text,
        None => "2",
    };
    proof {
        reveal_strlit("2");
        reveal_with_fuel(digits_value, 2);
    }
    parse_u32(text).unwrap()
}

/// Digits that stand for nothing are all zeros, and zeros stand for nothing.
proof fn only_zeros_are_nothing(digits: Seq<char>)
    requires
        forall|i: int| 0 <= i < digits.len() ==> '0' <= #[trigger] digits[i] <= '9',
    ensures
        digits_value(digits) == 0 <==> forall|i: int|
            0 <= i < digits.len() ==> #[trigger] digits[i] == '0',
    decreases digits.len(),
{
    if digits.len() > 0 {
        let front = digits.drop_last();
        assert forall|i: int| 0 <= i < front.len() implies '0' <= #[trigger] front[i] <= '9' by {
            assert(front[i] == digits[i]);
        }
        only_zeros_are_nothing(front);
        assert(digits.last() == digits[digits.len() - 1]);
        assert(forall|i: int| 0 <= i < front.len() ==> front[i] == #[trigger] digits[i]);
        assert(forall|i: int| 0 <= i < front.len() ==> digits[i] == #[trigger] front[i]);
    }
}

/// A scale is one of the digits from 1 to 8, after any number of zeros and at most one plus sign in
/// front of it all. Nothing else is accepted, and the scale is that digit.
pub proof fn a_scale_is_a_digit_from_1_to_8(text: Seq<char>)
    ensures
        is_scale(text) <==> ({
            let start: int = if text.len() > 0 && text[0] == '+' {
                1
            } else {
                0
            };
            &&& text.len() > start
            &&& forall|i: int| start <= i < text.len() - 1 ==> #[trigger] text[i] == '0'
            &&& '1' <= text.last() <= '8'
        }),
        is_scale(text) ==> u32_value(text) == text.last() as int - '0' as int,
{
    let start: int = if text.len() > 0 && text[0] == '+' {
        1
    } else {
        0
    };
    let digits = unsigned(text);
    assert(digits =~= text.skip(start));
    if digits.len() > 0 {
        let front = digits.drop_last();
        assert(digits.last() == text.last());
        assert(digits_value(digits) == 10 * digits_value(front) + (digits.last() as nat
            - '0' as nat) as nat);
        assert(forall|i: int| 0 <= i < front.len() ==> #[trigger] front[i] == text[i + start]);
        assert(forall|i: int|
            start <= i < text.len() - 1 ==> #[trigger] text[i] == front[i - start]);
        if is_scale(text) {
            assert forall|i: int| 0 <= i < front.len() implies '0' <= #[trigger] front[i] <= '9' by {
                assert(is_digit(digits[i]));
            }
            assert(is_digit(digits[digits.len() - 1]));
            only_zeros_are_nothing(front);
        } else if '1' <= text.last() <= '8' && forall|i: int|
            start <= i < text.len() - 1 ==> #[trigger] text[i] == '0' {
            assert forall|i: int| 0 <= i < front.len() implies #[trigger] front[i] == '0' by {
                assert(text[i + start] == '0');
            }
            only_zeros_are_nothing(front);
            assert forall|i: int| 0 <= i < digits.len() implies is_digit(#[trigger] digits[i]) by {
                if i < front.len() {
                    assert(front[i] == '0');
                }
            }
        }
    }
}

/// Numbers are read digit by digit: a digit behind a number makes it ten times as large and adds
/// itself, for as long as the number fits in 32 bits. A digit alone is itself, and a plus sign in
/// front makes no difference.
pub proof fn numbers_are_read_digit_by_digit(text: Seq<char>, c: char)
    requires
        forall|i: int| 0 <= i < text.len() ==> '0' <= #[trigger] text[i] <= '9',
        '0' <= c <= '9',
    ensures
        is_u32(seq![c]) && u32_value(seq![c]) == c as int - '0' as int,
        u32_value(text.push(c)) == 10 * u32_value(text) + (c as int - '0' as int),
        is_u32(text.push(c)) <==> 10 * u32_value(text) + (c as int - '0' as int) <= 0xffff_ffff,
        u32_value(seq!['+'] + text) == u32_value(text),
        is_u32(seq!['+'] + text) <==> is_u32(text),
{
    reveal_with_fuel(digits_value, 2);
    assert(seq![c].drop_last() =~= Seq::<char>::empty());
    assert(unsigned(seq![c]) =~= seq![c]);
    let longer = text.push(c);
    assert(longer.drop_last() =~= text);
    assert('0' <= longer[0] <= '9') by {
        if text.len() > 0 {
            assert(longer[0] == text[0]);
        }
    }
    assert(unsigned(longer) == longer);
    assert(unsigned(text) == text) by {
        if text.len() > 0 {
            assert('0' <= text[0]);
        }
    }
    assert forall|i: int| 0 <= i < longer.len() implies is_digit(#[trigger] longer[i]) by {
        if i < text.len() {
            assert(longer[i] == text[i]);
        }
    }
    assert((seq!['+'] + text).skip(1) =~= text);
    assert(unsigned(seq!['+'] + text) == text);
}

/// Only digits make a number, and at least one of them: a text is refused if it is empty or only a
/// plus sign, if anything but a digit stands behind the first place, or if anything but a digit or
/// a plus sign stands there.
pub proof fn only_digits_make_a_number(text: Seq<char>, i: int)
    ensures
        text.len() == 0 ==> !is_u32(text),
        text == seq!['+'] ==> !is_u32(text),
        0 < i < text.len() && !('0' <= text[i] <= '9') ==> !is_u32(text),
        text.len() > 0 && text[0] != '+' && !('0' <= text[0] <= '9') ==> !is_u32(text),
{
    if 0 < i < text.len() && !('0' <= text[i] <= '9') {
        if text[0] == '+' {
            assert(unsigned(text)[i - 1] == text[i]);
        } else {
            assert(unsigned(text)[i] == text[i]);
        }
    }
    if text.len() > 0 && text[0] != '+' {
        assert(unsigned(text)[0] == text[0]);
    }
}

/// The limits are those that the refusals name.
pub proof fn limits_of_the_scale(text: Seq<char>)
    ensures
        is_scale(text) <==> is_u32(text) && 1 <= u32_value(text) <= 8,
{
}

} // verus!
