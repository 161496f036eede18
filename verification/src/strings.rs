//! Text helpers: the pieces of `String` that the rest of the library edits text with.

use vstd::prelude::*;

verus! {

/// `String::push`: the character is appended after the existing contents.
pub assume_specification[ String::push ](s: &mut String, ch: char)
    ensures
        final(s)@ == old(s)@.push(ch),
;

/// `String::pop`: takes the last character off, or reports `None` for an empty string.
pub assume_specification[ String::pop ](s: &mut String) -> (last: Option<char>)
    ensures
        old(s)@.len() == 0 ==> last is None && final(s)@ == old(s)@,
        old(s)@.len() > 0 ==> last == Some(old(s)@.last()) && final(s)@ == old(s)@.drop_last(),
;

/// `char::from_u32`: the character with that code point. Code points above `0x10ffff` and
/// surrogates have none.
pub assume_specification[ char::from_u32 ](code: u32) -> (ch: Option<char>)
    ensures
        vstd::utf8::is_scalar(code) ==> ch is Some && ch->0 as u32 == code,
        !vstd::utf8::is_scalar(code) ==> ch is None,
;

/// The number of bytes that `text` takes in UTF-8. Offsets into a document count these.
pub open spec fn byte_len(text: Seq<char>) -> nat {
    vstd::utf8::encode_utf8(text).len()
}

/// Text of this size can exist in memory: no allocation is larger than `isize::MAX` bytes.
pub open spec fn fits_in_memory(text: Seq<char>) -> bool {
    byte_len(text) <= isize::MAX
}

/// The length of `text` in bytes.
pub fn len_in_bytes(text: &str) -> (len: usize)
    ensures
        len == byte_len(text@),
{
    text.as_bytes().len()
}

/// The digit for a number below ten.
pub open spec fn digit(number: int) -> char {
    (48 + number) as u32 as char
}

/// The decimal digits of a number, without leading zeros.
pub open spec fn digits(number: nat) -> Seq<char>
    decreases number,
{
    if number < 10 {
        seq![digit(number as int)]
    } else {
        digits(number / 10).push(digit((number % 10) as int))
    }
}

/// A number in decimal.
pub open spec fn decimal(number: int) -> Seq<char> {
    if number < 0 {
        seq!['-'] + digits((-number) as nat)
    } else {
        digits(number as nat)
    }
}

fn push_digits(text: &mut String, number: u32)
    ensures
        final(text)@ == old(text)@ + digits(number as nat),
    decreases number,
{
    if number >= 10 {
        push_digits(text, number / 10);
    }
    let code: u32 = 48 + number % 10;
    match char::from_u32(code) {
        Some(ch) => {
            proof {
                vstd::utf8::char_u32_cast(ch, code);
            }
            text.push(ch);
        },
        None => {
            assert(false);
        },
    }
    assert(text@ =~= old(text)@ + digits(number as nat));
}

/// Writes a number in decimal.
pub fn to_decimal(number: i32) -> (text: String)
    ensures
        text@ == decimal(number as int),
{
    let mut text = String::new();
    if number < 0 {
        text.push('-');
        let magnitude: i64 = -(number as i64);
        push_digits(&mut text, magnitude as u32);
    } else {
        push_digits(&mut text, number as u32);
    }
    assert(text@ =~= decimal(number as int));
    text
}

/// The number that decimal digits stand for.
pub open spec fn read(text: Seq<char>) -> int
    decreases text.len(),
{
    if text.len() == 0 {
        0
    } else {
        10 * read(text.drop_last()) + (text.last() as int - 48)
    }
}

/// The digits of a number stand for it, are all digits, and begin with a zero only if there is no
/// other.
pub proof fn law_digits_read_back(number: nat)
    ensures
        digits(number).len() > 0,
        read(digits(number)) == number,
        forall|i: int|
            0 <= i < digits(number).len() ==> '0' <= #[trigger] digits(number)[i] <= '9',
        digits(number)[0] == '0' ==> number == 0 && digits(number).len() == 1,
    decreases number,
{
    reveal_with_fuel(read, 2);
    let text = digits(number);
    let last = (number % 10) as int;
    assert(digit(last) as int == 48 + last);
    if number < 10 {
        assert(text.drop_last() =~= Seq::empty());
    } else {
        law_digits_read_back(number / 10);
        let rest = digits(number / 10);
        assert(text.drop_last() =~= rest);
        assert(text[0] == rest[0]);
        assert forall|i: int| 0 <= i < text.len() implies '0' <= #[trigger] text[i] <= '9' by {
            if i < rest.len() {
                assert(text[i] == rest[i]);
            }
        }
    }
}

/// A number in decimal stands for it, with a sign in front exactly if it is negative.
pub proof fn law_decimals_read_back(number: int)
    ensures
        decimal(number).len() > 0,
        (decimal(number)[0] == '-') == (number < 0),
        number >= 0 ==> read(decimal(number)) == number,
        number < 0 ==> read(decimal(number).skip(1)) == -number,
{
    if number < 0 {
        law_digits_read_back((-number) as nat);
        assert(decimal(number).skip(1) =~= digits((-number) as nat));
    } else {
        law_digits_read_back(number as nat);
    }
}

} // verus!
