//! UTF-16, as some platforms store text.

use vstd::prelude::*;

verus! {

/// The first unit of a pair.
pub open spec fn is_high_surrogate(unit: u16) -> bool {
    0xd800 <= unit < 0xdc00
}

/// The second unit of a pair.
pub open spec fn is_low_surrogate(unit: u16) -> bool {
    0xdc00 <= unit < 0xe000
}

/// The units that stand for a character: one for those below `0x10000`, a pair for the others.
pub open spec fn units_of(ch: char) -> Seq<u16> {
    let code = ch as u32;
    if code < 0x1_0000 {
        seq![code as u16]
    } else {
        seq![
            (0xd800 + (code - 0x1_0000) / 0x400) as u16,
            (0xdc00 + (code - 0x1_0000) % 0x400) as u16,
        ]
    }
}

/// The code point that a pair of units stands for.
pub open spec fn pair_code(high: u16, low: u16) -> u32 {
    (0x1_0000 + (high - 0xd800) * 0x400 + (low - 0xdc00)) as u32
}

/// Text in UTF-16.
pub open spec fn encoded(text: Seq<char>) -> Seq<u16>
    decreases text.len(),
{
    if text.len() == 0 {
        Seq::empty()
    } else {
        encoded(text.drop_last()) + units_of(text.last())
    }
}

/// The text that `units` stand for. There is none if a unit of a pair stands alone.
pub open spec fn decoded(units: Seq<u16>) -> Option<Seq<char>>
    decreases units.len(),
{
    if units.len() == 0 {
        Some(Seq::empty())
    } else {
        let last = units.last();
        if !is_high_surrogate(last) && !is_low_surrogate(last) {
            match decoded(units.drop_last()) {
                Some(text) => Some(text.push(last as u32 as char)),
                None => None,
            }
        } else if is_low_surrogate(last) && units.len() >= 2 && is_high_surrogate(
            units[units.len() - 2],
        ) {
            match decoded(units.drop_last().drop_last()) {
                Some(text) => Some(text.push(pair_code(units[units.len() - 2], last) as char)),
                None => None,
            }
        } else {
            None
        }
    }
}

/// Appends the units of a character.
fn push_units(units: &mut Vec<u16>, ch: char)
    ensures
        final(units)@ == old(units)@ + units_of(ch),
{
    let code: u32 = ch as u32;
    if code < 0x1_0000 {
        units.push(code as u16);
    } else {
        let rest: u32 = code - 0x1_0000;
        proof {
            vstd::utf8::char_is_scalar(ch);
        }
        units.push((0xd800 + rest / 0x400) as u16);
        units.push((0xdc00 + rest % 0x400) as u16);
    }
    assert(units@ =~= old(units)@ + units_of(ch));
}

/// Encodes text as UTF-16.
pub fn encode(text: &str) -> (units: Vec<u16>)
    ensures
        units@ == encoded(text@),
{
    let mut units: Vec<u16> = Vec::new();
    let count: usize = text.unicode_len();
    let mut i: usize = 0;
    while i < count
        invariant
            count == text@.len(),
            i <= count,
            units@ == encoded(text@.take(i as int)),
        decreases count - i,
    {
        let ch: char = text.get_char(i);
        push_units(&mut units, ch);
        assert(text@.take(i as int + 1).drop_last() =~= text@.take(i as int));
        i += 1;
    }
    assert(text@.take(i as int) =~= text@);
    units
}

/// A prefix of units that stand for text, cut between two characters, and the units after it.
proof fn lemma_decoded_next(units: Seq<u16>, done: int)
    requires
        0 <= done < units.len(),
        decoded(units.take(done)) is Some,
    ensures
        !is_high_surrogate(units[done]) && !is_low_surrogate(units[done]) ==> decoded(
            units.take(done + 1),
        ) == Some(decoded(units.take(done))->0.push(units[done] as u32 as char)),
        is_high_surrogate(units[done]) && done + 1 < units.len() && is_low_surrogate(
            units[done + 1],
        ) ==> decoded(units.take(done + 2)) == Some(
            decoded(units.take(done))->0.push(pair_code(units[done], units[done + 1]) as char),
        ),
{
    assert(units.take(done + 1).drop_last() =~= units.take(done));
    if done + 1 < units.len() {
        let two = units.take(done + 2);
        assert(two.drop_last().drop_last() =~= units.take(done));
        assert(two[two.len() - 2] == units[done]);
    }
}

/// Where a unit of a pair stands alone, the whole stands for no text.
proof fn lemma_undecodable(units: Seq<u16>, at: int)
    requires
        0 <= at < units.len(),
        decoded(units.take(at)) is Some,
        is_low_surrogate(units[at]) || (is_high_surrogate(units[at]) && (at + 1 == units.len()
            || !is_low_surrogate(units[at + 1]))),
    ensures
        decoded(units) is None,
    decreases units.len(),
{
    let last = units.last();
    let rest = units.drop_last();
    if at == units.len() - 1 {
        if is_low_surrogate(last) && units.len() >= 2 && is_high_surrogate(units[units.len() - 2]) {
            // Then the units before it end in one that stands alone.
            assert(rest =~= units.take(at));
            assert(rest.last() == units[units.len() - 2]);
            assert(decoded(rest) is None);
        }
    } else if !is_high_surrogate(last) && !is_low_surrogate(last) {
        assert(rest.take(at) =~= units.take(at));
        lemma_undecodable(rest, at);
    } else if is_low_surrogate(last) && is_high_surrogate(units[units.len() - 2]) {
        let rest2 = rest.drop_last();
        assert(rest2.take(at) =~= units.take(at)) by {
            assert(at < units.len() - 2);
        }
        lemma_undecodable(rest2, at);
    }
}

/// Decodes UTF-16. The result is `None` if a unit of a pair stands alone.
pub fn decode(units: &[u16]) -> (text: Option<String>)
    ensures
        text is Some == (decoded(units@) is Some),
        text matches Some(t) ==> Some(t@) == decoded(units@),
{
    let mut text = String::new();
    assert(units@.take(0) =~= Seq::<u16>::empty());
    assert(text@ =~= Seq::<char>::empty());
    let mut i: usize = 0;
    while i < units.len()
        invariant
            i <= units.len(),
            decoded(units@.take(i as int)) == Some(text@),
        decreases units.len() - i,
    {
        let unit: u16 = units[i];
        proof {
            lemma_decoded_next(units@, i as int);
        }
        if unit < 0xd800 || unit >= 0xe000 {
            let code: u32 = unit as u32;
            let ch = char::from_u32(code);
            match ch {
                Some(ch) => {
                    proof {
                        vstd::utf8::char_u32_cast(ch, code);
                    }
                    text.push(ch);
                },
                None => {
                    assert(false);
                },
            }
            i += 1;
        } else if unit < 0xdc00 && i + 1 < units.len() && units[i + 1] >= 0xdc00 && units[i + 1]
            < 0xe000 {
            let low: u16 = units[i + 1];
            let code: u32 = 0x1_0000 + (unit as u32 - 0xd800) * 0x400 + (low as u32 - 0xdc00);
            let ch = char::from_u32(code);
            match ch {
                Some(ch) => {
                    proof {
                        vstd::utf8::char_u32_cast(ch, code);
                    }
                    text.push(ch);
                },
                None => {
                    assert(false);
                },
            }
            i += 2;
        } else {
            proof {
                lemma_undecodable(units@, i as int);
            }
            return None;
        }
    }
    assert(units@.take(i as int) =~= units@);
    Some(text)
}

/// The number of units that `text` takes.
pub open spec fn unit_len(text: Seq<char>) -> nat {
    encoded(text).len()
}

/// Reading back what was written gives the text again: decoding undoes encoding.
pub proof fn law_decode_undoes_encode(text: Seq<char>)
    ensures
        decoded(encoded(text)) == Some(text),
    decreases text.len(),
{
    if text.len() == 0 {
        assert(text =~= Seq::empty());
    } else {
        let rest = text.drop_last();
        let ch = text.last();
        law_decode_undoes_encode(rest);
        vstd::utf8::char_is_scalar(ch);
        let units = encoded(text);
        let code = ch as u32;
        vstd::utf8::char_u32_cast(ch, code);
        if code < 0x1_0000 {
            assert(units.drop_last() =~= encoded(rest));
            assert(units.last() == code);
            assert(rest.push(ch) =~= text);
        } else {
            assert(units.drop_last().drop_last() =~= encoded(rest));
            assert(units[units.len() - 2] == units_of(ch)[0]);
            assert(pair_code(units_of(ch)[0], units_of(ch)[1]) == code);
            assert(rest.push(ch) =~= text);
        }
    }
}

/// Every character takes one unit or two.
pub proof fn law_unit_len_bounds(text: Seq<char>)
    ensures
        text.len() <= unit_len(text) <= 2 * text.len(),
    decreases text.len(),
{
    if text.len() > 0 {
        law_unit_len_bounds(text.drop_last());
    }
}

/// The units of two texts in a row are the units of the one and then those of the other.
pub proof fn lemma_encoded_concat(first: Seq<char>, second: Seq<char>)
    ensures
        encoded(first + second) == encoded(first) + encoded(second),
        unit_len(first + second) == unit_len(first) + unit_len(second),
    decreases second.len(),
{
    if second.len() == 0 {
        assert(first + second =~= first);
        assert(encoded(first) + encoded(second) =~= encoded(first));
    } else {
        lemma_encoded_concat(first, second.drop_last());
        assert((first + second).drop_last() =~= first + second.drop_last());
        assert(encoded(first + second) =~= encoded(first) + encoded(second));
    }
}

/// Characters of the basic plane are one unit with the same number, and others a first unit and a
/// second one, which no other character has. Units that stand for text are those of that text.
pub proof fn law_characters_have_their_units(ch: char)
    ensures
        (ch as u32) < 0x1_0000 ==> units_of(ch).len() == 1 && units_of(ch)[0] == ch as u32
            && !is_high_surrogate(units_of(ch)[0]) && !is_low_surrogate(units_of(ch)[0]),
        (ch as u32) >= 0x1_0000 ==> units_of(ch).len() == 2 && 0xd800 <= units_of(ch)[0] < 0xdc00
            && 0xdc00 <= units_of(ch)[1] < 0xe000 && ch as u32 == 0x1_0000 + (units_of(ch)[0]
            - 0xd800) * 0x400 + (units_of(ch)[1] - 0xdc00),
{
    vstd::utf8::char_is_scalar(ch);
}

/// Units that stand for text are the units of that text: encoding undoes decoding.
pub proof fn law_encode_undoes_decode(units: Seq<u16>)
    requires
        decoded(units) is Some,
    ensures
        encoded(decoded(units)->0) == units,
    decreases units.len(),
{
    if units.len() == 0 {
        assert(units =~= Seq::empty());
    } else {
        let last = units.last();
        let text = decoded(units)->0;
        if !is_high_surrogate(last) && !is_low_surrogate(last) {
            let rest = units.drop_last();
            law_encode_undoes_decode(rest);
            let ch = last as u32 as char;
            assert(ch as u32 == last);
            assert(text.drop_last() =~= decoded(rest)->0);
            assert(text.last() == ch);
            assert(encoded(text) =~= units);
        } else {
            let rest = units.drop_last().drop_last();
            let high = units[units.len() - 2];
            law_encode_undoes_decode(rest);
            let code = pair_code(high, last);
            let ch = code as char;
            assert(0x1_0000 <= code <= 0x10_ffff);
            assert(ch as u32 == code);
            assert(text.drop_last() =~= decoded(rest)->0);
            assert(text.last() == ch);
            assert(units_of(ch)[0] == high && units_of(ch)[1] == last);
            assert(encoded(text) =~= units);
        }
    }
}

/// A unit of a pair that stands alone is no text, and a unit is of one kind only.
pub proof fn law_lone_units_are_no_text(unit: u16)
    ensures
        !(is_high_surrogate(unit) && is_low_surrogate(unit)),
        (is_high_surrogate(unit) || is_low_surrogate(unit)) == (0xd800 <= unit <= 0xdfff),
        decoded(seq![unit]) is None <==> 0xd800 <= unit <= 0xdfff,
{
    reveal_with_fuel(decoded, 2);
    assert(seq![unit].drop_last() =~= Seq::empty());
}

} // verus!
