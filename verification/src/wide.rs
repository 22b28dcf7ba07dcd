//! UTF-16 text as the host and the registry hold it: terminated strings,
//! their bytes, and their transcription.
use vstd::prelude::*;
use vstd::slice::slice_subrange;

verus! {

/// The UTF-16 code units of one character.
pub open spec fn char_units(c: char) -> Seq<u16> {
    let v = c as int;
    if v < 0x1_0000 {
        seq![v as u16]
    } else {
        seq![(0xD800 + (v - 0x1_0000) / 0x400) as u16, (0xDC00 + (v - 0x1_0000) % 0x400) as u16]
    }
}

/// The UTF-16 encoding of a text.
pub open spec fn utf16_units(text: Seq<char>) -> Seq<u16>
    decreases text.len(),
{
    if text.len() == 0 {
        Seq::empty()
    } else {
        char_units(text[0]) + utf16_units(text.skip(1))
    }
}

/// Whether the unit is the first half of a surrogate pair.
pub open spec fn is_high_surrogate(unit: u16) -> bool {
    0xD800 <= unit <= 0xDBFF
}

/// Whether the unit is the second half of a surrogate pair.
pub open spec fn is_low_surrogate(unit: u16) -> bool {
    0xDC00 <= unit <= 0xDFFF
}

/// The text that UTF-16 units stand for, with U+FFFD in place of each
/// surrogate that has no partner.
pub open spec fn utf16_text_lossy(units: Seq<u16>) -> Seq<char>
    decreases units.len(),
{
    if units.len() == 0 {
        Seq::empty()
    } else if is_high_surrogate(units[0]) && units.len() >= 2 && is_low_surrogate(units[1]) {
        seq![(0x1_0000 + (units[0] - 0xD800) * 0x400 + (units[1] - 0xDC00)) as char]
            + utf16_text_lossy(units.skip(2))
    } else if is_high_surrogate(units[0]) || is_low_surrogate(units[0]) {
        seq!['\u{FFFD}'] + utf16_text_lossy(units.skip(1))
    } else {
        seq![units[0] as char] + utf16_text_lossy(units.skip(1))
    }
}

/// The place of the first zero unit, or the length where there is none.
pub open spec fn first_nul(units: Seq<u16>) -> int
    decreases units.len(),
{
    if units.len() == 0 || units[0] == 0 {
        0
    } else {
        1 + first_nul(units.skip(1))
    }
}

/// The units as a terminated string: a terminator is added unless the units
/// end in one already. Units with a zero before the last place have no such
/// form.
pub open spec fn c_string_units(units: Seq<u16>) -> Option<Seq<u16>> {
    if first_nul(units) == units.len() {
        Some(units.push(0))
    } else if first_nul(units) == units.len() - 1 {
        Some(units)
    } else {
        None
    }
}

/// The bytes of the units in memory order on a little-endian machine: the low
/// byte of each unit, then its high byte.
pub open spec fn le_bytes(units: Seq<u16>) -> Seq<u8> {
    Seq::new(
        2 * units.len(),
        |i: int|
            if i % 2 == 0 {
                (units[i / 2] % 256) as u8
            } else {
                (units[i / 2] / 256) as u8
            },
    )
}

/// What `first_nul` is: a place within the units before which no unit is
/// zero, and which holds a zero unless it is the length.
pub proof fn lemma_first_nul(units: Seq<u16>)
    ensures
        0 <= first_nul(units) <= units.len(),
        forall|i: int| 0 <= i < first_nul(units) ==> units[i] != 0,
        first_nul(units) < units.len() ==> units[first_nul(units)] == 0,
    decreases units.len(),
{
    if units.len() != 0 && units[0] != 0 {
        let rest = units.skip(1);
        lemma_first_nul(rest);
        assert forall|i: int| 0 <= i < first_nul(units) implies units[i] != 0 by {
            if i > 0 {
                assert(units[i] == rest[i - 1]);
            }
        }
        if first_nul(units) < units.len() {
            assert(units[first_nul(units)] == rest[first_nul(rest)]);
        }
    }
}

/// A place that holds the first zero unit is `first_nul`; so is the length
/// where no unit is zero.
pub proof fn lemma_first_nul_is(units: Seq<u16>, at: int)
    requires
        0 <= at <= units.len(),
        forall|i: int| 0 <= i < at ==> units[i] != 0,
        at < units.len() ==> units[at] == 0,
    ensures
        first_nul(units) == at,
{
    lemma_first_nul(units);
}

/// A character is a code point that is no surrogate.
proof fn lemma_char_range(c: char)
    ensures
        0 <= c as int <= 0xD7FF || 0xE000 <= c as int <= 0x10_FFFF,
{
}

/// Decoding what was encoded gives the text back: of valid UTF-16 the
/// transcription loses nothing.
pub proof fn lemma_utf16_round_trip(text: Seq<char>)
    ensures
        utf16_text_lossy(utf16_units(text)) == text,
    decreases text.len(),
{
    if text.len() > 0 {
        let c = text[0];
        let rest = text.skip(1);
        let units = utf16_units(text);
        lemma_utf16_round_trip(rest);
        lemma_char_range(c);
        if (c as int) < 0x1_0000 {
            assert(units[0] == char_units(c)[0]);
            assert(units.skip(1) =~= utf16_units(rest));
        } else {
            assert(units[0] == char_units(c)[0]);
            assert(units[1] == char_units(c)[1]);
            assert(units.skip(2) =~= utf16_units(rest));
        }
        assert(seq![c] + rest =~= text);
    }
}

/// The place of the first zero unit of a buffer, or its length.
pub fn terminator_index(buffer: &[u16]) -> (at: usize)
    ensures
        at == first_nul(buffer@),
{
    let mut i: usize = 0;
    while i < buffer.len() && buffer[i] != 0
        invariant
            i <= buffer@.len(),
            forall|k: int| 0 <= k < i ==> buffer@[k] != 0,
        decreases buffer@.len() - i,
    {
        i += 1;
    }
    proof {
        lemma_first_nul_is(buffer@, i as int);
    }
    i
}

/// The text in a buffer that holds a terminated UTF-16 string: the units
/// before the first zero, or all of them where the terminator is missing,
/// transcribed with U+FFFD for what is no valid UTF-16.
pub fn decode_name(buffer: &[u16]) -> (name: String)
    ensures
        name@ == utf16_text_lossy(buffer@.take(first_nul(buffer@))),
{
    let end = terminator_index(buffer);
    proof {
        lemma_first_nul(buffer@);
    }
    let units = slice_subrange(buffer, 0, end);
    assert(units@ == buffer@.take(end as int));
    u16str_to_string_lossy(units)
}

/// The bytes of UTF-16 units as the registry stores them: two bytes for each
/// unit, the low byte first.
pub fn as_u8_slice(slice: &[u16]) -> (bytes: Vec<u8>)
    ensures
        bytes@ == le_bytes(slice@),
{
    let mut bytes: Vec<u8> = Vec::new();
    let mut i: usize = 0;
    while i < slice.len()
        invariant
            i <= slice@.len(),
            bytes@.len() == 2 * i,
            forall|k: int| 0 <= k < 2 * i ==> bytes@[k] == le_bytes(slice@)[k],
        decreases slice@.len() - i,
    {
        let unit: u16 = slice[i];
        let low: u8 = (unit % 256) as u8;
        let high: u8 = (unit / 256) as u8;
        bytes.push(low);
        bytes.push(high);
        i += 1;
    }
    assert(bytes@ =~= le_bytes(slice@));
    bytes
}

/// A terminated string ends in its only zero unit, and before that unit it
/// holds the units it was made of; there is none exactly where a zero stands
/// before the last place.
pub proof fn lemma_c_string_units(units: Seq<u16>)
    ensures
        c_string_units(units) is None <==> first_nul(units) < units.len() - 1,
        c_string_units(units) matches Some(string) ==> {
            &&& string.len() >= 1
            &&& first_nul(string) == string.len() - 1
            &&& string.last() == 0
            &&& string.drop_last() == units.take(first_nul(units))
        },
{
    lemma_first_nul(units);
    match c_string_units(units) {
        Some(string) => {
            lemma_first_nul_is(string, string.len() - 1);
            assert(string.drop_last() =~= units.take(first_nul(units)));
        },
        None => {},
    }
}

/// The units of a text as a terminated UTF-16 string, where the text holds no
/// zero character before its last place.
pub fn wide_c_string(text: &str) -> (units: Option<Vec<u16>>)
    ensures
        units is Some <==> c_string_units(utf16_units(text@)) is Some,
        units matches Some(string) ==> {
            &&& Some(string@) == c_string_units(utf16_units(text@))
            &&& string@.len() >= 1
            &&& string@.last() == 0
            &&& first_nul(string@) == string@.len() - 1
        },
{
    proof {
        lemma_c_string_units(utf16_units(text@));
    }
    u16cstring_from_str(text)
}

/// Calls `widestring::U16CString::from_str` and hands out the string's units,
/// terminator included. By that function's source the text is encoded as
/// UTF-16 and scanned for zero units: one before the last place is an error,
/// and a terminator is added unless the last unit is one.
#[verifier::external_body]
fn u16cstring_from_str(text: &str) -> (units: Option<Vec<u16>>)
    ensures
        units is Some <==> c_string_units(utf16_units(text@)) is Some,
        units matches Some(string) ==> Some(string@) == c_string_units(utf16_units(text@)),
{
    match widestring::U16CString::from_str(text) {
        Ok(s) => Some(s.into_vec_with_nul()),
        Err(_) => None,
    }
}

/// Calls `widestring::U16CString::from_vec` and hands out the string's units,
/// terminator included. By that function's source the units are scanned for
/// zeros: one before the last place is an error, and a terminator is added
/// unless the last unit is one.
#[verifier::external_body]
pub(crate) fn u16cstring_from_vec(source: &[u16]) -> (units: Option<Vec<u16>>)
    ensures
        units is Some <==> c_string_units(source@) is Some,
        units matches Some(string) ==> Some(string@) == c_string_units(source@),
{
    match widestring::U16CString::from_vec(source) {
        Ok(s) => Some(s.into_vec_with_nul()),
        Err(_) => None,
    }
}

/// Calls `widestring::U16Str::to_string_lossy`, which decodes the units as
/// UTF-16 and puts U+FFFD in place of each invalid sequence: it hands them to
/// `String::from_utf16_lossy`.
#[verifier::external_body]
fn u16str_to_string_lossy(units: &[u16]) -> (text: String)
    ensures
        text@ == utf16_text_lossy(units@),
{
    widestring::U16Str::from_slice(units).to_string_lossy()
}

} // verus!
