//! Identifiers of classes and interfaces, and their text form.
use vstd::prelude::*;

verus! {

/// A 128-bit identifier of a class or an interface. The number's 32
/// hexadecimal digits, most significant first, are the digits of the
/// identifier's text form.
#[derive(Clone, Copy, Debug, PartialEq, Eq, Structural)]
pub struct Guid(pub u128);

/// The base role that every object plays: `IUnknown`.
pub const IID_IUNKNOWN: u128 = 0x00000000_0000_0000_C000_000000000046;

/// The plugin's own role, `IRustAPO`. The same identifier names the plugin's
/// class.
pub const IID_IRUSTAPO: u128 = 0x0129658B_8ED4_47E7_BFA5_E2933B128767;

/// The processing-object role, which provides the registration properties:
/// `IAudioProcessingObject`.
pub const IID_IAUDIOPROCESSINGOBJECT: u128 = 0xFD7F2B29_24D0_4B5C_B177_592C39F9CA10;

/// The system-effects marker: `IAudioSystemEffects`.
pub const IID_IAUDIOSYSTEMEFFECTS: u128 = 0x5FA00F27_ADD6_499A_8A9D_6B98521FA75B;

/// The configuration role, which locks and unlocks for processing:
/// `IAudioProcessingObjectConfiguration`.
pub const IID_IAUDIOPROCESSINGOBJECTCONFIGURATION: u128 = 0x0E5ED805_ABA6_49C3_8F9A_2B8C889C4FA8;

/// The real-time role: `IAudioProcessingObjectRT`.
pub const IID_IAUDIOPROCESSINGOBJECTRT: u128 = 0x9E1D6A6D_DDBC_4E95_A4C7_AD64BA37846C;

/// The upper-case hexadecimal digit of a value below sixteen.
pub open spec fn hex_digit(n: int) -> char {
    if n < 10 {
        (48 + n) as char
    } else {
        (55 + n) as char
    }
}

/// The hexadecimal digit of `value` at `place`, counted from the most
/// significant digit, which has place 0.
pub open spec fn hex_place(value: u128, place: int) -> int {
    ((value >> ((124 - 4 * place) as u128)) & 0xF) as int
}

/// How many hyphens stand before position `i` of the text form.
pub open spec fn hyphens_before(i: int) -> int {
    (if i > 8 { 1int } else { 0 }) + (if i > 13 { 1int } else { 0 })
        + (if i > 18 { 1int } else { 0 }) + (if i > 23 { 1int } else { 0 })
}

/// The text form of an identifier: 36 characters, the digits in groups of
/// 8, 4, 4, 4 and 12 with a hyphen between two groups.
pub open spec fn guid_text(value: u128) -> Seq<char> {
    Seq::new(
        36,
        |i: int|
            if i == 8 || i == 13 || i == 18 || i == 23 {
                '-'
            } else {
                hex_digit(hex_place(value, i - hyphens_before(i)))
            },
    )
}

/// The text form has 36 characters, and its hyphens stand at the places 8,
/// 13, 18 and 23.
pub proof fn lemma_guid_text_shape(value: u128)
    ensures
        guid_text(value).len() == 36,
        guid_text(value)[8] == '-',
        guid_text(value)[13] == '-',
        guid_text(value)[18] == '-',
        guid_text(value)[23] == '-',
{
}

/// The digit of a value below sixteen tells the value.
proof fn lemma_hex_digit(n: int)
    requires
        0 <= n < 16,
    ensures
        hex_digit(n) as int == if n < 10 {
            48 + n
        } else {
            55 + n
        },
{
}

/// A hexadecimal digit is below sixteen.
proof fn lemma_hex_place(value: u128, place: int)
    requires
        0 <= place < 32,
    ensures
        0 <= hex_place(value, place) < 16,
{
    let shift = (124 - 4 * place) as u128;
    assert((value >> shift) & 0xF < 16) by (bit_vector);
}

/// Two numbers with the same 32 hexadecimal digits are one number.
proof fn lemma_digits_tell_the_number(a: u128, b: u128)
    requires
        forall|place: int| 0 <= place < 32 ==> hex_place(a, place) == hex_place(b, place),
    ensures
        a == b,
{
    assert(hex_place(a, 0) == hex_place(b, 0));
    assert(hex_place(a, 1) == hex_place(b, 1));
    assert(hex_place(a, 2) == hex_place(b, 2));
    assert(hex_place(a, 3) == hex_place(b, 3));
    assert(hex_place(a, 4) == hex_place(b, 4));
    assert(hex_place(a, 5) == hex_place(b, 5));
    assert(hex_place(a, 6) == hex_place(b, 6));
    assert(hex_place(a, 7) == hex_place(b, 7));
    assert(hex_place(a, 8) == hex_place(b, 8));
    assert(hex_place(a, 9) == hex_place(b, 9));
    assert(hex_place(a, 10) == hex_place(b, 10));
    assert(hex_place(a, 11) == hex_place(b, 11));
    assert(hex_place(a, 12) == hex_place(b, 12));
    assert(hex_place(a, 13) == hex_place(b, 13));
    assert(hex_place(a, 14) == hex_place(b, 14));
    assert(hex_place(a, 15) == hex_place(b, 15));
    assert(hex_place(a, 16) == hex_place(b, 16));
    assert(hex_place(a, 17) == hex_place(b, 17));
    assert(hex_place(a, 18) == hex_place(b, 18));
    assert(hex_place(a, 19) == hex_place(b, 19));
    assert(hex_place(a, 20) == hex_place(b, 20));
    assert(hex_place(a, 21) == hex_place(b, 21));
    assert(hex_place(a, 22) == hex_place(b, 22));
    assert(hex_place(a, 23) == hex_place(b, 23));
    assert(hex_place(a, 24) == hex_place(b, 24));
    assert(hex_place(a, 25) == hex_place(b, 25));
    assert(hex_place(a, 26) == hex_place(b, 26));
    assert(hex_place(a, 27) == hex_place(b, 27));
    assert(hex_place(a, 28) == hex_place(b, 28));
    assert(hex_place(a, 29) == hex_place(b, 29));
    assert(hex_place(a, 30) == hex_place(b, 30));
    assert(hex_place(a, 31) == hex_place(b, 31));
    assert(a == b) by (bit_vector)
        requires
            (a >> 124u128) & 0xF == (b >> 124u128) & 0xF,
            (a >> 120u128) & 0xF == (b >> 120u128) & 0xF,
            (a >> 116u128) & 0xF == (b >> 116u128) & 0xF,
            (a >> 112u128) & 0xF == (b >> 112u128) & 0xF,
            (a >> 108u128) & 0xF == (b >> 108u128) & 0xF,
            (a >> 104u128) & 0xF == (b >> 104u128) & 0xF,
            (a >> 100u128) & 0xF == (b >> 100u128) & 0xF,
            (a >> 96u128) & 0xF == (b >> 96u128) & 0xF,
            (a >> 92u128) & 0xF == (b >> 92u128) & 0xF,
            (a >> 88u128) & 0xF == (b >> 88u128) & 0xF,
            (a >> 84u128) & 0xF == (b >> 84u128) & 0xF,
            (a >> 80u128) & 0xF == (b >> 80u128) & 0xF,
            (a >> 76u128) & 0xF == (b >> 76u128) & 0xF,
            (a >> 72u128) & 0xF == (b >> 72u128) & 0xF,
            (a >> 68u128) & 0xF == (b >> 68u128) & 0xF,
            (a >> 64u128) & 0xF == (b >> 64u128) & 0xF,
            (a >> 60u128) & 0xF == (b >> 60u128) & 0xF,
            (a >> 56u128) & 0xF == (b >> 56u128) & 0xF,
            (a >> 52u128) & 0xF == (b >> 52u128) & 0xF,
            (a >> 48u128) & 0xF == (b >> 48u128) & 0xF,
            (a >> 44u128) & 0xF == (b >> 44u128) & 0xF,
            (a >> 40u128) & 0xF == (b >> 40u128) & 0xF,
            (a >> 36u128) & 0xF == (b >> 36u128) & 0xF,
            (a >> 32u128) & 0xF == (b >> 32u128) & 0xF,
            (a >> 28u128) & 0xF == (b >> 28u128) & 0xF,
            (a >> 24u128) & 0xF == (b >> 24u128) & 0xF,
            (a >> 20u128) & 0xF == (b >> 20u128) & 0xF,
            (a >> 16u128) & 0xF == (b >> 16u128) & 0xF,
            (a >> 12u128) & 0xF == (b >> 12u128) & 0xF,
            (a >> 8u128) & 0xF == (b >> 8u128) & 0xF,
            (a >> 4u128) & 0xF == (b >> 4u128) & 0xF,
            (a >> 0u128) & 0xF == (b >> 0u128) & 0xF,
    ;
}

/// Two identifiers with the same text form are one identifier: the text, and
/// with it each registry key that is made of it, names one class only.
pub proof fn lemma_guid_text_injective(a: u128, b: u128)
    requires
        guid_text(a) == guid_text(b),
    ensures
        a == b,
{
    assert forall|place: int| 0 <= place < 32 implies hex_place(a, place) == hex_place(
        b,
        place,
    ) by {
        let i = if place < 8 {
            place
        } else if place < 12 {
            place + 1
        } else if place < 16 {
            place + 2
        } else if place < 20 {
            place + 3
        } else {
            place + 4
        };
        assert(guid_text(a)[i] == hex_digit(hex_place(a, place)));
        assert(guid_text(b)[i] == hex_digit(hex_place(b, place)));
        lemma_hex_place(a, place);
        lemma_hex_place(b, place);
        lemma_hex_digit(hex_place(a, place));
        lemma_hex_digit(hex_place(b, place));
    }
    lemma_digits_tell_the_number(a, b);
}

impl Guid {
    /// The identifier's text form.
    pub fn text(&self) -> (text: String)
        ensures
            text@ == guid_text(self.0),
            text@.len() == 36,
    {
        guid_debug_text(self.0)
    }
}

/// Formats the identifier with the `Debug` implementation of
/// `windows::core::GUID`, made by `GUID::from_u128`. The contract restates the
/// format string of that implementation: the fields in upper-case hexadecimal,
/// padded with zeros to 8, 4, 4 and twice 2 and six times 2 digits, with
/// hyphens after the first, second, third and fifth field.
#[verifier::external_body]
fn guid_debug_text(value: u128) -> (text: String)
    ensures
        text@ == guid_text(value),
{
    format!("{:?}", windows::core::GUID::from_u128(value))
}

} // verus!
