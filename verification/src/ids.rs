//! Identifiers of conversations, tickets and workers.
//!
//! An identifier is a UUID, held as its 128-bit value.

use vstd::prelude::*;

verus! {

pub type ConversationId = u128;

pub type TicketId = u128;

pub type WorkerId = u128;

/// A random (version 4) UUID of the usual variant.
pub open spec fn is_random_id(id: u128) -> bool {
    &&& (id >> 76u128) & 0xf == 4
    &&& (id >> 62u128) & 0x3 == 2
}

/// A fresh identifier, by `uuid::Uuid::new_v4`.
///
/// Trusted: the value carries the version and variant of a random UUID. Nothing else is
/// claimed of it, as it comes from the operating system's random numbers.
#[verifier::external_body]
pub(crate) fn fresh_id() -> (id: u128)
    ensures
        is_random_id(id),
{
    uuid::Uuid::new_v4().as_u128()
}

/// The character that writes one lower-case hexadecimal digit.
pub open spec fn hex_digit(d: int) -> char {
    if d < 10 {
        (48 + d) as char
    } else {
        (87 + d) as char
    }
}

/// The `k`-th of the 32 hexadecimal digits of an identifier, counted from the left.
pub open spec fn id_digit(id: u128, k: int) -> int {
    ((id >> ((124 - 4 * k) as u128)) & 0xf) as int
}

/// The usual text of an identifier: 32 hexadecimal digits in groups of 8, 4, 4, 4 and 12.
pub open spec fn id_chars(id: u128) -> Seq<char> {
    Seq::new(
        36,
        |i: int|
            if i == 8 || i == 13 || i == 18 || i == 23 {
                '-'
            } else if i < 8 {
                hex_digit(id_digit(id, i))
            } else if i < 13 {
                hex_digit(id_digit(id, i - 1))
            } else if i < 18 {
                hex_digit(id_digit(id, i - 2))
            } else if i < 23 {
                hex_digit(id_digit(id, i - 3))
            } else {
                hex_digit(id_digit(id, i - 4))
            },
    )
}

/// The text of an identifier, by the `Display` of `uuid::Uuid`.
///
/// Trusted: the text is the hyphenated lower-case form, the digits from the most
/// significant one on.
#[verifier::external_body]
pub(crate) fn id_text(id: u128) -> (text: String)
    ensures
        text@ == id_chars(id),
{
    uuid::Uuid::from_u128(id).to_string()
}

proof fn hex_digits_differ(a: int, b: int)
    requires
        0 <= a < 16,
        0 <= b < 16,
        hex_digit(a) == hex_digit(b),
    ensures
        a == b,
{
}

proof fn digit_in_range(id: u128, s: u128)
    ensures
        0 <= (id >> s) & 0xf < 16,
{
    assert((id >> s) & 0xf < 16) by (bit_vector);
}

proof fn digits_fix_the_value(a: u128, b: u128)
    requires
        forall|k: int| 0 <= k < 32 ==> #[trigger] id_digit(a, k) == id_digit(b, k),
    ensures
        a == b,
{
    assert(forall|k: int| 0 <= k < 32 ==> #[trigger] id_digit(a, k) == id_digit(b, k));
    let d = |k: int| id_digit(a, k) == id_digit(b, k);
    assert(d(0) && d(1) && d(2) && d(3) && d(4) && d(5) && d(6) && d(7));
    assert(d(8) && d(9) && d(10) && d(11) && d(12) && d(13) && d(14) && d(15));
    assert(d(16) && d(17) && d(18) && d(19) && d(20) && d(21) && d(22) && d(23));
    assert(d(24) && d(25) && d(26) && d(27) && d(28) && d(29) && d(30) && d(31));
    assert(a == b) by (bit_vector)
        requires
            (a >> 124u128) & 0xf == (b >> 124u128) & 0xf,
            (a >> 120u128) & 0xf == (b >> 120u128) & 0xf,
            (a >> 116u128) & 0xf == (b >> 116u128) & 0xf,
            (a >> 112u128) & 0xf == (b >> 112u128) & 0xf,
            (a >> 108u128) & 0xf == (b >> 108u128) & 0xf,
            (a >> 104u128) & 0xf == (b >> 104u128) & 0xf,
            (a >> 100u128) & 0xf == (b >> 100u128) & 0xf,
            (a >> 96u128) & 0xf == (b >> 96u128) & 0xf,
            (a >> 92u128) & 0xf == (b >> 92u128) & 0xf,
            (a >> 88u128) & 0xf == (b >> 88u128) & 0xf,
            (a >> 84u128) & 0xf == (b >> 84u128) & 0xf,
            (a >> 80u128) & 0xf == (b >> 80u128) & 0xf,
            (a >> 76u128) & 0xf == (b >> 76u128) & 0xf,
            (a >> 72u128) & 0xf == (b >> 72u128) & 0xf,
            (a >> 68u128) & 0xf == (b >> 68u128) & 0xf,
            (a >> 64u128) & 0xf == (b >> 64u128) & 0xf,
            (a >> 60u128) & 0xf == (b >> 60u128) & 0xf,
            (a >> 56u128) & 0xf == (b >> 56u128) & 0xf,
            (a >> 52u128) & 0xf == (b >> 52u128) & 0xf,
            (a >> 48u128) & 0xf == (b >> 48u128) & 0xf,
            (a >> 44u128) & 0xf == (b >> 44u128) & 0xf,
            (a >> 40u128) & 0xf == (b >> 40u128) & 0xf,
            (a >> 36u128) & 0xf == (b >> 36u128) & 0xf,
            (a >> 32u128) & 0xf == (b >> 32u128) & 0xf,
            (a >> 28u128) & 0xf == (b >> 28u128) & 0xf,
            (a >> 24u128) & 0xf == (b >> 24u128) & 0xf,
            (a >> 20u128) & 0xf == (b >> 20u128) & 0xf,
            (a >> 16u128) & 0xf == (b >> 16u128) & 0xf,
            (a >> 12u128) & 0xf == (b >> 12u128) & 0xf,
            (a >> 8u128) & 0xf == (b >> 8u128) & 0xf,
            (a >> 4u128) & 0xf == (b >> 4u128) & 0xf,
            (a >> 0u128) & 0xf == (b >> 0u128) & 0xf,
    ;
}

/// Two identifiers with the same text are the same identifier, so a ticket named in a
/// prompt can be told from every other.
pub proof fn id_text_names_one_id(a: u128, b: u128)
    requires
        id_chars(a) == id_chars(b),
    ensures
        a == b,
{
    assert forall|k: int| 0 <= k < 32 implies #[trigger] id_digit(a, k) == id_digit(b, k) by {
        let at = if k < 8 {
            k
        } else if k < 12 {
            k + 1
        } else if k < 16 {
            k + 2
        } else if k < 20 {
            k + 3
        } else {
            k + 4
        };
        assert(id_chars(a)[at] == hex_digit(id_digit(a, k)));
        assert(id_chars(b)[at] == hex_digit(id_digit(b, k)));
        digit_in_range(a, (124 - 4 * k) as u128);
        digit_in_range(b, (124 - 4 * k) as u128);
        hex_digits_differ(id_digit(a, k), id_digit(b, k));
    }
    digits_fix_the_value(a, b);
}

} // verus!
