//! Account identifiers: random UUIDs as 128-bit values, and their text.

use vstd::prelude::*;

verus! {

/// The bits of an identifier that hold the UUID's version and variant.
pub const VERSION_AND_VARIANT: u128 = 0x0000_0000_0000_F000_C000_0000_0000_0000;

/// What those bits hold in a random UUID: version 4 and the variant of RFC
/// 9562.
pub const RANDOM_UUID: u128 = 0x0000_0000_0000_4000_8000_0000_0000_0000;

/// Whether `id` is the value of a random UUID.
pub open spec fn is_random_uuid(id: u128) -> bool {
    id & VERSION_AND_VARIANT == RANDOM_UUID
}

/// The hexadecimal digit `d`, in lower case.
pub open spec fn hex_char(d: nat) -> char {
    "0123456789abcdef"@[d as int]
}

/// The last `digits` hexadecimal digits of `value`, the most significant
/// first.
pub open spec fn hex_text(value: nat, digits: nat) -> Seq<char>
    decreases digits,
{
    if digits == 0 {
        Seq::empty()
    } else {
        hex_text(value / 16, (digits - 1) as nat).push(hex_char(value % 16))
    }
}

/// An identifier as the hyphenated text of its UUID: its 32 hexadecimal
/// digits in groups of 8, 4, 4, 4 and 12.
pub open spec fn hyphenated_text(id: u128) -> Seq<char> {
    let hex = hex_text(id as nat, 32);
    hex.subrange(0, 8) + "-"@ + hex.subrange(8, 12) + "-"@ + hex.subrange(12, 16) + "-"@ + hex.subrange(
        16,
        20,
    ) + "-"@ + hex.subrange(20, 32)
}

/// `Uuid::new_v4`, as the 128-bit value that `Uuid::as_u128` gives. Two
/// calls may differ; every outcome holds version 4 and the variant of RFC
/// 9562, which the source sets by masks. The random source panics where the
/// operating system cannot serve it.
#[verifier::external_body]
pub(crate) fn new_v4() -> (id: u128)
    ensures
        is_random_uuid(id),
{
    uuid::Uuid::new_v4().as_u128()
}

/// `Uuid::from_u128` and the hyphenated form of the UUID as text: 32
/// hexadecimal digits in lower case, the most significant first, with a
/// hyphen after the 8th, 12th, 16th and 20th.
#[verifier::external_body]
pub(crate) fn hyphenated(id: u128) -> (text: String)
    ensures
        text@ == hyphenated_text(id),
{
    uuid::Uuid::from_u128(id).hyphenated().to_string()
}

} // verus!
