use vstd::prelude::*;
use vstd::arithmetic::power::pow;

verus! {

/// Lower-case hexadecimal digit for a value in 0..16.
pub open spec fn hex_digit_lower(d: int) -> char {
    if d < 10 {
        (48 + d) as char
    } else {
        (87 + d) as char
    }
}

/// The `k`-th of the 32 hexadecimal digits of `id`, counting from the most significant.
pub open spec fn id_nibble(id: u128, k: int) -> int {
    (id as int / pow(16, (31 - k) as nat)) % 16
}

/// Which hexadecimal digit of the id stands at position `i` of its hyphenated text.
pub open spec fn digit_of_position(i: int) -> int {
    if i < 8 {
        i
    } else if i < 13 {
        i - 1
    } else if i < 18 {
        i - 2
    } else if i < 23 {
        i - 3
    } else {
        i - 4
    }
}

/// Hyphenated lower-case text of an id, `xxxxxxxx-xxxx-xxxx-xxxx-xxxxxxxxxxxx`.
pub open spec fn id_text(id: u128) -> Seq<char> {
    Seq::new(
        36,
        |i: int|
            if i == 8 || i == 13 || i == 18 || i == 23 {
                '-'
            } else {
                hex_digit_lower(id_nibble(id, digit_of_position(i)))
            },
    )
}

/// The id that uuid's `Uuid::parse_str` reads from a text (as its 128-bit big-endian
/// value), or `None` where it refuses the text.
pub uninterp spec fn uuid_parse(text: Seq<char>) -> Option<u128>;

/// The id carries version 4 (random) and the RFC 4122 variant.
pub open spec fn is_random_id(id: u128) -> bool {
    &&& (id as int / pow(2, 76)) % 16 == 4
    &&& (id as int / pow(2, 62)) % 4 == 2
}

/// A fresh id from uuid's `Uuid::new_v4`. The contract claims only what the crate
/// documents and its source shows of every outcome: version 4 and the RFC 4122 variant;
/// the other 122 bits are random.
#[verifier::external_body]
pub(crate) fn random_id() -> (r: u128)
    ensures
        is_random_id(r),
{
    uuid::Uuid::new_v4().as_u128()
}

/// uuid's `Uuid::parse_str`, with the parsed id taken as its 128-bit big-endian value.
/// The contract names the result: it depends on the text alone.
#[verifier::external_body]
pub(crate) fn parse_id(text: &str) -> (r: Option<u128>)
    ensures
        r == uuid_parse(text@),
{
    match uuid::Uuid::parse_str(text) {
        Ok(id) => Some(id.as_u128()),
        Err(_) => None,
    }
}

/// uuid's `Display` of `Uuid::from_u128(id)`. The contract claims the hyphenated
/// lower-case form, and that `Uuid::parse_str` reads that form back to the same id.
#[verifier::external_body]
pub(crate) fn format_id(id: u128) -> (r: String)
    ensures
        r@ == id_text(id),
        uuid_parse(r@) == Some(id),
{
    uuid::Uuid::from_u128(id).to_string()
}

} // verus!
