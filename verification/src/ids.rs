use vstd::prelude::*;

verus! {

/// Calls `uuid::Uuid::new_v4` and gives the UUID as its 128-bit big-endian
/// value. The UUID is random; the contract claims only what the `uuid` source
/// fixes in every such UUID: the version field (bits 76 to 79) is 4 and the
/// variant field (bits 62 and 63) is `0b10`.
#[verifier::external_body]
pub(crate) fn new_uuid() -> (id: u128)
    ensures
        (id >> 76u128) & 0xfu128 == 4,
        (id >> 62u128) & 0x3u128 == 2,
{
    uuid::Uuid::new_v4().as_u128()
}

/// The lowercase hexadecimal digit of `n`, for `n < 16`.
pub open spec fn hex_digit(n: u128) -> char {
    if n < 10 {
        (48 + n) as char
    } else {
        (87 + n) as char
    }
}

/// The `k`-th hexadecimal digit of `id`, counting from the most significant
/// of its 32 digits.
pub open spec fn hex_at(id: u128, k: int) -> char {
    hex_digit((id >> ((124 - 4 * k) as u128)) & 0xfu128)
}

/// Which of the 32 digits the `i`-th character of the hyphenated text shows,
/// for a character that is not a hyphen.
pub open spec fn digit_index(i: int) -> int {
    if i < 8 {
        i
    } else if i < 13 {
        i - 1
    } else if i < 18 {
        i - 2
    } else if i < 23 {
        i - 3
    } else {
        i - 4
    }
}

/// The hyphenated text of the UUID `id`: its 32 lowercase hexadecimal digits,
/// most significant first, in groups of 8, 4, 4, 4 and 12 joined by hyphens.
pub open spec fn uuid_hyphenated(id: u128) -> Seq<char> {
    Seq::new(
        36,
        |i: int|
            if i == 8 || i == 13 || i == 18 || i == 23 {
                '-'
            } else {
                hex_at(id, digit_index(i))
            },
    )
}

/// Calls `uuid::Uuid::from_u128(id)` and formats the UUID with `to_string`,
/// which the `uuid` source writes in the hyphenated lowercase form of the
/// big-endian value: the contract claims exactly that text.
#[verifier::external_body]
pub(crate) fn uuid_text(id: u128) -> (s: String)
    ensures
        s@ == uuid_hyphenated(id),
{
    uuid::Uuid::from_u128(id).to_string()
}

/// Calls `rand::random::<u32>()`. The value is random: the contract claims
/// nothing of it.
#[verifier::external_body]
pub(crate) fn random_ssrc() -> (ssrc: u32) {
    rand::random::<u32>()
}

} // verus!
