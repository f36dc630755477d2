//! Identities of users, conversations and messages, and their text form.
//!
//! An identity is the 128-bit value of a UUID. Its text is the usual one:
//! thirty-two lowercase hexadecimal digits, most significant first, in groups
//! of eight, four, four, four and twelve with a hyphen between groups.
//! Identities that are assigned here are time-based: they carry the instant
//! of their making and the node that made them.

use vstd::prelude::*;
use vstd::arithmetic::power::pow;

verus! {

/// Length of the text of an identity.
pub const IDENTITY_TEXT_LEN: usize = 36;

/// The lowercase hexadecimal digit for a value from 0 to 15.
pub open spec fn hex_digit(nibble: int) -> char {
    seq!['0', '1', '2', '3', '4', '5', '6', '7', '8', '9', 'a', 'b', 'c', 'd', 'e', 'f'][nibble]
}

/// Whether a hyphen stands at `position` of the text.
pub open spec fn is_hyphen_position(position: int) -> bool {
    position == 8 || position == 13 || position == 18 || position == 23
}

/// Which of the thirty-two digits stands at `position` of the text, counted
/// from the most significant.
pub open spec fn digit_index(position: int) -> int {
    if position < 8 {
        position
    } else if position < 13 {
        position - 1
    } else if position < 18 {
        position - 2
    } else if position < 23 {
        position - 3
    } else {
        position - 4
    }
}

/// Value of the digit of `id` with index `digit`, counted from the most
/// significant.
pub open spec fn nibble_at(id: u128, digit: int) -> int {
    (id as int / pow(16, (31 - digit) as nat)) % 16
}

/// The text of an identity.
pub open spec fn identity_text(id: u128) -> Seq<char> {
    Seq::new(
        36,
        |position: int|
            if is_hyphen_position(position) {
                '-'
            } else {
                hex_digit(nibble_at(id, digit_index(position)))
            },
    )
}

/// Calls `Uuid::from_u128`, which keeps the value, and `to_string` on the
/// result, which writes the hyphenated lowercase form: the sixteen bytes from
/// the most significant on, two digits each, with hyphens after the eighth,
/// twelfth, sixteenth and twentieth digit.
#[verifier::external_body]
pub(crate) fn uuid_text(id: u128) -> (text: String)
    ensures
        text@ == identity_text(id),
{
    uuid::Uuid::from_u128(id).to_string()
}

/// The text of `id`.
pub fn text_of(id: u128) -> (text: String)
    ensures
        text@ == identity_text(id),
        text@.len() == IDENTITY_TEXT_LEN,
{
    uuid_text(id)
}

/// The node that identities are made on.
pub const NODE_ID: [u8; 6] = [0x01, 0x02, 0x03, 0x04, 0x05, 0x06];

/// The version of an identity: the first digit of its third group.
pub open spec fn version_of(id: u128) -> int {
    (id as int / 0x1000_0000_0000_0000_0000) % 16
}

/// The variant of an identity: the two highest bits of its fourth group.
pub open spec fn variant_of(id: u128) -> int {
    (id as int / 0x4000_0000_0000_0000) % 4
}

/// The node of an identity: its last twelve digits.
pub open spec fn node_of(id: u128) -> int {
    id as int % 0x1_0000_0000_0000
}

/// Six bytes read as one number, the first byte the most significant.
pub open spec fn node_number(node: Seq<u8>) -> int
    recommends
        node.len() == 6,
{
    ((((node[0] as int * 256 + node[1] as int) * 256 + node[2] as int) * 256 + node[3] as int)
        * 256 + node[4] as int) * 256 + node[5] as int
}

/// Whether `id` is a time-based identity made on `node`.
pub open spec fn made_on(id: u128, node: Seq<u8>) -> bool {
    &&& version_of(id) == 1
    &&& variant_of(id) == 2
    &&& node_of(id) == node_number(node)
}

/// Calls `Uuid::now_v1`, which makes a version 1 UUID from the system time,
/// a counter and the node, and `as_u128` on the result. The time and the
/// counter differ from call to call; the version, the variant and the node
/// are in every result. No node makes the call panic, but the machine can:
/// the call panics where the system clock stands before 1970, and where the
/// operating system gives no random bytes to seed the counter at first use.
#[verifier::external_body]
pub(crate) fn uuid_now_v1(node: &[u8; 6]) -> (id: u128)
    ensures
        made_on(id, node@),
{
    uuid::Uuid::now_v1(node).as_u128()
}

/// Makes a new identity on this node, from the time of the call.
pub fn fresh_identity() -> (id: u128)
    ensures
        made_on(id, NODE_ID@),
{
    uuid_now_v1(&NODE_ID)
}

/// The identity that a text stands for, where it stands for one.
pub uninterp spec fn parsed_identity(text: Seq<char>) -> Option<u128>;

/// Calls `Uuid::parse_str`, which reads a UUID from hexadecimal digits in
/// any of the forms the uuid crate writes, and `as_u128` on the value. The
/// result is a function of the text alone; an error of the parser is `None`.
#[verifier::external_body]
pub(crate) fn parse_uuid(text: &str) -> (id: Option<u128>)
    ensures
        id == parsed_identity(text@),
{
    match uuid::Uuid::parse_str(text) {
        Ok(uuid) => Some(uuid.as_u128()),
        Err(_) => None,
    }
}

/// Reads an identity from its text.
pub fn identity_of(text: &str) -> (id: Option<u128>)
    ensures
        id == parsed_identity(text@),
{
    parse_uuid(text)
}

} // verus!
