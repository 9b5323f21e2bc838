//! Identifiers: 128-bit values written as hyphenated lower-case hexadecimal.

use vstd::prelude::*;

verus! {

/// A 128-bit identifier of a user, a session or a token.
#[derive(Clone, Copy, Debug, PartialEq, Eq, Structural, Hash)]
pub struct Uuid {
    pub value: u128,
}

/// The value that the `uuid` crate reads from a text, if it reads one.
pub uninterp spec fn uuid_parse(text: Seq<char>) -> Option<u128>;

/// The lower-case hexadecimal digit for `d`, where `0 <= d < 16`.
pub open spec fn hex_char(d: int) -> char {
    seq![
        '0', '1', '2', '3', '4', '5', '6', '7', '8', '9', 'a', 'b', 'c', 'd', 'e', 'f',
    ][d]
}

/// Sixteen to the power `e`.
pub open spec fn pow16(e: nat) -> int
    decreases e,
{
    if e == 0 {
        1
    } else {
        16 * pow16((e - 1) as nat)
    }
}

/// The `k`-th of the 32 hexadecimal digits of `value`, most significant first.
pub open spec fn hex_digit(value: u128, k: int) -> int {
    (value as int / pow16((31 - k) as nat)) % 16
}

/// Whether position `i` of the 36 holds a hyphen.
pub open spec fn is_hyphen_position(i: int) -> bool {
    i == 8 || i == 13 || i == 18 || i == 23
}

/// How many hyphens stand before position `i`.
pub open spec fn hyphens_before(i: int) -> int {
    if i > 23 {
        4
    } else if i > 18 {
        3
    } else if i > 13 {
        2
    } else if i > 8 {
        1
    } else {
        0
    }
}

/// The text of an identifier: 32 digits in groups of 8, 4, 4, 4 and 12.
pub open spec fn hyphenated(value: u128) -> Seq<char> {
    Seq::new(
        36,
        |i: int|
            if is_hyphen_position(i) {
                '-'
            } else {
                hex_char(hex_digit(value, i - hyphens_before(i)))
            },
    )
}

/// Whether `value` is a random identifier as the standard marks it: its
/// thirteenth digit, the version, is 4, and its seventeenth, which begins
/// with the variant, is 8, 9, a or b. The other 122 bits are free.
pub open spec fn is_random_version(value: u128) -> bool {
    hex_digit(value, 12) == 4 && 8 <= hex_digit(value, 16) <= 11
}

/// A text is the hyphenated form of some random identifier.
pub open spec fn is_random_identifier_text(text: Seq<char>) -> bool {
    exists|value: u128| is_random_version(value) && text == #[trigger] hyphenated(value)
}

/// The error with which the `uuid` crate refuses a text.
#[verifier::external_type_specification]
#[verifier::external_body]
pub struct ExUuidError(uuid::Error);

/// `uuid::Uuid::parse_str`: the identifier that the crate reads from `text`
/// is named `uuid_parse(text)`; the call fails exactly where that is `None`.
#[verifier::external_body]
fn uuid_parse_str(text: &str) -> (r: Result<Uuid, uuid::Error>)
    ensures
        match r {
            Ok(id) => uuid_parse(text@) == Some(id.value),
            Err(_) => uuid_parse(text@) is None,
        },
{
    uuid::Uuid::parse_str(text).map(|u| Uuid { value: u.as_u128() })
}

/// The `Display` of `uuid::Uuid`: the hyphenated lower-case form, which the
/// crate's parser reads back as the same identifier.
#[verifier::external_body]
fn uuid_display(id: Uuid) -> (text: String)
    ensures
        text@ == hyphenated(id.value),
        uuid_parse(text@) == Some(id.value),
{
    uuid::Uuid::from_u128(id.value).to_string()
}

/// `uuid::Uuid::new_v4`: an identifier drawn from the system's random
/// source. Whatever is drawn, the crate sets the version to 4 and the
/// variant to the standard's; nothing else is stated of the value.
#[verifier::external_body]
fn uuid_new_v4() -> (id: Uuid)
    ensures
        is_random_version(id.value),
{
    Uuid { value: uuid::Uuid::new_v4().as_u128() }
}

impl Uuid {
    pub fn from_u128(value: u128) -> (id: Uuid)
        ensures
            id.value == value,
    {
        Uuid { value }
    }

    pub fn as_u128(&self) -> (value: u128)
        ensures
            value == self.value,
    {
        self.value
    }

    /// Reads an identifier from any of the forms that the `uuid` crate reads.
    pub fn parse_str(text: &str) -> (r: Option<Uuid>)
        ensures
            match r {
                Some(id) => uuid_parse(text@) == Some(id.value),
                None => uuid_parse(text@) is None,
            },
    {
        match uuid_parse_str(text) {
            Ok(id) => Some(id),
            Err(_) => None,
        }
    }

    /// A fresh random identifier: of version 4 and of the standard's
    /// variant, with its other bits drawn from the system's random source.
    pub fn new_v4() -> (id: Uuid)
        ensures
            is_random_version(id.value),
    {
        uuid_new_v4()
    }

    /// The hyphenated text of the identifier.
    pub fn to_string(&self) -> (text: String)
        ensures
            text@ == hyphenated(self.value),
            uuid_parse(text@) == Some(self.value),
    {
        uuid_display(*self)
    }
}

/// The text of an identifier is made of digits and hyphens: no colon.
pub proof fn lemma_hyphenated_has_no_colon(value: u128)
    ensures
        hyphenated(value).len() == 36,
        forall|i: int| 0 <= i < 36 ==> hyphenated(value)[i] != ':',
{
    assert forall|i: int| 0 <= i < 36 implies hyphenated(value)[i] != ':' by {
        if !is_hyphen_position(i) {
            let d = hex_digit(value, i - hyphens_before(i));
            assert(0 <= d < 16);
        }
    }
}

} // verus!
