//! User identifiers: 128-bit values that are drawn at random on creation and
//! read from text on the routes that take one.

use uuid::Uuid;
use vstd::prelude::*;

verus! {

/// Identifier of a user: the 128 bits of a UUID, most significant byte first.
#[derive(Clone, Copy, Debug, PartialEq, Eq, Hash, Structural)]
pub struct UserId {
    pub value: u128,
}

/// Why a request was turned down before storage was asked.
#[derive(Clone, Copy, Debug, PartialEq, Eq, Structural)]
pub enum ValidationError {
    /// The text given as an identifier is not a UUID.
    MalformedId,
    /// The body of the request does not have the shape that the route takes.
    MalformedBody,
}

/// The bits that tell a UUID's version and variant.
pub const KIND_MASK: u128 = 0x0000_0000_0000_F000_C000_0000_0000_0000u128;

/// Those bits in a random (version 4) UUID of the standard variant.
pub const RANDOM_KIND: u128 = 0x0000_0000_0000_4000_8000_0000_0000_0000u128;

/// Whether `value` carries the version and variant of a random UUID.
pub open spec fn is_random_kind(value: u128) -> bool {
    value & KIND_MASK == RANDOM_KIND
}

/// What `uuid::Uuid::parse_str` makes of a text: the UUID's 128 bits, or
/// `None` where it rejects the text.
pub uninterp spec fn uuid_of_text(text: Seq<char>) -> Option<u128>;

/// Whether a text has the length of one of the forms in which a UUID is
/// written: 32 characters bare, 36 with hyphens, 38 in braces, 45 as a URN.
pub open spec fn has_uuid_length(text: Seq<char>) -> bool {
    text.len() == 32 || text.len() == 36 || text.len() == 38 || text.len() == 45
}

/// Calls `uuid::Uuid::parse_str`, which accepts the simple, hyphenated, URN
/// and braced forms, and `Uuid::as_u128` on what it accepts. Trusted: the
/// result is `uuid_of_text` of the text, so equal texts give equal results;
/// and a text of no such length is rejected. The parser goes by the length in
/// bytes and accepts ASCII only, so that an accepted text has as many
/// characters as bytes.
#[verifier::external_body]
fn parse_uuid(text: &str) -> (parsed: Option<u128>)
    ensures
        parsed == uuid_of_text(text@),
        !has_uuid_length(text@) ==> parsed is None,
{
    match Uuid::parse_str(text) {
        Ok(uuid) => Some(uuid.as_u128()),
        Err(_) => None,
    }
}

/// Calls `uuid::Uuid::new_v4`, which draws 128 random bits and sets the
/// version and variant fields, and `Uuid::as_u128`. Trusted: those fields are
/// set as in a random UUID; nothing is claimed of the other bits.
#[verifier::external_body]
fn random_uuid() -> (value: u128)
    ensures
        is_random_kind(value),
{
    Uuid::new_v4().as_u128()
}

impl UserId {
    /// The identifier, or the validation failure, for what the UUID parser
    /// made of a text.
    pub fn from_parsed(parsed: Option<u128>) -> (result: Result<UserId, ValidationError>)
        ensures
            result == match parsed {
                Some(value) => Ok::<UserId, ValidationError>(UserId { value }),
                None => Err::<UserId, ValidationError>(ValidationError::MalformedId),
            },
    {
        match parsed {
            Some(value) => Ok(UserId { value }),
            None => Err(ValidationError::MalformedId),
        }
    }

    /// Reads an identifier from text. Succeeds exactly on the texts that the
    /// UUID parser accepts, with the value it gives. A text that has not the
    /// length of a UUID is malformed.
    pub fn parse(text: &str) -> (result: Result<UserId, ValidationError>)
        ensures
            result == match uuid_of_text(text@) {
                Some(value) => Ok::<UserId, ValidationError>(UserId { value }),
                None => Err::<UserId, ValidationError>(ValidationError::MalformedId),
            },
            !has_uuid_length(text@) ==> result == Err::<UserId, ValidationError>(
                ValidationError::MalformedId,
            ),
    {
        UserId::from_parsed(parse_uuid(text))
    }

    /// Draws a new identifier at random. The random bits come from the
    /// operating system; where it supplies none, the call does not return:
    /// the generator panics. No argument brings that about, so no
    /// precondition can rule it out.
    pub fn generate() -> (id: UserId)
        ensures
            is_random_kind(id.value),
    {
        UserId { value: random_uuid() }
    }
}

} // verus!
