use vstd::prelude::*;

use crate::text::join_str;

verus! {

/// `uuid::Error`, the error that `uuid::Uuid::parse_str` reports; opaque here.
#[verifier::external_type_specification]
#[verifier::external_body]
pub struct ExUuidError(uuid::Error);

/// `ulid::DecodeError`, the error that `ulid::Ulid::from_string` reports; opaque here.
#[verifier::external_type_specification]
#[verifier::external_body]
pub struct ExUlidDecodeError(ulid::DecodeError);

/// Errors that can occur when working with entity IDs.
#[derive(Debug, Clone, Copy, PartialEq, Eq, Structural)]
pub enum EntityIdError {
    /// The ID string doesn't have the expected format (prefix + delimiter + identifier).
    InvalidFormat,
    /// The identifier part of the ID string is not a valid identifier (UUID or ULID).
    InvalidIdentifier,
}

/// Wrapper for identifier-specific errors.
#[derive(Debug)]
pub enum IdentifierError {
    /// Error from UUID operations.
    Uuid(uuid::Error),
    /// Error from ULID operations.
    Ulid(ulid::DecodeError),
}

/// The message of an `EntityIdError`.
pub open spec fn entity_id_error_message(e: EntityIdError) -> Seq<char> {
    match e {
        EntityIdError::InvalidFormat => "The provided ID has an invalid format"@,
        EntityIdError::InvalidIdentifier => "ID must contain a valid identifier"@,
    }
}

impl AsRef<str> for EntityIdError {
    fn as_ref(&self) -> (r: &str)
        ensures
            r@ == entity_id_error_message(*self),
    {
        match self {
            EntityIdError::InvalidFormat => "The provided ID has an invalid format",
            EntityIdError::InvalidIdentifier => "ID must contain a valid identifier",
        }
    }
}

impl EntityIdError {
    /// The message of the error, owned: what displaying the error prints.
    pub fn to_string(&self) -> (r: String)
        ensures
            r@ == entity_id_error_message(*self),
    {
        String::from_str(self.as_ref())
    }
}

impl From<EntityIdError> for String {
    fn from(err: EntityIdError) -> (r: String)
        ensures
            r@ == entity_id_error_message(err),
    {
        err.to_string()
    }
}

/// A `String` cannot be built in a spec function: the contract is the `ensures` of `from`.
impl vstd::std_specs::convert::FromSpecImpl<EntityIdError> for String {
    open spec fn obeys_from_spec() -> bool {
        false
    }

    open spec fn from_spec(err: EntityIdError) -> String {
        vstd::pervasive::arbitrary()
    }
}

impl<'a> From<&'a EntityIdError> for String {
    fn from(err: &'a EntityIdError) -> (r: String)
        ensures
            r@ == entity_id_error_message(*err),
    {
        err.to_string()
    }
}

/// As for an owned error: the contract is the `ensures` of `from`.
impl<'a> vstd::std_specs::convert::FromSpecImpl<&'a EntityIdError> for String {
    open spec fn obeys_from_spec() -> bool {
        false
    }

    open spec fn from_spec(err: &'a EntityIdError) -> String {
        vstd::pervasive::arbitrary()
    }
}

/// The texts that the messages of `uuid::Error` begin with, one for each kind of error.
pub open spec fn uuid_error_message_starts() -> Seq<Seq<char>> {
    seq![
        "invalid character: found `"@,
        "invalid length: expected 16 bytes, found "@,
        "invalid group count: expected 5, found "@,
        "invalid group length in group "@,
        "non-UTF8 input"@,
        "the UUID is nil"@,
        "invalid length: found "@,
        "failed to parse a UUID"@,
        "the system timestamp is invalid: "@,
    ]
}

/// Whether `m` is a message of a `uuid::Error`: it begins with the text of one kind of error.
pub open spec fn is_uuid_error_message(m: Seq<char>) -> bool {
    exists|i: int| 0 <= i < uuid_error_message_starts().len() && (#[trigger] uuid_error_message_starts()[i]).is_prefix_of(m)
}

/// Whether `m` is a message of a `ulid::DecodeError`: `invalid length` or `invalid character`.
pub open spec fn is_ulid_error_message(m: Seq<char>) -> bool {
    m == "invalid length"@ || m == "invalid character"@
}

/// The message that `uuid::Error`'s `Display` writes for `e`.
pub uninterp spec fn uuid_error_display(e: uuid::Error) -> Seq<char>;

/// The message that `ulid::DecodeError`'s `Display` writes for `e`.
pub uninterp spec fn ulid_error_display(e: ulid::DecodeError) -> Seq<char>;

/// Calls `uuid::Error::to_string`. Claims that the text is the error's `Display` message, a
/// function of the error alone, and what the crate's `Display` shows of it: it begins with the
/// text of one kind of error.
#[verifier::external_body]
fn uuid_error_text(err: &uuid::Error) -> (r: String)
    ensures
        r@ == uuid_error_display(*err),
        is_uuid_error_message(r@),
{
    err.to_string()
}

/// Calls `ulid::DecodeError::to_string`. Claims that the text is the error's `Display` message,
/// a function of the error alone, and what the crate's `Display` shows of it: `invalid length`
/// or `invalid character`.
#[verifier::external_body]
fn ulid_error_text(err: &ulid::DecodeError) -> (r: String)
    ensures
        r@ == ulid_error_display(*err),
        is_ulid_error_message(r@),
{
    err.to_string()
}

impl IdentifierError {
    /// The underlying UUID error, if this is a UUID error.
    pub fn uuid_error(&self) -> (r: Option<&uuid::Error>)
        ensures
            r is Some <==> self is Uuid,
            self matches IdentifierError::Uuid(e) ==> r == Some(e),
    {
        match self {
            IdentifierError::Uuid(err) => Some(err),
            _ => None,
        }
    }

    /// The underlying ULID error, if this is a ULID error.
    pub fn ulid_error(&self) -> (r: Option<&ulid::DecodeError>)
        ensures
            r is Some <==> self is Ulid,
            self matches IdentifierError::Ulid(e) ==> r == Some(e),
    {
        match self {
            IdentifierError::Ulid(err) => Some(err),
            _ => None,
        }
    }

    /// The message of the underlying error, as that error displays it.
    pub fn error_message(&self) -> (r: String)
        ensures
            *self matches IdentifierError::Uuid(e) ==> r@ == uuid_error_display(e),
            *self matches IdentifierError::Ulid(e) ==> r@ == ulid_error_display(e),
            self is Uuid ==> is_uuid_error_message(r@),
            self is Ulid ==> is_ulid_error_message(r@),
    {
        match self {
            IdentifierError::Uuid(err) => uuid_error_text(err),
            IdentifierError::Ulid(err) => ulid_error_text(err),
        }
    }

    /// The message of the error, owned: what displaying the error prints. It names the kind of
    /// identifier, then gives the message of the underlying error.
    pub fn to_string(&self) -> (r: String)
        ensures
            *self matches IdentifierError::Uuid(e) ==> r@ == "Invalid UUID format: "@ + uuid_error_display(e),
            *self matches IdentifierError::Ulid(e) ==> r@ == "Invalid ULID format: "@ + ulid_error_display(e),
    {
        let message = self.error_message();
        match self {
            IdentifierError::Uuid(_) => join_str("Invalid UUID format: ", message.as_str()),
            IdentifierError::Ulid(_) => join_str("Invalid ULID format: ", message.as_str()),
        }
    }
}

impl From<IdentifierError> for String {
    fn from(err: IdentifierError) -> (r: String)
        ensures
            err matches IdentifierError::Uuid(e) ==> r@ == "Invalid UUID format: "@ + uuid_error_display(e),
            err matches IdentifierError::Ulid(e) ==> r@ == "Invalid ULID format: "@ + ulid_error_display(e),
    {
        err.to_string()
    }
}

/// The message holds the outside error's text: the contract is the `ensures` of `from`.
impl vstd::std_specs::convert::FromSpecImpl<IdentifierError> for String {
    open spec fn obeys_from_spec() -> bool {
        false
    }

    open spec fn from_spec(err: IdentifierError) -> String {
        vstd::pervasive::arbitrary()
    }
}

impl<'a> From<&'a IdentifierError> for String {
    fn from(err: &'a IdentifierError) -> (r: String)
        ensures
            *err matches IdentifierError::Uuid(e) ==> r@ == "Invalid UUID format: "@ + uuid_error_display(e),
            *err matches IdentifierError::Ulid(e) ==> r@ == "Invalid ULID format: "@ + ulid_error_display(e),
    {
        err.to_string()
    }
}

/// As for an owned error: the contract is the `ensures` of `from`.
impl<'a> vstd::std_specs::convert::FromSpecImpl<&'a IdentifierError> for String {
    open spec fn obeys_from_spec() -> bool {
        false
    }

    open spec fn from_spec(err: &'a IdentifierError) -> String {
        vstd::pervasive::arbitrary()
    }
}

impl From<uuid::Error> for IdentifierError {
    fn from(err: uuid::Error) -> (r: Self) {
        IdentifierError::Uuid(err)
    }
}

impl vstd::std_specs::convert::FromSpecImpl<uuid::Error> for IdentifierError {
    open spec fn obeys_from_spec() -> bool {
        true
    }

    open spec fn from_spec(err: uuid::Error) -> Self {
        IdentifierError::Uuid(err)
    }
}

impl From<ulid::DecodeError> for IdentifierError {
    fn from(err: ulid::DecodeError) -> (r: Self) {
        IdentifierError::Ulid(err)
    }
}

impl vstd::std_specs::convert::FromSpecImpl<ulid::DecodeError> for IdentifierError {
    open spec fn obeys_from_spec() -> bool {
        true
    }

    open spec fn from_spec(err: ulid::DecodeError) -> Self {
        IdentifierError::Ulid(err)
    }
}

} // verus!
