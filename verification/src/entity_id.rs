use vstd::prelude::*;
use vstd::std_specs::cmp::PartialOrdSpec;

use core::cmp::Ordering;
use core::marker::PhantomData;

use crate::builder::EntityIdBuilder;
use crate::error::{EntityIdError, IdentifierError};
use crate::identifier::Identifier;
use crate::prefix::Prefix;
use crate::text::{join_str, skip_chars, starts_with};
use crate::ulid_identifier::{self, UlidIdentifier, ULID_MAX_TIMESTAMP};
use crate::uuid_identifier::{self, UuidIdentifier, UuidVersion};

verus! {

/// The text that every identifier of entity type `T` begins with: prefix, then delimiter.
pub open spec fn entity_prefix<T: Prefix>() -> Seq<char> {
    T::spec_prefix() + T::DELIMITER@
}

/// The full text of the entity identifier of type `T` whose identifier has value `v`.
pub open spec fn entity_text<T: Prefix, I: Identifier>(v: u128) -> Seq<char> {
    entity_prefix::<T>() + I::spec_text(v)
}

/// What parsing `s` as an entity identifier of type `T` gives: the identifier's value, or
/// `InvalidFormat` where `s` does not begin with the prefix and delimiter, or
/// `InvalidIdentifier` where the rest of `s` is not an identifier.
pub open spec fn entity_parse<T: Prefix, I: Identifier>(s: Seq<char>) -> Result<u128, EntityIdError> {
    let p = entity_prefix::<T>();
    if p.is_prefix_of(s) {
        match I::spec_parse(s.skip(p.len() as int)) {
            Some(v) => Ok(v),
            None => Err(EntityIdError::InvalidIdentifier),
        }
    } else {
        Err(EntityIdError::InvalidFormat)
    }
}

/// Generic ID type supporting both UUID and ULID.
///
/// Its view is the value of its identifier; it keeps its full text and the identifier's text,
/// so that both can be lent out as `&str`.
#[derive(Debug)]
pub struct EntityId<T: Prefix, I: Identifier> {
    id: I,
    full: String,
    id_text: String,
    _marker: PhantomData<T>,
}

/// UUID-based entity ID.
pub type UuidEntityId<T> = EntityId<T, UuidIdentifier>;

/// ULID-based entity ID.
pub type UlidEntityId<T> = EntityId<T, UlidIdentifier>;

impl<T: Prefix, I: Identifier> View for EntityId<T, I> {
    type V = u128;

    closed spec fn view(&self) -> u128 {
        self.id@
    }
}

impl<T: Prefix, I: Identifier> EntityId<T, I> {
    /// The stored texts are those of the identifier, and its text parses back to it.
    #[verifier::type_invariant]
    pub closed spec fn wf(&self) -> bool {
        &&& self.full@ == entity_text::<T, I>(self.id@)
        &&& self.id_text@ == I::spec_text(self.id@)
        &&& I::spec_parse(self.id_text@) == Some(self.id@)
    }

    /// The identifier inside.
    pub closed spec fn spec_identifier(&self) -> I {
        self.id
    }

    /// Create an `EntityId` from an identifier string `<prefix><delimiter><identifier>`.
    pub fn new(s: &str) -> (r: Result<Self, EntityIdError>)
        ensures
            match r {
                Ok(e) => entity_parse::<T, I>(s@) == Ok::<u128, EntityIdError>(e@),
                Err(err) => entity_parse::<T, I>(s@) == Err::<u128, EntityIdError>(err),
            },
    {
        match Self::identifier_part(s) {
            Some(id_part) => Self::from_parsed(I::parse(id_part)),
            None => Err(EntityIdError::InvalidFormat),
        }
    }

    /// The identifier part of `s`: what follows the prefix and delimiter, or `None` where `s`
    /// does not begin with them.
    pub fn identifier_part(s: &str) -> (r: Option<&str>)
        ensures
            match r {
                Some(part) => entity_prefix::<T>().is_prefix_of(s@) && part@ == s@.skip(
                    entity_prefix::<T>().len() as int,
                ),
                None => !entity_prefix::<T>().is_prefix_of(s@),
            },
    {
        let expected_prefix = join_str(T::prefix(), T::delimiter());
        if starts_with(s, expected_prefix.as_str()) {
            Some(skip_chars(s, expected_prefix.as_str().unicode_len()))
        } else {
            None
        }
    }

    /// The entity ID of a parsed identifier; a parse error becomes `InvalidIdentifier`.
    pub fn from_parsed(parsed: Result<I, IdentifierError>) -> (r: Result<Self, EntityIdError>)
        ensures
            match parsed {
                Ok(id) => r matches Ok(e) && e@ == id@ && e.spec_identifier() == id,
                Err(_) => r == Err::<Self, EntityIdError>(EntityIdError::InvalidIdentifier),
            },
    {
        match parsed {
            Ok(id) => Ok(Self::from_identifier(id)),
            Err(_) => Err(EntityIdError::InvalidIdentifier),
        }
    }

    /// Generate a new `EntityId` with a random identifier: one that `I::generate` can give (for
    /// UUIDs, a version 4 UUID).
    pub fn generate() -> (r: Self)
        ensures
            I::spec_generated(r@),
    {
        Self::from_identifier(I::generate())
    }

    /// Create an `EntityId` from an existing identifier.
    pub fn from_identifier(id: I) -> (r: Self)
        ensures
            r@ == id@,
            r.spec_identifier() == id,
    {
        let id_text = id.as_str();
        let prefix = join_str(T::prefix(), T::delimiter());
        let full = join_str(prefix.as_str(), id_text.as_str());
        EntityId { id, full, id_text, _marker: PhantomData }
    }

    /// The full ID string with prefix: `<prefix><delimiter><identifier>`.
    pub fn as_str(&self) -> (r: &str)
        ensures
            r@ == entity_text::<T, I>(self@),
    {
        proof {
            use_type_invariant(self);
        }
        self.full.as_str()
    }

    /// The identifier string without the prefix and delimiter.
    pub fn id_str(&self) -> (r: &str)
        ensures
            r@ == I::spec_text(self@),
    {
        proof {
            use_type_invariant(self);
        }
        self.id_text.as_str()
    }

    /// The timestamp in milliseconds, where the identifier carries one.
    pub fn timestamp_ms(&self) -> (r: Option<u64>)
        ensures
            r == I::spec_timestamp(self@),
    {
        self.id.timestamp_ms()
    }

    /// The underlying identifier.
    pub fn identifier(&self) -> (r: &I)
        ensures
            *r == self.spec_identifier(),
            r@ == self@,
    {
        &self.id
    }

    /// The prefix of this entity type.
    pub fn prefix() -> (r: &'static str)
        ensures
            r@ == T::spec_prefix(),
    {
        T::prefix()
    }

    /// The delimiter of this entity type.
    pub fn delimiter() -> (r: &'static str)
        ensures
            r@ == T::DELIMITER@,
    {
        T::delimiter()
    }

    /// A builder for this entity type, with no identifier set.
    pub fn builder() -> (r: EntityIdBuilder<T, I>)
        ensures
            r.spec_id() is None,
    {
        EntityIdBuilder::new()
    }

    /// Parse a raw identifier string (without prefix) into an `EntityId`.
    pub fn from_raw_str(s: &str) -> (r: Result<Self, EntityIdError>)
        ensures
            match r {
                Ok(e) => I::spec_parse(s@) == Some(e@),
                Err(err) => err == EntityIdError::InvalidIdentifier && I::spec_parse(s@) is None,
            },
    {
        Self::from_parsed(I::parse(s))
    }

    /// Parse a raw identifier string (without prefix) into an `EntityId`, mapping the
    /// identifier error with `error_mapper`.
    pub fn parse_raw_str<E, F: FnOnce(IdentifierError) -> E>(s: &str, error_mapper: F) -> (r: Result<Self, E>)
        requires
            forall|e: IdentifierError| error_mapper.requires((e,)),
        ensures
            r is Ok <==> I::spec_parse(s@) is Some,
            r matches Ok(id) ==> I::spec_parse(s@) == Some(id@),
            r matches Err(x) ==> exists|e: IdentifierError| error_mapper.ensures((e,), x),
    {
        match I::parse(s) {
            Ok(id) => {
                let e = Self::from_identifier(id);
                Ok(e)
            },
            Err(err) => {
                let x = error_mapper(err);
                let res: Result<Self, E> = Err(x);
                assert(res matches Err(y) ==> error_mapper.ensures((err,), y));
                res
            },
        }
    }

    /// The identifier string without the prefix, as an owned `String`.
    pub fn to_raw_string(&self) -> (r: String)
        ensures
            r@ == I::spec_text(self@),
    {
        String::from_str(self.id_str())
    }

    /// A copy of the underlying identifier.
    pub fn to_identifier(&self) -> (r: I)
        ensures
            r == self.spec_identifier(),
            r@ == self@,
    {
        self.id
    }

    /// The full ID string, owned: what displaying the entity ID prints.
    pub fn to_string(&self) -> (r: String)
        ensures
            r@ == entity_text::<T, I>(self@),
    {
        proof {
            use_type_invariant(self);
        }
        self.full.clone()
    }
}

impl<T: Prefix, I: Identifier> PartialEq for EntityId<T, I> {
    fn eq(&self, other: &Self) -> (r: bool) {
        proof {
            I::lemma_eq_by_value();
        }
        self.id == other.id
    }
}

impl<T: Prefix, I: Identifier> Eq for EntityId<T, I> {}

impl<T: Prefix, I: Identifier> vstd::std_specs::cmp::PartialEqSpecImpl for EntityId<T, I> {
    open spec fn obeys_eq_spec() -> bool {
        true
    }

    open spec fn eq_spec(&self, other: &Self) -> bool {
        self@ == other@
    }
}

impl<T: Prefix, I: Identifier> Clone for EntityId<T, I> {
    fn clone(&self) -> (r: Self)
        ensures
            r@ == self@,
            r.spec_identifier() == self.spec_identifier(),
    {
        proof {
            use_type_invariant(self);
        }
        EntityId {
            id: self.id,
            full: self.full.clone(),
            id_text: self.id_text.clone(),
            _marker: PhantomData,
        }
    }
}

/// Calls `core::hash::Hash::hash` for `str`; nothing is claimed of the hasher's state.
#[verifier::external_body]
fn hash_text<H: core::hash::Hasher>(text: &str, state: &mut H) {
    core::hash::Hash::hash(text, state)
}

/// Hashes the full text, as `str` hashes it, so that a collection keyed by entity IDs can be
/// searched with the `&str` that `Borrow` lends out. The text is a function of the
/// identifier, so entity IDs that are `==` hash alike.
impl<T: Prefix, I: Identifier> core::hash::Hash for EntityId<T, I> {
    fn hash<H: core::hash::Hasher>(&self, state: &mut H) {
        hash_text(self.full.as_str(), state);
    }
}

impl<T: Prefix, I: Identifier> core::str::FromStr for EntityId<T, I> {
    type Err = EntityIdError;

    fn from_str(s: &str) -> (r: Result<Self, Self::Err>)
        ensures
            match r {
                Ok(e) => entity_parse::<T, I>(s@) == Ok::<u128, EntityIdError>(e@),
                Err(err) => entity_parse::<T, I>(s@) == Err::<u128, EntityIdError>(err),
            },
    {
        Self::new(s)
    }
}

impl<'a, T: Prefix, I: Identifier> TryFrom<&'a str> for EntityId<T, I> {
    type Error = EntityIdError;

    fn try_from(s: &'a str) -> (r: Result<Self, Self::Error>)
        ensures
            match r {
                Ok(e) => entity_parse::<T, I>(s@) == Ok::<u128, EntityIdError>(e@),
                Err(err) => entity_parse::<T, I>(s@) == Err::<u128, EntityIdError>(err),
            },
    {
        Self::new(s)
    }
}

/// The result of `try_from` is an entity ID, which a spec function cannot build from text:
/// its contract is the `ensures` of `try_from` itself.
impl<'a, T: Prefix, I: Identifier> vstd::std_specs::convert::TryFromSpecImpl<&'a str> for EntityId<T, I> {
    open spec fn obeys_try_from_spec() -> bool {
        false
    }

    open spec fn try_from_spec(s: &'a str) -> Result<Self, EntityIdError> {
        vstd::pervasive::arbitrary()
    }
}

impl<T: Prefix, I: Identifier> TryFrom<String> for EntityId<T, I> {
    type Error = EntityIdError;

    fn try_from(s: String) -> (r: Result<Self, Self::Error>)
        ensures
            match r {
                Ok(e) => entity_parse::<T, I>(s@) == Ok::<u128, EntityIdError>(e@),
                Err(err) => entity_parse::<T, I>(s@) == Err::<u128, EntityIdError>(err),
            },
    {
        Self::new(s.as_str())
    }
}

/// As for `&str`: the contract is the `ensures` of `try_from` itself.
impl<T: Prefix, I: Identifier> vstd::std_specs::convert::TryFromSpecImpl<String> for EntityId<T, I> {
    open spec fn obeys_try_from_spec() -> bool {
        false
    }

    open spec fn try_from_spec(s: String) -> Result<Self, EntityIdError> {
        vstd::pervasive::arbitrary()
    }
}

impl<'a, T: Prefix, I: Identifier> TryFrom<&'a String> for EntityId<T, I> {
    type Error = EntityIdError;

    fn try_from(s: &'a String) -> (r: Result<Self, Self::Error>)
        ensures
            match r {
                Ok(e) => entity_parse::<T, I>(s@) == Ok::<u128, EntityIdError>(e@),
                Err(err) => entity_parse::<T, I>(s@) == Err::<u128, EntityIdError>(err),
            },
    {
        Self::new(s.as_str())
    }
}

/// As for `&str`: the contract is the `ensures` of `try_from` itself.
impl<'a, T: Prefix, I: Identifier> vstd::std_specs::convert::TryFromSpecImpl<&'a String> for EntityId<T, I> {
    open spec fn obeys_try_from_spec() -> bool {
        false
    }

    open spec fn try_from_spec(s: &'a String) -> Result<Self, EntityIdError> {
        vstd::pervasive::arbitrary()
    }
}

impl<T: Prefix, I: Identifier> From<I> for EntityId<T, I> {
    fn from(id: I) -> (r: Self)
        ensures
            r@ == id@,
            r.spec_identifier() == id,
    {
        Self::from_identifier(id)
    }
}

/// An entity ID holds texts that a spec function cannot build: the contract is the `ensures`
/// of `from`.
impl<T: Prefix, I: Identifier> vstd::std_specs::convert::FromSpecImpl<I> for EntityId<T, I> {
    open spec fn obeys_from_spec() -> bool {
        false
    }

    open spec fn from_spec(id: I) -> Self {
        vstd::pervasive::arbitrary()
    }
}

impl<T: Prefix, I: Identifier> From<EntityId<T, I>> for String {
    fn from(entity_id: EntityId<T, I>) -> (r: String)
        ensures
            r@ == entity_text::<T, I>(entity_id@),
    {
        entity_id.to_string()
    }
}

/// A `String` cannot be built in a spec function: the contract is the `ensures` of `from`.
impl<T: Prefix, I: Identifier> vstd::std_specs::convert::FromSpecImpl<EntityId<T, I>> for String {
    open spec fn obeys_from_spec() -> bool {
        false
    }

    open spec fn from_spec(entity_id: EntityId<T, I>) -> String {
        vstd::pervasive::arbitrary()
    }
}

impl<'a, T: Prefix, I: Identifier> From<&'a EntityId<T, I>> for String {
    fn from(entity_id: &'a EntityId<T, I>) -> (r: String)
        ensures
            r@ == entity_text::<T, I>(entity_id@),
    {
        entity_id.to_string()
    }
}

/// As for an owned entity ID: the contract is the `ensures` of `from`.
impl<'a, T: Prefix, I: Identifier> vstd::std_specs::convert::FromSpecImpl<&'a EntityId<T, I>> for String {
    open spec fn obeys_from_spec() -> bool {
        false
    }

    open spec fn from_spec(entity_id: &'a EntityId<T, I>) -> String {
        vstd::pervasive::arbitrary()
    }
}

impl<T: Prefix, I: Identifier> AsRef<str> for EntityId<T, I> {
    fn as_ref(&self) -> (r: &str)
        ensures
            r@ == entity_text::<T, I>(self@),
    {
        proof {
            use_type_invariant(self);
        }
        self.full.as_str()
    }
}

impl<T: Prefix, I: Identifier> core::borrow::Borrow<str> for EntityId<T, I> {
    fn borrow(&self) -> (r: &str)
        ensures
            <str as View>::view(r) == entity_text::<T, I>(self@),
    {
        proof {
            use_type_invariant(self);
        }
        self.full.as_str()
    }
}

/// How two ULID-based entity IDs of one type compare: by their ULID values, which order them
/// by their timestamps first.
pub open spec fn compare_values(a: u128, b: u128) -> Option<Ordering> {
    if a < b {
        Some(Ordering::Less)
    } else if a == b {
        Some(Ordering::Equal)
    } else {
        Some(Ordering::Greater)
    }
}

/// A ULID-based entity ID with a later timestamp sorts after one with an earlier timestamp; so
/// an entity ID that `monotonic_from` makes from a previous one sorts after it.
pub proof fn lemma_later_entity_sorts_after<T: Prefix>(
    earlier: EntityId<T, UlidIdentifier>,
    later: EntityId<T, UlidIdentifier>,
)
    requires
        ulid_identifier::ulid_timestamp(later@) > ulid_identifier::ulid_timestamp(earlier@),
    ensures
        later.partial_cmp_spec(&earlier) == Some(Ordering::Greater),
        earlier.partial_cmp_spec(&later) == Some(Ordering::Less),
{
    ulid_identifier::lemma_later_timestamp_is_greater(earlier@, later@);
}

impl<T: Prefix> EntityId<T, UuidIdentifier> {
    /// A UUID-based entity ID with a specific UUID value.
    pub fn with_uuid(uuid: u128) -> (r: Self)
        ensures
            r@ == uuid,
    {
        Self::from_identifier(UuidIdentifier::from_uuid(uuid))
    }

    /// A new UUID v4 (random) entity ID.
    pub fn new_v4() -> (r: Self)
        ensures
            uuid_identifier::uuid_version_of(r@) == Some(UuidVersion::Random),
            uuid_identifier::uuid_variant_bits(r@) == 2,
    {
        Self::from_identifier(UuidIdentifier::new_v4())
    }

    /// A new UUID v5 (name-based) entity ID.
    pub fn new_v5(namespace: u128, name: &str) -> (r: Self)
        ensures
            r@ == uuid_identifier::uuid_v5(namespace, name@),
    {
        Self::from_identifier(UuidIdentifier::new_v5(namespace, name))
    }
}

impl<T: Prefix> EntityId<T, UlidIdentifier> {
    /// A ULID-based entity ID with a specific ULID value.
    pub fn with_ulid(ulid: u128) -> (r: Self)
        ensures
            r@ == ulid,
    {
        Self::from_identifier(UlidIdentifier::from_ulid(ulid))
    }

    /// A new ULID entity ID with a specific timestamp.
    pub fn with_timestamp(timestamp_ms: u64) -> (r: Self)
        ensures
            ulid_identifier::ulid_timestamp(r@) == timestamp_ms & ULID_MAX_TIMESTAMP,
    {
        Self::from_identifier(UlidIdentifier::with_timestamp(timestamp_ms))
    }

    /// A monotonic ULID entity ID based on a previous one.
    pub fn monotonic_from(previous: Option<&Self>) -> (r: Self)
        ensures
            previous matches Some(p) ==> {
                &&& ulid_identifier::ulid_timestamp(p@) < ULID_MAX_TIMESTAMP ==> ulid_identifier::ulid_timestamp(r@) > ulid_identifier::ulid_timestamp(p@)
                    && r@ > p@
                &&& ulid_identifier::ulid_timestamp(p@) == ULID_MAX_TIMESTAMP ==> ulid_identifier::ulid_timestamp(r@) == 0
            },
    {
        let prev_id = match previous {
            Some(p) => Some(p.identifier()),
            None => None,
        };
        Self::from_identifier(UlidIdentifier::monotonic_from(prev_id))
    }
}

/// Parsing the full text of an entity ID (what `as_str` gives, and what serialization writes)
/// gives back its identifier: `new(e.as_str())` is `Ok` with the same identifier.
pub proof fn lemma_parse_full_text<T: Prefix, I: Identifier>(e: EntityId<T, I>)
    requires
        e.wf(),
    ensures
        entity_parse::<T, I>(entity_text::<T, I>(e@)) == Ok::<u128, EntityIdError>(e@),
{
    let p = entity_prefix::<T>();
    let s = entity_text::<T, I>(e@);
    assert(p.is_prefix_of(s)) by {
        assert(s.subrange(0, p.len() as int) =~= p);
    }
    assert(s.skip(p.len() as int) =~= I::spec_text(e@));
}

/// Parsing the identifier text of an entity ID (what `id_str` and `to_raw_string` give) gives
/// back its identifier: `from_raw_str(e.id_str())` is `Ok` with the same identifier.
pub proof fn lemma_parse_raw_text<T: Prefix, I: Identifier>(e: EntityId<T, I>)
    requires
        e.wf(),
    ensures
        I::spec_parse(I::spec_text(e@)) == Some(e@),
{
}

/// Two entity IDs of one type have the same identifier exactly when they have the same text:
/// so `==`, which compares identifiers, agrees with comparing the texts that `as_str` and
/// `Borrow` give, and with the hash, which is that of the text.
pub proof fn lemma_same_identifier_iff_same_text<T: Prefix, I: Identifier>(a: EntityId<T, I>, b: EntityId<T, I>)
    requires
        a.wf(),
        b.wf(),
    ensures
        a@ == b@ <==> entity_text::<T, I>(a@) == entity_text::<T, I>(b@),
{
    let p = entity_prefix::<T>();
    if entity_text::<T, I>(a@) == entity_text::<T, I>(b@) {
        assert(entity_text::<T, I>(a@).skip(p.len() as int) =~= I::spec_text(a@));
        assert(entity_text::<T, I>(b@).skip(p.len() as int) =~= I::spec_text(b@));
    }
}

/// A string that does not begin with the prefix and delimiter of the entity type is refused
/// with `InvalidFormat`, whatever follows.
pub proof fn lemma_wrong_prefix_is_invalid_format<T: Prefix, I: Identifier>(s: Seq<char>)
    requires
        !entity_prefix::<T>().is_prefix_of(s),
    ensures
        entity_parse::<T, I>(s) == Err::<u128, EntityIdError>(EntityIdError::InvalidFormat),
{
}

} // verus!
