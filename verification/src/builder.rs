use vstd::prelude::*;

use core::marker::PhantomData;

use crate::entity_id::EntityId;
use crate::identifier::Identifier;
use crate::prefix::Prefix;
use crate::ulid_identifier::{self, UlidIdentifier, ULID_MAX_TIMESTAMP};
use crate::uuid_identifier::{self, UuidIdentifier, UuidVersion};

verus! {

/// Builder for creating `EntityId`s: holds the identifier that `build` will use, if one was set.
pub struct EntityIdBuilder<T: Prefix, I: Identifier> {
    id: Option<I>,
    _marker: PhantomData<T>,
}

impl<T: Prefix, I: Identifier> EntityIdBuilder<T, I> {
    /// The identifier that `build` will use, or `None` for a generated one.
    pub closed spec fn spec_id(&self) -> Option<I> {
        self.id
    }

    /// Create a new builder, with no identifier set.
    pub fn new() -> (r: Self)
        ensures
            r.spec_id() is None,
    {
        Self::default()
    }

    /// Set the identifier.
    pub fn with_identifier(self, id: I) -> (r: Self)
        ensures
            r.spec_id() == Some(id),
    {
        EntityIdBuilder { id: Some(id), _marker: PhantomData }
    }

    /// Build the `EntityId`: from the identifier that was set, else from a generated one.
    pub fn build(self) -> (r: EntityId<T, I>)
        ensures
            self.spec_id() matches Some(id) ==> r.spec_identifier() == id && r@ == id@,
            self.spec_id() is None ==> I::spec_generated(r@),
    {
        match self.id {
            Some(id) => EntityId::from_identifier(id),
            None => EntityId::generate(),
        }
    }
}

impl<T: Prefix, I: Identifier> Default for EntityIdBuilder<T, I> {
    fn default() -> (r: Self)
        ensures
            r.spec_id() is None,
    {
        EntityIdBuilder { id: None, _marker: PhantomData }
    }
}

impl<T: Prefix> EntityIdBuilder<T, UuidIdentifier> {
    /// Set a specific UUID value.
    pub fn with_uuid(self, uuid: u128) -> (r: Self)
        ensures
            r.spec_id() matches Some(id) && id@ == uuid,
    {
        EntityIdBuilder { id: Some(UuidIdentifier::from_uuid(uuid)), _marker: PhantomData }
    }

    /// Set a UUID v4 (random).
    pub fn with_uuid_v4(self) -> (r: Self)
        ensures
            r.spec_id() matches Some(id) && uuid_identifier::uuid_version_of(id@) == Some(UuidVersion::Random)
                && uuid_identifier::uuid_variant_bits(id@) == 2,
    {
        EntityIdBuilder { id: Some(UuidIdentifier::new_v4()), _marker: PhantomData }
    }

    /// Set a UUID v5 (name-based).
    pub fn with_uuid_v5(self, namespace: u128, name: &str) -> (r: Self)
        ensures
            r.spec_id() matches Some(id) && id@ == uuid_identifier::uuid_v5(namespace, name@),
    {
        EntityIdBuilder { id: Some(UuidIdentifier::new_v5(namespace, name)), _marker: PhantomData }
    }
}

impl<T: Prefix> EntityIdBuilder<T, UlidIdentifier> {
    /// Set a specific ULID value.
    pub fn with_ulid(self, ulid: u128) -> (r: Self)
        ensures
            r.spec_id() matches Some(id) && id@ == ulid,
    {
        EntityIdBuilder { id: Some(UlidIdentifier::from_ulid(ulid)), _marker: PhantomData }
    }

    /// Set a ULID with a specific timestamp.
    pub fn with_timestamp(self, timestamp_ms: u64) -> (r: Self)
        ensures
            r.spec_id() matches Some(id) && ulid_identifier::ulid_timestamp(id@) == timestamp_ms & ULID_MAX_TIMESTAMP,
    {
        EntityIdBuilder { id: Some(UlidIdentifier::with_timestamp(timestamp_ms)), _marker: PhantomData }
    }

    /// Set a monotonic ULID based on a previous entity ID.
    pub fn with_monotonic_from(self, previous: Option<&EntityId<T, UlidIdentifier>>) -> (r: Self)
        ensures
            r.spec_id() matches Some(id) && (previous matches Some(p) ==> {
                &&& ulid_identifier::ulid_timestamp(p@) < ULID_MAX_TIMESTAMP ==> ulid_identifier::ulid_timestamp(id@) > ulid_identifier::ulid_timestamp(
                    p@,
                ) && id@ > p@
                &&& ulid_identifier::ulid_timestamp(p@) == ULID_MAX_TIMESTAMP ==> ulid_identifier::ulid_timestamp(id@) == 0
            }),
    {
        let prev_id = match previous {
            Some(p) => Some(p.identifier()),
            None => None,
        };
        EntityIdBuilder { id: Some(UlidIdentifier::monotonic_from(prev_id)), _marker: PhantomData }
    }
}

} // verus!
