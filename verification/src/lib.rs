//! Type-safe, prefixed entity identifiers built on UUIDs and ULIDs.
//!
//! An entity identifier is written `<prefix><delimiter><identifier>`, for example
//! `user_6ba7b810-9dad-11d1-80b4-00c04fd430c8`. The prefix and delimiter come from the
//! entity type (the `Prefix` trait), the identifier part from a UUID or a ULID.

pub mod builder;
pub mod derive;
pub mod entity_id;
pub mod error;
pub mod identifier;
pub mod prefix;
mod text;
pub mod ulid_identifier;
pub mod uuid_identifier;

pub use builder::EntityIdBuilder;
pub use derive::{derive_prefix, EntidAttrItem, PrefixDeriveError, PrefixSettings};
pub use entity_id::{EntityId, UlidEntityId, UuidEntityId};
pub use error::{EntityIdError, IdentifierError};
pub use identifier::Identifier;
pub use prefix::Prefix;
pub use ulid_identifier::{UlidIdentifier, ULID_MAX_TIMESTAMP};
pub use uuid_identifier::{UuidIdentifier, UuidVersion};
pub use ulid::Ulid;
pub use uuid::Uuid;
