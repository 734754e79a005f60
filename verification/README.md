# entid

Type-safe, prefixed entity identifiers built on UUIDs and ULIDs, written in Verus.

An entity identifier reads `<prefix><delimiter><identifier>`, for example
`user_6ba7b810-9dad-11d1-80b4-00c04fd430c8`: the entity type (a `Prefix` implementation) gives
the prefix and the delimiter, a UUID or a ULID the identifier.

Layout:

- `src/` — the library, verified by Verus.
  - `prefix.rs` — the `Prefix` trait.
  - `identifier.rs` — the `Identifier` trait: an identifier is a 128-bit value with a canonical
    text that parses back to it.
  - `uuid_identifier.rs`, `ulid_identifier.rs` — the two identifier kinds, with the calls into the
    `uuid` and `ulid` crates behind small trusted functions whose contracts say what the crates do.
  - `entity_id.rs` — `EntityId`: parsing, text, conversions, and the laws that tie them together
    (parsing the text of an entity ID gives it back; equal identifiers, equal texts).
  - `builder.rs` — `EntityIdBuilder`.
  - `error.rs` — `EntityIdError` and `IdentifierError`.
  - `derive.rs` — the prefix and delimiter that `#[derive(Prefix)]` settles on for a type.
- `tests/` — the test suite.
- `app/` — a demo program, and serde and `Display` support for entity IDs.
