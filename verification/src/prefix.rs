use vstd::prelude::*;

verus! {

/// Trait for entity-specific prefixes.
///
/// Each entity type names its prefix and its delimiter (by default `_`). An entity
/// identifier of the type is written `<prefix><delimiter><identifier>`.
///
/// An implementation sets `spec_prefix` to the text that its `prefix` returns. The delimiter is
/// the constant `DELIMITER`: an implementation that wants another delimiter sets that constant,
/// and `delimiter` returns it.
pub trait Prefix {
    /// The prefix of the entity type. Until an implementation sets it, nothing is known of it.
    open spec fn spec_prefix() -> Seq<char> {
        vstd::pervasive::arbitrary()
    }

    /// The delimiter between the prefix and the identifier.
    const DELIMITER: &'static str = "_";

    /// The prefix of the entity type.
    fn prefix() -> (p: &'static str)
        ensures
            p@ == Self::spec_prefix(),
    ;

    /// The delimiter between the prefix and the identifier: `DELIMITER`, `_` by default.
    fn delimiter() -> (d: &'static str)
        ensures
            d@ == Self::DELIMITER@,
    {
        Self::DELIMITER
    }
}

} // verus!
