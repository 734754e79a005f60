use vstd::prelude::*;

use crate::error::IdentifierError;
use vstd::std_specs::cmp::PartialEqSpec;

verus! {

/// The common interface of the identifier kinds (UUID, ULID).
///
/// An identifier is a 128-bit value, its view. Its text is a function of that value,
/// and parsing that text gives the value back.
pub trait Identifier: Sized + Copy + PartialEq + Eq + core::hash::Hash + View<V = u128> {
    /// The canonical text of the identifier with value `v`.
    spec fn spec_text(v: u128) -> Seq<char>;

    /// The value that `parse` reads from `s`, or `None` where it refuses `s`.
    spec fn spec_parse(s: Seq<char>) -> Option<u128>;

    /// The timestamp in milliseconds that an identifier with value `v` carries, if any.
    spec fn spec_timestamp(v: u128) -> Option<u64>;

    /// Parse a string into an identifier.
    fn parse(s: &str) -> (r: Result<Self, IdentifierError>)
        ensures
            match r {
                Ok(id) => Self::spec_parse(s@) == Some(id@),
                Err(_) => Self::spec_parse(s@) is None,
            },
    ;

    /// What holds of every value that `generate` can give.
    spec fn spec_generated(v: u128) -> bool;

    /// Generate a new random identifier.
    fn generate() -> (r: Self)
        ensures
            Self::spec_generated(r@),
    ;

    /// The string representation of the identifier.
    fn as_str(&self) -> (r: String)
        ensures
            r@ == Self::spec_text(self@),
            Self::spec_parse(r@) == Some(self@),
    ;

    /// The timestamp in milliseconds, where the identifier kind carries one.
    fn timestamp_ms(&self) -> (r: Option<u64>)
        ensures
            r == Self::spec_timestamp(self@),
    ;

    /// `==` on identifiers compares their values.
    proof fn lemma_eq_by_value()
        ensures
            Self::obeys_eq_spec(),
            forall|a: Self, b: Self| #[trigger] a.eq_spec(&b) <==> a@ == b@,
    ;
}

} // verus!
