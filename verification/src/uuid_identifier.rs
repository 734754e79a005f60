use vstd::prelude::*;

use core::cmp::Ordering;
use vstd::std_specs::cmp::{PartialEqSpec, PartialOrdSpec};

use crate::error::IdentifierError;
use crate::entity_id::EntityId;
use crate::identifier::Identifier;
use crate::prefix::Prefix;

verus! {

/// The lowercase hexadecimal digit `d` (in `0..16`).
pub open spec fn hex_char(d: int) -> char {
    if d < 10 {
        ('0' as int + d) as char
    } else {
        ('a' as int + (d - 10)) as char
    }
}

/// The value of the hexadecimal digit `c`, in either case; `None` for any other character.
pub open spec fn hex_digit(c: char) -> Option<u128> {
    let n = c as int;
    if '0' as int <= n <= '9' as int {
        Some((n - '0' as int) as u128)
    } else if 'a' as int <= n <= 'f' as int {
        Some((n - 'a' as int + 10) as u128)
    } else if 'A' as int <= n <= 'F' as int {
        Some((n - 'A' as int + 10) as u128)
    } else {
        None
    }
}

/// The `d`-th hexadecimal digit of `v`, counting from the most significant (`d` in `0..32`).
pub open spec fn uuid_nibble(v: u128, d: int) -> u128 {
    (v >> ((4 * (31 - d)) as u128)) & 15u128
}

/// The 32 lowercase hexadecimal digits of a UUID, most significant first.
pub open spec fn uuid_simple(v: u128) -> Seq<char> {
    Seq::new(32, |d: int| hex_char(uuid_nibble(v, d) as int))
}

/// The hyphenated lowercase text of a UUID: its 32 hex digits in groups of 8-4-4-4-12.
pub open spec fn uuid_hyphenated(v: u128) -> Seq<char> {
    let h = uuid_simple(v);
    h.subrange(0, 8) + seq!['-'] + h.subrange(8, 12) + seq!['-'] + h.subrange(12, 16) + seq!['-']
        + h.subrange(16, 20) + seq!['-'] + h.subrange(20, 32)
}

/// The digits of a hyphenated UUID text `s` (36 characters, hyphens at 8, 13, 18 and 23), with
/// the hyphens left out; `None` where `s` is not of that shape.
pub open spec fn hyphenated_digits(s: Seq<char>) -> Option<Seq<char>> {
    if s.len() == 36 && s[8] == '-' && s[13] == '-' && s[18] == '-' && s[23] == '-' {
        Some(
            s.subrange(0, 8) + s.subrange(9, 13) + s.subrange(14, 18) + s.subrange(19, 23)
                + s.subrange(24, 36),
        )
    } else {
        None
    }
}

/// `c` in ASCII lowercase: `A`..`Z` become `a`..`z`, any other character stays.
pub open spec fn ascii_lower(c: char) -> char {
    if 'A' as int <= c as int <= 'Z' as int {
        (c as int + 32) as char
    } else {
        c
    }
}

/// Whether `s` is `urn:uuid:` in any mix of ASCII case.
pub open spec fn is_urn_prefix(s: Seq<char>) -> bool {
    s.len() == 9 && forall|i: int| 0 <= i < 9 ==> #[trigger] ascii_lower(s[i]) == "urn:uuid:"@[i]
}

/// The hex digits of a UUID text in one of the forms that `uuid::Uuid::parse_str` reads:
/// 32 digits; hyphenated; hyphenated in braces; hyphenated after `urn:uuid:`.
pub open spec fn uuid_text_digits(s: Seq<char>) -> Option<Seq<char>> {
    if s.len() == 32 {
        Some(s)
    } else if s.len() == 36 {
        hyphenated_digits(s)
    } else if s.len() == 38 && s[0] == '{' && s[37] == '}' {
        hyphenated_digits(s.subrange(1, 37))
    } else if s.len() == 45 && is_urn_prefix(s.take(9)) {
        hyphenated_digits(s.skip(9))
    } else {
        None
    }
}

/// The value of the hexadecimal digits `s`, most significant first.
pub open spec fn hex_value(s: Seq<char>) -> u128
    decreases s.len(),
{
    if s.len() == 0 {
        0
    } else {
        (hex_value(s.drop_last()) << 4u128) | match hex_digit(s.last()) {
            Some(d) => d,
            None => 0,
        }
    }
}

/// What `uuid::Uuid::parse_str` reads from `s`: the value of its 32 hex digits, where `s` is in
/// one of the forms it reads and every digit is hexadecimal; else `None`.
pub open spec fn uuid_parse(s: Seq<char>) -> Option<u128> {
    match uuid_text_digits(s) {
        Some(d) => if forall|i: int| 0 <= i < d.len() ==> #[trigger] hex_digit(d[i]) is Some {
            Some(hex_value(d))
        } else {
            None
        },
        None => None,
    }
}

/// Each hexadecimal digit reads back as its own value.
pub proof fn lemma_hex_digit_of_char(d: int)
    requires
        0 <= d < 16,
    ensures
        hex_digit(hex_char(d)) == Some(d as u128),
{
}

proof fn lemma_hex_shift_step(v: u128, k: u128, k4: u128)
    requires
        k <= 124,
        k4 == k + 4,
    ensures
        ((v >> k4) << 4u128) | ((v >> k) & 15u128) == v >> k,
{
    assert(k <= 124 && k4 == k + 4 ==> ((v >> k4) << 4u128) | ((v >> k) & 15u128) == v >> k) by (bit_vector);
}

/// The first `n` hex digits of `v` read as the top `4 * n` bits of `v`.
proof fn lemma_hex_prefix(v: u128, n: int)
    requires
        1 <= n <= 32,
    ensures
        hex_value(uuid_simple(v).take(n)) == v >> ((4 * (32 - n)) as u128),
    decreases n,
{
    let t = uuid_simple(v).take(n);
    assert(t.drop_last() =~= uuid_simple(v).take(n - 1));
    let k: u128 = (4 * (32 - n)) as u128;
    let digit: u128 = (v >> k) & 15u128;
    assert(digit < 16) by (bit_vector)
        requires
            digit == (v >> k) & 15u128,
    ;
    assert(t.last() == hex_char(digit as int));
    lemma_hex_digit_of_char(digit as int);
    assert(hex_value(t) == (hex_value(uuid_simple(v).take(n - 1)) << 4u128) | digit);
    if n == 1 {
        assert(uuid_simple(v).take(0) =~= Seq::<char>::empty());
        assert((0u128 << 4u128) | ((v >> 124u128) & 15u128) == v >> 124u128) by (bit_vector);
    } else {
        lemma_hex_prefix(v, n - 1);
        lemma_hex_shift_step(v, k, (4 * (33 - n)) as u128);
    }
}

/// Reading the hyphenated text of a UUID gives the UUID back.
pub proof fn lemma_parse_hyphenated(v: u128)
    ensures
        uuid_parse(uuid_hyphenated(v)) == Some(v),
{
    let h = uuid_simple(v);
    let s = uuid_hyphenated(v);
    assert(s.len() == 36);
    assert(s[8] == '-' && s[13] == '-' && s[18] == '-' && s[23] == '-');
    assert(hyphenated_digits(s) == Some(h)) by {
        assert(s.subrange(0, 8) + s.subrange(9, 13) + s.subrange(14, 18) + s.subrange(19, 23)
            + s.subrange(24, 36) =~= h);
    }
    assert forall|i: int| 0 <= i < h.len() implies #[trigger] hex_digit(h[i]) is Some by {
        let k: u128 = (4 * (31 - i)) as u128;
        let digit: u128 = (v >> k) & 15u128;
        assert(digit < 16) by (bit_vector)
            requires
                digit == (v >> k) & 15u128,
        ;
        lemma_hex_digit_of_char(digit as int);
    }
    lemma_hex_prefix(v, 32);
    assert(h.take(32) =~= h);
    assert(v >> 0u128 == v) by (bit_vector);
}

/// The version field of a UUID: bits 76 to 79 (the high nibble of its seventh byte).
pub open spec fn uuid_version_num(v: u128) -> u128 {
    (v >> 76u128) & 15u128
}

/// The variant field of a UUID: bits 62 and 63; `2` is the RFC 4122 variant.
pub open spec fn uuid_variant_bits(v: u128) -> u128 {
    (v >> 62u128) & 3u128
}

/// The name-based (SHA-1) UUID that `uuid::Uuid::new_v5` makes of a namespace and a name.
pub uninterp spec fn uuid_v5(namespace: u128, name: Seq<char>) -> u128;

/// The version of a UUID, as `uuid::Uuid::get_version` reports it.
#[derive(Debug, Clone, Copy, PartialEq, Eq, Structural, Hash)]
pub enum UuidVersion {
    /// The nil UUID (all zeros).
    Nil,
    /// Version 1: timestamp and node ID.
    Mac,
    /// Version 2: DCE security.
    Dce,
    /// Version 3: MD5 hash.
    Md5,
    /// Version 4: random.
    Random,
    /// Version 5: SHA-1 hash.
    Sha1,
    /// Version 6: sortable timestamp and node ID.
    SortMac,
    /// Version 7: timestamp and random.
    SortRand,
    /// Version 8: custom.
    Custom,
    /// The max UUID (all ones).
    Max,
}

/// The version that a UUID's version field names.
pub open spec fn uuid_version_of(v: u128) -> Option<UuidVersion> {
    let n = uuid_version_num(v);
    if n == 0 && v == 0 {
        Some(UuidVersion::Nil)
    } else if n == 1 {
        Some(UuidVersion::Mac)
    } else if n == 2 {
        Some(UuidVersion::Dce)
    } else if n == 3 {
        Some(UuidVersion::Md5)
    } else if n == 4 {
        Some(UuidVersion::Random)
    } else if n == 5 {
        Some(UuidVersion::Sha1)
    } else if n == 6 {
        Some(UuidVersion::SortMac)
    } else if n == 7 {
        Some(UuidVersion::SortRand)
    } else if n == 8 {
        Some(UuidVersion::Custom)
    } else if n == 15 && v == 0xFFFF_FFFF_FFFF_FFFF_FFFF_FFFF_FFFF_FFFFu128 {
        Some(UuidVersion::Max)
    } else {
        None
    }
}

/// The version follows the RFC 4122 table of version fields: 1 is time-based (`Mac`), 2 DCE, 3
/// MD5, 4 random, 5 SHA-1, 6 and 7 the sortable forms, 8 custom; the nil UUID (all zeros) and
/// the max UUID (all ones) have versions of their own, and any other field names none.
pub proof fn lemma_version_table(v: u128)
    ensures
        uuid_version_num(v) == 1 ==> uuid_version_of(v) == Some(UuidVersion::Mac),
        uuid_version_num(v) == 2 ==> uuid_version_of(v) == Some(UuidVersion::Dce),
        uuid_version_num(v) == 3 ==> uuid_version_of(v) == Some(UuidVersion::Md5),
        uuid_version_num(v) == 4 ==> uuid_version_of(v) == Some(UuidVersion::Random),
        uuid_version_num(v) == 5 ==> uuid_version_of(v) == Some(UuidVersion::Sha1),
        uuid_version_num(v) == 6 ==> uuid_version_of(v) == Some(UuidVersion::SortMac),
        uuid_version_num(v) == 7 ==> uuid_version_of(v) == Some(UuidVersion::SortRand),
        uuid_version_num(v) == 8 ==> uuid_version_of(v) == Some(UuidVersion::Custom),
        uuid_version_of(v) == Some(UuidVersion::Nil) <==> v == 0,
        uuid_version_of(v) == Some(UuidVersion::Max) <==> v == 0xFFFF_FFFF_FFFF_FFFF_FFFF_FFFF_FFFF_FFFFu128,
        uuid_version_of(v) is None <==> (uuid_version_num(v) == 0 && v != 0) || (9 <= uuid_version_num(v)
            && v != 0xFFFF_FFFF_FFFF_FFFF_FFFF_FFFF_FFFF_FFFFu128),
{
    assert(v == 0 ==> (v >> 76u128) & 15u128 == 0) by (bit_vector);
    assert(v == 0xFFFF_FFFF_FFFF_FFFF_FFFF_FFFF_FFFF_FFFFu128 ==> (v >> 76u128) & 15u128 == 15) by (bit_vector);
    assert((v >> 76u128) & 15u128 <= 15) by (bit_vector);
}

/// UUIDs whose version fields differ have different versions, where both have one.
pub proof fn lemma_distinct_fields_distinct_versions(v: u128, w: u128)
    requires
        uuid_version_of(v) is Some,
        uuid_version_of(w) is Some,
        uuid_version_num(v) != uuid_version_num(w),
    ensures
        uuid_version_of(v) != uuid_version_of(w),
{
    lemma_version_table(v);
    lemma_version_table(w);
}

/// The version field is the digit that opens the third group of the UUID's text.
pub proof fn lemma_version_in_text(v: u128)
    ensures
        uuid_hyphenated(v)[14] == hex_char(uuid_version_num(v) as int),
        hex_digit(uuid_hyphenated(v)[14]) == Some(uuid_version_num(v)),
{
    assert(uuid_hyphenated(v)[14] == uuid_simple(v)[12]);
    assert((v >> 76u128) & 15u128 < 16) by (bit_vector);
    lemma_hex_digit_of_char(uuid_version_num(v) as int);
}

/// Calls `uuid::Uuid::new_v4`. The value is random; claims only what the crate sets in it:
/// version 4 and the RFC 4122 variant.
#[verifier::external_body]
fn uuid_new_v4() -> (r: u128)
    ensures
        uuid_version_num(r) == 4,
        uuid_variant_bits(r) == 2,
{
    uuid::Uuid::new_v4().as_u128()
}

/// Calls `uuid::Uuid::new_v5` on the namespace and the UTF-8 bytes of `name`. Claims that the
/// result is `uuid_v5` of them, with version 5 and the RFC 4122 variant.
#[verifier::external_body]
fn uuid_new_v5(namespace: u128, name: &str) -> (r: u128)
    ensures
        r == uuid_v5(namespace, name@),
        uuid_version_num(r) == 5,
        uuid_variant_bits(r) == 2,
{
    uuid::Uuid::new_v5(&uuid::Uuid::from_u128(namespace), name.as_bytes()).as_u128()
}

/// Calls `uuid::Uuid::get_version_num`, the high nibble of the seventh byte.
#[verifier::external_body]
fn uuid_get_version_num(v: u128) -> (r: usize)
    ensures
        r == uuid_version_num(v),
{
    uuid::Uuid::from_u128(v).get_version_num()
}

/// Calls `uuid::Uuid::to_string`. Claims that the text is the hyphenated lowercase form.
#[verifier::external_body]
fn uuid_to_string(v: u128) -> (r: String)
    ensures
        r@ == uuid_hyphenated(v),
{
    uuid::Uuid::from_u128(v).to_string()
}

/// Calls `uuid::Uuid::parse_str`. Claims that it succeeds exactly where `uuid_parse` gives a
/// value, and with that value: the crate reads 32 hex digits, the hyphenated form, the
/// hyphenated form in braces or after `urn:uuid:` (in any ASCII case), with hex digits in either
/// case, and refuses any other text. The forms are all ASCII, so their lengths in bytes and in
/// characters agree.
#[verifier::external_body]
fn uuid_parse_str(s: &str) -> (r: Result<u128, uuid::Error>)
    ensures
        match r {
            Ok(v) => uuid_parse(s@) == Some(v),
            Err(_) => uuid_parse(s@) is None,
        },
{
    match uuid::Uuid::parse_str(s) {
        Ok(u) => Ok(u.as_u128()),
        Err(e) => Err(e),
    }
}

/// UUID-based identifier: a 128-bit UUID value.
#[derive(Debug, Clone, Copy, Hash)]
pub struct UuidIdentifier(u128);

impl View for UuidIdentifier {
    type V = u128;

    closed spec fn view(&self) -> u128 {
        self.0
    }
}

impl PartialEq for UuidIdentifier {
    fn eq(&self, other: &Self) -> (r: bool) {
        self.0 == other.0
    }
}

impl Eq for UuidIdentifier {}

impl vstd::std_specs::cmp::PartialEqSpecImpl for UuidIdentifier {
    open spec fn obeys_eq_spec() -> bool {
        true
    }

    open spec fn eq_spec(&self, other: &Self) -> bool {
        self@ == other@
    }
}

impl UuidIdentifier {
    /// The identifier with the given UUID value.
    pub fn from_uuid(uuid: u128) -> (r: Self)
        ensures
            r@ == uuid,
    {
        UuidIdentifier(uuid)
    }

    /// Create a new UUID v4 (random).
    pub fn new_v4() -> (r: Self)
        ensures
            uuid_version_of(r@) == Some(UuidVersion::Random),
            uuid_variant_bits(r@) == 2,
    {
        UuidIdentifier(uuid_new_v4())
    }

    /// Create a new UUID v5 (name-based, SHA-1): the same namespace and name always give the
    /// same identifier.
    pub fn new_v5(namespace: u128, name: &str) -> (r: Self)
        ensures
            r@ == uuid_v5(namespace, name@),
            uuid_version_of(r@) == Some(UuidVersion::Sha1),
            uuid_variant_bits(r@) == 2,
    {
        UuidIdentifier(uuid_new_v5(namespace, name))
    }

    /// The underlying 128-bit UUID value.
    pub fn uuid(&self) -> (r: u128)
        ensures
            r == self@,
    {
        self.0
    }

    /// The text of the UUID, owned: what displaying the identifier prints.
    pub fn to_string(&self) -> (r: String)
        ensures
            r@ == uuid_hyphenated(self@),
    {
        uuid_to_string(self.0)
    }

    /// The UUID version, where the version field names a known one.
    pub fn version(&self) -> (r: Option<UuidVersion>)
        ensures
            r == uuid_version_of(self@),
    {
        let n = uuid_get_version_num(self.0);
        if n == 0 && self.0 == 0 {
            Some(UuidVersion::Nil)
        } else if n == 1 {
            Some(UuidVersion::Mac)
        } else if n == 2 {
            Some(UuidVersion::Dce)
        } else if n == 3 {
            Some(UuidVersion::Md5)
        } else if n == 4 {
            Some(UuidVersion::Random)
        } else if n == 5 {
            Some(UuidVersion::Sha1)
        } else if n == 6 {
            Some(UuidVersion::SortMac)
        } else if n == 7 {
            Some(UuidVersion::SortRand)
        } else if n == 8 {
            Some(UuidVersion::Custom)
        } else if n == 15 && self.0 == 0xFFFF_FFFF_FFFF_FFFF_FFFF_FFFF_FFFF_FFFFu128 {
            Some(UuidVersion::Max)
        } else {
            None
        }
    }
}

/// Name-based UUIDs are deterministic: two identifiers made by `new_v5` from the same
/// namespace and name are the same identifier.
pub proof fn lemma_v5_deterministic(a: UuidIdentifier, b: UuidIdentifier, namespace: u128, name: Seq<char>)
    requires
        a@ == uuid_v5(namespace, name),
        b@ == uuid_v5(namespace, name),
    ensures
        a == b,
{
}

impl<T: Prefix> From<EntityId<T, UuidIdentifier>> for UuidIdentifier {
    fn from(entity_id: EntityId<T, UuidIdentifier>) -> (r: Self) {
        entity_id.to_identifier()
    }
}

impl<T: Prefix> vstd::std_specs::convert::FromSpecImpl<EntityId<T, UuidIdentifier>> for UuidIdentifier {
    open spec fn obeys_from_spec() -> bool {
        true
    }

    open spec fn from_spec(entity_id: EntityId<T, UuidIdentifier>) -> Self {
        entity_id.spec_identifier()
    }
}

impl<'a, T: Prefix> From<&'a EntityId<T, UuidIdentifier>> for UuidIdentifier {
    fn from(entity_id: &'a EntityId<T, UuidIdentifier>) -> (r: Self) {
        entity_id.to_identifier()
    }
}

impl<'a, T: Prefix> vstd::std_specs::convert::FromSpecImpl<&'a EntityId<T, UuidIdentifier>> for UuidIdentifier {
    open spec fn obeys_from_spec() -> bool {
        true
    }

    open spec fn from_spec(entity_id: &'a EntityId<T, UuidIdentifier>) -> Self {
        entity_id.spec_identifier()
    }
}

/// UUID-based entity IDs compare by their UUID values.
impl<T: Prefix> PartialOrd for EntityId<T, UuidIdentifier> {
    fn partial_cmp(&self, other: &Self) -> (r: Option<Ordering>) {
        let a = self.identifier().uuid();
        let b = other.identifier().uuid();
        if a < b {
            Some(Ordering::Less)
        } else if a == b {
            Some(Ordering::Equal)
        } else {
            Some(Ordering::Greater)
        }
    }
}

impl<T: Prefix> vstd::std_specs::cmp::PartialOrdSpecImpl for EntityId<T, UuidIdentifier> {
    open spec fn obeys_partial_cmp_spec() -> bool {
        true
    }

    open spec fn partial_cmp_spec(&self, other: &Self) -> Option<Ordering> {
        crate::entity_id::compare_values(self@, other@)
    }
}

/// UUID-based entity IDs compare as their 128-bit values do: `Less` exactly when the first
/// value is smaller, `Equal` exactly when the values (and so the entity IDs) are equal, `Greater`
/// exactly when it is larger; and comparing the other way round gives the opposite answer.
pub proof fn lemma_uuid_entity_order<T: Prefix>(a: EntityId<T, UuidIdentifier>, b: EntityId<T, UuidIdentifier>)
    ensures
        a.partial_cmp_spec(&b) == Some(Ordering::Less) <==> a@ < b@,
        a.partial_cmp_spec(&b) == Some(Ordering::Equal) <==> a@ == b@,
        a.partial_cmp_spec(&b) == Some(Ordering::Greater) <==> a@ > b@,
        a.partial_cmp_spec(&b) == Some(Ordering::Less) <==> b.partial_cmp_spec(&a) == Some(Ordering::Greater),
        a.partial_cmp_spec(&b) == Some(Ordering::Equal) <==> a.eq_spec(&b),
{
}

impl core::str::FromStr for UuidIdentifier {
    type Err = IdentifierError;

    fn from_str(s: &str) -> (r: Result<Self, Self::Err>)
        ensures
            match r {
                Ok(id) => uuid_parse(s@) == Some(id@),
                Err(e) => uuid_parse(s@) is None && e is Uuid,
            },
    {
        Self::parse(s)
    }
}

impl Identifier for UuidIdentifier {
    open spec fn spec_text(v: u128) -> Seq<char> {
        uuid_hyphenated(v)
    }

    open spec fn spec_parse(s: Seq<char>) -> Option<u128> {
        uuid_parse(s)
    }

    open spec fn spec_timestamp(v: u128) -> Option<u64> {
        None
    }

    /// A generated UUID is a random (version 4) UUID of the RFC 4122 variant.
    open spec fn spec_generated(v: u128) -> bool {
        uuid_version_of(v) == Some(UuidVersion::Random) && uuid_variant_bits(v) == 2
    }

    fn parse(s: &str) -> (r: Result<Self, IdentifierError>)
        ensures
            r matches Err(e) ==> e is Uuid,
    {
        match uuid_parse_str(s) {
            Ok(v) => Ok(UuidIdentifier(v)),
            Err(e) => Err(IdentifierError::from(e)),
        }
    }

    /// A random (version 4) UUID.
    fn generate() -> (r: Self)
        ensures
            uuid_version_of(r@) == Some(UuidVersion::Random),
            uuid_variant_bits(r@) == 2,
    {
        Self::new_v4()
    }

    fn as_str(&self) -> (r: String) {
        proof {
            lemma_parse_hyphenated(self.0);
        }
        uuid_to_string(self.0)
    }

    /// UUIDs carry no timestamp here.
    fn timestamp_ms(&self) -> (r: Option<u64>) {
        None
    }

    proof fn lemma_eq_by_value() {
    }
}

} // verus!
