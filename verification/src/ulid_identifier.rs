use vstd::prelude::*;

use core::cmp::Ordering;
use vstd::std_specs::cmp::{PartialEqSpec, PartialOrdSpec};

use crate::error::IdentifierError;
use crate::entity_id::EntityId;
use crate::identifier::Identifier;
use crate::prefix::Prefix;

verus! {

/// The largest timestamp, in milliseconds, that the 48 time bits of a ULID hold.
pub const ULID_MAX_TIMESTAMP: u64 = 0xFFFF_FFFF_FFFF;

/// The timestamp of a ULID: its 48 most significant bits.
pub open spec fn ulid_timestamp(v: u128) -> u64 {
    (v >> 80u128) as u64
}

/// The Base32 digit `d` (in `0..32`) as ULIDs write it: Crockford's alphabet
/// `0123456789ABCDEFGHJKMNPQRSTVWXYZ`, which leaves out `I`, `L`, `O` and `U`.
pub open spec fn crockford_char(d: int) -> char {
    if d < 10 {
        ('0' as int + d) as char
    } else if d < 18 {
        ('A' as int + (d - 10)) as char
    } else if d < 20 {
        ('J' as int + (d - 18)) as char
    } else if d < 22 {
        ('M' as int + (d - 20)) as char
    } else if d < 27 {
        ('P' as int + (d - 22)) as char
    } else {
        ('V' as int + (d - 27)) as char
    }
}

/// The value of the Base32 digit `c` when decoding a ULID: a digit of the alphabet, or the same
/// letter in lowercase; `None` for any other character.
pub open spec fn crockford_digit(c: char) -> Option<u128> {
    let n = c as int;
    if '0' as int <= n <= '9' as int {
        Some((n - '0' as int) as u128)
    } else if 'A' as int <= n <= 'H' as int {
        Some((n - 'A' as int + 10) as u128)
    } else if 'J' as int <= n <= 'K' as int {
        Some((n - 'J' as int + 18) as u128)
    } else if 'M' as int <= n <= 'N' as int {
        Some((n - 'M' as int + 20) as u128)
    } else if 'P' as int <= n <= 'T' as int {
        Some((n - 'P' as int + 22) as u128)
    } else if 'V' as int <= n <= 'Z' as int {
        Some((n - 'V' as int + 27) as u128)
    } else if 'a' as int <= n <= 'h' as int {
        Some((n - 'a' as int + 10) as u128)
    } else if 'j' as int <= n <= 'k' as int {
        Some((n - 'j' as int + 18) as u128)
    } else if 'm' as int <= n <= 'n' as int {
        Some((n - 'm' as int + 20) as u128)
    } else if 'p' as int <= n <= 't' as int {
        Some((n - 'p' as int + 22) as u128)
    } else if 'v' as int <= n <= 'z' as int {
        Some((n - 'v' as int + 27) as u128)
    } else {
        None
    }
}

/// The canonical text of a ULID: 26 Base32 digits, most significant first.
pub open spec fn ulid_text(v: u128) -> Seq<char> {
    Seq::new(26, |i: int| crockford_char(((v >> ((5 * (25 - i)) as u128)) & 31u128) as int))
}

/// The value of the Base32 digits `s`, most significant first, each shifting the value five bits
/// up; bits shifted past the top of 128 are lost.
pub open spec fn base32_value(s: Seq<char>) -> u128
    decreases s.len(),
{
    if s.len() == 0 {
        0
    } else {
        (base32_value(s.drop_last()) << 5u128) | match crockford_digit(s.last()) {
            Some(d) => d,
            None => 0,
        }
    }
}

/// What decoding `s` as a ULID gives: where `s` is 26 Base32 digits, their value, else `None`.
pub open spec fn ulid_decode(s: Seq<char>) -> Option<u128> {
    if s.len() == 26 && forall|i: int| 0 <= i < 26 ==> #[trigger] crockford_digit(s[i]) is Some {
        Some(base32_value(s))
    } else {
        None
    }
}

/// Each Base32 digit decodes to its own value.
pub proof fn lemma_digit_of_char(d: int)
    requires
        0 <= d < 32,
    ensures
        crockford_digit(crockford_char(d)) == Some(d as u128),
{
}

proof fn lemma_shift_step(v: u128, k: u128, k5: u128)
    requires
        k <= 120,
        k5 == k + 5,
    ensures
        ((v >> k5) << 5u128) | ((v >> k) & 31u128) == v >> k,
{
    assert(k <= 120 && k5 == k + 5 ==> ((v >> k5) << 5u128) | ((v >> k) & 31u128) == v >> k) by (bit_vector);
}

/// The first `n` digits of the text of `v` decode to the top `5 * n - 2` bits of `v`.
proof fn lemma_decode_text_prefix(v: u128, n: int)
    requires
        1 <= n <= 26,
    ensures
        base32_value(ulid_text(v).take(n)) == v >> ((5 * (26 - n)) as u128),
    decreases n,
{
    let t = ulid_text(v).take(n);
    assert(t.drop_last() =~= ulid_text(v).take(n - 1));
    let k: u128 = (5 * (26 - n)) as u128;
    let digit: u128 = (v >> k) & 31u128;
    assert(digit < 32) by (bit_vector)
        requires
            digit == (v >> k) & 31u128,
    ;
    assert(t.last() == crockford_char(digit as int));
    lemma_digit_of_char(digit as int);
    assert(base32_value(t) == (base32_value(ulid_text(v).take(n - 1)) << 5u128) | digit);
    if n == 1 {
        assert(ulid_text(v).take(0) =~= Seq::<char>::empty());
        assert(k == 125);
        assert((0u128 << 5u128) | ((v >> 125u128) & 31u128) == v >> 125u128) by (bit_vector);
    } else {
        lemma_decode_text_prefix(v, n - 1);
        lemma_shift_step(v, k, (5 * (27 - n)) as u128);
    }
}

/// Decoding the text of a ULID gives the ULID back.
pub proof fn lemma_decode_text(v: u128)
    ensures
        ulid_decode(ulid_text(v)) == Some(v),
{
    let t = ulid_text(v);
    assert forall|i: int| 0 <= i < 26 implies #[trigger] crockford_digit(t[i]) is Some by {
        let k: u128 = (5 * (25 - i)) as u128;
        let digit: u128 = (v >> k) & 31u128;
        assert(digit < 32) by (bit_vector)
            requires
                digit == (v >> k) & 31u128,
        ;
        lemma_digit_of_char(digit as int);
    }
    lemma_decode_text_prefix(v, 26);
    assert(t.take(26) =~= t);
    assert(v >> 0u128 == v) by (bit_vector);
}

/// Calls `ulid::Ulid::timestamp_ms`, which returns the 48 time bits of the ULID.
#[verifier::external_body]
fn ulid_timestamp_ms(v: u128) -> (r: u64)
    ensures
        r == ulid_timestamp(v),
{
    ulid::Ulid(v).timestamp_ms()
}

/// Calls `ulid::Ulid::new`: the current time and random bits. Nothing is claimed of the value.
#[verifier::external_body]
fn ulid_new() -> (r: u128) {
    ulid::Ulid::new().0
}

/// Calls `ulid::Ulid::from_datetime` at `ms` milliseconds after the Unix epoch. Claims that
/// the time bits of the result are the low 48 bits of `ms` (the crate masks them); the other
/// 80 bits are random and nothing is claimed of them. `ms` is at most 2^48, some 8900 years
/// after the epoch, a time that every platform's `SystemTime` holds.
#[verifier::external_body]
fn ulid_from_millis(ms: u64) -> (r: u128)
    requires
        ms <= ULID_MAX_TIMESTAMP + 1,
    ensures
        ulid_timestamp(r) == ms & ULID_MAX_TIMESTAMP,
{
    ulid::Ulid::from_datetime(std::time::UNIX_EPOCH + std::time::Duration::from_millis(ms)).0
}

/// Calls `ulid::Ulid::to_string`. Claims that the text is the 26-digit Crockford Base32
/// encoding.
#[verifier::external_body]
fn ulid_to_string(v: u128) -> (r: String)
    ensures
        r@ == ulid_text(v),
{
    ulid::Ulid(v).to_string()
}

/// Calls `ulid::Ulid::from_string`. Claims that it succeeds exactly where `ulid_decode` gives a
/// value, and with that value: the crate refuses a text whose length in bytes is not 26, or
/// which holds a byte outside the alphabet (upper or lower case), and otherwise shifts the digits
/// in five bits at a time. A text of 26 digits is 26 bytes, as the digits are ASCII.
#[verifier::external_body]
fn ulid_from_string(s: &str) -> (r: Result<u128, ulid::DecodeError>)
    ensures
        match r {
            Ok(v) => ulid_decode(s@) == Some(v),
            Err(_) => ulid_decode(s@) is None,
        },
{
    match ulid::Ulid::from_string(s) {
        Ok(u) => Ok(u.0),
        Err(e) => Err(e),
    }
}

/// ULID-based identifier: a 128-bit ULID value.
#[derive(Debug, Clone, Copy, Hash)]
pub struct UlidIdentifier(u128);

impl View for UlidIdentifier {
    type V = u128;

    closed spec fn view(&self) -> u128 {
        self.0
    }
}

impl PartialEq for UlidIdentifier {
    fn eq(&self, other: &Self) -> (r: bool) {
        self.0 == other.0
    }
}

impl Eq for UlidIdentifier {}

impl vstd::std_specs::cmp::PartialEqSpecImpl for UlidIdentifier {
    open spec fn obeys_eq_spec() -> bool {
        true
    }

    open spec fn eq_spec(&self, other: &Self) -> bool {
        self@ == other@
    }
}

impl UlidIdentifier {
    /// The identifier with the given ULID value.
    pub fn from_ulid(ulid: u128) -> (r: Self)
        ensures
            r@ == ulid,
    {
        UlidIdentifier(ulid)
    }

    /// Create a new ULID (current time, random bits).
    pub fn new() -> (r: Self) {
        UlidIdentifier(ulid_new())
    }

    /// Create a ULID with a specific timestamp; the other bits are random. Timestamps beyond
    /// 48 bits keep their low 48 bits: only those reach the ULID, so only those are turned into
    /// a time.
    pub fn with_timestamp(timestamp_ms: u64) -> (r: Self)
        ensures
            ulid_timestamp(r@) == timestamp_ms & ULID_MAX_TIMESTAMP,
    {
        let time_bits = timestamp_ms & ULID_MAX_TIMESTAMP;
        assert(timestamp_ms & 0xFFFF_FFFF_FFFFu64 <= 0xFFFF_FFFF_FFFFu64) by (bit_vector);
        assert((timestamp_ms & 0xFFFF_FFFF_FFFFu64) & 0xFFFF_FFFF_FFFFu64 == timestamp_ms & 0xFFFF_FFFF_FFFFu64)
            by (bit_vector);
        UlidIdentifier(ulid_from_millis(time_bits))
    }

    /// The underlying 128-bit ULID value.
    pub fn ulid(&self) -> (r: u128)
        ensures
            r == self@,
    {
        self.0
    }

    /// The text of the ULID, owned: what displaying the identifier prints.
    pub fn to_string(&self) -> (r: String)
        ensures
            r@ == ulid_text(self@),
    {
        ulid_to_string(self.0)
    }

    /// The timestamp in milliseconds.
    pub fn get_timestamp_ms(&self) -> (r: u64)
        ensures
            r == ulid_timestamp(self@),
            r <= ULID_MAX_TIMESTAMP,
    {
        let v: u128 = self.0;
        assert(v >> 80u128 <= 0xFFFF_FFFF_FFFFu128) by (bit_vector);
        ulid_timestamp_ms(v)
    }

    /// Order `candidate` after `previous`: `candidate` itself where its timestamp is later than
    /// that of `previous`, else a ULID one millisecond after `previous` with fresh random bits.
    pub fn monotonic_after(previous: &Self, candidate: Self) -> (r: Self)
        ensures
            ulid_timestamp(candidate@) > ulid_timestamp(previous@) ==> r@ == candidate@,
            ulid_timestamp(candidate@) <= ulid_timestamp(previous@) ==> ulid_timestamp(r@) == ((
            ulid_timestamp(previous@) + 1) as u64) & ULID_MAX_TIMESTAMP,
    {
        let prev_ms = previous.get_timestamp_ms();
        let new_ms = candidate.get_timestamp_ms();
        if new_ms <= prev_ms {
            UlidIdentifier(ulid_from_millis(prev_ms + 1))
        } else {
            candidate
        }
    }

    /// Create a monotonic ULID based on a previous one: its timestamp is later than that of
    /// `previous`, unless `previous` has the largest timestamp there is.
    pub fn monotonic_from(previous: Option<&Self>) -> (r: Self)
        ensures
            previous matches Some(p) ==> {
                &&& ulid_timestamp(p@) < ULID_MAX_TIMESTAMP ==> ulid_timestamp(r@) > ulid_timestamp(p@)
                    && r@ > p@
                &&& ulid_timestamp(p@) == ULID_MAX_TIMESTAMP ==> ulid_timestamp(r@) == 0
            },
    {
        match previous {
            Some(prev) => {
                let fresh = Self::new();
                let r = Self::monotonic_after(prev, fresh);
                proof {
                    lemma_later_timestamp_is_greater(prev@, r@);
                    lemma_timestamp_bits(prev@);
                    lemma_timestamp_bits(fresh@);
                    lemma_mask_below_max(ulid_timestamp(prev@));
                }
                r
            },
            None => Self::new(),
        }
    }
}

/// The timestamp of a ULID is its top 48 bits, and fits in them.
pub proof fn lemma_timestamp_bits(v: u128)
    ensures
        ulid_timestamp(v) as u128 == v >> 80u128,
        ulid_timestamp(v) <= ULID_MAX_TIMESTAMP,
{
    assert(v >> 80u128 <= 0xFFFF_FFFF_FFFFu128) by (bit_vector);
}

/// A ULID with a later timestamp has a greater value.
pub proof fn lemma_later_timestamp_is_greater(a: u128, b: u128)
    ensures
        ulid_timestamp(b) > ulid_timestamp(a) ==> b > a,
{
    lemma_timestamp_bits(a);
    lemma_timestamp_bits(b);
    assert((b >> 80u128) > (a >> 80u128) ==> b > a) by (bit_vector);
}

/// A timestamp that fits in 48 bits is kept whole by `with_timestamp`.
pub proof fn lemma_timestamp_kept(timestamp_ms: u64)
    requires
        timestamp_ms <= ULID_MAX_TIMESTAMP,
    ensures
        timestamp_ms & ULID_MAX_TIMESTAMP == timestamp_ms,
{
    assert(timestamp_ms <= 0xFFFF_FFFF_FFFFu64 ==> timestamp_ms & 0xFFFF_FFFF_FFFFu64 == timestamp_ms) by (bit_vector);
}

proof fn lemma_mask_below_max(t: u64)
    requires
        t <= ULID_MAX_TIMESTAMP,
    ensures
        t < ULID_MAX_TIMESTAMP ==> ((t + 1) as u64) & ULID_MAX_TIMESTAMP == t + 1,
        t == ULID_MAX_TIMESTAMP ==> ((t + 1) as u64) & ULID_MAX_TIMESTAMP == 0,
{
    assert(t <= 0xFFFF_FFFF_FFFFu64 && t < 0xFFFF_FFFF_FFFFu64 ==> ((t + 1) as u64) & 0xFFFF_FFFF_FFFFu64 == t + 1) by (bit_vector);
    assert(t == 0xFFFF_FFFF_FFFFu64 ==> ((t + 1) as u64) & 0xFFFF_FFFF_FFFFu64 == 0) by (bit_vector);
}

impl Default for UlidIdentifier {
    /// A new ULID (current time, random bits).
    fn default() -> (r: Self) {
        Self::new()
    }
}

impl<T: Prefix> From<EntityId<T, UlidIdentifier>> for UlidIdentifier {
    fn from(entity_id: EntityId<T, UlidIdentifier>) -> (r: Self) {
        entity_id.to_identifier()
    }
}

impl<T: Prefix> vstd::std_specs::convert::FromSpecImpl<EntityId<T, UlidIdentifier>> for UlidIdentifier {
    open spec fn obeys_from_spec() -> bool {
        true
    }

    open spec fn from_spec(entity_id: EntityId<T, UlidIdentifier>) -> Self {
        entity_id.spec_identifier()
    }
}

impl<'a, T: Prefix> From<&'a EntityId<T, UlidIdentifier>> for UlidIdentifier {
    fn from(entity_id: &'a EntityId<T, UlidIdentifier>) -> (r: Self) {
        entity_id.to_identifier()
    }
}

impl<'a, T: Prefix> vstd::std_specs::convert::FromSpecImpl<&'a EntityId<T, UlidIdentifier>> for UlidIdentifier {
    open spec fn obeys_from_spec() -> bool {
        true
    }

    open spec fn from_spec(entity_id: &'a EntityId<T, UlidIdentifier>) -> Self {
        entity_id.spec_identifier()
    }
}

/// ULID-based entity IDs compare by their ULID values, so they sort by creation time.
impl<T: Prefix> PartialOrd for EntityId<T, UlidIdentifier> {
    fn partial_cmp(&self, other: &Self) -> (r: Option<Ordering>) {
        let a = self.identifier().ulid();
        let b = other.identifier().ulid();
        if a < b {
            Some(Ordering::Less)
        } else if a == b {
            Some(Ordering::Equal)
        } else {
            Some(Ordering::Greater)
        }
    }
}

impl<T: Prefix> vstd::std_specs::cmp::PartialOrdSpecImpl for EntityId<T, UlidIdentifier> {
    open spec fn obeys_partial_cmp_spec() -> bool {
        true
    }

    open spec fn partial_cmp_spec(&self, other: &Self) -> Option<Ordering> {
        crate::entity_id::compare_values(self@, other@)
    }
}

/// ULID-based entity IDs compare as their 128-bit values do: `Less` exactly when the first
/// value is smaller, `Equal` exactly when the values (and so the entity IDs) are equal, `Greater`
/// exactly when it is larger; and comparing the other way round gives the opposite answer.
pub proof fn lemma_ulid_entity_order<T: Prefix>(a: EntityId<T, UlidIdentifier>, b: EntityId<T, UlidIdentifier>)
    ensures
        a.partial_cmp_spec(&b) == Some(Ordering::Less) <==> a@ < b@,
        a.partial_cmp_spec(&b) == Some(Ordering::Equal) <==> a@ == b@,
        a.partial_cmp_spec(&b) == Some(Ordering::Greater) <==> a@ > b@,
        a.partial_cmp_spec(&b) == Some(Ordering::Less) <==> b.partial_cmp_spec(&a) == Some(Ordering::Greater),
        a.partial_cmp_spec(&b) == Some(Ordering::Equal) <==> a.eq_spec(&b),
{
}

impl core::str::FromStr for UlidIdentifier {
    type Err = IdentifierError;

    fn from_str(s: &str) -> (r: Result<Self, Self::Err>)
        ensures
            match r {
                Ok(id) => ulid_decode(s@) == Some(id@),
                Err(e) => ulid_decode(s@) is None && e is Ulid,
            },
    {
        Self::parse(s)
    }
}

impl Identifier for UlidIdentifier {
    open spec fn spec_text(v: u128) -> Seq<char> {
        ulid_text(v)
    }

    open spec fn spec_parse(s: Seq<char>) -> Option<u128> {
        ulid_decode(s)
    }

    open spec fn spec_timestamp(v: u128) -> Option<u64> {
        Some(ulid_timestamp(v))
    }

    /// A generated ULID holds the current time and random bits: every value can come out.
    open spec fn spec_generated(v: u128) -> bool {
        true
    }

    fn parse(s: &str) -> (r: Result<Self, IdentifierError>)
        ensures
            r matches Err(e) ==> e is Ulid,
    {
        match ulid_from_string(s) {
            Ok(v) => Ok(UlidIdentifier(v)),
            Err(e) => Err(IdentifierError::from(e)),
        }
    }

    fn generate() -> Self {
        Self::new()
    }

    fn as_str(&self) -> (r: String) {
        proof {
            lemma_decode_text(self.0);
        }
        ulid_to_string(self.0)
    }

    fn timestamp_ms(&self) -> (r: Option<u64>) {
        Some(self.get_timestamp_ms())
    }

    proof fn lemma_eq_by_value() {
    }
}

} // verus!
