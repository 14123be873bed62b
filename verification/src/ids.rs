//! Identifiers and timestamps that the server passes around: MongoDB object
//! ids, millisecond timestamps and UUIDs, with their textual forms.

use vstd::prelude::*;

verus! {

/// A MongoDB object id: twelve raw bytes.
#[derive(Clone, Copy, Debug)]
pub struct ObjectId {
    pub bytes: [u8; 12],
}

/// A BSON date: milliseconds since the Unix epoch.
#[derive(Clone, Copy, Debug, PartialEq, Eq, Structural)]
pub struct DateTime {
    pub timestamp_millis: i64,
}

/// A UUID: sixteen raw bytes, most significant first.
#[derive(Clone, Copy, Debug)]
pub struct Uuid {
    pub bytes: [u8; 16],
}

/// Why a string could not be read as an object id.
#[derive(Clone, Copy, Debug, PartialEq, Eq, Structural)]
pub enum IdParseError {
    /// The string is not 24 hexadecimal digits.
    InvalidHex,
}

/// Compares two byte arrays of equal length element by element.
fn bytes_equal<const N: usize>(a: &[u8; N], b: &[u8; N]) -> (r: bool)
    ensures
        r == (a@ == b@),
{
    let mut i: usize = 0;
    while i < N
        invariant
            0 <= i <= N,
            a@.len() == N,
            b@.len() == N,
            forall|j: int| 0 <= j < i ==> a@[j] == b@[j],
        decreases N - i,
    {
        if a[i] != b[i] {
            assert(a@[i as int] != b@[i as int]);
            return false;
        }
        i = i + 1;
    }
    assert(a@ =~= b@);
    true
}

impl ObjectId {
    /// Whether two object ids hold the same bytes.
    pub fn same(&self, other: &ObjectId) -> (r: bool)
        ensures
            r == (self.bytes@ == other.bytes@),
            r == (*self == *other),
    {
        let r = bytes_equal(&self.bytes, &other.bytes);
        proof {
            if self.bytes@ == other.bytes@ {
                vstd::array::axiom_array_ext_equal(self.bytes, other.bytes);
            }
        }
        r
    }
}

impl Uuid {
    /// Whether two UUIDs hold the same bytes.
    pub fn same(&self, other: &Uuid) -> (r: bool)
        ensures
            r == (self.bytes@ == other.bytes@),
            r == (*self == *other),
    {
        let r = bytes_equal(&self.bytes, &other.bytes);
        proof {
            if self.bytes@ == other.bytes@ {
                vstd::array::axiom_array_ext_equal(self.bytes, other.bytes);
            }
        }
        r
    }
}

/// The lower-case hexadecimal digit of a value below 16.
pub open spec fn hex_digit(n: int) -> char {
    seq!['0', '1', '2', '3', '4', '5', '6', '7', '8', '9', 'a', 'b', 'c', 'd', 'e', 'f'][n]
}

/// Two lower-case hexadecimal digits per byte, high half first.
pub open spec fn hex_of_bytes(b: Seq<u8>) -> Seq<char> {
    Seq::new(
        2 * b.len(),
        |i: int|
            if i % 2 == 0 {
                hex_digit((b[i / 2] / 16) as int)
            } else {
                hex_digit((b[i / 2] % 16) as int)
            },
    )
}

/// Whether a character is a hexadecimal digit of either case.
pub open spec fn is_hex_char(c: char) -> bool {
    ('0' <= c && c <= '9') || ('a' <= c && c <= 'f') || ('A' <= c && c <= 'F')
}

/// The value of a hexadecimal digit of either case.
pub open spec fn hex_value(c: char) -> int {
    if '0' <= c && c <= '9' {
        c as int - '0' as int
    } else if 'a' <= c && c <= 'f' {
        c as int - 'a' as int + 10
    } else {
        c as int - 'A' as int + 10
    }
}

/// The bytes that a string of hexadecimal digit pairs spells.
pub open spec fn bytes_of_hex(s: Seq<char>) -> Seq<u8> {
    Seq::new(s.len() / 2, |i: int| (hex_value(s[2 * i]) * 16 + hex_value(s[2 * i + 1])) as u8)
}

/// Whether a string is the text of an object id: exactly 24 hexadecimal digits.
pub open spec fn is_object_id_text(s: Seq<char>) -> bool {
    &&& s.len() == 24
    &&& forall|i: int| 0 <= i < s.len() ==> is_hex_char(#[trigger] s[i])
}

/// The text form of an object id: its 24 lower-case hexadecimal digits.
pub open spec fn object_id_text(id: ObjectId) -> Seq<char> {
    hex_of_bytes(id.bytes@)
}

/// The canonical text form of a UUID: lower-case hexadecimal digits in groups
/// of 8, 4, 4, 4 and 12, joined by hyphens.
pub open spec fn uuid_text(u: Uuid) -> Seq<char> {
    let b = u.bytes@;
    hex_of_bytes(b.subrange(0, 4)) + seq!['-'] + hex_of_bytes(b.subrange(4, 6)) + seq!['-']
        + hex_of_bytes(b.subrange(6, 8)) + seq!['-'] + hex_of_bytes(b.subrange(8, 10)) + seq![
        '-',
    ] + hex_of_bytes(b.subrange(10, 16))
}

/// Whether every character is a hexadecimal digit.
pub open spec fn all_hex(s: Seq<char>) -> bool {
    forall|i: int| 0 <= i < s.len() ==> is_hex_char(#[trigger] s[i])
}

/// The digits of a hyphenated UUID text: all but the characters at 8, 13,
/// 18 and 23.
pub open spec fn hyphenated_digits(s: Seq<char>) -> Seq<char> {
    s.subrange(0, 8) + s.subrange(9, 13) + s.subrange(14, 18) + s.subrange(19, 23) + s.subrange(
        24,
        36,
    )
}

/// Whether a string is a hyphenated UUID text: 36 characters, hyphens at
/// 8, 13, 18 and 23 and hexadecimal digits of either case elsewhere.
pub open spec fn is_hyphenated_uuid_text(s: Seq<char>) -> bool {
    &&& s.len() == 36
    &&& s[8] == '-' && s[13] == '-' && s[18] == '-' && s[23] == '-'
    &&& all_hex(hyphenated_digits(s))
}

/// A character with an ASCII capital turned into its small letter.
pub open spec fn ascii_lower(c: char) -> char {
    if 'A' <= c && c <= 'Z' {
        ((c as int) + 32) as char
    } else {
        c
    }
}

/// Whether nine characters spell `urn:uuid:` in any case.
pub open spec fn is_urn_prefix(p: Seq<char>) -> bool {
    &&& p.len() == 9
    &&& forall|i: int|
        0 <= i < 9 ==> ascii_lower(#[trigger] p[i]) == seq!['u', 'r', 'n', ':', 'u', 'u', 'i', 'd', ':'][i]
}

/// What `uuid::Uuid::parse_str` reads from a string, as its documentation
/// lists the forms: 32 hexadecimal digits; the hyphenated form; the
/// hyphenated form in braces; or `urn:uuid:` in any case followed by the
/// hyphenated form. Digits may be of either case. `None` for anything else.
pub open spec fn uuid_parse_outcome(s: Seq<char>) -> Option<Seq<u8>> {
    if s.len() == 32 && all_hex(s) {
        Some(bytes_of_hex(s))
    } else if is_hyphenated_uuid_text(s) {
        Some(bytes_of_hex(hyphenated_digits(s)))
    } else if s.len() == 38 && s[0] == '{' && s[37] == '}' && is_hyphenated_uuid_text(
        s.subrange(1, 37),
    ) {
        Some(bytes_of_hex(hyphenated_digits(s.subrange(1, 37))))
    } else if s.len() == 45 && is_urn_prefix(s.subrange(0, 9)) && is_hyphenated_uuid_text(
        s.subrange(9, 45),
    ) {
        Some(bytes_of_hex(hyphenated_digits(s.subrange(9, 45))))
    } else {
        None
    }
}

#[verifier::external_type_specification]
#[verifier::external_body]
pub struct ExOidError(bson::oid::Error);

#[verifier::external_type_specification]
#[verifier::external_body]
pub struct ExUuidError(uuid::Error);

/// Calls `bson::oid::ObjectId::to_hex`, which hex-encodes the twelve bytes
/// with lower-case digits (`hex::encode`).
#[verifier::external_body]
fn bson_object_id_to_hex(id: &ObjectId) -> (r: String)
    ensures
        r@ == object_id_text(*id),
{
    bson::oid::ObjectId::from_bytes(id.bytes).to_hex()
}

/// Calls `bson::oid::ObjectId::parse_str`, which hex-decodes the string
/// (either case) and succeeds exactly when that gives twelve bytes.
#[verifier::external_body]
fn bson_parse_object_id(s: &str) -> (r: Result<ObjectId, bson::oid::Error>)
    ensures
        r is Ok <==> is_object_id_text(s@),
        r matches Ok(id) ==> id.bytes@ == bytes_of_hex(s@),
{
    match bson::oid::ObjectId::parse_str(s) {
        Ok(id) => Ok(ObjectId { bytes: id.bytes() }),
        Err(e) => Err(e),
    }
}

/// Calls `bson::DateTime::now`, the current time of the system clock; nothing
/// is known of the value.
#[verifier::external_body]
fn bson_datetime_now() -> (r: DateTime) {
    DateTime { timestamp_millis: bson::DateTime::now().timestamp_millis() }
}

/// Calls `uuid::Uuid::new_v4`: random bytes except for the version nibble
/// (4) and the variant bits (binary 10).
#[verifier::external_body]
fn uuid_new_v4() -> (r: Uuid)
    ensures
        r.bytes@[6] / 16 == 4,
        r.bytes@[8] / 64 == 2,
{
    Uuid { bytes: *uuid::Uuid::new_v4().as_bytes() }
}

/// Calls `uuid::Uuid::to_string`, the hyphenated lower-case form.
#[verifier::external_body]
fn uuid_to_string(u: &Uuid) -> (r: String)
    ensures
        r@ == uuid_text(*u),
{
    uuid::Uuid::from_bytes(u.bytes).to_string()
}

/// Calls `uuid::Uuid::parse_str`, which reads the forms that
/// `uuid_parse_outcome` describes.
#[verifier::external_body]
fn uuid_parse_str(s: &str) -> (r: Result<Uuid, uuid::Error>)
    ensures
        r is Ok <==> uuid_parse_outcome(s@) is Some,
        r matches Ok(u) ==> uuid_parse_outcome(s@) == Some(u.bytes@),
{
    match uuid::Uuid::parse_str(s) {
        Ok(u) => Ok(Uuid { bytes: *u.as_bytes() }),
        Err(e) => Err(e),
    }
}

/// Calls `chrono::Utc::now().timestamp()`, the whole seconds since the Unix
/// epoch on the system clock. chrono builds it from the time elapsed since
/// the epoch (and stops on a clock set before it), so it is never negative;
/// nothing more is known of the value.
#[verifier::external_body]
fn chrono_unix_now() -> (r: i64)
    ensures
        r >= 0,
{
    chrono::Utc::now().timestamp()
}

/// The 24-digit lower-case hexadecimal text of an object id.
pub fn object_id_to_hex(id: &ObjectId) -> (r: String)
    ensures
        r@ == object_id_text(*id),
        r@.len() == 24,
{
    bson_object_id_to_hex(id)
}

/// Reads an object id from its text; fails unless the text is exactly 24
/// hexadecimal digits.
pub fn parse_object_id(s: &str) -> (r: Result<ObjectId, IdParseError>)
    ensures
        r is Ok <==> is_object_id_text(s@),
        r matches Ok(id) ==> id.bytes@ == bytes_of_hex(s@),
        r matches Err(e) ==> e == IdParseError::InvalidHex,
{
    match bson_parse_object_id(s) {
        Ok(id) => Ok(id),
        Err(_) => Err(IdParseError::InvalidHex),
    }
}

/// The current time as a BSON date.
pub fn now() -> (r: DateTime) {
    bson_datetime_now()
}

/// The current time in whole seconds since the Unix epoch.
pub fn unix_now_secs() -> (r: i64)
    ensures
        r >= 0,
{
    chrono_unix_now()
}

/// A fresh random (version 4) UUID.
pub fn new_uuid() -> (r: Uuid)
    ensures
        r.bytes@[6] / 16 == 4,
        r.bytes@[8] / 64 == 2,
{
    uuid_new_v4()
}

/// The hyphenated lower-case text of a UUID.
pub fn uuid_string(u: &Uuid) -> (r: String)
    ensures
        r@ == uuid_text(*u),
        r@.len() == 36,
        uuid_parse_outcome(r@) == Some(u.bytes@),
{
    proof {
        lemma_uuid_text_roundtrip(*u);
    }
    uuid_to_string(u)
}

/// Reads a UUID from text, as the `uuid` crate's parser does.
pub fn parse_uuid(s: &str) -> (r: Option<Uuid>)
    ensures
        r is Some <==> uuid_parse_outcome(s@) is Some,
        r matches Some(u) ==> uuid_parse_outcome(s@) == Some(u.bytes@),
{
    match uuid_parse_str(s) {
        Ok(u) => Some(u),
        Err(_) => None,
    }
}

/// Every hexadecimal digit that `hex_digit` writes is read back by `hex_value`.
proof fn lemma_hex_digit_roundtrip(n: int)
    requires
        0 <= n < 16,
    ensures
        is_hex_char(hex_digit(n)),
        hex_value(hex_digit(n)) == n,
{
    let d = seq!['0', '1', '2', '3', '4', '5', '6', '7', '8', '9', 'a', 'b', 'c', 'd', 'e', 'f'];
    assert(hex_digit(n) == d[n]);
}

/// The text of an object id is read back as the same object id: parsing
/// undoes printing.
pub proof fn lemma_object_id_text_roundtrip(id: ObjectId)
    ensures
        is_object_id_text(object_id_text(id)),
        bytes_of_hex(object_id_text(id)) == id.bytes@,
{
    lemma_hex_roundtrip(id.bytes@);
}

/// Hexadecimal text is read back as the bytes it was written from.
proof fn lemma_hex_roundtrip(b: Seq<u8>)
    ensures
        all_hex(hex_of_bytes(b)),
        bytes_of_hex(hex_of_bytes(b)) == b,
{
    let s = hex_of_bytes(b);
    assert forall|i: int| 0 <= i < s.len() implies is_hex_char(#[trigger] s[i]) by {
        if i % 2 == 0 {
            lemma_hex_digit_roundtrip((b[i / 2] / 16) as int);
        } else {
            lemma_hex_digit_roundtrip((b[i / 2] % 16) as int);
        }
    }
    assert forall|i: int| 0 <= i < b.len() implies #[trigger] bytes_of_hex(s)[i] == b[i] by {
        lemma_hex_digit_roundtrip((b[i] / 16) as int);
        lemma_hex_digit_roundtrip((b[i] % 16) as int);
        assert(s[2 * i] == hex_digit((b[i] / 16) as int));
        assert(s[2 * i + 1] == hex_digit((b[i] % 16) as int));
    }
    assert(bytes_of_hex(s) =~= b);
}

/// The hexadecimal text of a slice of bytes is the matching slice of the
/// text of all of them.
proof fn lemma_hex_of_subrange(b: Seq<u8>, x: int, y: int)
    requires
        0 <= x <= y <= b.len(),
    ensures
        hex_of_bytes(b.subrange(x, y)) == hex_of_bytes(b).subrange(2 * x, 2 * y),
{
    let h = hex_of_bytes(b);
    let g = hex_of_bytes(b.subrange(x, y));
    assert forall|i: int| 0 <= i < g.len() implies #[trigger] g[i] == h.subrange(2 * x, 2 * y)[i] by {
        assert((2 * x + i) / 2 == x + i / 2);
        assert((2 * x + i) % 2 == i % 2);
    }
    assert(g =~= h.subrange(2 * x, 2 * y));
}

/// The text of a UUID is read back as the same UUID.
pub proof fn lemma_uuid_text_roundtrip(u: Uuid)
    ensures
        uuid_parse_outcome(uuid_text(u)) == Some(u.bytes@),
{
    let b = u.bytes@;
    let h = hex_of_bytes(b);
    let s = uuid_text(u);
    lemma_hex_of_subrange(b, 0, 4);
    lemma_hex_of_subrange(b, 4, 6);
    lemma_hex_of_subrange(b, 6, 8);
    lemma_hex_of_subrange(b, 8, 10);
    lemma_hex_of_subrange(b, 10, 16);
    lemma_hex_roundtrip(b);
    assert(s.len() == 36);
    assert(hyphenated_digits(s) =~= h);
    assert(!(s.len() == 32));
}

/// Two object ids print to the same text only when they are the same id.
pub proof fn lemma_object_id_text_injective(a: ObjectId, b: ObjectId)
    requires
        object_id_text(a) == object_id_text(b),
    ensures
        a == b,
{
    lemma_object_id_text_roundtrip(a);
    lemma_object_id_text_roundtrip(b);
    vstd::array::axiom_array_ext_equal(a.bytes, b.bytes);
}

} // verus!
