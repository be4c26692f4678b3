//! The calls into the `uuid` crate, each with the contract that the rest of
//! the library relies on. These contracts are taken from the crate's source
//! and are not proved here.
//!
//! The versions 1, 6 and 7 read the system clock, and the versions 1, 4, 6
//! and 7 the operating system's random source. `uuid` panics where the clock
//! stands before 1970 or the random source fails; nothing here guards
//! against either.

use crate::identifier::{has_standard_variant, version_of};
use crate::text::{braced_text, hyphenated_text, parsed_identifier, simple_text, urn_text};
use vstd::prelude::*;
use vstd::utf8::encode_utf8;

verus! {

/// The error that `uuid` gives for a text that is no identifier.
#[verifier::external_type_specification]
#[verifier::external_body]
pub struct ExParseError(uuid::Error);

/// The bytes of the version 3 identifier for a name within a namespace: the
/// MD5 digest of the namespace bytes followed by the name, with the version
/// and variant fields set.
pub uninterp spec fn md5_identifier(namespace: Seq<u8>, name: Seq<u8>) -> Seq<u8>;

/// The bytes of the version 5 identifier for a name within a namespace: the
/// first sixteen bytes of the SHA-1 digest of the namespace bytes followed by
/// the name, with the version and variant fields set.
pub uninterp spec fn sha1_identifier(namespace: Seq<u8>, name: Seq<u8>) -> Seq<u8>;

/// Sixteen bytes with the version field set to 8 and the variant field to
/// `10`, every other bit kept.
pub open spec fn custom_layout(buf: Seq<u8>) -> Seq<u8>
    recommends
        buf.len() == 16,
{
    buf.update(6, (buf[6] % 16 + 128) as u8).update(8, (buf[8] % 64 + 128) as u8)
}

/// One of the four namespaces that the standard fixes. They differ in the
/// fourth byte only.
pub open spec fn well_known_namespace(kind: u8) -> Seq<u8> {
    seq![
        0x6b, 0xa7, 0xb8, kind, 0x9d, 0xad, 0x11, 0xd1, 0x80, 0xb4, 0x00, 0xc0, 0x4f, 0xd4, 0x30, 0xc8,
    ]
}

/// `uuid::Uuid::NAMESPACE_DNS`: the namespace of domain names.
#[verifier::external_body]
pub(crate) fn dns_namespace() -> (bytes: [u8; 16])
    ensures
        bytes@ == well_known_namespace(0x10),
{
    uuid::Uuid::NAMESPACE_DNS.into_bytes()
}

/// `uuid::Uuid::NAMESPACE_URL`: the namespace of URLs.
#[verifier::external_body]
pub(crate) fn url_namespace() -> (bytes: [u8; 16])
    ensures
        bytes@ == well_known_namespace(0x11),
{
    uuid::Uuid::NAMESPACE_URL.into_bytes()
}

/// `uuid::Uuid::NAMESPACE_OID`: the namespace of ISO object identifiers.
#[verifier::external_body]
pub(crate) fn oid_namespace() -> (bytes: [u8; 16])
    ensures
        bytes@ == well_known_namespace(0x12),
{
    uuid::Uuid::NAMESPACE_OID.into_bytes()
}

/// `uuid::Uuid::NAMESPACE_X500`: the namespace of X.500 distinguished names.
#[verifier::external_body]
pub(crate) fn x500_namespace() -> (bytes: [u8; 16])
    ensures
        bytes@ == well_known_namespace(0x14),
{
    uuid::Uuid::NAMESPACE_X500.into_bytes()
}

/// `uuid::Uuid::new_v4`: 128 bits from the operating system's random source,
/// of which the version field is then set to 4 and the variant field to `10`.
/// Nothing else is known of the bits.
#[verifier::external_body]
pub(crate) fn random_identifier() -> (bytes: [u8; 16])
    ensures
        version_of(bytes@) == 4,
        has_standard_variant(bytes@),
{
    uuid::Uuid::new_v4().into_bytes()
}

/// `uuid::Uuid::now_v7`: the time in milliseconds, a counter and random bits,
/// laid out with version 7 and variant `10`. Nothing is claimed here of how
/// one result stands to another.
#[verifier::external_body]
pub(crate) fn sortable_random_identifier() -> (bytes: [u8; 16])
    ensures
        version_of(bytes@) == 7,
        has_standard_variant(bytes@),
{
    uuid::Uuid::now_v7().into_bytes()
}

/// `uuid::Uuid::now_v1`: the current time and a clock sequence, laid out with
/// version 1 and variant `10`; the node id fills the last six bytes.
#[verifier::external_body]
pub(crate) fn time_identifier(node_id: &[u8; 6]) -> (bytes: [u8; 16])
    ensures
        version_of(bytes@) == 1,
        has_standard_variant(bytes@),
        bytes@.subrange(10, 16) == node_id@,
{
    uuid::Uuid::now_v1(node_id).into_bytes()
}

/// `uuid::Uuid::now_v6`: as version 1 with the time fields reordered so that
/// identifiers sort by time; version 6, variant `10`, the node id in the last
/// six bytes.
#[verifier::external_body]
pub(crate) fn sortable_time_identifier(node_id: &[u8; 6]) -> (bytes: [u8; 16])
    ensures
        version_of(bytes@) == 6,
        has_standard_variant(bytes@),
        bytes@.subrange(10, 16) == node_id@,
{
    uuid::Uuid::now_v6(node_id).into_bytes()
}

/// `uuid::Uuid::new_v3`: a function of the namespace and the name alone. The
/// digest is not spelled out here; the version field is 3 and the variant
/// field `10`.
#[verifier::external_body]
pub(crate) fn md5_name_identifier(namespace: &[u8; 16], name: &[u8]) -> (bytes: [u8; 16])
    ensures
        bytes@ == md5_identifier(namespace@, name@),
        version_of(bytes@) == 3,
        has_standard_variant(bytes@),
{
    uuid::Uuid::new_v3(&uuid::Uuid::from_bytes(*namespace), name).into_bytes()
}

/// `uuid::Uuid::new_v5`: a function of the namespace and the name alone. The
/// digest is not spelled out here; the version field is 5 and the variant
/// field `10`.
#[verifier::external_body]
pub(crate) fn sha1_name_identifier(namespace: &[u8; 16], name: &[u8]) -> (bytes: [u8; 16])
    ensures
        bytes@ == sha1_identifier(namespace@, name@),
        version_of(bytes@) == 5,
        has_standard_variant(bytes@),
{
    uuid::Uuid::new_v5(&uuid::Uuid::from_bytes(*namespace), name).into_bytes()
}

/// `uuid::Uuid::new_v8`: the given bytes with the high four bits of byte 6
/// replaced by the version 8 and the high two bits of byte 8 by `10`.
#[verifier::external_body]
pub(crate) fn custom_identifier(buf: [u8; 16]) -> (bytes: [u8; 16])
    ensures
        bytes@ == custom_layout(buf@),
{
    uuid::Uuid::new_v8(buf).into_bytes()
}

/// `uuid::Uuid::parse_str`: reads the UTF-8 bytes of the text as one of the
/// four forms, and fails on every other text.
#[verifier::external_body]
pub(crate) fn parse_identifier(text: &str) -> (r: Result<[u8; 16], uuid::Error>)
    ensures
        match r {
            Ok(bytes) => parsed_identifier(encode_utf8(text@)) == Some(bytes@),
            Err(_) => parsed_identifier(encode_utf8(text@)) is None,
        },
{
    match uuid::Uuid::parse_str(text) {
        Ok(id) => Ok(id.into_bytes()),
        Err(e) => Err(e),
    }
}

/// `uuid::fmt::Hyphenated::encode_lower`: the canonical form, lower case.
#[verifier::external_body]
pub(crate) fn hyphenated_lower(bytes: &[u8; 16]) -> (s: String)
    ensures
        s@ == hyphenated_text(bytes@, false),
{
    let mut buffer = uuid::Uuid::encode_buffer();
    uuid::Uuid::from_bytes(*bytes).hyphenated().encode_lower(&mut buffer).to_string()
}

/// `uuid::fmt::Hyphenated::encode_upper`: the canonical form, upper case.
#[verifier::external_body]
pub(crate) fn hyphenated_upper(bytes: &[u8; 16]) -> (s: String)
    ensures
        s@ == hyphenated_text(bytes@, true),
{
    let mut buffer = uuid::Uuid::encode_buffer();
    uuid::Uuid::from_bytes(*bytes).hyphenated().encode_upper(&mut buffer).to_string()
}

/// `uuid::fmt::Simple::encode_lower`: the 32 digits, lower case.
#[verifier::external_body]
pub(crate) fn simple_lower(bytes: &[u8; 16]) -> (s: String)
    ensures
        s@ == simple_text(bytes@, false),
{
    let mut buffer = uuid::Uuid::encode_buffer();
    uuid::Uuid::from_bytes(*bytes).simple().encode_lower(&mut buffer).to_string()
}

/// `uuid::fmt::Simple::encode_upper`: the 32 digits, upper case.
#[verifier::external_body]
pub(crate) fn simple_upper(bytes: &[u8; 16]) -> (s: String)
    ensures
        s@ == simple_text(bytes@, true),
{
    let mut buffer = uuid::Uuid::encode_buffer();
    uuid::Uuid::from_bytes(*bytes).simple().encode_upper(&mut buffer).to_string()
}

/// `uuid::fmt::Urn::encode_lower`: `urn:uuid:` and the canonical form in
/// lower case.
#[verifier::external_body]
pub(crate) fn urn_lower(bytes: &[u8; 16]) -> (s: String)
    ensures
        s@ == urn_text(bytes@, false),
{
    let mut buffer = uuid::Uuid::encode_buffer();
    uuid::Uuid::from_bytes(*bytes).urn().encode_lower(&mut buffer).to_string()
}

/// `uuid::fmt::Urn::encode_upper`: `urn:uuid:`, itself in lower case, and the
/// canonical form in upper case.
#[verifier::external_body]
pub(crate) fn urn_upper(bytes: &[u8; 16]) -> (s: String)
    ensures
        s@ == urn_text(bytes@, true),
{
    let mut buffer = uuid::Uuid::encode_buffer();
    uuid::Uuid::from_bytes(*bytes).urn().encode_upper(&mut buffer).to_string()
}

/// `uuid::fmt::Braced::encode_lower`: the canonical form in lower case,
/// between braces.
#[verifier::external_body]
pub(crate) fn braced_lower(bytes: &[u8; 16]) -> (s: String)
    ensures
        s@ == braced_text(bytes@, false),
{
    let mut buffer = uuid::Uuid::encode_buffer();
    uuid::Uuid::from_bytes(*bytes).braced().encode_lower(&mut buffer).to_string()
}

/// `uuid::fmt::Braced::encode_upper`: the canonical form in upper case,
/// between braces.
#[verifier::external_body]
pub(crate) fn braced_upper(bytes: &[u8; 16]) -> (s: String)
    ensures
        s@ == braced_text(bytes@, true),
{
    let mut buffer = uuid::Uuid::encode_buffer();
    uuid::Uuid::from_bytes(*bytes).braced().encode_upper(&mut buffer).to_string()
}

} // verus!
