//! From a request to an identifier: the parameters that each version needs,
//! how they are resolved, and what the generated identifier is known to hold.

use crate::backend::{
    custom_identifier, custom_layout, dns_namespace, md5_identifier, md5_name_identifier,
    oid_namespace, parse_identifier, random_identifier, sha1_identifier, sha1_name_identifier,
    sortable_time_identifier, time_identifier, url_namespace,
    well_known_namespace, x500_namespace,
};
use crate::cli::UuidArgs;
use crate::error::{ErrorKind, GenerateError};
use crate::hex::{
    decode_exact, hex_decoding, lemma_decoded_is_hex, lemma_decoding_cases, pair_values,
    pairs_are_hex, HexError,
};
use crate::identifier::{has_standard_variant, not_below, version_of, Identifier};
use crate::sequence::SortableSource;
use crate::strings::same_text;
use crate::text::parsed_identifier;
use vstd::prelude::*;
use vstd::utf8::encode_utf8;

verus! {

/// The version that a request asks for: version 7 where it names none.
pub open spec fn requested_version(args: UuidArgs) -> Seq<char> {
    match args.version {
        Some(v) => v@,
        None => "v7"@,
    }
}

/// Whether a text is one of the seven version tags.
pub open spec fn is_version_tag(tag: Seq<char>) -> bool {
    tag == "v1"@ || tag == "v3"@ || tag == "v4"@ || tag == "v5"@ || tag == "v6"@ || tag == "v7"@
        || tag == "v8"@
}

/// The node id made from random bytes: the first six of them, with the
/// multicast bit (the lowest bit of the first byte) set.
pub open spec fn random_node_id(random: Seq<u8>) -> Seq<u8>
    recommends
        random.len() >= 6,
{
    random.subrange(0, 6).update(0, random[0] | 1u8)
}

/// Why the node id of a request is refused, if it is. A request without a
/// node id gets a random one and is never refused.
pub open spec fn node_id_refusal(args: UuidArgs) -> Option<GenerateError> {
    match args.node_id {
        Some(hex) => match hex_decoding(encode_utf8(hex@), 6) {
            Ok(_) => None,
            Err(e) => Some(GenerateError::node_id(e)),
        },
        None => None,
    }
}

/// The six bytes are the node id that the request gives or, where it gives
/// none, a node id with the multicast bit set.
pub open spec fn is_node_id_of(args: UuidArgs, node: Seq<u8>) -> bool {
    match args.node_id {
        Some(hex) => hex_decoding(encode_utf8(hex@), 6) == Ok::<Seq<u8>, HexError>(node),
        None => node.len() == 6 && node[0] % 2 == 1,
    }
}

/// The namespace that a tag stands for: one of the four well-known
/// namespaces, or the identifier that the tag reads as.
pub open spec fn namespace_of(tag: Seq<char>) -> Option<Seq<u8>> {
    if tag == "dns"@ {
        Some(well_known_namespace(0x10))
    } else if tag == "url"@ {
        Some(well_known_namespace(0x11))
    } else if tag == "oid"@ {
        Some(well_known_namespace(0x12))
    } else if tag == "x500"@ {
        Some(well_known_namespace(0x14))
    } else {
        parsed_identifier(encode_utf8(tag))
    }
}

/// Why the namespace and name of a request are refused, if they are. The name
/// is looked at first.
pub open spec fn name_refusal(args: UuidArgs) -> Option<GenerateError> {
    if args.name is None {
        Some(GenerateError::MissingName)
    } else if args.namespace is None {
        Some(GenerateError::MissingNamespace)
    } else if namespace_of(args.namespace->0@) is None {
        Some(GenerateError::InvalidNamespace)
    } else {
        None
    }
}

/// Why the custom bytes of a request are refused, if they are.
pub open spec fn custom_refusal(args: UuidArgs) -> Option<GenerateError> {
    match args.bytes {
        None => Some(GenerateError::MissingBytes),
        Some(hex) => match hex_decoding(encode_utf8(hex@), 16) {
            Ok(_) => None,
            Err(e) => Some(GenerateError::custom_bytes(e)),
        },
    }
}

/// Why a request is refused, if it is. Only the parameters of the version
/// asked for are looked at.
pub open spec fn refusal(args: UuidArgs) -> Option<GenerateError> {
    let v = requested_version(args);
    if v == "v1"@ || v == "v6"@ {
        node_id_refusal(args)
    } else if v == "v3"@ || v == "v5"@ {
        name_refusal(args)
    } else if v == "v4"@ || v == "v7"@ {
        None
    } else if v == "v8"@ {
        custom_refusal(args)
    } else {
        Some(GenerateError::UnsupportedVersion(args.version->0))
    }
}

/// The version 3 identifier of a request with a namespace and a name.
pub open spec fn md5_identifier_of(args: UuidArgs) -> Seq<u8>
    recommends
        name_refusal(args) is None,
{
    md5_identifier(namespace_of(args.namespace->0@)->0, encode_utf8(args.name->0@))
}

/// The version 5 identifier of a request with a namespace and a name.
pub open spec fn sha1_identifier_of(args: UuidArgs) -> Seq<u8>
    recommends
        name_refusal(args) is None,
{
    sha1_identifier(namespace_of(args.namespace->0@)->0, encode_utf8(args.name->0@))
}

/// The version 8 identifier of a request with custom bytes.
pub open spec fn custom_identifier_of(args: UuidArgs) -> Seq<u8>
    recommends
        custom_refusal(args) is None,
{
    custom_layout(hex_decoding(encode_utf8(args.bytes->0@), 16)->Ok_0)
}

/// What is known of an identifier generated for a request that is not
/// refused. For the versions 3, 5 and 8 the request fixes every bit. For the
/// others it fixes the version, the variant and, for 1 and 6, the node id;
/// the rest comes from the clock and the random source.
pub open spec fn answers(args: UuidArgs, id: Seq<u8>) -> bool
    recommends
        refusal(args) is None,
{
    let v = requested_version(args);
    if v == "v1"@ {
        version_of(id) == 1 && has_standard_variant(id) && is_node_id_of(args, id.subrange(10, 16))
    } else if v == "v3"@ {
        id == md5_identifier_of(args) && version_of(id) == 3 && has_standard_variant(id)
    } else if v == "v4"@ {
        version_of(id) == 4 && has_standard_variant(id)
    } else if v == "v5"@ {
        id == sha1_identifier_of(args) && version_of(id) == 5 && has_standard_variant(id)
    } else if v == "v6"@ {
        version_of(id) == 6 && has_standard_variant(id) && is_node_id_of(args, id.subrange(10, 16))
    } else if v == "v7"@ {
        version_of(id) == 7 && has_standard_variant(id)
    } else {
        id == custom_identifier_of(args) && version_of(id) == 8 && has_standard_variant(id)
    }
}

/// The seven version tags, spelled out.
pub proof fn lemma_version_tags()
    ensures
        "v1"@ == seq!['v', '1'],
        "v3"@ == seq!['v', '3'],
        "v4"@ == seq!['v', '4'],
        "v5"@ == seq!['v', '5'],
        "v6"@ == seq!['v', '6'],
        "v7"@ == seq!['v', '7'],
        "v8"@ == seq!['v', '8'],
{
    reveal_strlit("v1");
    reveal_strlit("v3");
    reveal_strlit("v4");
    reveal_strlit("v5");
    reveal_strlit("v6");
    reveal_strlit("v7");
    reveal_strlit("v8");
    assert("v1"@ =~= seq!['v', '1']);
    assert("v3"@ =~= seq!['v', '3']);
    assert("v4"@ =~= seq!['v', '4']);
    assert("v5"@ =~= seq!['v', '5']);
    assert("v6"@ =~= seq!['v', '6']);
    assert("v7"@ =~= seq!['v', '7']);
    assert("v8"@ =~= seq!['v', '8']);
}

/// A request is refused for its version exactly when the version is none of
/// the seven tags; every other refusal is for an invalid input.
pub proof fn lemma_refusal_kinds(args: UuidArgs)
    ensures
        !is_version_tag(requested_version(args)) <==> refusal(args)
            == Some(GenerateError::UnsupportedVersion(args.version->0)),
        refusal(args) matches Some(e) ==> (e.spec_kind() == ErrorKind::UnsupportedVersion
            <==> !is_version_tag(requested_version(args))),
        is_version_tag(requested_version(args)) && refusal(args) is Some ==> refusal(
            args,
        )->0.spec_kind() == ErrorKind::InvalidInput,
{
    lemma_version_tags();
}

/// A request for a name-based version without a name is refused for the
/// missing name, whatever else it holds.
pub proof fn lemma_name_is_required(args: UuidArgs)
    requires
        requested_version(args) == "v3"@ || requested_version(args) == "v5"@,
        args.name is None,
    ensures
        refusal(args) == Some(GenerateError::MissingName),
        refusal(args)->0.message_text() == "--name is required for v3/v5"@,
{
    lemma_version_tags();
}

/// A node id of 12 hexadecimal digits is taken as the six bytes that the
/// digits stand for. Every other node id is refused as invalid input, with a
/// message that names the 12 characters expected, and one of another length
/// for its length.
pub proof fn lemma_node_id_resolution(args: UuidArgs)
    requires
        args.node_id is Some,
    ensures
        ({
            let text = encode_utf8(args.node_id->0@);
            if text.len() == 12 && pairs_are_hex(text, 6) {
                node_id_refusal(args) is None && is_node_id_of(args, pair_values(text))
            } else {
                &&& node_id_refusal(args) is Some
                &&& node_id_refusal(args)->0.spec_kind() == ErrorKind::InvalidInput
                &&& node_id_refusal(args)->0.is_of_node_id()
                &&& text.len() != 12 ==> node_id_refusal(args) == Some(
                    GenerateError::NodeIdLength(text.len() as usize),
                )
            }
        }),
{
    lemma_decoding_cases(encode_utf8(args.node_id->0@), 6);
}

/// Custom bytes of 32 hexadecimal digits give the identifier of the sixteen
/// bytes that the digits stand for, with the version and variant fields
/// overwritten. All other custom bytes are refused as invalid input, with a
/// message that names the 32 characters expected, and those of another length
/// for their length.
pub proof fn lemma_custom_bytes_resolution(args: UuidArgs)
    requires
        args.bytes is Some,
    ensures
        ({
            let text = encode_utf8(args.bytes->0@);
            if text.len() == 32 && pairs_are_hex(text, 16) {
                custom_refusal(args) is None && custom_identifier_of(args) == custom_layout(
                    pair_values(text),
                )
            } else {
                &&& custom_refusal(args) is Some
                &&& custom_refusal(args)->0.spec_kind() == ErrorKind::InvalidInput
                &&& custom_refusal(args)->0.is_of_custom_bytes()
                &&& text.len() != 32 ==> custom_refusal(args) == Some(
                    GenerateError::BytesLength(text.len() as usize),
                )
            }
        }),
{
    lemma_decoding_cases(encode_utf8(args.bytes->0@), 16);
}

/// The name-based versions are functions of the namespace and the name
/// alone: two requests for the same version with the same namespace tag and
/// the same name are answered by the same identifier, whatever else they
/// hold.
pub proof fn lemma_name_based_is_deterministic(a: UuidArgs, b: UuidArgs, x: Seq<u8>, y: Seq<u8>)
    requires
        requested_version(a) == "v3"@ || requested_version(a) == "v5"@,
        requested_version(b) == requested_version(a),
        a.namespace is Some && b.namespace is Some && a.namespace->0@ == b.namespace->0@,
        a.name is Some && b.name is Some && a.name->0@ == b.name->0@,
        refusal(a) is None,
        answers(a, x),
        answers(b, y),
    ensures
        refusal(b) is None,
        x == y,
{
    lemma_version_tags();
}

/// Makes a node id from sixteen random bytes.
pub fn node_from_random(random: &[u8; 16]) -> (node: [u8; 6])
    ensures
        node@ == random_node_id(random@),
        node@[0] % 2 == 1,
{
    let mut node: [u8; 6] = [0u8; 6];
    let mut i: usize = 0;
    while i < 6
        invariant
            i <= 6,
            forall|k: int| 0 <= k < i ==> node@[k] == random@[k],
        decreases 6 - i,
    {
        node[i] = random[i];
        i += 1;
    }
    let first: u8 = node[0];
    assert((first | 1u8) % 2 == 1) by (bit_vector);
    node[0] = first | 1u8;
    assert(node@ =~= random_node_id(random@));
    node
}

/// The node id for the versions 1 and 6: the one that the request gives as
/// 12 hexadecimal digits, or a random one with the multicast bit set.
pub fn get_node_id(args: &UuidArgs) -> (r: Result<[u8; 6], GenerateError>)
    ensures
        match r {
            Ok(node) => node_id_refusal(*args) is None && is_node_id_of(*args, node@),
            Err(e) => node_id_refusal(*args) == Some(e),
        },
{
    match &args.node_id {
        Some(node_id_hex) => {
            match decode_exact::<6>(node_id_hex.as_str().as_bytes()) {
                Ok(node_id) => Ok(node_id),
                Err(HexError::Length(n)) => Err(GenerateError::NodeIdLength(n)),
                Err(HexError::NotText) => Err(GenerateError::NodeIdNotText),
                Err(HexError::NotHex) => Err(GenerateError::NodeIdNotHex),
            }
        },
        None => {
            let random = random_identifier();
            Ok(node_from_random(&random))
        },
    }
}

/// The namespace that a tag stands for.
pub fn resolve_namespace(tag: &str) -> (r: Result<Identifier, GenerateError>)
    ensures
        match r {
            Ok(namespace) => namespace_of(tag@) == Some(namespace@),
            Err(e) => namespace_of(tag@) is None && e == GenerateError::InvalidNamespace,
        },
{
    if same_text(tag, "dns") {
        Ok(Identifier::from_bytes(dns_namespace()))
    } else if same_text(tag, "url") {
        Ok(Identifier::from_bytes(url_namespace()))
    } else if same_text(tag, "oid") {
        Ok(Identifier::from_bytes(oid_namespace()))
    } else if same_text(tag, "x500") {
        Ok(Identifier::from_bytes(x500_namespace()))
    } else {
        match parse_identifier(tag) {
            Ok(bytes) => Ok(Identifier::from_bytes(bytes)),
            Err(_) => Err(GenerateError::InvalidNamespace),
        }
    }
}

/// The namespace and the name for the versions 3 and 5.
pub fn get_namespace_and_name(args: &UuidArgs) -> (r: Result<(Identifier, String), GenerateError>)
    ensures
        match r {
            Ok((namespace, name)) => {
                &&& name_refusal(*args) is None
                &&& namespace_of(args.namespace->0@) == Some(namespace@)
                &&& name@ == args.name->0@
            },
            Err(e) => name_refusal(*args) == Some(e),
        },
{
    let name = match &args.name {
        Some(name) => name.clone(),
        None => {
            return Err(GenerateError::MissingName);
        },
    };
    let namespace_str = match &args.namespace {
        Some(tag) => tag,
        None => {
            return Err(GenerateError::MissingNamespace);
        },
    };
    match resolve_namespace(namespace_str.as_str()) {
        Ok(namespace) => Ok((namespace, name)),
        Err(e) => Err(e),
    }
}

/// A version 1 identifier: the current time and the node id.
pub fn generate_v1(args: &UuidArgs) -> (r: Result<Identifier, GenerateError>)
    ensures
        match r {
            Ok(id) => {
                &&& node_id_refusal(*args) is None
                &&& version_of(id@) == 1
                &&& has_standard_variant(id@)
                &&& is_node_id_of(*args, id@.subrange(10, 16))
            },
            Err(e) => node_id_refusal(*args) == Some(e),
        },
{
    match get_node_id(args) {
        Ok(node_id) => Ok(Identifier::from_bytes(time_identifier(&node_id))),
        Err(e) => Err(e),
    }
}

/// A version 6 identifier: as version 1, laid out so that identifiers sort
/// by time.
pub fn generate_v6(args: &UuidArgs) -> (r: Result<Identifier, GenerateError>)
    ensures
        match r {
            Ok(id) => {
                &&& node_id_refusal(*args) is None
                &&& version_of(id@) == 6
                &&& has_standard_variant(id@)
                &&& is_node_id_of(*args, id@.subrange(10, 16))
            },
            Err(e) => node_id_refusal(*args) == Some(e),
        },
{
    match get_node_id(args) {
        Ok(node_id) => Ok(Identifier::from_bytes(sortable_time_identifier(&node_id))),
        Err(e) => Err(e),
    }
}

/// A version 3 identifier: the MD5 digest of the namespace and the name.
pub fn generate_v3(args: &UuidArgs) -> (r: Result<Identifier, GenerateError>)
    ensures
        match r {
            Ok(id) => {
                &&& name_refusal(*args) is None
                &&& id@ == md5_identifier_of(*args)
                &&& version_of(id@) == 3
                &&& has_standard_variant(id@)
            },
            Err(e) => name_refusal(*args) == Some(e),
        },
{
    match get_namespace_and_name(args) {
        Ok((namespace, name)) => {
            let bytes = md5_name_identifier(&namespace.as_bytes(), name.as_str().as_bytes());
            Ok(Identifier::from_bytes(bytes))
        },
        Err(e) => Err(e),
    }
}

/// A version 5 identifier: the SHA-1 digest of the namespace and the name.
pub fn generate_v5(args: &UuidArgs) -> (r: Result<Identifier, GenerateError>)
    ensures
        match r {
            Ok(id) => {
                &&& name_refusal(*args) is None
                &&& id@ == sha1_identifier_of(*args)
                &&& version_of(id@) == 5
                &&& has_standard_variant(id@)
            },
            Err(e) => name_refusal(*args) == Some(e),
        },
{
    match get_namespace_and_name(args) {
        Ok((namespace, name)) => {
            let bytes = sha1_name_identifier(&namespace.as_bytes(), name.as_str().as_bytes());
            Ok(Identifier::from_bytes(bytes))
        },
        Err(e) => Err(e),
    }
}

/// A version 8 identifier: the sixteen bytes that the request gives as 32
/// hexadecimal digits, with the version and variant fields overwritten.
pub fn generate_v8(args: &UuidArgs) -> (r: Result<Identifier, GenerateError>)
    ensures
        match r {
            Ok(id) => {
                &&& custom_refusal(*args) is None
                &&& id@ == custom_identifier_of(*args)
                &&& version_of(id@) == 8
                &&& has_standard_variant(id@)
            },
            Err(e) => custom_refusal(*args) == Some(e),
        },
{
    let bytes_hex = match &args.bytes {
        Some(hex) => hex,
        None => {
            return Err(GenerateError::MissingBytes);
        },
    };
    match decode_exact::<16>(bytes_hex.as_str().as_bytes()) {
        Ok(bytes) => {
            proof {
                lemma_decoded_is_hex(encode_utf8(bytes_hex@), 0);
            }
            Ok(Identifier::from_bytes(custom_identifier(bytes)))
        },
        Err(HexError::Length(n)) => Err(GenerateError::BytesLength(n)),
        Err(HexError::NotText) => Err(GenerateError::BytesNotText),
        Err(HexError::NotHex) => Err(GenerateError::BytesNotHex),
    }
}

/// Generates one identifier for a request, taking version 7 identifiers from
/// `source`.
///
/// The request is refused exactly when `refusal` says so, and with that
/// error; otherwise the identifier is one that `answers` the request. A
/// version that is not known is refused, never replaced by another. A version
/// 7 identifier is not below the one that `source` handed out before it; the
/// other versions leave `source` as it is.
pub fn generate_next(source: &mut SortableSource, args: &UuidArgs) -> (r: Result<
    Identifier,
    GenerateError,
>)
    ensures
        match r {
            Ok(id) => refusal(*args) is None && answers(*args, id@),
            Err(e) => refusal(*args) == Some(e),
        },
        if r is Ok && requested_version(*args) == "v7"@ {
            not_below(r->Ok_0@, old(source).last()) && final(source).last() == r->Ok_0@
        } else {
            final(source).last() == old(source).last()
        },
{
    proof {
        lemma_version_tags();
    }
    match &args.version {
        None => Ok(Identifier::from_bytes(source.next())),
        Some(v) => {
            let version = v.as_str();
            if same_text(version, "v1") {
                generate_v1(args)
            } else if same_text(version, "v3") {
                generate_v3(args)
            } else if same_text(version, "v4") {
                Ok(Identifier::from_bytes(random_identifier()))
            } else if same_text(version, "v5") {
                generate_v5(args)
            } else if same_text(version, "v6") {
                generate_v6(args)
            } else if same_text(version, "v7") {
                Ok(Identifier::from_bytes(source.next()))
            } else if same_text(version, "v8") {
                generate_v8(args)
            } else {
                Err(GenerateError::UnsupportedVersion(v.clone()))
            }
        },
    }
}

/// Generates one identifier for a request.
///
/// The request is refused exactly when `refusal` says so, and with that
/// error; otherwise the identifier is one that `answers` the request.
pub fn generate_uuid(args: &UuidArgs) -> (r: Result<Identifier, GenerateError>)
    ensures
        match r {
            Ok(id) => refusal(*args) is None && answers(*args, id@),
            Err(e) => refusal(*args) == Some(e),
        },
{
    let mut source = SortableSource::new();
    generate_next(&mut source, args)
}

} // verus!
