use mkid::cli::UuidArgs;
use mkid::error::{ErrorKind, GenerateError};
use mkid::generator::{
    generate_next, generate_uuid, generate_v1, generate_v3, generate_v5, generate_v6, generate_v8,
    get_namespace_and_name, get_node_id, node_from_random, resolve_namespace,
};
use mkid::identifier::Identifier;
use mkid::sequence::SortableSource;

fn versioned(version: &str) -> UuidArgs {
    let mut args = UuidArgs::default_v7();
    args.version = Some(version.to_string());
    args
}

fn named(version: &str, namespace: &str, name: &str) -> UuidArgs {
    let mut args = versioned(version);
    args.namespace = Some(namespace.to_string());
    args.name = Some(name.to_string());
    args
}

fn bytes_of(text: &str) -> [u8; 16] {
    *uuid::Uuid::parse_str(text).unwrap().as_bytes()
}

fn variant_bits(id: &Identifier) -> u8 {
    id.as_bytes()[8] >> 6
}

#[test]
fn a_given_node_id_is_decoded() {
    let mut args = versioned("v1");
    args.node_id = Some("0123456789ab".to_string());
    assert_eq!(get_node_id(&args), Ok([0x01, 0x23, 0x45, 0x67, 0x89, 0xab]));
    args.node_id = Some("ABCDEF012345".to_string());
    assert_eq!(get_node_id(&args), Ok([0xab, 0xcd, 0xef, 0x01, 0x23, 0x45]));
}

#[test]
fn a_node_id_of_another_length_is_refused() {
    let mut args = versioned("v1");
    for (text, len) in [("", 0usize), ("0123456789a", 11), ("0123456789abc", 13), ("0123456789abcdef", 16)] {
        args.node_id = Some(text.to_string());
        let e = get_node_id(&args).unwrap_err();
        assert_eq!(e, GenerateError::NodeIdLength(len));
        assert_eq!(e.kind(), ErrorKind::InvalidInput);
        assert_eq!(e.message(), format!("Node ID must be exactly 12 hex characters, got {len}"));
    }
}

#[test]
fn the_length_of_a_node_id_is_counted_in_bytes() {
    let mut args = versioned("v1");
    // Eleven characters, twelve bytes.
    args.node_id = Some("0123456789\u{e9}".to_string());
    assert_eq!(get_node_id(&args), Err(GenerateError::NodeIdNotHex));
    // Twelve characters, thirteen bytes.
    args.node_id = Some("0123456789a\u{e9}".to_string());
    assert_eq!(get_node_id(&args), Err(GenerateError::NodeIdLength(13)));
}

#[test]
fn a_node_id_that_is_not_hex_is_refused() {
    let mut args = versioned("v6");
    args.node_id = Some("0123456789ag".to_string());
    let e = get_node_id(&args).unwrap_err();
    assert_eq!(e, GenerateError::NodeIdNotHex);
    assert_eq!(e.kind(), ErrorKind::InvalidInput);
    assert_eq!(e.message(), "Node ID must be exactly 12 hex characters, got an invalid hex digit");
    args.node_id = Some("+123456789ab".to_string());
    assert_eq!(get_node_id(&args), Err(GenerateError::NodeIdNotHex));
}

#[test]
fn a_node_id_with_a_split_character_is_refused() {
    let mut args = versioned("v1");
    // The two bytes of the character fall into different pairs.
    args.node_id = Some("012345678\u{e9}a".to_string());
    let e = get_node_id(&args).unwrap_err();
    assert_eq!(e, GenerateError::NodeIdNotText);
    assert_eq!(e.kind(), ErrorKind::InvalidInput);
    assert_eq!(e.message(), "Node ID must be exactly 12 hex characters, got invalid UTF-8");
}

#[test]
fn a_random_node_id_has_the_multicast_bit() {
    let args = versioned("v1");
    for _ in 0..32 {
        let node = get_node_id(&args).unwrap();
        assert_eq!(node[0] & 1, 1);
    }
}

#[test]
fn a_node_id_is_the_first_six_random_bytes_with_the_lowest_bit_set() {
    let random = [0x10, 0x21, 0x32, 0x43, 0x54, 0x65, 0x76, 0x87, 0x98, 0xa9, 0xba, 0xcb, 0xdc, 0xed, 0xfe, 0x0f];
    assert_eq!(node_from_random(&random), [0x11, 0x21, 0x32, 0x43, 0x54, 0x65]);
    let random = [0xff; 16];
    assert_eq!(node_from_random(&random), [0xff; 6]);
    let random = [0x00; 16];
    assert_eq!(node_from_random(&random), [0x01, 0, 0, 0, 0, 0]);
}

#[test]
fn the_four_tags_stand_for_the_well_known_namespaces() {
    let expected = [
        ("dns", "6ba7b810-9dad-11d1-80b4-00c04fd430c8"),
        ("url", "6ba7b811-9dad-11d1-80b4-00c04fd430c8"),
        ("oid", "6ba7b812-9dad-11d1-80b4-00c04fd430c8"),
        ("x500", "6ba7b814-9dad-11d1-80b4-00c04fd430c8"),
    ];
    for (tag, text) in expected {
        assert_eq!(resolve_namespace(tag).unwrap().as_bytes(), bytes_of(text), "{tag}");
    }
}

#[test]
fn a_namespace_may_be_given_in_each_of_the_four_forms() {
    let expected: [u8; 16] = [
        0x12, 0x34, 0x56, 0x78, 0x9a, 0xbc, 0xde, 0xf0, 0x0f, 0xed, 0xcb, 0xa9, 0x87, 0x65, 0x43, 0x21,
    ];
    for text in [
        "123456789abcdef00fedcba987654321",
        "12345678-9abc-def0-0fed-cba987654321",
        "{12345678-9abc-def0-0fed-cba987654321}",
        "urn:uuid:12345678-9abc-def0-0fed-cba987654321",
        "URN:UUID:12345678-9ABC-DEF0-0FED-CBA987654321",
        "Urn:uUid:12345678-9abc-DEF0-0fed-CBA987654321",
        "123456789ABCDEF00FEDCBA987654321",
    ] {
        assert_eq!(resolve_namespace(text).unwrap().as_bytes(), expected, "{text}");
    }
}

#[test]
fn other_tags_are_no_namespace() {
    for text in [
        "",
        "DNS",
        "dns ",
        "x501",
        "12345678-9abc-def0-0fed-cba98765432",
        "12345678-9abc-def0-0fed-cba9876543210",
        "12345678_9abc-def0-0fed-cba987654321",
        "123456789-abc-def0-0fed-cba987654321",
        "{12345678-9abc-def0-0fed-cba987654321)",
        "(12345678-9abc-def0-0fed-cba987654321}",
        "{123456789abcdef00fedcba987654321}",
        "urn:uuid:123456789abcdef00fedcba987654321",
        "urn-uuid:12345678-9abc-def0-0fed-cba987654321",
        "urn:uuid;12345678-9abc-def0-0fed-cba987654321",
        "urm:uuid:12345678-9abc-def0-0fed-cba987654321",
        "12345678-9abc-def0-0fed-cba98765432g",
        "+2345678-9abc-def0-0fed-cba987654321",
        "123456789abcdef00fedcba98765432\u{e9}",
    ] {
        let e = resolve_namespace(text).unwrap_err();
        assert_eq!(e, GenerateError::InvalidNamespace, "{text}");
        assert_eq!(e.kind(), ErrorKind::InvalidInput);
        assert_eq!(e.message(), "Invalid namespace UUID");
    }
}

#[test]
fn the_name_is_asked_for_before_the_namespace() {
    let args = versioned("v5");
    let e = get_namespace_and_name(&args).unwrap_err();
    assert_eq!(e, GenerateError::MissingName);
    assert_eq!(e.kind(), ErrorKind::InvalidInput);
    assert_eq!(e.message(), "--name is required for v3/v5");

    let mut args = versioned("v5");
    args.namespace = Some("not a namespace".to_string());
    assert_eq!(get_namespace_and_name(&args).unwrap_err(), GenerateError::MissingName);
}

#[test]
fn a_name_without_a_namespace_is_refused() {
    let mut args = versioned("v3");
    args.name = Some("example.com".to_string());
    let e = get_namespace_and_name(&args).unwrap_err();
    assert_eq!(e, GenerateError::MissingNamespace);
    assert_eq!(e.kind(), ErrorKind::InvalidInput);
    assert_eq!(e.message(), "--namespace is required for v3/v5");
}

#[test]
fn namespace_and_name_are_handed_out_together() {
    let args = named("v5", "url", "https://example.com/");
    let (namespace, name) = get_namespace_and_name(&args).unwrap();
    assert_eq!(namespace.as_bytes(), bytes_of("6ba7b811-9dad-11d1-80b4-00c04fd430c8"));
    assert_eq!(name, "https://example.com/");
}

#[test]
fn version_5_of_known_names() {
    let cases = [
        ("dns", "example.com", "cfbff0d1-9375-5685-968c-48ce8b15ae17"),
        ("dns", "python.org", "886313e1-3b8a-5372-9b90-0c9aee199e5d"),
        ("url", "https://example.com/", "dd2c1780-811a-5296-81c5-178a0ef488bc"),
        ("x500", "cn=a", "5c1fcbd6-0ab9-5b0d-9d61-5bcbb36ee6d0"),
        ("12345678-1234-5678-1234-567812345678", "h\u{e9}llo", "7f5d9951-c8a8-5e28-8218-9d6438eba58d"),
    ];
    for (namespace, name, expected) in cases {
        let args = named("v5", namespace, name);
        assert_eq!(generate_v5(&args).unwrap().as_bytes(), bytes_of(expected), "{name}");
        assert_eq!(generate_uuid(&args).unwrap().as_bytes(), bytes_of(expected), "{name}");
    }
}

#[test]
fn version_3_of_known_names() {
    let cases = [
        ("dns", "example.com", "9073926b-929f-31c2-abc9-fad77ae3e8eb"),
        ("dns", "python.org", "6fa459ea-ee8a-3ca4-894e-db77e160355e"),
        ("oid", "1.2.3", "8c29ab0e-a2dc-3482-b5eb-20cb2e2387a1"),
    ];
    for (namespace, name, expected) in cases {
        let args = named("v3", namespace, name);
        assert_eq!(generate_v3(&args).unwrap().as_bytes(), bytes_of(expected), "{name}");
        assert_eq!(generate_uuid(&args).unwrap().as_bytes(), bytes_of(expected), "{name}");
    }
}

#[test]
fn the_name_based_versions_depend_on_namespace_and_name_alone() {
    let mut a = named("v5", "dns", "example.com");
    let mut b = named("v5", "dns", "example.com");
    a.uppercase = true;
    a.count = 3;
    a.node_id = Some("0123456789ab".to_string());
    b.bytes = Some("junk".to_string());
    b.format = "urn".to_string();
    assert_eq!(generate_uuid(&a), generate_uuid(&b));
    let c = named("v5", "dns", "example.org");
    assert_ne!(generate_uuid(&a), generate_uuid(&c));
    let d = named("v5", "url", "example.com");
    assert_ne!(generate_uuid(&a), generate_uuid(&d));
    let e = named("v3", "dns", "example.com");
    assert_ne!(generate_uuid(&a), generate_uuid(&e));
}

#[test]
fn version_4_has_its_version_and_variant() {
    let args = versioned("v4");
    for _ in 0..16 {
        let id = generate_uuid(&args).unwrap();
        assert_eq!(id.version(), 4);
        assert_eq!(variant_bits(&id), 0b10);
    }
}

#[test]
fn two_random_identifiers_differ() {
    let args = versioned("v4");
    let a = generate_uuid(&args).unwrap();
    let b = generate_uuid(&args).unwrap();
    assert_ne!(a, b);
}

#[test]
fn version_7_has_its_version_and_variant() {
    let args = versioned("v7");
    let id = generate_uuid(&args).unwrap();
    assert_eq!(id.version(), 7);
    assert_eq!(variant_bits(&id), 0b10);
}

#[test]
fn no_version_means_version_7() {
    let mut args = UuidArgs::default_v7();
    args.version = None;
    let id = generate_uuid(&args).unwrap();
    assert_eq!(id.version(), 7);
}

#[test]
fn version_7_does_not_go_back_within_a_run() {
    let args = versioned("v7");
    let mut last = generate_uuid(&args).unwrap();
    for _ in 0..2000 {
        let next = generate_uuid(&args).unwrap();
        assert!(u128::from_be_bytes(next.as_bytes()) >= u128::from_be_bytes(last.as_bytes()));
        last = next;
    }
}

#[test]
fn the_time_based_versions_end_in_the_node_id() {
    let mut args = versioned("v1");
    args.node_id = Some("0123456789ab".to_string());
    let id = generate_v1(&args).unwrap();
    assert_eq!(id.version(), 1);
    assert_eq!(variant_bits(&id), 0b10);
    assert_eq!(id.as_bytes()[10..], [0x01, 0x23, 0x45, 0x67, 0x89, 0xab]);

    args.version = Some("v6".to_string());
    let id = generate_v6(&args).unwrap();
    assert_eq!(id.version(), 6);
    assert_eq!(variant_bits(&id), 0b10);
    assert_eq!(id.as_bytes()[10..], [0x01, 0x23, 0x45, 0x67, 0x89, 0xab]);

    let id = generate_uuid(&args).unwrap();
    assert_eq!(id.version(), 6);
    args.version = Some("v1".to_string());
    let id = generate_uuid(&args).unwrap();
    assert_eq!(id.version(), 1);
}

#[test]
fn the_time_based_versions_without_a_node_id_get_a_multicast_node() {
    for version in ["v1", "v6"] {
        let args = versioned(version);
        let id = generate_uuid(&args).unwrap();
        assert_eq!(id.as_bytes()[10] & 1, 1);
    }
}

#[test]
fn the_time_based_versions_refuse_a_bad_node_id() {
    for version in ["v1", "v6"] {
        let mut args = versioned(version);
        args.node_id = Some("0123".to_string());
        assert_eq!(generate_uuid(&args), Err(GenerateError::NodeIdLength(4)));
    }
}

#[test]
fn version_8_keeps_all_but_the_version_and_variant_bits() {
    let mut args = versioned("v8");
    args.bytes = Some("000102030405060708090a0b0c0d0e0f".to_string());
    let id = generate_v8(&args).unwrap();
    assert_eq!(id.as_bytes(), [0, 1, 2, 3, 4, 5, 0x86, 7, 0x88, 9, 10, 11, 12, 13, 14, 15]);
    assert_eq!(id.version(), 8);

    args.bytes = Some("ffffffffffffffffffffffffffffffff".to_string());
    let id = generate_uuid(&args).unwrap();
    let mut expected = [0xff; 16];
    expected[6] = 0x8f;
    expected[8] = 0xbf;
    assert_eq!(id.as_bytes(), expected);

    args.bytes = Some("00000000000000000000000000000000".to_string());
    let id = generate_uuid(&args).unwrap();
    let mut expected = [0x00; 16];
    expected[6] = 0x80;
    expected[8] = 0x80;
    assert_eq!(id.as_bytes(), expected);
}

#[test]
fn version_8_without_bytes_is_refused() {
    let args = versioned("v8");
    let e = generate_uuid(&args).unwrap_err();
    assert_eq!(e, GenerateError::MissingBytes);
    assert_eq!(e.kind(), ErrorKind::InvalidInput);
    assert_eq!(e.message(), "--bytes is required for v8");
}

#[test]
fn version_8_refuses_bytes_of_another_length() {
    let mut args = versioned("v8");
    args.bytes = Some("123".to_string());
    let e = generate_uuid(&args).unwrap_err();
    assert_eq!(e, GenerateError::BytesLength(3));
    assert_eq!(e.kind(), ErrorKind::InvalidInput);
    assert_eq!(e.message(), "Bytes must be exactly 32 hex characters, got 3");
    args.bytes = Some("000102030405060708090a0b0c0d0e0f00".to_string());
    assert_eq!(generate_uuid(&args), Err(GenerateError::BytesLength(34)));
}

#[test]
fn version_8_refuses_bytes_that_are_not_hex() {
    let mut args = versioned("v8");
    args.bytes = Some("000102030405060708090a0b0c0d0e0g".to_string());
    let e = generate_uuid(&args).unwrap_err();
    assert_eq!(e, GenerateError::BytesNotHex);
    assert_eq!(e.kind(), ErrorKind::InvalidInput);
    assert_eq!(e.message(), "Bytes must be exactly 32 hex characters, got an invalid hex digit");

    args.bytes = Some("0\u{e9}0102030405060708090a0b0c0d0e0".to_string());
    let e = generate_uuid(&args).unwrap_err();
    assert_eq!(e, GenerateError::BytesNotText);
    assert_eq!(e.kind(), ErrorKind::InvalidInput);
    assert_eq!(e.message(), "Bytes must be exactly 32 hex characters, got invalid UTF-8");
}

#[test]
fn an_unknown_version_is_refused_and_named() {
    for version in ["v2", "v9", "", "7", "V7", "v10", "v7 "] {
        let args = versioned(version);
        let e = generate_uuid(&args).unwrap_err();
        assert_eq!(e, GenerateError::UnsupportedVersion(version.to_string()));
        assert_eq!(e.kind(), ErrorKind::UnsupportedVersion);
        assert_eq!(e.message(), format!("Unsupported UUID version: {version}"));
    }
}

#[test]
fn parameters_of_other_versions_are_ignored() {
    let mut args = versioned("v4");
    args.node_id = Some("bad".to_string());
    args.bytes = Some("bad".to_string());
    args.namespace = Some("bad".to_string());
    assert!(generate_uuid(&args).is_ok());
    args.version = Some("v7".to_string());
    assert!(generate_uuid(&args).is_ok());
}

#[test]
fn every_refusal_of_hex_text_names_the_length_expected() {
    let mut args = versioned("v1");
    for text in ["0123456789ag", "012345678\u{e9}a", "0123", "", "0123456789abcd"] {
        args.node_id = Some(text.to_string());
        let e = generate_uuid(&args).unwrap_err();
        assert_eq!(e.kind(), ErrorKind::InvalidInput);
        assert!(e.message().starts_with("Node ID must be exactly 12 hex characters"), "{text}");
    }
    let mut args = versioned("v8");
    for text in ["gggggggggggggggggggggggggggggggg", "0\u{e9}0102030405060708090a0b0c0d0e0", "123", ""] {
        args.bytes = Some(text.to_string());
        let e = generate_uuid(&args).unwrap_err();
        assert_eq!(e.kind(), ErrorKind::InvalidInput);
        assert!(e.message().starts_with("Bytes must be exactly 32 hex characters"), "{text}");
    }
}

#[test]
fn every_version_has_its_number_and_the_standard_variant() {
    let mut requests = Vec::new();
    for version in ["v1", "v4", "v6", "v7"] {
        requests.push((versioned(version), version));
    }
    requests.push((named("v3", "dns", "example.com"), "v3"));
    requests.push((named("v5", "dns", "example.com"), "v5"));
    let mut custom = versioned("v8");
    custom.bytes = Some("00112233445566778899aabbccddeeff".to_string());
    requests.push((custom, "v8"));
    for (args, version) in requests {
        let id = generate_uuid(&args).unwrap();
        assert_eq!(format!("v{}", id.version()), version);
        assert_eq!(id.as_bytes()[6] >> 4, id.version());
        assert_eq!(id.as_bytes()[8] & 0xc0, 0x80, "{version}");
    }
}

#[test]
fn a_new_source_has_handed_out_nothing() {
    let source = SortableSource::new();
    assert_eq!(source.last_issued(), [0u8; 16]);
}

#[test]
fn a_source_remembers_what_it_handed_out() {
    let mut source = SortableSource::new();
    let first = source.next();
    assert_eq!(source.last_issued(), first);
    assert_eq!(first[6] >> 4, 7);
    assert_eq!(first[8] >> 6, 0b10);
    let second = source.next();
    assert_eq!(source.last_issued(), second);
    assert!(u128::from_be_bytes(second) >= u128::from_be_bytes(first));
}

#[test]
fn a_source_never_goes_back() {
    let mut source = SortableSource::new();
    let mut last = source.last_issued();
    for _ in 0..5000 {
        let next = source.next();
        assert!(u128::from_be_bytes(next) >= u128::from_be_bytes(last));
        last = next;
    }
}

#[test]
fn two_sources_share_one_order() {
    let mut a = SortableSource::new();
    let mut b = SortableSource::new();
    let mut last = 0u128;
    for round in 0..200 {
        let next = if round % 2 == 0 { a.next() } else { b.next() };
        assert!(u128::from_be_bytes(next) >= last);
        last = u128::from_be_bytes(next);
    }
}

#[test]
fn only_version_7_moves_the_source() {
    let mut source = SortableSource::new();
    let first = generate_next(&mut source, &versioned("v7")).unwrap();
    assert_eq!(source.last_issued(), first.as_bytes());
    for version in ["v1", "v4", "v6", "v9"] {
        let _ = generate_next(&mut source, &versioned(version));
        assert_eq!(source.last_issued(), first.as_bytes(), "{version}");
    }
    let _ = generate_next(&mut source, &named("v5", "dns", "example.com")).unwrap();
    assert_eq!(source.last_issued(), first.as_bytes());
    let mut unnamed = UuidArgs::default_v7();
    unnamed.version = None;
    let second = generate_next(&mut source, &unnamed).unwrap();
    assert_eq!(source.last_issued(), second.as_bytes());
    assert!(second.as_u128() >= first.as_u128());
}

#[test]
fn an_identifier_is_a_number_with_its_first_byte_on_top() {
    let id = Identifier::from_bytes([0x01, 0x23, 0x45, 0x67, 0x89, 0xab, 0xcd, 0xef, 0xfe, 0xdc, 0xba, 0x98, 0x76, 0x54, 0x32, 0x10]);
    assert_eq!(id.as_u128(), 0x0123456789abcdeffedcba9876543210);
    assert_eq!(Identifier::from_bytes([0x00; 16]).as_u128(), 0);
    assert_eq!(Identifier::from_bytes([0xff; 16]).as_u128(), u128::MAX);
    let mut bytes = [0u8; 16];
    bytes[15] = 1;
    assert_eq!(Identifier::from_bytes(bytes).as_u128(), 1);
    bytes = [0u8; 16];
    bytes[0] = 1;
    assert_eq!(Identifier::from_bytes(bytes).as_u128(), 1u128 << 120);
}
