use entid::{Identifier, IdentifierError, Ulid, UlidIdentifier, Uuid, UuidIdentifier, UuidVersion, ULID_MAX_TIMESTAMP};

#[test]
fn test_uuid_identifier() {
    let id = UuidIdentifier::generate();
    let id_str = id.as_str();
    let parsed = UuidIdentifier::parse(&id_str).unwrap();
    assert_eq!(id, parsed);
}

#[test]
fn test_ulid_identifier() {
    let id = UlidIdentifier::generate();
    let id_str = id.as_str();
    let parsed = UlidIdentifier::parse(&id_str).unwrap();
    assert_eq!(id, parsed);

    // Test timestamp
    assert!(id.timestamp_ms().is_some());
}

#[test]
fn uuid_text_is_lowercase_hyphenated() {
    let id = UuidIdentifier::from_uuid(0x123E4567_E89B_12D3_A456_426614174000);
    assert_eq!(id.as_str(), "123e4567-e89b-12d3-a456-426614174000");
    assert_eq!(id.uuid(), 0x123E4567_E89B_12D3_A456_426614174000);
}

#[test]
fn uuid_parse_accepts_other_forms() {
    let expected = UuidIdentifier::from_uuid(0x123E4567_E89B_12D3_A456_426614174000);
    let upper = UuidIdentifier::parse("123E4567-E89B-12D3-A456-426614174000").unwrap();
    assert_eq!(upper, expected);
    let simple = UuidIdentifier::parse("123e4567e89b12d3a456426614174000").unwrap();
    assert_eq!(simple, expected);
    assert_eq!(simple.as_str(), "123e4567-e89b-12d3-a456-426614174000");
}

#[test]
fn uuid_parse_refuses_garbage() {
    let err = UuidIdentifier::parse("not-a-uuid").unwrap_err();
    assert!(err.uuid_error().is_some());
    assert!(err.ulid_error().is_none());
    assert!(err.to_string().starts_with("Invalid UUID format: "));
    assert!(!err.error_message().is_empty());
    assert!("zzz".parse::<UuidIdentifier>().is_err());
}

#[test]
fn uuid_from_str_matches_parse() {
    let id: UuidIdentifier = "6ba7b810-9dad-11d1-80b4-00c04fd430c8".parse().unwrap();
    assert_eq!(id.uuid(), Uuid::NAMESPACE_DNS.as_u128());
    assert_eq!(id.version(), Some(UuidVersion::Mac));
}

#[test]
fn uuid_v4_has_version_random() {
    let id = UuidIdentifier::new_v4();
    assert_eq!(id.version(), Some(UuidVersion::Random));
    let text = id.as_str();
    assert_eq!(text.len(), 36);
    assert_eq!(text.chars().nth(14), Some('4'));
    assert_eq!(id.timestamp_ms(), None);
}

#[test]
fn uuid_v5_known_value() {
    let id = UuidIdentifier::new_v5(Uuid::NAMESPACE_DNS.as_u128(), "example.com");
    assert_eq!(id.as_str(), "cfbff0d1-9375-5685-968c-48ce8b15ae17");
    assert_eq!(id.version(), Some(UuidVersion::Sha1));
    let other = UuidIdentifier::new_v5(Uuid::NAMESPACE_DNS.as_u128(), "example.org");
    assert_ne!(id, other);
}

#[test]
fn uuid_versions_nil_max_and_unknown() {
    assert_eq!(UuidIdentifier::from_uuid(0).version(), Some(UuidVersion::Nil));
    assert_eq!(UuidIdentifier::from_uuid(u128::MAX).version(), Some(UuidVersion::Max));
    // version field 0 on a non-nil value, and version field 15 on a non-max value
    assert_eq!(UuidIdentifier::from_uuid(1).version(), None);
    assert_eq!(UuidIdentifier::from_uuid(0xF << 76).version(), None);
    assert_eq!(UuidIdentifier::from_uuid(7 << 76).version(), Some(UuidVersion::SortRand));
}

#[test]
fn ulid_text_and_parse() {
    let zero = UlidIdentifier::from_ulid(0);
    assert_eq!(zero.as_str(), "00000000000000000000000000");
    let id = UlidIdentifier::parse("01ARZ3NDEKTSV4RRFFQ69G5FAV").unwrap();
    assert_eq!(id.as_str(), "01ARZ3NDEKTSV4RRFFQ69G5FAV");
    assert_eq!(id.ulid(), Ulid::from_string("01ARZ3NDEKTSV4RRFFQ69G5FAV").unwrap().0);
    assert_eq!(id.get_timestamp_ms(), 1469922850259);
    let lower = UlidIdentifier::parse("01arz3ndektsv4rrffq69g5fav").unwrap();
    assert_eq!(lower, id);
    let from_str: UlidIdentifier = "01ARZ3NDEKTSV4RRFFQ69G5FAV".parse().unwrap();
    assert_eq!(from_str, id);
}

#[test]
fn ulid_parse_refuses_garbage() {
    let err = UlidIdentifier::parse("short").unwrap_err();
    assert!(err.ulid_error().is_some());
    assert!(err.uuid_error().is_none());
    assert!(err.to_string().starts_with("Invalid ULID format: "));
    let err = UlidIdentifier::parse("0000000000000000000000000!").unwrap_err();
    assert!(matches!(err, IdentifierError::Ulid(_)));
}

#[test]
fn ulid_with_timestamp_keeps_timestamp() {
    let id = UlidIdentifier::with_timestamp(1625097600000);
    assert_eq!(id.get_timestamp_ms(), 1625097600000);
    assert_eq!(id.timestamp_ms(), Some(1625097600000));
    let max = UlidIdentifier::with_timestamp(ULID_MAX_TIMESTAMP);
    assert_eq!(max.get_timestamp_ms(), ULID_MAX_TIMESTAMP);
}

#[test]
fn ulid_with_timestamp_keeps_low_48_bits() {
    let id = UlidIdentifier::with_timestamp(ULID_MAX_TIMESTAMP + 6);
    assert_eq!(id.get_timestamp_ms(), 5);
}

#[test]
fn ulid_monotonic_after_future_timestamp() {
    let future: u64 = 4_000_000_000_000;
    let prev = UlidIdentifier::with_timestamp(future);
    let next = UlidIdentifier::monotonic_from(Some(&prev));
    assert_eq!(next.get_timestamp_ms(), future + 1);
    assert!(next.ulid() > prev.ulid());
}

#[test]
fn ulid_monotonic_after_past_timestamp() {
    let prev = UlidIdentifier::with_timestamp(1000);
    let next = UlidIdentifier::monotonic_from(Some(&prev));
    assert!(next.get_timestamp_ms() > 1000);
    assert!(next.ulid() > prev.ulid());
}

#[test]
fn ulid_monotonic_wraps_at_max_timestamp() {
    let prev = UlidIdentifier::with_timestamp(ULID_MAX_TIMESTAMP);
    let next = UlidIdentifier::monotonic_from(Some(&prev));
    assert_eq!(next.get_timestamp_ms(), 0);
}

#[test]
fn ulid_monotonic_without_previous() {
    let id = UlidIdentifier::monotonic_from(None);
    assert!(id.get_timestamp_ms() > 0);
    let default_id = UlidIdentifier::default();
    assert!(default_id.get_timestamp_ms() > 0);
}

#[test]
fn ulid_later_timestamp_orders_after() {
    let a = UlidIdentifier::with_timestamp(10);
    let b = UlidIdentifier::with_timestamp(11);
    assert!(b.ulid() > a.ulid());
    assert!(b.as_str() > a.as_str());
}

#[test]
fn identifier_error_from_outside_errors() {
    let uuid_err = Uuid::parse_str("x").unwrap_err();
    let err = IdentifierError::from(uuid_err);
    assert!(err.uuid_error().is_some());
    let ulid_err = Ulid::from_string("x").unwrap_err();
    let err = IdentifierError::from(ulid_err);
    assert!(err.ulid_error().is_some());
}

#[test]
fn identifiers_display_as_their_text() {
    let uuid = UuidIdentifier::from_uuid(Uuid::NAMESPACE_DNS.as_u128());
    assert_eq!(uuid.to_string(), "6ba7b810-9dad-11d1-80b4-00c04fd430c8");
    let ulid = UlidIdentifier::from_ulid(1);
    assert_eq!(ulid.to_string(), "00000000000000000000000001");
}

#[test]
fn error_messages_of_the_outside_errors() {
    let err = UlidIdentifier::parse("short").unwrap_err();
    assert_eq!(err.error_message(), "invalid length");
    assert_eq!(err.to_string(), "Invalid ULID format: invalid length");
    let err = UlidIdentifier::parse("0000000000000000000000000!").unwrap_err();
    assert_eq!(err.error_message(), "invalid character");
    let err = UuidIdentifier::parse("not-a-uuid").unwrap_err();
    let message = err.error_message();
    let starts = [
        "invalid character: found `",
        "invalid length: expected 16 bytes, found ",
        "invalid group count: expected 5, found ",
        "invalid group length in group ",
        "non-UTF8 input",
        "the UUID is nil",
        "invalid length: found ",
        "failed to parse a UUID",
        "the system timestamp is invalid: ",
    ];
    assert!(starts.iter().any(|s| message.starts_with(s)));
    assert_eq!(err.to_string(), format!("Invalid UUID format: {}", message));
}

#[test]
fn generated_entity_uuid_is_version_4() {
    let id = entid::UuidEntityId::<Thing>::generate();
    assert_eq!(id.identifier().version(), Some(UuidVersion::Random));
}

struct Thing;

impl entid::Prefix for Thing {
    fn prefix() -> &'static str {
        "thing"
    }
}

#[test]
fn ulid_parse_refuses_letters_outside_the_alphabet() {
    for bad in ["I", "L", "O", "U", "i", "é"] {
        let text = format!("0000000000000000000000000{}", bad);
        assert!(UlidIdentifier::parse(&text).is_err(), "{}", text);
    }
    let ok = UlidIdentifier::parse("7ZZZZZZZZZZZZZZZZZZZZZZZZZ").unwrap();
    assert_eq!(ok.ulid(), u128::MAX);
    // the first digit carries only three bits: the bits above them are lost
    let wrapped = UlidIdentifier::parse("8ZZZZZZZZZZZZZZZZZZZZZZZZZ").unwrap();
    assert_eq!(wrapped.ulid(), (1u128 << 125) - 1);
}

#[test]
fn error_message_is_the_underlying_message() {
    let uuid_err = Uuid::parse_str("not-a-uuid").unwrap_err();
    let err = UuidIdentifier::parse("not-a-uuid").unwrap_err();
    assert_eq!(err.error_message(), uuid_err.to_string());
    assert_eq!(err.to_string(), format!("Invalid UUID format: {}", uuid_err));
    let text: String = (&err).into();
    assert_eq!(text, err.to_string());
    let ulid_err = Ulid::from_string("short").unwrap_err();
    let err = UlidIdentifier::parse("short").unwrap_err();
    assert_eq!(err.error_message(), ulid_err.to_string());
    let owned: String = err.into();
    assert_eq!(owned, format!("Invalid ULID format: {}", ulid_err));
}

#[test]
fn uuid_parse_reads_every_form() {
    let expected = UuidIdentifier::from_uuid(0x67E55044_10B1_426F_9247_BB680E5FE0C8);
    for text in [
        "67e5504410b1426f9247bb680e5fe0c8",
        "67e55044-10b1-426f-9247-bb680e5fe0c8",
        "{67e55044-10b1-426f-9247-bb680e5fe0c8}",
        "urn:uuid:67e55044-10b1-426f-9247-bb680e5fe0c8",
        "URN:Uuid:67E55044-10B1-426F-9247-BB680E5FE0C8",
    ] {
        assert_eq!(UuidIdentifier::parse(text).unwrap(), expected, "{}", text);
    }
    for text in [
        "67e55044-10b1-426f-9247_bb680e5fe0c8",
        "67e55044-10b1-426f-9247-bb680e5fe0cg",
        "(67e55044-10b1-426f-9247-bb680e5fe0c8)",
        "urn:uid::67e55044-10b1-426f-9247-bb680e5fe0c8",
        "67e5504410b1426f9247bb680e5fe0c",
        "67e55044-10b1-426f-9247-bb680e5fe0é",
        "",
    ] {
        assert!(UuidIdentifier::parse(text).is_err(), "{}", text);
    }
}
