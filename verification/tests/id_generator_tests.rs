use dm_assistant::utils::id_generator::{
    generate_id, generate_id_string, generate_short_id, id_to_string, is_valid_uuid,
    to_short_display,
    to_short_display_str, V4_BITS, V4_MASK,
};

#[test]
fn test_generate_id() {
    let id1 = generate_id();
    let id2 = generate_id();
    assert_ne!(id1, id2);
}

#[test]
fn test_generate_id_string() {
    let id = generate_id_string();
    assert!(is_valid_uuid(&id));
}

#[test]
fn test_generate_short_id() {
    let short_id = generate_short_id();
    assert_eq!(short_id.len(), 8);
}

#[test]
fn test_is_valid_uuid() {
    assert!(is_valid_uuid("550e8400-e29b-41d4-a716-446655440000"));
    assert!(!is_valid_uuid("invalid-uuid"));
    assert!(!is_valid_uuid(""));
}

#[test]
fn test_to_short_display() {
    let uuid = uuid::Uuid::parse_str("550e8400-e29b-41d4-a716-446655440000").unwrap().as_u128();
    let short = to_short_display(&uuid);
    assert_eq!(short, "550e8400");
}

#[test]
fn test_to_short_display_str() {
    let short = to_short_display_str("550e8400-e29b-41d4-a716-446655440000").unwrap();
    assert_eq!(short, "550e8400");

    assert!(to_short_display_str("invalid").is_err());
}

#[test]
fn generated_identifiers_carry_the_version_four_bits() {
    for _ in 0..32 {
        let id = generate_id();
        assert_eq!(id & V4_MASK, V4_BITS);
        assert_eq!(uuid::Uuid::from_u128(id).get_version_num(), 4);
    }
}

#[test]
fn generated_text_is_the_canonical_form() {
    let text = generate_id_string();
    assert_eq!(text.len(), 36);
    let parsed = uuid::Uuid::parse_str(&text).unwrap();
    assert_eq!(parsed.to_string(), text);
    assert_eq!(text, text.to_lowercase());
}

#[test]
fn short_display_is_the_top_thirty_two_bits_in_lower_case_hex() {
    assert_eq!(to_short_display(&0u128), "00000000");
    assert_eq!(to_short_display(&u128::MAX), "ffffffff");
    assert_eq!(to_short_display(&0xABCDEF01_0000_0000_0000_000000000000u128), "abcdef01");
    assert_eq!(to_short_display_str("ABCDEF0123456789ABCDEF0123456789").unwrap(), "abcdef01");
}

#[test]
fn the_parser_takes_the_spellings_of_the_uuid_crate() {
    assert!(is_valid_uuid("550e8400e29b41d4a716446655440000"));
    assert!(is_valid_uuid("urn:uuid:550e8400-e29b-41d4-a716-446655440000"));
    assert!(is_valid_uuid("{550e8400-e29b-41d4-a716-446655440000}"));
    assert!(!is_valid_uuid("550e8400-e29b-41d4-a716-44665544000"));
    assert!(!is_valid_uuid("g50e8400-e29b-41d4-a716-446655440000"));
}

#[test]
fn the_text_of_an_identifier_reads_back_as_the_identifier() {
    use_round_trip(0);
    use_round_trip(u128::MAX);
    use_round_trip(0x550e8400_e29b_41d4_a716_446655440000);
    for _ in 0..16 {
        use_round_trip(generate_id());
    }
    assert_eq!(id_to_string(&0x550e8400_e29b_41d4_a716_446655440000), "550e8400-e29b-41d4-a716-446655440000");
}

fn use_round_trip(id: u128) {
    let text = id_to_string(&id);
    assert_eq!(text.len(), 36);
    assert_eq!(uuid::Uuid::parse_str(&text).unwrap().as_u128(), id);
    assert_eq!(dm_assistant::utils::error::validate_uuid(&text, "Campaign").unwrap(), id);
}
