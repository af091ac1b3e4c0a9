use dm_assistant::utils::error::{
    validate_non_empty, validate_range, validate_uuid, DmAssistantError, ErrorKind,
};

#[test]
fn test_error_display() {
    let error = DmAssistantError::not_found("Character", "123");
    assert_eq!(error.to_string(), "Not Found: Character with ID '123' not found");
}

#[test]
fn test_error_category() {
    let error = DmAssistantError::character("test");
    assert_eq!(error.category(), "character");
}

#[test]
fn test_user_message() {
    let error = DmAssistantError::not_found("Character", "123");
    assert_eq!(error.user_message(), "Personaggio non trovato");
}

#[test]
fn test_is_recoverable() {
    assert!(!DmAssistantError::not_found("Character", "123").is_recoverable());
    assert!(DmAssistantError::invalid_input("test").is_recoverable());
}

#[test]
fn test_validate_uuid() {
    assert!(validate_uuid("invalid", "Character").is_err());
    assert!(validate_uuid("550e8400-e29b-41d4-a716-446655440000", "Character").is_ok());
}

#[test]
fn test_validate_non_empty() {
    assert!(validate_non_empty("", "name").is_err());
    assert!(validate_non_empty("  ", "name").is_err());
    assert!(validate_non_empty("valid", "name").is_ok());
}

#[test]
fn test_validate_range() {
    assert!(validate_range(5, 1, 10, "level").is_ok());
    assert!(validate_range(0, 1, 10, "level").is_err());
    assert!(validate_range(11, 1, 10, "level").is_err());
}

fn every_error() -> Vec<(DmAssistantError, ErrorKind, &'static str, &'static str, bool)> {
    vec![
        (DmAssistantError::not_found_msg("m"), ErrorKind::NotFound, "not_found", "Not Found: m", false),
        (DmAssistantError::invalid_input("m"), ErrorKind::InvalidInput, "invalid_input", "Invalid Input: m", true),
        (DmAssistantError::storage("m"), ErrorKind::StorageError, "storage", "Storage Error: m", true),
        (DmAssistantError::validation("m"), ErrorKind::ValidationError, "validation", "Validation Error: m", true),
        (DmAssistantError::io("m"), ErrorKind::IoError, "io", "IO Error: m", true),
        (DmAssistantError::json("m"), ErrorKind::JsonError, "json", "JSON Error: m", false),
        (DmAssistantError::internal("m"), ErrorKind::InternalError, "internal", "Internal Error: m", false),
        (DmAssistantError::campaign("m"), ErrorKind::CampaignError, "campaign", "Campaign Error: m", true),
        (DmAssistantError::character("m"), ErrorKind::CharacterError, "character", "Character Error: m", true),
        (DmAssistantError::npc("m"), ErrorKind::NpcError, "npc", "NPC Error: m", true),
        (DmAssistantError::combat("m"), ErrorKind::CombatError, "combat", "Combat Error: m", true),
        (DmAssistantError::quest("m"), ErrorKind::QuestError, "quest", "Quest Error: m", true),
        (DmAssistantError::item("m"), ErrorKind::ItemError, "item", "Item Error: m", true),
        (DmAssistantError::map("m"), ErrorKind::MapError, "map", "Map Error: m", true),
        (DmAssistantError::auth("m"), ErrorKind::AuthError, "auth", "Auth Error: m", false),
    ]
}

#[test]
fn every_kind_has_its_category_display_and_recoverability() {
    for (error, kind, category, display, recoverable) in every_error() {
        assert_eq!(error.kind(), kind);
        assert_eq!(error.message(), "m");
        assert_eq!(error.category(), category);
        assert_eq!(error.to_string(), display);
        assert_eq!(error.is_recoverable(), recoverable);
        let copy = error.clone();
        assert_eq!(copy.kind(), kind);
        assert_eq!(copy.message(), "m");
    }
}

#[test]
fn of_kind_builds_the_variant_asked_for() {
    for (error, kind, _, display, _) in every_error() {
        let built = DmAssistantError::of_kind(kind, error.message());
        assert_eq!(built.kind(), kind);
        assert_eq!(built.to_string(), display);
    }
}

#[test]
fn user_messages_are_in_italian() {
    assert_eq!(
        DmAssistantError::not_found("Campaign", "1").user_message(),
        "Campagna non trovata"
    );
    assert_eq!(DmAssistantError::not_found("NPC", "1").user_message(), "NPC non trovato");
    assert_eq!(DmAssistantError::not_found("Quest", "1").user_message(), "Elemento non trovato");
    assert_eq!(
        DmAssistantError::not_found_msg("the Character Campaign").user_message(),
        "Personaggio non trovato"
    );
    assert_eq!(DmAssistantError::invalid_input("x").user_message(), "Dati inseriti non validi");
    assert_eq!(
        DmAssistantError::storage("x").user_message(),
        "Errore nel salvataggio dei dati"
    );
    assert_eq!(
        DmAssistantError::validation("x").user_message(),
        "Errore di validazione: x"
    );
    assert_eq!(DmAssistantError::io("x").user_message(), "Errore di lettura/scrittura file");
    assert_eq!(DmAssistantError::json("x").user_message(), "Errore nel formato dei dati");
    assert_eq!(
        DmAssistantError::internal("x").user_message(),
        "Errore interno dell'applicazione"
    );
    assert_eq!(DmAssistantError::campaign("x").user_message(), "Errore campagna: x");
    assert_eq!(DmAssistantError::character("x").user_message(), "Errore personaggio: x");
    assert_eq!(DmAssistantError::npc("x").user_message(), "Errore NPC: x");
    assert_eq!(DmAssistantError::combat("x").user_message(), "Errore combattimento: x");
    assert_eq!(DmAssistantError::quest("x").user_message(), "Errore quest: x");
    assert_eq!(DmAssistantError::item("x").user_message(), "Errore oggetto: x");
    assert_eq!(DmAssistantError::map("x").user_message(), "Errore mappa: x");
    assert_eq!(DmAssistantError::auth("x").user_message(), "Errore di autorizzazione");
}

#[test]
fn validate_uuid_reads_the_identifier_and_names_the_entity_on_failure() {
    let id = validate_uuid("550e8400-e29b-41d4-a716-446655440000", "Character").unwrap();
    assert_eq!(id, 0x550e8400_e29b_41d4_a716_446655440000u128);
    let error = validate_uuid("invalid", "Character").unwrap_err();
    assert_eq!(error.kind(), ErrorKind::InvalidInput);
    assert_eq!(error.message(), "Invalid Character ID format");
}

#[test]
fn validate_non_empty_names_the_field_on_failure() {
    let error = validate_non_empty(" \t\n", "Campaign name").unwrap_err();
    assert_eq!(error.kind(), ErrorKind::ValidationError);
    assert_eq!(error.message(), "Campaign name cannot be empty");
    assert!(validate_non_empty(" a ", "Campaign name").is_ok());
}

#[test]
fn validate_range_includes_both_bounds_and_words_the_failure() {
    assert!(validate_range(1, 1, 10, "level").is_ok());
    assert!(validate_range(10, 1, 10, "level").is_ok());
    let error = validate_range(11, 1, 10, "level").unwrap_err();
    assert_eq!(error.kind(), ErrorKind::ValidationError);
    assert_eq!(error.message(), "level must be between 1 and 10");
    let negative = validate_range(-7, -5, 120, "offset").unwrap_err();
    assert_eq!(negative.message(), "offset must be between -5 and 120");
}

#[test]
fn outside_errors_become_errors_of_the_application() {
    let bad_uuid = uuid::Uuid::parse_str("nope").unwrap_err();
    let converted = DmAssistantError::from(bad_uuid);
    assert_eq!(converted.kind(), ErrorKind::InvalidInput);
    assert!(converted.message().starts_with("Invalid UUID: "));
    assert!(converted.message().len() > "Invalid UUID: ".len());

    let bad_json = serde_json::from_str::<serde_json::Value>("{").unwrap_err();
    let words = bad_json.to_string();
    let converted = DmAssistantError::from(bad_json);
    assert_eq!(converted.kind(), ErrorKind::JsonError);
    assert_eq!(converted.message(), words);

    let io = std::io::Error::new(std::io::ErrorKind::Other, "disk on fire");
    let converted = DmAssistantError::from(io);
    assert_eq!(converted.kind(), ErrorKind::IoError);
    assert_eq!(converted.message(), "disk on fire");
}
