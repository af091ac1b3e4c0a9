use dm_assistant::commands::characters::{
    add_character_achievement, check_update_character, validate_ids, validate_three_ids, characters_file_exists, create_character, delete_character,
    get_active_characters_by_campaign, get_character, get_character_with_campaign,
    get_characters_by_campaign, get_characters_by_npc_relationship, level_up_character,
    load_characters_from_file, remove_character_achievement, remove_character_relationship,
    toggle_character_active, update_character, update_character_relationship,
    update_character_with_campaign,
};
use dm_assistant::models::character::{
    AchievementType, AddAchievementRequest, CharacterMutation, CreateCharacterRequest,
    PlayerCharacter, RelationshipType, UpdateCharacterRequest, UpdateRelationshipRequest,
};
use dm_assistant::services::character_storage::{CharacterCollection, CharacterStorageService};
use dm_assistant::utils::clock::Timestamp;
use dm_assistant::utils::error::ErrorKind;

fn at(secs: i64) -> Timestamp {
    Timestamp { secs, nanos: 0 }
}

fn text_of(id: u128) -> String {
    uuid::Uuid::from_u128(id).to_string()
}

fn request(campaign: u128, name: &str, level: u8) -> CreateCharacterRequest {
    CreateCharacterRequest {
        campaign_id: campaign,
        name: name.to_string(),
        race: "Elf".to_string(),
        class: "Wizard".to_string(),
        level,
        max_hp: 30,
        background: "Sage".to_string(),
        notes: None,
    }
}

fn no_change() -> UpdateCharacterRequest {
    UpdateCharacterRequest {
        name: None,
        race: None,
        class: None,
        level: None,
        max_hp: None,
        background: None,
        notes: None,
        is_active: None,
    }
}

#[test]
fn scenario_level_up_at_twenty_is_refused() {
    let mut service = CharacterStorageService::new();
    let created = create_character(&mut service, request(7, "Aria", 20)).unwrap();
    assert_eq!(created.level, 20);
    let refused =
        level_up_character(&mut service, text_of(7), text_of(created.id)).unwrap_err();
    assert_eq!(refused.kind(), ErrorKind::CharacterError);
    assert_eq!(refused.message(), "Character is already at max level (20)");
    assert!(refused.to_string().contains("already at max level (20)"));
    let stored = get_character_with_campaign(&mut service, text_of(7), text_of(created.id))
        .unwrap()
        .unwrap();
    assert_eq!(stored.level, 20);
    assert_eq!(stored.updated_at, created.updated_at);
}

#[test]
fn level_up_below_twenty_raises_the_stored_level() {
    let mut service = CharacterStorageService::new();
    let created = create_character(&mut service, request(7, "Aria", 19)).unwrap();
    let raised = level_up_character(&mut service, text_of(7), text_of(created.id)).unwrap();
    assert_eq!(raised.level, 20);
    assert_eq!(raised.id, created.id);
    assert_eq!(raised.campaign_id, 7);
    assert_eq!(raised.created_at, created.created_at);
    let stored = service.get_character(&7, &created.id).unwrap();
    assert_eq!(stored.level, 20);
    assert_eq!(stored.updated_at, raised.updated_at);
}

#[test]
fn round_trip_of_create_and_get_of_a_character() {
    let mut service = CharacterStorageService::new();
    let mut character = PlayerCharacter::new_with(request(7, "Aria", 3), 1, at(10));
    character.update_relationship_with(
        UpdateRelationshipRequest {
            character_id: 1,
            npc_id: 5,
            relationship_type: RelationshipType::Ally,
            notes: Some("n".to_string()),
        },
        50,
        at(11),
    );
    let stored = service.create_character(character.clone()).unwrap();
    assert_eq!(stored.id, 1);
    let found = service.get_character(&7, &1).unwrap();
    assert_eq!(found.name, character.name);
    assert_eq!(found.race, character.race);
    assert_eq!(found.class, character.class);
    assert_eq!(found.level, character.level);
    assert_eq!(found.max_hp, character.max_hp);
    assert_eq!(found.background, character.background);
    assert_eq!(found.notes, character.notes);
    assert_eq!(found.is_active, character.is_active);
    assert_eq!(found.campaign_id, 7);
    assert_eq!(found.created_at, at(10));
    assert_eq!(found.relationships.len(), 1);
    assert_eq!(found.relationships[0].notes, "n");
    assert!(service.get_character(&7, &2).is_none());
    assert!(service.get_character(&8, &1).is_none());
    let again = service.create_character(character).unwrap_err();
    assert_eq!(again.kind(), ErrorKind::CharacterError);
    assert_eq!(
        again.message(),
        "Character with ID 00000000-0000-0000-0000-000000000001 already exists"
    );
}

#[test]
fn deleting_a_character_that_is_not_there_changes_nothing() {
    let mut service = CharacterStorageService::new();
    service.create_character(PlayerCharacter::new_with(request(7, "Aria", 3), 1, at(10))).unwrap();
    let before = service.files[&7].clone();
    let e = service.delete_character(&7, &2).unwrap_err();
    assert_eq!(e.kind(), ErrorKind::NotFound);
    assert_eq!(
        e.message(),
        "Character with ID '00000000-0000-0000-0000-000000000002' not found"
    );
    let after = &service.files[&7];
    assert_eq!(after.characters.len(), 1);
    assert_eq!(after.updated_at, before.updated_at);
    assert_eq!(after.characters[&1].updated_at, at(10));
    assert!(delete_character(&mut service, text_of(7), text_of(1)).unwrap());
    assert!(service.files[&7].characters.is_empty());
    let e = delete_character(&mut service, "x".to_string(), text_of(1)).unwrap_err();
    assert_eq!(e.message(), "Invalid Campaign ID format");
    let e = delete_character(&mut service, text_of(7), "x".to_string()).unwrap_err();
    assert_eq!(e.message(), "Invalid Character ID format");
}

#[test]
fn each_campaign_has_its_own_file() {
    let mut service = CharacterStorageService::new();
    assert!(!characters_file_exists(&service, text_of(7)).unwrap());
    assert!(characters_file_exists(&service, "nope".to_string()).is_err());
    let a = create_character(&mut service, request(7, "A", 1)).unwrap();
    let b = create_character(&mut service, request(8, "B", 1)).unwrap();
    let c = create_character(&mut service, request(7, "C", 1)).unwrap();
    assert!(characters_file_exists(&service, text_of(7)).unwrap());
    assert!(characters_file_exists(&service, text_of(8)).unwrap());
    toggle_character_active(&mut service, text_of(7), text_of(c.id)).unwrap();
    let mut seven: Vec<u128> =
        get_characters_by_campaign(&mut service, text_of(7)).unwrap().iter().map(|x| x.id).collect();
    seven.sort();
    let mut expected = vec![a.id, c.id];
    expected.sort();
    assert_eq!(seven, expected);
    let eight = load_characters_from_file(&mut service, text_of(8)).unwrap();
    assert_eq!(eight.len(), 1);
    assert_eq!(eight[0].id, b.id);
    let active = get_active_characters_by_campaign(&mut service, text_of(7)).unwrap();
    assert_eq!(active.len(), 1);
    assert_eq!(active[0].id, a.id);
    assert!(get_characters_by_campaign(&mut service, text_of(9)).unwrap().is_empty());
    assert!(characters_file_exists(&service, text_of(9)).unwrap());
    let files = service.into_files();
    assert_eq!(files.len(), 3);
    assert_eq!(files[&9].campaign_id, 9);
    assert_eq!(files[&9].created_at, files[&9].updated_at);
    let mut reopened = CharacterStorageService::open(files);
    assert_eq!(reopened.load_characters(&7).characters.len(), 2);
    let mut changed = reopened.load_characters(&8);
    assert!(changed.remove_character_at(&b.id, at(1)));
    reopened.save_characters(&changed);
    assert!(reopened.get_characters_by_campaign(&8).is_empty());
}

#[test]
fn commands_that_lack_the_campaign_always_fail() {
    let e = get_character(text_of(1)).unwrap_err();
    assert_eq!(e.kind(), ErrorKind::InternalError);
    assert_eq!(
        e.message(),
        "get_character requires campaign context - use get_character_with_campaign instead"
    );
    assert_eq!(get_character("bad".to_string()).unwrap_err().kind(), ErrorKind::InvalidInput);
    let e = update_character(text_of(1), no_change()).unwrap_err();
    assert_eq!(e.kind(), ErrorKind::InternalError);
    assert_eq!(
        e.message(),
        "update_character requires campaign context - use update_character_with_campaign instead"
    );
    assert_eq!(
        update_character("bad".to_string(), no_change()).unwrap_err().kind(),
        ErrorKind::InvalidInput
    );
    let service = CharacterStorageService::new();
    let e = get_characters_by_npc_relationship(&service, text_of(1)).unwrap_err();
    assert_eq!(e.kind(), ErrorKind::InternalError);
    assert_eq!(e.message(), "Cross-campaign NPC relationship search not implemented yet");
    let e = get_characters_by_npc_relationship(&service, "bad".to_string()).unwrap_err();
    assert_eq!(e.message(), "Invalid NPC ID format");
}

#[test]
fn achievements_through_the_store() {
    let mut service = CharacterStorageService::new();
    let c = create_character(&mut service, request(7, "A", 1)).unwrap();
    let add = AddAchievementRequest {
        character_id: c.id,
        title: "t".to_string(),
        description: "d".to_string(),
        quest_id: None,
        session_date: None,
        achievement_type: AchievementType::QuestCompleted,
    };
    let with = add_character_achievement(&mut service, text_of(7), add).unwrap();
    assert_eq!(with.achievements.len(), 1);
    let achievement_id = with.achievements[0].id;
    let missing = text_of(achievement_id ^ 1).to_uppercase();
    let e = remove_character_achievement(&mut service, text_of(7), text_of(c.id), missing.clone())
        .unwrap_err();
    assert_eq!(e.kind(), ErrorKind::NotFound);
    assert_eq!(e.message(), format!("Achievement with ID '{}' not found", missing));
    assert_eq!(service.get_character(&7, &c.id).unwrap().achievements.len(), 1);
    let e = remove_character_achievement(&mut service, text_of(7), text_of(c.id), "?".to_string())
        .unwrap_err();
    assert_eq!(e.message(), "Invalid Achievement ID format");
    let without =
        remove_character_achievement(&mut service, text_of(7), text_of(c.id), text_of(achievement_id))
            .unwrap();
    assert!(without.achievements.is_empty());
    assert!(service.get_character(&7, &c.id).unwrap().achievements.is_empty());
}

#[test]
fn one_relationship_for_each_npc_whatever_the_sequence_of_calls() {
    let mut service = CharacterStorageService::new();
    let c = create_character(&mut service, request(7, "A", 1)).unwrap();
    let calls = [
        (RelationshipType::Neutral, None),
        (RelationshipType::Suspicious, Some("odd fellow")),
        (RelationshipType::Friendly, None),
        (RelationshipType::Respected, Some("saved us")),
        (RelationshipType::Ally, None),
    ];
    for (kind, notes) in calls {
        let req = UpdateRelationshipRequest {
            character_id: c.id,
            npc_id: 50,
            relationship_type: kind,
            notes: notes.map(|n: &str| n.to_string()),
        };
        update_character_relationship(&mut service, text_of(7), req).unwrap();
    }
    let stored = service.get_character(&7, &c.id).unwrap();
    assert_eq!(stored.relationships.iter().filter(|r| r.npc_id == 50).count(), 1);
    let r = stored.get_relationship(50).unwrap();
    assert_eq!(r.relationship_type, RelationshipType::Ally);
    assert_eq!(r.notes, "saved us");
    assert_eq!(r.character_id, c.id);
    assert!(r.last_interaction.is_some());

    let e = remove_character_relationship(&mut service, text_of(7), text_of(c.id), text_of(51))
        .unwrap_err();
    assert_eq!(e.kind(), ErrorKind::NotFound);
    assert_eq!(
        e.message(),
        format!(
            "Relationship with ID 'Character {} with NPC {}' not found",
            text_of(c.id),
            text_of(51)
        )
    );
    let e = remove_character_relationship(&mut service, text_of(7), text_of(c.id), "!".to_string())
        .unwrap_err();
    assert_eq!(e.message(), "Invalid NPC ID format");
    let gone =
        remove_character_relationship(&mut service, text_of(7), text_of(c.id), text_of(50)).unwrap();
    assert!(gone.relationships.is_empty());
}

#[test]
fn patches_through_the_store() {
    let mut service = CharacterStorageService::new();
    let c = create_character(&mut service, request(7, "A", 1)).unwrap();
    let mut patch = no_change();
    patch.name = Some("Renamed".to_string());
    let updated =
        update_character_with_campaign(&mut service, text_of(7), text_of(c.id), patch).unwrap();
    assert_eq!(updated.name, "Renamed");
    assert_eq!(updated.level, 1);
    assert_eq!(service.get_character(&7, &c.id).unwrap().name, "Renamed");
    let e = update_character_with_campaign(&mut service, text_of(7), text_of(3), no_change())
        .unwrap_err();
    assert_eq!(e.kind(), ErrorKind::NotFound);
    let e = service.modify_character(&7, &3, CharacterMutation::LevelUp).unwrap_err();
    assert_eq!(e.kind(), ErrorKind::NotFound);
    let mut replacement = PlayerCharacter::new_with(request(7, "Other", 9), c.id, at(5));
    replacement.notes = "r".to_string();
    assert_eq!(service.update_character(replacement.clone()).unwrap().name, "Other");
    assert_eq!(service.get_character(&7, &c.id).unwrap().level, 9);
    replacement.id = 12345;
    assert_eq!(service.update_character(replacement).unwrap_err().kind(), ErrorKind::NotFound);
}

#[test]
fn character_collection_operations() {
    let mut collection = CharacterCollection::new_at(7, at(0));
    assert_eq!(collection.campaign_id, 7);
    assert!(!collection.update_character_at(PlayerCharacter::new_with(request(7, "x", 1), 1, at(1)), at(2)));
    assert_eq!(collection.updated_at, at(0));
    collection.add_character_at(PlayerCharacter::new_with(request(7, "x", 1), 1, at(1)), at(3));
    assert_eq!(collection.updated_at, at(3));
    assert!(collection.update_character_at(PlayerCharacter::new_with(request(7, "y", 1), 1, at(1)), at(4)));
    assert_eq!(collection.get_character(&1).unwrap().name, "y");
    assert!(collection.get_character(&2).is_none());
    assert_eq!(collection.get_all_characters().len(), 1);
    assert_eq!(collection.get_active_characters().len(), 1);
    assert!(!collection.remove_character_at(&2, at(5)));
    assert_eq!(collection.updated_at, at(4));
    assert!(collection.remove_character_at(&1, at(6)));
    assert_eq!(collection.updated_at, at(6));
    assert!(collection.get_all_characters().is_empty());
    let mut now = CharacterCollection::new(8);
    now.add_character(PlayerCharacter::new_with(request(8, "x", 1), 1, at(1)));
    assert!(now.update_character(PlayerCharacter::new_with(request(8, "z", 1), 1, at(1))));
    assert!(now.remove_character(&1));
    assert_eq!(now.created_at.secs > 0, true);
}

#[test]
fn a_patch_with_a_bad_field_is_refused_as_a_whole() {
    let mut service = CharacterStorageService::new();
    let c = create_character(&mut service, request(7, "Aria", 5)).unwrap();
    let cases: Vec<(UpdateCharacterRequest, &str)> = vec![
        (
            UpdateCharacterRequest { level: Some(0), race: Some("Orc".to_string()), ..no_change() },
            "Character level must be between 1 and 20",
        ),
        (
            UpdateCharacterRequest { level: Some(21), notes: Some("n".to_string()), ..no_change() },
            "Character level must be between 1 and 20",
        ),
        (
            UpdateCharacterRequest { name: Some(" \t".to_string()), level: Some(6), ..no_change() },
            "Character name cannot be empty",
        ),
        (
            UpdateCharacterRequest { name: Some("".to_string()), level: Some(0), ..no_change() },
            "Character name cannot be empty",
        ),
        (
            UpdateCharacterRequest { max_hp: Some(0), is_active: Some(false), ..no_change() },
            "Character max HP must be greater than 0",
        ),
    ];
    for (patch, words) in cases {
        let e = update_character_with_campaign(&mut service, text_of(7), text_of(c.id), patch)
            .unwrap_err();
        assert_eq!(e.kind(), ErrorKind::ValidationError);
        assert_eq!(e.message(), words);
        let stored = service.get_character(&7, &c.id).unwrap();
        assert_eq!(stored.level, 5);
        assert_eq!(stored.name, "Aria");
        assert_eq!(stored.race, "Elf");
        assert_eq!(stored.notes, "");
        assert_eq!(stored.max_hp, 30);
        assert!(stored.is_active);
        assert_eq!(stored.updated_at, c.updated_at);
    }
    for level in [1u8, 20] {
        let patch = UpdateCharacterRequest { level: Some(level), max_hp: Some(1), ..no_change() };
        let updated =
            update_character_with_campaign(&mut service, text_of(7), text_of(c.id), patch).unwrap();
        assert_eq!(updated.level, level);
        assert_eq!(updated.max_hp, 1);
    }
}

#[test]
fn a_bad_patch_is_refused_before_the_store_is_touched() {
    let mut service = CharacterStorageService::new();
    let patch = UpdateCharacterRequest { level: Some(0), ..no_change() };
    let e = update_character_with_campaign(&mut service, text_of(7), text_of(1), patch).unwrap_err();
    assert_eq!(e.kind(), ErrorKind::ValidationError);
    assert!(service.files.is_empty());
    let patch = UpdateCharacterRequest { level: Some(0), ..no_change() };
    let e = update_character_with_campaign(&mut service, "x".to_string(), text_of(1), patch)
        .unwrap_err();
    assert_eq!(e.kind(), ErrorKind::InvalidInput);
    let bad = UpdateCharacterRequest { level: Some(0), ..no_change() };
    assert!(check_update_character(&text_of(7), &text_of(1), &bad).is_err());
    assert_eq!(check_update_character(&text_of(7), &text_of(1), &no_change()).unwrap(), (7, 1));
    assert_eq!(validate_ids(&text_of(7), &text_of(1)).unwrap(), (7, 1));
    assert_eq!(validate_three_ids(&text_of(7), &text_of(1), &text_of(2), "NPC").unwrap(), (7, 1, 2));
    let e = validate_three_ids(&text_of(7), &text_of(1), "?", "NPC").unwrap_err();
    assert_eq!(e.message(), "Invalid NPC ID format");
    // the change itself refuses the patch too, whoever asks for it
    service.create_character(PlayerCharacter::new_with(request(7, "A", 3), 1, at(1))).unwrap();
    let bad = UpdateCharacterRequest { level: Some(21), ..no_change() };
    let e = service.modify_character(&7, &1, CharacterMutation::Update(bad)).unwrap_err();
    assert_eq!(e.kind(), ErrorKind::ValidationError);
    assert_eq!(service.get_character(&7, &1).unwrap().level, 3);
    assert_eq!(service.get_character(&7, &1).unwrap().updated_at, at(1));
}

#[test]
fn a_new_character_never_takes_an_identifier_that_is_in_use() {
    let mut service = CharacterStorageService::new();
    let first = service.create_new(PlayerCharacter::new_with(request(7, "A", 1), 42, at(1)));
    assert_eq!(first.id, 42);
    let second = service.create_new(PlayerCharacter::new_with(request(7, "B", 1), 42, at(2)));
    assert_ne!(second.id, 42);
    assert_eq!(second.name, "B");
    assert_eq!(second.created_at, at(2));
    let third = service.create_new(PlayerCharacter::new_with(request(7, "C", 1), 42, at(3)));
    assert_ne!(third.id, 42);
    assert_ne!(third.id, second.id);
    let other = service.create_new(PlayerCharacter::new_with(request(8, "D", 1), 42, at(4)));
    assert_eq!(other.id, 42);
    assert_eq!(service.get_characters_by_campaign(&7).len(), 3);
    assert_eq!(service.get_character(&7, &42).unwrap().name, "A");
    assert_eq!(service.get_character(&7, &second.id).unwrap().name, "B");
    for _ in 0..20 {
        assert!(create_character(&mut service, request(7, "E", 1)).is_ok());
    }
    assert_eq!(service.get_characters_by_campaign(&7).len(), 23);
}

#[test]
fn the_time_of_last_change_is_never_before_the_creation() {
    let far = Timestamp { secs: i64::MAX / 2, nanos: 5 };
    let mut service = CharacterStorageService::new();
    service.create_character(PlayerCharacter::new_with(request(7, "A", 1), 1, far)).unwrap();
    let changed = service.modify_character(&7, &1, CharacterMutation::ToggleActive).unwrap();
    assert!(!changed.is_active);
    assert_eq!(changed.created_at, far);
    assert_eq!(changed.updated_at, far);
    let made = create_character(&mut service, request(7, "B", 1)).unwrap();
    assert_eq!(made.created_at, made.updated_at);
    let later = level_up_character(&mut service, text_of(7), text_of(made.id)).unwrap();
    assert!(!later.created_at.is_after(&later.updated_at));
    let found = service.get_character(&7, &made.id).unwrap();
    assert_eq!(found.created_at, made.created_at);
    assert!(!found.created_at.is_after(&found.updated_at));
}
