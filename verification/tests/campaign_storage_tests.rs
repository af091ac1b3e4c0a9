use dm_assistant::commands::campaigns::{
    archive_campaign, campaigns_file_exists, check_campaign_stats, check_duplicate,
    check_update_campaign, clear_current_campaign, complete_campaign, validate_backup_frequency,
    validate_theme,
    count_campaigns, create_campaign, delete_campaign, duplicate_campaign, export_campaign, get_active_campaign_count,
    get_active_campaigns, get_all_campaigns, get_app_settings, get_campaign, get_campaign_count,
    get_campaign_or_error, get_campaign_summaries, get_current_campaign, get_recent_campaigns,
    initialize_app, pause_campaign, resume_campaign, set_current_campaign, start_campaign_session,
    update_app_theme, update_backup_settings, update_campaign, update_campaign_stats,
    validate_campaign_modifiable, validate_campaign_name, validate_name_unique_excluding,
};
use dm_assistant::models::campaign::{
    AverageLevel, Campaign, CampaignMutation, CampaignStatus, CreateCampaignRequest,
    DifficultyLevel, SettingsMutation, UpdateCampaignRequest,
};
use dm_assistant::services::campaign_storage::{CampaignCollection, CampaignStorageService};
use dm_assistant::utils::clock::Timestamp;
use dm_assistant::utils::error::ErrorKind;
use dm_assistant::utils::id_generator::to_short_display;

fn at(secs: i64) -> Timestamp {
    Timestamp { secs, nanos: 0 }
}

fn request(name: &str) -> CreateCampaignRequest {
    CreateCampaignRequest {
        name: name.to_string(),
        description: "d".to_string(),
        setting: "Forgotten Realms".to_string(),
        dm_notes: None,
        difficulty_level: DifficultyLevel::Normal,
        player_count: Some(5),
    }
}

fn no_change() -> UpdateCampaignRequest {
    UpdateCampaignRequest {
        name: None,
        description: None,
        setting: None,
        dm_notes: None,
        difficulty_level: None,
        player_count: None,
        is_active: None,
    }
}

fn text_of(id: u128) -> String {
    uuid::Uuid::from_u128(id).to_string()
}

fn same_fields_but_updated_at(a: &Campaign, b: &Campaign) {
    assert_eq!(a.id, b.id);
    assert_eq!(a.name, b.name);
    assert_eq!(a.description, b.description);
    assert_eq!(a.setting, b.setting);
    assert_eq!(a.dm_notes, b.dm_notes);
    assert_eq!(a.current_session, b.current_session);
    assert_eq!(a.is_active, b.is_active);
    assert_eq!(a.campaign_info, b.campaign_info);
    assert_eq!(a.player_count, b.player_count);
    assert_eq!(a.average_level, b.average_level);
    assert_eq!(a.created_at, b.created_at);
    assert_eq!(a.last_session_date, b.last_session_date);
}

#[test]
fn scenario_create_then_set_and_get_current() {
    let mut service = CampaignStorageService::open(None);
    let created = create_campaign(&mut service, request("Lost Mines")).unwrap();
    assert_eq!(created.campaign_info.campaign_status, CampaignStatus::Planning);
    assert_eq!(f32::from_bits(created.average_level.to_bits()), 1.0);
    assert_eq!(created.player_count, 5);
    assert_eq!(created.name, "Lost Mines");
    assert_eq!(created.id & 0xf000_0000_0000_0000_0000u128, 0x4000_0000_0000_0000_0000u128);

    let set = set_current_campaign(&mut service, text_of(created.id)).unwrap();
    assert_eq!(set.id, created.id);
    let current = get_current_campaign(&mut service).unwrap().unwrap();
    same_fields_but_updated_at(&current, &created);
    assert_eq!(current.updated_at, created.updated_at);
    let settings = get_app_settings(&mut service).unwrap();
    assert_eq!(settings.current_campaign_id, Some(created.id));
    assert_eq!(settings.recent_campaigns, vec![created.id]);
}

#[test]
fn scenario_active_campaign_with_characters_cannot_be_deleted() {
    let mut service = CampaignStorageService::open(None);
    let created = create_campaign(&mut service, request("Lost Mines")).unwrap();
    let id = text_of(created.id);
    update_campaign_stats(&mut service, id.clone(), 1, 1, AverageLevel::one()).unwrap();
    let before = service.stored.clone().unwrap();
    let refused = delete_campaign(&mut service, id.clone()).unwrap_err();
    assert_eq!(refused.kind(), ErrorKind::CampaignError);
    assert_eq!(
        refused.message(),
        "Cannot delete active campaign with characters. Archive it first."
    );
    let all = get_all_campaigns(&mut service).unwrap();
    assert_eq!(all.len(), 1);
    assert_eq!(all[0].id, created.id);
    assert!(all[0].is_active);
    assert_eq!(all[0].campaign_info.total_characters, 1);
    assert_eq!(service.stored.as_ref().unwrap().updated_at, before.updated_at);

    archive_campaign(&mut service, id.clone()).unwrap();
    assert!(delete_campaign(&mut service, id).unwrap());
    assert!(get_all_campaigns(&mut service).unwrap().is_empty());
}

#[test]
fn round_trip_of_create_and_get() {
    let mut service = CampaignStorageService::open(None);
    let mut campaign = Campaign::new_with(request("Round"), 77, at(1000));
    campaign.dm_notes = "n".to_string();
    campaign.last_session_date = Some(at(900));
    let stored = service.create_campaign(campaign.clone()).unwrap();
    same_fields_but_updated_at(&stored, &campaign);
    let found = service.get_campaign(&77).unwrap();
    same_fields_but_updated_at(&found, &campaign);
    assert_eq!(found.created_at, at(1000));
    assert!(service.get_campaign(&78).is_none());
    let again = service.create_campaign(campaign).unwrap_err();
    assert_eq!(again.kind(), ErrorKind::CampaignError);
    assert_eq!(
        again.message(),
        "Campaign with ID 00000000-0000-0000-0000-00000000004d already exists"
    );
    assert_eq!(get_campaign_count(&mut service).unwrap(), 1);
}

#[test]
fn deleting_what_is_not_there_changes_nothing() {
    let mut service = CampaignStorageService::open(None);
    service.create_campaign(Campaign::new_with(request("A"), 1, at(10))).unwrap();
    let before = service.stored.clone().unwrap();
    let e = service.delete_campaign(&2).unwrap_err();
    assert_eq!(e.kind(), ErrorKind::NotFound);
    assert_eq!(
        e.message(),
        "Campaign with ID '00000000-0000-0000-0000-000000000002' not found"
    );
    let after = service.stored.clone().unwrap();
    assert_eq!(after.campaigns.len(), 1);
    assert_eq!(after.updated_at, before.updated_at);
    assert_eq!(after.created_at, before.created_at);
    assert_eq!(after.app_settings.updated_at, before.app_settings.updated_at);
    assert_eq!(after.campaigns[&1].updated_at, before.campaigns[&1].updated_at);
    let e = delete_campaign(&mut service, "not-an-id".to_string()).unwrap_err();
    assert_eq!(e.kind(), ErrorKind::InvalidInput);
    assert_eq!(e.message(), "Invalid Campaign ID format");
}

#[test]
fn pause_is_guarded_and_resume_brings_the_campaign_back() {
    let mut service = CampaignStorageService::open(None);
    let created = create_campaign(&mut service, request("P")).unwrap();
    let id = text_of(created.id);
    let refused = pause_campaign(&mut service, id.clone()).unwrap_err();
    assert_eq!(refused.kind(), ErrorKind::CampaignError);
    assert_eq!(refused.message(), "Can only pause active campaigns");
    let still = get_campaign(&mut service, id.clone()).unwrap().unwrap();
    assert_eq!(still.campaign_info.campaign_status, CampaignStatus::Planning);
    assert_eq!(still.updated_at, created.updated_at);

    let started = start_campaign_session(&mut service, id.clone()).unwrap();
    assert_eq!(started.campaign_info.campaign_status, CampaignStatus::Active);
    assert_eq!(started.current_session, 1);
    let paused = pause_campaign(&mut service, id.clone()).unwrap();
    assert_eq!(paused.campaign_info.campaign_status, CampaignStatus::OnHold);
    let resumed = resume_campaign(&mut service, id.clone()).unwrap();
    assert_eq!(resumed.campaign_info.campaign_status, CampaignStatus::Active);
    let stored = get_campaign(&mut service, id.clone()).unwrap().unwrap();
    assert_eq!(stored.campaign_info.campaign_status, CampaignStatus::Active);
    assert_eq!(stored.current_session, 1);
    let refused = resume_campaign(&mut service, id.clone()).unwrap_err();
    assert_eq!(refused.kind(), ErrorKind::CampaignError);
    let done = complete_campaign(&mut service, id.clone()).unwrap();
    assert_eq!(done.campaign_info.campaign_status, CampaignStatus::Completed);
    assert!(!done.is_active);
    let refused = complete_campaign(&mut service, id).unwrap_err();
    assert_eq!(refused.message(), "Cannot complete a non-playable campaign");
}

#[test]
fn first_access_leaves_a_collection_behind() {
    let mut service = CampaignStorageService::open(None);
    assert!(!campaigns_file_exists(&service).unwrap());
    assert!(get_all_campaigns(&mut service).unwrap().is_empty());
    assert!(campaigns_file_exists(&service).unwrap());
    let stored = service.into_stored().unwrap();
    assert!(stored.campaigns.is_empty());
    assert_eq!(stored.app_settings.theme, "dark");
    assert_eq!(stored.created_at, stored.updated_at);
    assert_eq!(stored.app_settings.created_at, stored.created_at);

    let mut other = CampaignStorageService::open(None);
    assert_eq!(
        initialize_app(&mut other).unwrap(),
        "App initialized successfully. Current campaign: None"
    );
    let c = create_campaign(&mut other, request("Here")).unwrap();
    set_current_campaign(&mut other, text_of(c.id)).unwrap();
    assert_eq!(
        initialize_app(&mut other).unwrap(),
        "App initialized successfully. Current campaign: Here"
    );
    let loaded = other.load_collection();
    assert_eq!(loaded.campaigns.len(), 1);
    let mut third = CampaignStorageService::open(None);
    third.save_collection(&loaded);
    assert_eq!(get_campaign_count(&mut third).unwrap(), 1);
}

#[test]
fn requests_are_checked_before_the_store_is_touched() {
    let mut service = CampaignStorageService::open(None);
    let mut blank = request("  ");
    let e = create_campaign(&mut service, blank.clone()).unwrap_err();
    assert_eq!(e.kind(), ErrorKind::ValidationError);
    assert_eq!(e.message(), "Campaign name cannot be empty");
    blank.name = "n".to_string();
    blank.description = "".to_string();
    assert_eq!(
        create_campaign(&mut service, blank.clone()).unwrap_err().message(),
        "Campaign description cannot be empty"
    );
    blank.description = "d".to_string();
    blank.setting = "\t".to_string();
    assert_eq!(
        create_campaign(&mut service, blank.clone()).unwrap_err().message(),
        "Campaign setting cannot be empty"
    );
    blank.setting = "s".to_string();
    for bad in [0u8, 13, 255] {
        blank.player_count = Some(bad);
        let e = create_campaign(&mut service, blank.clone()).unwrap_err();
        assert_eq!(e.kind(), ErrorKind::ValidationError);
        assert_eq!(e.message(), "Player count must be between 1 and 12");
    }
    assert!(service.stored.is_none());
    for good in [1u8, 12] {
        blank.player_count = Some(good);
        assert_eq!(create_campaign(&mut service, blank.clone()).unwrap().player_count, good);
    }
}

#[test]
fn update_checks_identifier_then_patch_then_runs() {
    let mut service = CampaignStorageService::open(None);
    let created = create_campaign(&mut service, request("U")).unwrap();
    let id = text_of(created.id);
    let mut patch = no_change();
    patch.name = Some(" ".to_string());
    let e = update_campaign(&mut service, "zzz".to_string(), patch.clone()).unwrap_err();
    assert_eq!(e.kind(), ErrorKind::InvalidInput);
    let e = update_campaign(&mut service, id.clone(), patch.clone()).unwrap_err();
    assert_eq!(e.message(), "Campaign name cannot be empty");
    patch.name = Some("Renamed".to_string());
    patch.player_count = Some(13);
    let e = update_campaign(&mut service, id.clone(), patch.clone()).unwrap_err();
    assert_eq!(e.message(), "Player count must be between 1 and 12");
    assert_eq!(get_campaign(&mut service, id.clone()).unwrap().unwrap().name, "U");
    patch.player_count = Some(2);
    let updated = update_campaign(&mut service, id.clone(), patch.clone()).unwrap();
    assert_eq!(updated.name, "Renamed");
    assert_eq!(updated.player_count, 2);
    assert_eq!(updated.id, created.id);
    assert_eq!(updated.created_at, created.created_at);
    let stored = get_campaign(&mut service, id).unwrap().unwrap();
    assert_eq!(stored.name, "Renamed");
    assert_eq!(stored.updated_at, updated.updated_at);
    let missing = update_campaign(&mut service, text_of(5), patch).unwrap_err();
    assert_eq!(missing.kind(), ErrorKind::NotFound);
}

#[test]
fn statistics_are_checked() {
    let mut service = CampaignStorageService::open(None);
    let created = create_campaign(&mut service, request("S")).unwrap();
    let id = text_of(created.id);
    let e = update_campaign_stats(&mut service, id.clone(), 3, 2, AverageLevel::one()).unwrap_err();
    assert_eq!(e.kind(), ErrorKind::ValidationError);
    assert_eq!(e.message(), "Total characters cannot be less than active characters");
    for bad in [0.5f32, 20.5, f32::NAN, -1.0] {
        let level = AverageLevel::from_bits(bad.to_bits());
        let e = update_campaign_stats(&mut service, id.clone(), 1, 2, level).unwrap_err();
        assert_eq!(e.message(), "Average level must be between 1.0 and 20.0");
    }
    let level = AverageLevel::from_bits(20.0f32.to_bits());
    let updated = update_campaign_stats(&mut service, id, 2, 2, level).unwrap();
    assert_eq!(updated.campaign_info.active_characters, 2);
    assert_eq!(updated.campaign_info.total_characters, 2);
    assert_eq!(updated.player_count, 2);
    assert_eq!(f32::from_bits(updated.average_level.to_bits()), 20.0);
}

#[test]
fn current_campaign_must_exist_and_be_playable() {
    let mut service = CampaignStorageService::open(None);
    let e = set_current_campaign(&mut service, text_of(1)).unwrap_err();
    assert_eq!(e.kind(), ErrorKind::NotFound);
    let a = create_campaign(&mut service, request("A")).unwrap();
    archive_campaign(&mut service, text_of(a.id)).unwrap();
    let e = set_current_campaign(&mut service, text_of(a.id)).unwrap_err();
    assert_eq!(e.kind(), ErrorKind::CampaignError);
    assert_eq!(e.message(), "Cannot set non-playable campaign as current");
    assert!(get_current_campaign(&mut service).unwrap().is_none());
    let b = create_campaign(&mut service, request("B")).unwrap();
    set_current_campaign(&mut service, text_of(b.id)).unwrap();
    clear_current_campaign(&mut service).unwrap();
    assert!(get_current_campaign(&mut service).unwrap().is_none());
    let recent = get_recent_campaigns(&mut service).unwrap();
    assert_eq!(recent.len(), 1);
    assert_eq!(recent[0].id, b.id);
}

#[test]
fn deleting_a_campaign_makes_the_settings_forget_it() {
    let mut service = CampaignStorageService::open(None);
    let mut ids = Vec::new();
    for name in ["a", "b", "c"] {
        let c = create_campaign(&mut service, request(name)).unwrap();
        set_current_campaign(&mut service, text_of(c.id)).unwrap();
        ids.push(c.id);
    }
    let recent: Vec<u128> =
        get_recent_campaigns(&mut service).unwrap().iter().map(|c| c.id).collect();
    assert_eq!(recent, vec![ids[2], ids[1], ids[0]]);
    assert!(delete_campaign(&mut service, text_of(ids[2])).unwrap());
    let settings = get_app_settings(&mut service).unwrap();
    assert_eq!(settings.current_campaign_id, None);
    assert_eq!(settings.recent_campaigns, vec![ids[1], ids[0]]);
    assert!(delete_campaign(&mut service, text_of(ids[0])).unwrap());
    let settings = get_app_settings(&mut service).unwrap();
    assert_eq!(settings.recent_campaigns, vec![ids[1]]);
    assert_eq!(get_campaign_count(&mut service).unwrap(), 1);
}

#[test]
fn lists_and_counts() {
    let mut service = CampaignStorageService::open(None);
    let a = create_campaign(&mut service, request("a")).unwrap();
    let b = create_campaign(&mut service, request("b")).unwrap();
    let c = create_campaign(&mut service, request("c")).unwrap();
    archive_campaign(&mut service, text_of(b.id)).unwrap();
    let mut all: Vec<u128> = get_all_campaigns(&mut service).unwrap().iter().map(|x| x.id).collect();
    all.sort();
    let mut expected = vec![a.id, b.id, c.id];
    expected.sort();
    assert_eq!(all, expected);
    let mut active: Vec<u128> =
        get_active_campaigns(&mut service).unwrap().iter().map(|x| x.id).collect();
    active.sort();
    let mut expected = vec![a.id, c.id];
    expected.sort();
    assert_eq!(active, expected);
    assert_eq!(get_campaign_count(&mut service).unwrap(), 3);
    assert_eq!(get_active_campaign_count(&mut service).unwrap(), 2);
}

#[test]
fn summaries_are_ordered_for_display() {
    let mut collection = CampaignCollection::new_at(at(0));
    let mut played_early = Campaign::new_with(request("early"), 1, at(50));
    played_early.last_session_date = Some(at(100));
    let mut played_late = Campaign::new_with(request("late"), 2, at(10));
    played_late.last_session_date = Some(at(200));
    let mut played_late_newer = Campaign::new_with(request("late, newer"), 3, at(20));
    played_late_newer.last_session_date = Some(at(200));
    let never_old = Campaign::new_with(request("never, old"), 4, at(5));
    let never_new = Campaign::new_with(request("never, new"), 5, at(500));
    for c in [never_old, played_early, never_new, played_late, played_late_newer] {
        collection.add_campaign_at(c, at(1));
    }
    let mut service = CampaignStorageService::open(Some(collection));
    let names: Vec<String> =
        get_campaign_summaries(&mut service).unwrap().into_iter().map(|s| s.name).collect();
    assert_eq!(names, vec!["late, newer", "late", "early", "never, new", "never, old"]);
    let unordered = service.stored.as_ref().unwrap().get_campaign_summaries();
    assert_eq!(unordered.len(), 5);
}

#[test]
fn collection_operations() {
    let mut collection = CampaignCollection::new_at(at(0));
    assert!(!collection.update_campaign_at(Campaign::new_with(request("x"), 1, at(1)), at(2)));
    assert!(collection.campaigns.is_empty());
    assert_eq!(collection.updated_at, at(0));
    collection.add_campaign_at(Campaign::new_with(request("x"), 1, at(1)), at(3));
    assert_eq!(collection.updated_at, at(3));
    assert!(collection.update_campaign_at(Campaign::new_with(request("y"), 1, at(1)), at(4)));
    assert_eq!(collection.get_campaign(&1).unwrap().name, "y");
    assert!(collection.get_campaign(&2).is_none());
    assert!(collection.set_current_campaign_at(2, at(5)).is_err());
    assert_eq!(collection.updated_at, at(4));
    assert!(collection.set_current_campaign_at(1, at(5)).is_ok());
    assert_eq!(collection.get_current_campaign().unwrap().id, 1);
    assert_eq!(collection.get_recent_campaigns().len(), 1);
    assert_eq!(collection.get_all_campaigns().len(), 1);
    assert_eq!(collection.get_active_campaigns().len(), 1);
    assert!(!collection.remove_campaign_at(&2, at(6)));
    assert_eq!(collection.updated_at, at(5));
    assert!(collection.remove_campaign_at(&1, at(7)));
    assert_eq!(collection.updated_at, at(7));
    assert_eq!(collection.app_settings.current_campaign_id, None);
    assert_eq!(collection.app_settings.updated_at, at(7));
    assert!(collection.app_settings.recent_campaigns.is_empty());
    assert!(collection.get_current_campaign().is_none());
    let mut now = CampaignCollection::new();
    now.add_campaign(Campaign::new_with(request("x"), 1, at(1)));
    assert!(now.update_campaign(Campaign::new_with(request("z"), 1, at(1))));
    assert!(now.set_current_campaign(1).is_ok());
    assert!(now.remove_campaign(&1));
    assert!(now.campaigns.is_empty());
}

#[test]
fn a_transaction_stamps_the_campaign_and_leaves_the_rest() {
    let mut collection = CampaignCollection::new_at(at(0));
    collection.add_campaign_at(Campaign::new_with(request("a"), 1, at(1)), at(1));
    collection.add_campaign_at(Campaign::new_with(request("b"), 2, at(1)), at(1));
    let mut service = CampaignStorageService::open(Some(collection));
    let mut patch = no_change();
    patch.dm_notes = Some("x".to_string());
    let changed = service.modify_campaign(&1, CampaignMutation::Update(patch)).unwrap();
    assert_eq!(changed.dm_notes, "x");
    assert!(changed.updated_at.secs > 1);
    let stored = service.stored.as_ref().unwrap();
    assert_eq!(stored.campaigns[&1].dm_notes, "x");
    assert_eq!(stored.campaigns[&1].updated_at, changed.updated_at);
    assert_eq!(stored.campaigns[&2].updated_at, at(1));
    assert_eq!(stored.campaigns[&2].dm_notes, "");
    assert_eq!(stored.updated_at, at(1));
    let e = service.modify_campaign(&3, CampaignMutation::Archive).unwrap_err();
    assert_eq!(e.kind(), ErrorKind::NotFound);
    let e = service.modify_campaign(&2, CampaignMutation::Resume).unwrap_err();
    assert_eq!(e.kind(), ErrorKind::CampaignError);
    assert_eq!(service.stored.as_ref().unwrap().campaigns[&2].updated_at, at(1));
    assert_eq!(service.start_session(&2).unwrap().current_session, 1);
    assert!(service.update_campaign(Campaign::new_with(request("c"), 2, at(9))).is_ok());
    assert_eq!(service.get_campaign(&2).unwrap().name, "c");
    let e = service.update_campaign(Campaign::new_with(request("c"), 9, at(9))).unwrap_err();
    assert_eq!(e.kind(), ErrorKind::NotFound);
}

#[test]
fn duplicates_get_a_new_identifier_and_name() {
    let mut service = CampaignStorageService::open(None);
    let first = create_campaign(&mut service, request("First")).unwrap();
    let id = text_of(first.id);
    start_campaign_session(&mut service, id.clone()).unwrap();
    let copy = duplicate_campaign(&mut service, id.clone(), "Copy".to_string()).unwrap();
    assert_ne!(copy.id, first.id);
    assert_eq!(copy.name, "Copy");
    assert_eq!(copy.setting, "Forgotten Realms");
    assert_eq!(copy.current_session, 0);
    assert_eq!(copy.campaign_info.campaign_status, CampaignStatus::Planning);
    assert_eq!(copy.player_count, 0);
    assert_eq!(get_campaign_count(&mut service).unwrap(), 2);
    let e = duplicate_campaign(&mut service, id.clone(), " ".to_string()).unwrap_err();
    assert_eq!(e.message(), "New campaign name cannot be empty");
    let e = duplicate_campaign(&mut service, "x".to_string(), "n".to_string()).unwrap_err();
    assert_eq!(e.kind(), ErrorKind::InvalidInput);
    let upper = text_of(9).to_uppercase();
    let e = duplicate_campaign(&mut service, upper.clone(), "n".to_string()).unwrap_err();
    assert_eq!(e.kind(), ErrorKind::NotFound);
    assert_eq!(e.message(), format!("Campaign with ID '{}' not found", upper));
    assert_eq!(get_campaign_count(&mut service).unwrap(), 2);
}

#[test]
fn export_and_import() {
    let mut service = CampaignStorageService::open(None);
    let first = create_campaign(&mut service, request("E")).unwrap();
    let exported = export_campaign(&mut service, text_of(first.id)).unwrap();
    assert_eq!(exported.id, first.id);
    let e = export_campaign(&mut service, text_of(3)).unwrap_err();
    assert_eq!(e.kind(), ErrorKind::NotFound);
    let imported = service.import_campaign(exported).unwrap();
    assert_ne!(imported.id, first.id);
    assert_eq!(imported.name, "E");
    assert_eq!(imported.created_at, first.created_at);
    assert_eq!(get_campaign_count(&mut service).unwrap(), 2);
    let found = get_campaign_or_error(&mut service, &text_of(imported.id)).unwrap();
    assert_eq!(found.id, imported.id);
    let e = get_campaign_or_error(&mut service, "0000000000000000000000000000000A").unwrap_err();
    assert_eq!(e.message(), "Campaign with ID '0000000000000000000000000000000A' not found");
    assert_eq!(to_short_display(&imported.id).len(), 8);
}

#[test]
fn settings_are_checked_and_stored() {
    let mut service = CampaignStorageService::open(None);
    let e = update_app_theme(&mut service, "  ".to_string()).unwrap_err();
    assert_eq!(e.message(), "Theme cannot be empty");
    let e = update_app_theme(&mut service, "Dark".to_string()).unwrap_err();
    assert_eq!(e.kind(), ErrorKind::ValidationError);
    assert_eq!(e.message(), "Theme must be 'light', 'dark', or 'system'");
    assert!(service.stored.is_none());
    for theme in ["light", "dark", "system"] {
        let s = update_app_theme(&mut service, theme.to_string()).unwrap();
        assert_eq!(s.theme, theme);
        assert_eq!(get_app_settings(&mut service).unwrap().theme, theme);
    }
    for bad in [0u32, 169, u32::MAX] {
        let e = update_backup_settings(&mut service, true, bad).unwrap_err();
        assert_eq!(e.message(), "Backup frequency must be between 1 and 168 hours");
    }
    for good in [1u32, 168] {
        let s = update_backup_settings(&mut service, false, good).unwrap();
        assert!(!s.auto_backup);
        assert_eq!(s.backup_frequency_hours, good);
    }
    let stored = service.stored.as_ref().unwrap();
    assert_eq!(stored.app_settings.backup_frequency_hours, 168);
    assert_eq!(stored.app_settings.theme, "system");
    assert_eq!(stored.updated_at, stored.app_settings.updated_at);
    let settings = service.update_app_settings(SettingsMutation::Theme("odd".to_string()));
    assert_eq!(settings.theme, "odd");
}

#[test]
fn names_are_compared_without_regard_to_ascii_case() {
    let mut service = CampaignStorageService::open(None);
    let a = create_campaign(&mut service, request("Lost Mines")).unwrap();
    assert!(!validate_campaign_name(&mut service, "lost mines".to_string()).unwrap());
    assert!(validate_campaign_name(&mut service, "Lost Mine".to_string()).unwrap());
    assert!(validate_campaign_name(&mut service, " ".to_string()).is_err());
    assert!(validate_name_unique_excluding(&mut service, "LOST MINES", &a.id).is_ok());
    let e = validate_name_unique_excluding(&mut service, "LOST MINES", &(a.id ^ 1)).unwrap_err();
    assert_eq!(e.kind(), ErrorKind::ValidationError);
    assert_eq!(e.message(), "Campaign name already exists");
}

#[test]
fn only_some_statuses_allow_changes() {
    let mut c = Campaign::new_with(request("m"), 1, at(0));
    assert!(validate_campaign_modifiable(&c).is_ok());
    c.campaign_info.campaign_status = CampaignStatus::Archived;
    let e = validate_campaign_modifiable(&c).unwrap_err();
    assert_eq!(e.kind(), ErrorKind::CampaignError);
    assert_eq!(
        e.message(),
        "Cannot modify campaign in current status. Only Planning, Active, and OnHold campaigns can be modified."
    );
}

#[test]
fn counts_for_the_dashboard() {
    let empty = count_campaigns(&Vec::new());
    assert_eq!(
        (
            empty.total_campaigns,
            empty.active_campaigns,
            empty.completed_campaigns,
            empty.total_sessions,
            empty.total_characters
        ),
        (0, 0, 0, 0, 0)
    );
    let mut a = Campaign::new_with(request("a"), 1, at(1));
    a.campaign_info.total_sessions = 3;
    a.campaign_info.total_characters = 4;
    let mut b = Campaign::new_with(request("b"), 2, at(1));
    b.complete_at(at(2));
    b.campaign_info.total_sessions = 10;
    b.campaign_info.total_characters = 1;
    let mut c = Campaign::new_with(request("c"), 3, at(1));
    c.campaign_info.total_sessions = u32::MAX;
    c.campaign_info.campaign_status = CampaignStatus::Completed;
    let counts = count_campaigns(&vec![a, b, c]);
    assert_eq!(counts.total_campaigns, 3);
    assert_eq!(counts.active_campaigns, 2);
    assert_eq!(counts.completed_campaigns, 2);
    assert_eq!(counts.total_sessions, u32::MAX);
    assert_eq!(counts.total_characters, 5);
}

#[test]
fn a_new_campaign_never_takes_an_identifier_that_is_in_use() {
    let mut service = CampaignStorageService::open(None);
    let first = service.create_new(Campaign::new_with(request("a"), 42, at(1)));
    assert_eq!(first.id, 42);
    let second = service.create_new(Campaign::new_with(request("b"), 42, at(2)));
    assert_ne!(second.id, 42);
    assert_eq!(second.name, "b");
    assert_eq!(second.created_at, at(2));
    assert_eq!(second.updated_at, at(2));
    let third = service.create_new(Campaign::new_with(request("c"), second.id, at(3)));
    assert_ne!(third.id, second.id);
    assert_ne!(third.id, 42);
    assert_eq!(get_campaign_count(&mut service).unwrap(), 3);
    assert_eq!(service.get_campaign(&42).unwrap().name, "a");
    assert_eq!(service.get_campaign(&second.id).unwrap().name, "b");
    assert_eq!(service.get_campaign(&third.id).unwrap().name, "c");
    for i in 0..20 {
        let before = get_campaign_count(&mut service).unwrap();
        let made = create_campaign(&mut service, request("more")).unwrap();
        assert_eq!(made.created_at, made.updated_at);
        assert_eq!(get_campaign_count(&mut service).unwrap(), before + 1);
        assert_eq!(before, 3 + i);
    }
    let still = service.get_campaign(&42).unwrap();
    assert_eq!(still.name, "a");
    assert_eq!(still.updated_at, at(1));
}

#[test]
fn the_time_of_last_change_of_a_campaign_is_never_before_its_creation() {
    let far = Timestamp { secs: i64::MAX / 2, nanos: 0 };
    let mut service = CampaignStorageService::open(None);
    service.create_campaign(Campaign::new_with(request("future"), 1, far)).unwrap();
    let changed = service.modify_campaign(&1, CampaignMutation::Archive).unwrap();
    assert_eq!(changed.campaign_info.campaign_status, CampaignStatus::Archived);
    assert_eq!(changed.created_at, far);
    assert_eq!(changed.updated_at, far);
    assert_eq!(service.get_campaign(&1).unwrap().updated_at, far);
    let imported = service.import_campaign(Campaign::new_with(request("in"), 1, far)).unwrap();
    assert_ne!(imported.id, 1);
    assert_eq!(imported.updated_at, far);
    let old = service.import_campaign(Campaign::new_with(request("old"), 9, at(5))).unwrap();
    assert!(old.updated_at.is_after(&at(5)));
}

#[test]
fn requests_can_be_checked_without_a_store() {
    let mut patch = no_change();
    patch.name = Some(" ".to_string());
    assert_eq!(
        check_update_campaign("x", &patch).unwrap_err().message(),
        "Invalid Campaign ID format"
    );
    assert_eq!(
        check_update_campaign(&text_of(3), &patch).unwrap_err().message(),
        "Campaign name cannot be empty"
    );
    assert_eq!(check_update_campaign(&text_of(3), &no_change()).unwrap(), 3);
    assert_eq!(check_campaign_stats(&text_of(3), 1, 2, AverageLevel::one()).unwrap(), 3);
    assert_eq!(
        check_campaign_stats(&text_of(3), 2, 1, AverageLevel::one()).unwrap_err().message(),
        "Total characters cannot be less than active characters"
    );
    assert!(check_campaign_stats("x", 2, 1, AverageLevel::one()).is_err());
    assert_eq!(check_duplicate(&text_of(3), "n").unwrap(), 3);
    assert_eq!(
        check_duplicate(&text_of(3), "\n").unwrap_err().message(),
        "New campaign name cannot be empty"
    );
    assert!(validate_theme("system").is_ok());
    assert_eq!(validate_theme("").unwrap_err().message(), "Theme cannot be empty");
    assert!(validate_theme("blue").is_err());
    assert!(validate_backup_frequency(1).is_ok());
    assert!(validate_backup_frequency(168).is_ok());
    assert!(validate_backup_frequency(0).is_err());
    assert!(validate_backup_frequency(169).is_err());
}
