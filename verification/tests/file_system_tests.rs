use dm_assistant::utils::clock::CalendarTime;
use dm_assistant::utils::file_system::{
    backup_file_name, backup_report, backup_stamp, backup_stamp_now, characters_file_path,
    characters_saved_report,
    FileOperationResult, CAMPAIGNS_DIR, CAMPAIGNS_FILE, CHARACTERS_FILE,
};

#[test]
fn outcomes_of_file_operations() {
    let ok = FileOperationResult::success("a.json".to_string());
    assert!(ok.success);
    assert_eq!(ok.file_path, "a.json");
    assert_eq!(ok.error_message, None);
    let failed = FileOperationResult::error("b.json".to_string(), "denied".to_string());
    assert!(!failed.success);
    assert_eq!(failed.file_path, "b.json");
    assert_eq!(failed.error_message.as_deref(), Some("denied"));
    let copy = failed.clone();
    assert_eq!(copy.file_path, "b.json");
    assert_eq!(copy.error_message.as_deref(), Some("denied"));
}

#[test]
fn names_and_places_of_files() {
    assert_eq!(CAMPAIGNS_FILE, "campaigns.json");
    assert_eq!(
        characters_file_path(&0x550e8400_e29b_41d4_a716_446655440000u128),
        "campaigns/550e8400-e29b-41d4-a716-446655440000/characters.json"
    );
    assert_eq!(
        characters_file_path(&1),
        format!("{}/{}/{}", CAMPAIGNS_DIR, uuid::Uuid::from_u128(1), CHARACTERS_FILE)
    );
    assert_eq!(
        backup_file_name("campaigns", "20240131093000"),
        "campaigns.backup_20240131093000.json"
    );
    assert_eq!(backup_report("/tmp/x.json"), "Campaigns backed up successfully to: /tmp/x.json");
    assert_eq!(
        characters_saved_report(Some("/tmp/b.json")),
        "Characters saved successfully. Backup created at: /tmp/b.json"
    );
    assert_eq!(
        characters_saved_report(None),
        "Characters saved successfully. Backup created at: backup failed"
    );
}

fn time(year: i32, month: u32, day: u32, hour: u32, minute: u32, second: u32) -> CalendarTime {
    CalendarTime { year, month, day, hour, minute, second }
}

#[test]
fn the_stamp_of_a_backup_is_fourteen_digits() {
    assert_eq!(backup_stamp(&time(2024, 1, 31, 9, 30, 0)).unwrap(), "20240131093000");
    assert_eq!(backup_stamp(&time(0, 12, 1, 23, 59, 59)).unwrap(), "00001201235959");
    assert_eq!(backup_stamp(&time(9999, 1, 1, 0, 0, 0)).unwrap(), "99990101000000");
    for bad in [
        time(10000, 1, 1, 0, 0, 0),
        time(-1, 1, 1, 0, 0, 0),
        time(2024, 0, 1, 0, 0, 0),
        time(2024, 13, 1, 0, 0, 0),
        time(2024, 1, 0, 0, 0, 0),
        time(2024, 1, 32, 0, 0, 0),
        time(2024, 1, 1, 24, 0, 0),
        time(2024, 1, 1, 0, 60, 0),
        time(2024, 1, 1, 0, 0, 60),
    ] {
        assert!(backup_stamp(&bad).is_none());
    }
    let now = backup_stamp_now().unwrap();
    assert_eq!(now.len(), 14);
    assert!(now.chars().all(|c| c.is_ascii_digit()));
    assert!(now.as_str() > "20240101000000");
    assert_eq!(
        backup_file_name("campaigns", &backup_stamp(&time(2024, 1, 31, 9, 30, 0)).unwrap()),
        "campaigns.backup_20240131093000.json"
    );
}
