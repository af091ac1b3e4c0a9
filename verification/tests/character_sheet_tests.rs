use dm_assistant::characters::{Character, CharacterData, CharacterService, PartialCharacter};

fn data(name: &str, level: u8, hit_points: u16, max_hit_points: u16) -> CharacterData {
    CharacterData {
        name: name.to_string(),
        race: "Human".to_string(),
        class: "Fighter".to_string(),
        level,
        background: "Soldier".to_string(),
        hit_points,
        max_hit_points,
    }
}

fn no_change() -> PartialCharacter {
    PartialCharacter {
        name: None,
        race: None,
        class: None,
        level: None,
        background: None,
        hit_points: None,
        max_hit_points: None,
        avatar: None,
    }
}

fn sheet(id: &str, name: &str, level: u8, hit_points: u16, max_hit_points: u16) -> Character {
    Character {
        id: id.to_string(),
        name: name.to_string(),
        race: "r".to_string(),
        class: "c".to_string(),
        level,
        background: "b".to_string(),
        hit_points,
        max_hit_points,
        avatar: None,
        created_at: "t0".to_string(),
        updated_at: "t0".to_string(),
    }
}

fn hit_points_are_sound(service: &CharacterService) {
    for c in service.load_characters() {
        assert!(c.hit_points <= c.max_hit_points);
        assert!(c.max_hit_points > 0);
    }
}

#[test]
fn create_needs_sound_data() {
    let mut service = CharacterService::open(None);
    let cases = [
        (data("  ", 1, 1, 1), "Il nome non può essere vuoto"),
        (data("", 0, 5, 0), "Il nome non può essere vuoto"),
        (data("a", 0, 1, 1), "Il livello deve essere tra 1 e 20"),
        (data("a", 21, 1, 0), "Il livello deve essere tra 1 e 20"),
        (data("a", 1, 0, 0), "I punti ferita massimi devono essere maggiori di 0"),
        (data("a", 20, 11, 10), "I punti ferita non possono superare quelli massimi"),
    ];
    for (bad, words) in cases {
        assert_eq!(service.create_character(bad).unwrap_err(), words);
        assert!(service.stored.is_none());
    }
    let made = service
        .create_character_with(data("  Bruenor ", 20, 10, 10), "id-1".to_string(), "now".to_string())
        .unwrap();
    assert_eq!(made.id, "id-1");
    assert_eq!(made.name, "Bruenor");
    assert_eq!(made.race, "Human");
    assert_eq!(made.class, "Fighter");
    assert_eq!(made.level, 20);
    assert_eq!(made.background, "Soldier");
    assert_eq!(made.hit_points, 10);
    assert_eq!(made.max_hit_points, 10);
    assert_eq!(made.avatar, None);
    assert_eq!(made.created_at, "now");
    assert_eq!(made.updated_at, "now");
    let second = service.create_character(data("Wulfgar", 1, 0, 1)).unwrap();
    assert_eq!(second.id.len(), 36);
    assert_eq!(second.created_at, second.updated_at);
    assert!(second.created_at.contains('T'));
    let listed = service.load_characters();
    assert_eq!(listed.len(), 2);
    assert_eq!(listed[0].id, "id-1");
    assert_eq!(listed[1].id, second.id);
    hit_points_are_sound(&service);
}

#[test]
fn a_patch_is_checked_against_the_merged_hit_points() {
    let mut service = CharacterService::open(Some(vec![sheet("a", "A", 5, 10, 20)]));
    let mut lower_max = no_change();
    lower_max.max_hit_points = Some(9);
    assert_eq!(
        service.update_character("a", lower_max).unwrap_err(),
        "I punti ferita non possono superare quelli massimi"
    );
    let mut zero_max = no_change();
    zero_max.max_hit_points = Some(0);
    zero_max.hit_points = Some(0);
    assert_eq!(
        service.update_character("a", zero_max).unwrap_err(),
        "I punti ferita massimi devono essere maggiori di 0"
    );
    let mut raise_hp = no_change();
    raise_hp.hit_points = Some(21);
    assert_eq!(
        service.update_character("a", raise_hp).unwrap_err(),
        "I punti ferita non possono superare quelli massimi"
    );
    let mut blank = no_change();
    blank.name = Some(" ".to_string());
    blank.level = Some(0);
    assert_eq!(service.update_character("a", blank).unwrap_err(), "Il nome non può essere vuoto");
    let mut level = no_change();
    level.level = Some(21);
    level.max_hit_points = Some(0);
    assert_eq!(
        service.update_character("a", level).unwrap_err(),
        "Il livello deve essere tra 1 e 20"
    );
    assert_eq!(
        service.update_character("b", no_change()).unwrap_err(),
        "Personaggio non trovato"
    );
    let unchanged = service.load_characters();
    assert_eq!(unchanged.len(), 1);
    assert_eq!(
        (unchanged[0].level, unchanged[0].hit_points, unchanged[0].max_hit_points),
        (5, 10, 20)
    );
    assert_eq!(unchanged[0].name, "A");
    assert_eq!(unchanged[0].updated_at, "t0");

    let mut both = no_change();
    both.hit_points = Some(30);
    both.max_hit_points = Some(30);
    let updated = service.update_character_at("a", both, "t1".to_string()).unwrap();
    assert_eq!((updated.hit_points, updated.max_hit_points), (30, 30));
    assert_eq!(updated.updated_at, "t1");
    assert_eq!(updated.created_at, "t0");
    assert_eq!(updated.id, "a");
    hit_points_are_sound(&service);
}

#[test]
fn a_patch_replaces_only_what_it_holds_and_is_idempotent() {
    let mut service = CharacterService::open(Some(vec![
        sheet("x", "X", 1, 1, 1),
        sheet("a", "A", 5, 10, 20),
        sheet("a", "Shadow", 5, 10, 20),
    ]));
    let patch = || {
        let mut p = no_change();
        p.name = Some("  Drizzt  ".to_string());
        p.race = Some("Drow".to_string());
        p.level = Some(8);
        p.avatar = Some(Some("drizzt.png".to_string()));
        p
    };
    let once = service.update_character_at("a", patch(), "t1".to_string()).unwrap();
    assert_eq!(once.name, "Drizzt");
    assert_eq!(once.race, "Drow");
    assert_eq!(once.class, "c");
    assert_eq!(once.level, 8);
    assert_eq!(once.background, "b");
    assert_eq!((once.hit_points, once.max_hit_points), (10, 20));
    assert_eq!(once.avatar.as_deref(), Some("drizzt.png"));
    let twice = service.update_character_at("a", patch(), "t2".to_string()).unwrap();
    assert_eq!(twice.name, once.name);
    assert_eq!(twice.race, once.race);
    assert_eq!(twice.class, once.class);
    assert_eq!(twice.level, once.level);
    assert_eq!(twice.background, once.background);
    assert_eq!(twice.hit_points, once.hit_points);
    assert_eq!(twice.max_hit_points, once.max_hit_points);
    assert_eq!(twice.avatar, once.avatar);
    assert_eq!(twice.id, once.id);
    assert_eq!(twice.created_at, once.created_at);
    assert_eq!(twice.updated_at, "t2");
    let listed = service.load_characters();
    assert_eq!(listed.len(), 3);
    assert_eq!(listed[0].name, "X");
    assert_eq!(listed[1].name, "Drizzt");
    assert_eq!(listed[2].name, "Shadow");
    let mut clear = no_change();
    clear.avatar = Some(None);
    clear.class = Some("Ranger".to_string());
    clear.background = Some("Outlander".to_string());
    let cleared = service.update_character("a", clear).unwrap();
    assert_eq!(cleared.avatar, None);
    assert_eq!(cleared.class, "Ranger");
    assert_eq!(cleared.background, "Outlander");
    assert_ne!(cleared.updated_at, "t2");
}

#[test]
fn delete_fails_for_what_is_not_there() {
    let mut service = CharacterService::open(None);
    assert_eq!(service.delete_character("a").unwrap_err(), "Personaggio non trovato");
    assert!(service.stored.is_none());
    assert!(service.load_characters().is_empty());
    let mut service = CharacterService::open(Some(vec![
        sheet("a", "A", 1, 1, 1),
        sheet("b", "B", 1, 1, 1),
        sheet("a", "A2", 1, 1, 1),
    ]));
    assert_eq!(service.delete_character("c").unwrap_err(), "Personaggio non trovato");
    assert_eq!(service.load_characters().len(), 3);
    assert!(service.delete_character("a").is_ok());
    let left = service.load_characters();
    assert_eq!(left.len(), 1);
    assert_eq!(left[0].name, "B");
}

#[test]
fn import_takes_only_sound_lists() {
    let mut service = CharacterService::open(Some(vec![sheet("a", "A", 1, 1, 1)]));
    let cases = [
        (sheet("n", " ", 1, 1, 1), "Nome del personaggio non può essere vuoto"),
        (sheet("n", "N", 0, 1, 1), "Livello deve essere tra 1 e 20"),
        (sheet("n", "N", 21, 1, 1), "Livello deve essere tra 1 e 20"),
        (sheet("n", "N", 1, 0, 0), "Punti ferita massimi devono essere maggiori di 0"),
        (sheet("n", "N", 1, 2, 1), "Punti ferita non possono superare quelli massimi"),
    ];
    for (bad, words) in cases {
        let list = vec![sheet("ok", "Ok", 2, 1, 3), bad, sheet("n", "", 0, 9, 0)];
        assert_eq!(service.import_characters(list).unwrap_err(), words);
        let kept = service.load_characters();
        assert_eq!(kept.len(), 1);
        assert_eq!(kept[0].id, "a");
    }
    assert!(service.import_characters(vec![sheet("p", "P", 20, 0, 1), sheet("q", "Q", 1, 5, 5)]).is_ok());
    let now = service.load_characters();
    assert_eq!(now.len(), 2);
    assert_eq!(now[0].id, "p");
    assert_eq!(now[1].id, "q");
    hit_points_are_sound(&service);
    assert!(service.import_characters(Vec::new()).is_ok());
    assert!(service.load_characters().is_empty());
    assert!(service.stored.is_some());
}

#[test]
fn hit_points_stay_sound_through_any_run_of_operations() {
    let mut service = CharacterService::open(None);
    let a = service.create_character(data("A", 1, 5, 10)).unwrap();
    let b = service.create_character(data("B", 2, 1, 1)).unwrap();
    let attempts: Vec<(String, Option<u16>, Option<u16>)> = vec![
        (a.id.clone(), Some(11), None),
        (a.id.clone(), None, Some(4)),
        (a.id.clone(), Some(4), Some(4)),
        (b.id.clone(), None, Some(0)),
        (b.id.clone(), Some(0), None),
        (b.id.clone(), Some(7), Some(6)),
        (a.id.clone(), None, Some(100)),
        (a.id.clone(), Some(100), None),
    ];
    for (id, hit_points, max_hit_points) in attempts {
        let mut p = no_change();
        p.hit_points = hit_points;
        p.max_hit_points = max_hit_points;
        let before: Vec<(u16, u16)> =
            service.load_characters().iter().map(|c| (c.hit_points, c.max_hit_points)).collect();
        let outcome = service.update_character(&id, p);
        if outcome.is_err() {
            let after: Vec<(u16, u16)> =
                service.load_characters().iter().map(|c| (c.hit_points, c.max_hit_points)).collect();
            assert_eq!(before, after);
        }
        hit_points_are_sound(&service);
    }
    let end: Vec<(u16, u16)> =
        service.load_characters().iter().map(|c| (c.hit_points, c.max_hit_points)).collect();
    assert_eq!(end, vec![(100, 100), (0, 1)]);
}

#[test]
fn the_data_of_a_new_sheet_can_be_checked_without_the_list() {
    assert!(CharacterService::check_new(&data("A", 1, 1, 1)).is_ok());
    assert_eq!(
        CharacterService::check_new(&data(" ", 1, 1, 1)).unwrap_err(),
        "Il nome non può essere vuoto"
    );
    assert_eq!(
        CharacterService::check_new(&data("A", 1, 2, 1)).unwrap_err(),
        "I punti ferita non possono superare quelli massimi"
    );
}
