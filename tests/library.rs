use retroswiper::library::{is_valid_key, pick_random, resolve, selection_key, LibraryIndex};

fn index_of(paths: &[&str]) -> LibraryIndex {
    let v: Vec<String> = paths.iter().map(|s| s.to_string()).collect();
    LibraryIndex::build(&v)
}

#[test]
fn build_stores_paths_under_uppercase_keys() {
    let idx = index_of(&["roms/nes/mario.nes", "roms/sms/sonic.sms"]);
    assert_eq!(idx.len(), 2);
    assert_eq!(idx.get("ROMS/NES/MARIO.NES"), Some("roms/nes/mario.nes".to_string()));
    assert_eq!(idx.get("roms/nes/mario.nes"), None);
    assert!(idx.contains_key("ROMS/SMS/SONIC.SMS"));
}

#[test]
fn colliding_key_last_wins() {
    let idx = index_of(&["roms/nes/Mario.nes", "roms/nes/MARIO.NES"]);
    assert_eq!(idx.len(), 1);
    assert_eq!(idx.get("ROMS/NES/MARIO.NES"), Some("roms/nes/MARIO.NES".to_string()));
}

#[test]
fn empty_index() {
    let idx = LibraryIndex::new();
    assert_eq!(idx.len(), 0);
    assert_eq!(pick_random(&idx, 12345), None);
    assert_eq!(resolve(&idx, "Xzelda"), None);
}

#[test]
fn shape_check() {
    assert!(is_valid_key("ROMS/NES/MARIO.NES"));
    assert!(is_valid_key("ROMS/SMC/ZELDA.SMC"));
    assert!(!is_valid_key("ROMS/NES/MARIO.SMC"));
    assert!(!is_valid_key("ROMS/NE"));
    assert!(!is_valid_key(""));
}

#[test]
fn pick_returns_valid_key_of_index() {
    let idx = index_of(&["roms/nes/readme.txt", "roms/nes/mario.nes", "roms/sms/sonic.sms"]);
    for draw in 0..20u64 {
        let k = pick_random(&idx, draw).unwrap();
        assert!(idx.contains_key(&k));
        assert!(is_valid_key(&k));
    }
}

#[test]
fn pick_walks_from_draw() {
    let idx = index_of(&["roms/nes/a.nes", "roms/nes/b.txt", "roms/sms/c.sms"]);
    assert_eq!(pick_random(&idx, 0), Some("ROMS/NES/A.NES".to_string()));
    // position 1 fails the check, so the walk moves on to position 2
    assert_eq!(pick_random(&idx, 1), Some("ROMS/SMS/C.SMS".to_string()));
    assert_eq!(pick_random(&idx, 5), Some("ROMS/SMS/C.SMS".to_string()));
    assert_eq!(pick_random(&idx, u64::MAX), Some("ROMS/NES/A.NES".to_string()));
}

#[test]
fn pick_with_no_valid_key_gives_nothing() {
    let idx = index_of(&["roms/nes/a.txt", "roms/x"]);
    assert_eq!(pick_random(&idx, 3), None);
}

#[test]
fn selection_key_drops_first_and_uppercases() {
    assert_eq!(selection_key("Xzelda"), "ROMS/ZELDA");
    assert_eq!(selection_key("Xnes/mario.nes"), "ROMS/NES/MARIO.NES");
    assert_eq!(selection_key("X"), "ROMS/");
    assert_eq!(selection_key(""), "ROMS/");
}

#[test]
fn resolve_finds_normalized_key() {
    let idx = index_of(&["roms/nes/mario.nes"]);
    assert_eq!(resolve(&idx, "Xnes/mario.nes"), Some("ROMS/NES/MARIO.NES".to_string()));
    assert_eq!(resolve(&idx, "qNES/Mario.NES"), Some("ROMS/NES/MARIO.NES".to_string()));
    assert_eq!(resolve(&idx, "nes/mario.nes"), None);
    assert_eq!(resolve(&idx, "Xzelda"), None);
}
