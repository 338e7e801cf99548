use pasta_td::checkpoint::{checkpoint_of, find_map, restore_game};
use pasta_td::kinds::{TargetMode, TowerKind};
use pasta_td::maps::{build_maps, map_at, new_game};
use pasta_td::save::{
    new_slot_id, parse_wave_stem, sanitize, slot_order, sorted_waves, wave_filename,
    SaveCheckpoint, SaveTower, TowerKindSave, SAVE_VERSION,
};

#[test]
fn sanitize_keeps_lower_case_letters_digits_and_underscores() {
    assert_eq!(sanitize("Serpentine"), "serpentine");
    assert_eq!(sanitize("My Map-2_x!"), "my_map_2_x");
    assert_eq!(sanitize("ÁÉ!"), "save");
    assert_eq!(sanitize(""), "save");
}

#[test]
fn wave_files_are_padded_to_four_digits() {
    assert_eq!(wave_filename(1), "wave_0001.json");
    assert_eq!(wave_filename(42), "wave_0042.json");
    assert_eq!(wave_filename(12345), "wave_12345.json");
    assert_eq!(wave_filename(-5), "wave_0000.json");
}

#[test]
fn wave_stems_parse_back() {
    assert_eq!(parse_wave_stem("wave_0001"), Some(1));
    assert_eq!(parse_wave_stem("wave_12345"), Some(12345));
    assert_eq!(parse_wave_stem("wave_-3"), Some(-3));
    assert_eq!(parse_wave_stem("wave_+7"), Some(7));
    assert_eq!(parse_wave_stem("wave_"), None);
    assert_eq!(parse_wave_stem("wave_1x"), None);
    assert_eq!(parse_wave_stem("meta"), None);
    assert_eq!(parse_wave_stem("wave_2147483647"), Some(i32::MAX));
    assert_eq!(parse_wave_stem("wave_2147483648"), None);
    assert_eq!(parse_wave_stem("wave_-2147483648"), Some(i32::MIN));
    for w in [0, 1, 9, 10, 999, 1000, 65535] {
        let name = wave_filename(w);
        let stem = name.strip_suffix(".json").unwrap();
        assert_eq!(parse_wave_stem(stem), Some(w));
    }
}

#[test]
fn waves_are_sorted_without_repeats() {
    assert_eq!(sorted_waves(&vec![3, 1, 2, 3, 1]), vec![1, 2, 3]);
    assert_eq!(sorted_waves(&vec![]), Vec::<i32>::new());
    assert_eq!(sorted_waves(&vec![-1, 5, -1]), vec![-1, 5]);
}

#[test]
fn slots_are_listed_newest_first_keeping_ties_in_order() {
    assert_eq!(slot_order(&vec![10, 30, 20, 30]), vec![1, 3, 2, 0]);
    assert_eq!(slot_order(&vec![]), Vec::<usize>::new());
}

#[test]
fn slot_ids_join_name_and_time() {
    assert_eq!(new_slot_id("Spiral", 1234567890123), "spiral-1234567890123");
    assert_eq!(new_slot_id("??", 0), "save-0");
}

#[test]
fn checkpoint_round_trip_keeps_towers() {
    let mut g = new_game(&map_at(1));
    g.money = 321;
    g.wave = 4;
    g.speed = 3;
    g.towers[0].target_mode = TargetMode::MaisLento;
    assert!(g.build_at(10, 10, TowerKind::Frost, true));
    let cp = checkpoint_of(&g, true, 99);
    assert_eq!(cp.version, SAVE_VERSION);
    assert_eq!(cp.saved_at, 99);
    assert_eq!(cp.map_name, "Cascade");
    assert_eq!(cp.towers.len(), 2);
    assert_eq!(cp.towers[1].kind, TowerKindSave::Frost);
    let maps = build_maps();
    let idx = find_map(&maps, &cp.map_name).unwrap();
    assert_eq!(idx, 1);
    let r = restore_game(&maps[idx], &cp);
    assert_eq!(r.money, 321);
    assert_eq!(r.wave, 4);
    assert_eq!(r.speed, 3);
    assert_eq!(r.towers.len(), 2);
    assert_eq!(r.towers[0].target_mode, TargetMode::MaisLento);
    assert_eq!(r.towers[1].kind, TowerKind::Frost);
    assert_eq!(r.selected_cell, Some((r.towers[0].x, r.towers[0].y)));
    assert!(!r.running);
}

#[test]
fn restoring_without_towers_places_a_basic_one() {
    let cp = SaveCheckpoint {
        version: 1,
        saved_at: 0,
        map_name: "Serpentine".to_string(),
        dev_mode: false,
        wave: 0,
        money: 10,
        lives: 3,
        speed: 9,
        towers: vec![],
    };
    let r = restore_game(&map_at(0), &cp);
    assert_eq!(r.wave, 1);
    assert_eq!(r.speed, 4);
    assert_eq!(r.towers.len(), 1);
    assert_eq!(r.towers[0].kind, TowerKind::Basic);
    assert_eq!(r.selected_cell, Some((1, 1)));
}

#[test]
fn saved_towers_without_mode_aim_at_the_first() {
    let cp = SaveCheckpoint {
        version: 1,
        saved_at: 0,
        map_name: "Spiral".to_string(),
        dev_mode: false,
        wave: 2,
        money: 10,
        lives: 3,
        speed: 0,
        towers: vec![SaveTower { x: 3, y: 3, kind: TowerKindSave::Sniper, level: 4, target_mode: None }],
    };
    let r = restore_game(&map_at(2), &cp);
    assert_eq!(r.speed, 1);
    assert_eq!(r.towers[0].target_mode, TargetMode::Primeiro);
    assert_eq!(r.towers[0].level, 4);
}

#[test]
fn unknown_map_is_not_found() {
    assert_eq!(find_map(&build_maps(), &"Nowhere".to_string()), None);
}
