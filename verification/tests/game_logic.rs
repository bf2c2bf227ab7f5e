use dmc3_randomizer::connection::{
    deathlink_cause, deathlink_response, disconnect, floors_per_hint_from_bounce, has_reached_goal, parse_u16,
    sent_item_recorded, shop_locations_to_scout, CoreState, DeathResponse, SlotMode,
};
use dmc3_randomizer::constants::{event_tables, Coordinates, Difficulty, ItemEntry, Rank, Style};
use dmc3_randomizer::game_manager::{has_item_by_flags, ArchipelagoData, FLAG_AREA_LEN};
use dmc3_randomizer::game_structs::{MissionData, SessionData, TotalRankings};
use dmc3_randomizer::hint::{fire_off_hints, hint_floor_range};
use dmc3_randomizer::hooks::{
    load_new_room,    modify_available_styles, set_player_data, style_level_update,
    calculate_max_mission, check_and_replace_item, edit_event_drop, edit_initial_index, get_unlocked_missions,
    ignis_fatuus_route, mission_after_result, mission_after_select, mission_select_values, modify_adjudicator,
    set_rando_session_data, set_relevant_key_items, CostumeFlags, DifficultyUnlockFlags, UnlockFlags,
};
use dmc3_randomizer::location::{
    clear_high_roller, displayed_after_send, end_event_offsets, event_pickup, get_location_name_by_data,
    get_mapped_item_id, ground_pickup, has_end_event, in_key_item_room, is_valid_id, location_is_checked_and_end,
    mission_complete_checks, purchased_check_item, special_location_key, Location, LocationError, LocationType,
    NamedLocation,
};
use dmc3_randomizer::mapping::{AdjudicatorData, AutoHint, DeathlinkSetting, Goal, Mapping};
use dmc3_randomizer::receive::{
    announces_item, begin_received_items, handle_received_items, index_after, is_new_item, receive_item,
    ReceivedEffect, ReceivedItem,
};
use dmc3_randomizer::store::{
    deny_cerberus_or_shotgun, get_gun_level_checks, gun_shop_locked, gun_upgrade_confirm, shop_shows_gun_checks,
    skill_shop_locked,
};
use dmc3_randomizer::tracker::{AvailableMissions, GunLevels, RoomUpdate, SkillUpdate, StyleLevels};

fn seed_settings() -> Mapping {
    Mapping {
        starter_items: Vec::new(),
        adjudicators: None,
        start_melee: 0,
        start_second_melee: 0,
        start_gun: 0,
        start_second_gun: 0,
        randomize_skills: true,
        randomize_gun_levels: true,
        randomize_styles: true,
        purple_orb_mode: false,
        devil_trigger_mode: false,
        check_ss_difficulty: false,
        shop_checks: true,
        shop_orb_checks: true,
        shop_gun_checks: true,
        shop_skill_checks: false,
        auto_gun_hints: AutoHint::Obtained,
        death_link: DeathlinkSetting::Off,
        goal: Goal::Standard,
        mission_order: None,
        generated_version: None,
        client_version: None,
        mission_clear_rank: Rank::D,
        mission_clear_difficulty: Difficulty::Easy,
        initially_unlocked_difficulties: vec![Difficulty::Easy, Difficulty::Normal],
    }
}

fn new_session() -> SessionData {
    SessionData {
        mission: 1,
        other_mission: 1,
        room: 5,
        difficulty: 1,
        hoh: false,
        char: 0,
        red_orbs: 300,
        items: [0; 20],
        weapon_style_unlocks: [false; 14],
        weapons: [1; 8],
        ranged_weapon_levels: [0; 5],
        melee_index: 0,
        gun_index: 0,
        unlocked_dt: false,
        max_hp: 6000,
        max_magic: 0,
        style: 0,
        style_levels: [0; 6],
        expertise: [0; 8],
    }
}

fn no_rankings() -> TotalRankings {
    TotalRankings {
        easy_ranking: [0xFF; 20],
        normal_ranking: [0xFF; 20],
        hard_ranking: [0xFF; 20],
        very_hard_ranking: [0xFF; 20],
        dmd_ranking: [0xFF; 20],
        hoh_ranking: [0xFF; 20],
    }
}

fn empty_mission() -> MissionData {
    MissionData { gun_stuff: [0; 5], red_orbs: 0, items: [0; 62], bought_items: [0; 8] }
}

fn location_table() -> Vec<NamedLocation> {
    let entry = |room: i32, item: u32, mission: u32, adjudicator: bool, x: u32| ItemEntry {
        room_number: room,
        item_id: item,
        mission,
        adjudicator,
        coordinates: Coordinates { x, y: 2, z: 3 },
    };
    vec![
        NamedLocation { name: "Mission #5 - Vajura".to_string(), entry: entry(120, 0x25, 5, false, 0) },
        NamedLocation { name: "Mission #5 - Blue Orb".to_string(), entry: entry(121, 0x07, 5, false, 10) },
        NamedLocation { name: "Mission #5 Complete".to_string(), entry: entry(0, 0, 5, false, 0) },
        NamedLocation { name: "Blue Orb #2".to_string(), entry: entry(0, 7, 0, false, 0) },
        NamedLocation { name: "Mission #6 - Adjudicator".to_string(), entry: entry(130, 0x0B, 6, true, 0) },
        NamedLocation { name: "Purchase Shotgun Level 2".to_string(), entry: entry(0, 0, 0, false, 0) },
        NamedLocation { name: "Purchase Purple Orb 1".to_string(), entry: entry(0, 0, 0, false, 0) },
    ]
}

#[test]
fn received_blue_orb_counts_and_heals() {
    let mut data = ArchipelagoData::new();
    let settings = seed_settings();
    let effect = receive_item(&mut data, Some(&settings), 7, "Blue Orb", true, 1);
    assert_eq!(effect, ReceivedEffect::Health);
    assert_eq!(data.blue_orbs(), 1);
    assert!(data.has_item("Blue Orb"));
    let effect = receive_item(&mut data, Some(&settings), 7, "Blue Orb", false, 1);
    assert_eq!(effect, ReceivedEffect::Nothing);
    assert_eq!(data.blue_orbs(), 2);
}

#[test]
fn received_items_of_each_kind() {
    let mut data = ArchipelagoData::new();
    let settings = seed_settings();
    assert_eq!(receive_item(&mut data, Some(&settings), 2, "Red Orb - 20", true, 1), ReceivedEffect::RedOrbs(2500));
    assert_eq!(receive_item(&mut data, Some(&settings), 3, "Red Orb - 100", false, 1), ReceivedEffect::Nothing);
    assert_eq!(receive_item(&mut data, Some(&settings), 8, "Purple Orb", true, 1), ReceivedEffect::Magic(1));
    assert_eq!(data.purple_orbs(), 1);
    assert!(data.dt_unlocked());
    assert_eq!(receive_item(&mut data, Some(&settings), 0x12, "Devil Star", true, 1), ReceivedEffect::Consumable(0x12));
    assert_eq!(receive_item(&mut data, Some(&settings), 0x19, "Devil Trigger", true, 1), ReceivedEffect::Magic(3));
    assert_eq!(data.purple_orbs(), 4);
    assert_eq!(receive_item(&mut data, Some(&settings), 0x25, "Vajura", true, 5), ReceivedEffect::KeyItem);
    assert_eq!(receive_item(&mut data, Some(&settings), 0x25, "Vajura", true, 6), ReceivedEffect::Nothing);
    assert_eq!(receive_item(&mut data, Some(&settings), 0x53, "Ebony & Ivory Level", true, 1), ReceivedEffect::GunLevels);
    assert_eq!(data.gun_levels(), [1, 0, 0, 0, 0]);
    assert_eq!(
        receive_item(&mut data, Some(&settings), 0x61, "Swordmaster Level", true, 1),
        ReceivedEffect::StyleLevel(Style::Swordmaster)
    );
    assert_eq!(data.style_levels(), [0, 1, 0, 0]);
    assert_eq!(receive_item(&mut data, Some(&settings), 0x17, "Cerberus", true, 1), ReceivedEffect::Weapons);
    assert_eq!(receive_item(&mut data, Some(&settings), 0x1D, "Shotgun", true, 1), ReceivedEffect::GunHintsAndWeapons);
    assert_eq!(receive_item(&mut data, None, 0x1D, "Shotgun", true, 1), ReceivedEffect::Weapons);
    assert_eq!(receive_item(&mut data, Some(&settings), 0x40, "Stinger", true, 1), ReceivedEffect::Skills);
    assert_eq!(data.stinger_level(), 1);
    assert!(data.skills().contains(&0x40));
    assert_eq!(receive_item(&mut data, None, 0x40, "Stinger", true, 1), ReceivedEffect::Nothing);
    assert_eq!(receive_item(&mut data, Some(&settings), 0x22, "Quicksilver Style", true, 1), ReceivedEffect::Nothing);
    assert_eq!(receive_item(&mut data, Some(&settings), 0x05, "Gold Orb", true, 1), ReceivedEffect::Unhandled);
}

#[test]
fn received_packet_recounts_orbs() {
    let mut data = ArchipelagoData::new();
    for _ in 0..5 {
        data.add_blue_orb();
    }
    data.add_item("Old".to_string());
    begin_received_items(&mut data, 3);
    assert_eq!(data.blue_orbs(), 0);
    assert!(data.has_item("Old"));
    begin_received_items(&mut data, 0);
    assert!(!data.has_item("Old"));
    let items: Vec<ReceivedItem> = (0..16u64)
        .map(|i| ReceivedItem { index: i, id: 7, name: "Blue Orb".to_string() })
        .collect();
    let settings = seed_settings();
    let (effects, next) = handle_received_items(&mut data, Some(&settings), &items, 10, 1);
    assert_eq!(data.blue_orbs(), 14);
    assert_eq!(next, 16);
    assert_eq!(effects[9], ReceivedEffect::Nothing);
    assert_eq!(effects[10], ReceivedEffect::Health);
    assert_eq!(effects[15], ReceivedEffect::Health);
}

#[test]
fn received_item_indices() {
    assert!(is_new_item(5, 5));
    assert!(!is_new_item(4, 5));
    assert!(!is_new_item(4, -1));
    assert_eq!(index_after(5, 5), 6);
    assert_eq!(index_after(7, 5), 7);
    assert!(announces_item(false, 3, 2));
    assert!(!announces_item(true, 3, 2));
}

#[test]
fn hook_creation_and_disconnection() {
    let mut state = CoreState::new();
    assert!(state.creation_needed(SlotMode::Normal));
    assert!(!state.after_creation(SlotMode::Normal, false));
    assert!(state.creation_needed(SlotMode::Normal));
    assert!(state.after_creation(SlotMode::Normal, true));
    assert!(!state.creation_needed(SlotMode::Normal));
    assert!(!state.after_creation(SlotMode::Normal, false));
    assert!(state.creation_needed(SlotMode::HintGame));
    let mut mapping = Some(seed_settings());
    let mut data = ArchipelagoData::new();
    data.add_blue_orb();
    assert_eq!(disconnect(&mut state, &mut mapping, &mut data), (true, false));
    assert!(mapping.is_none());
    assert_eq!(data.blue_orbs(), 0);
    assert!(!state.hooks.enabled && state.hooks.installed);
    assert!(state.after_creation(SlotMode::Normal, false));
}

#[test]
fn deathlink_and_bounce_settings() {
    assert_eq!(deathlink_response(DeathlinkSetting::DeathLink), DeathResponse::Kill);
    assert_eq!(deathlink_response(DeathlinkSetting::HurtLink), DeathResponse::Hurt);
    assert_eq!(deathlink_response(DeathlinkSetting::Off), DeathResponse::Ignore);
    assert_eq!(parse_u16("80"), Some(80));
    assert_eq!(parse_u16("+5"), Some(5));
    assert_eq!(parse_u16("65535"), Some(65535));
    assert_eq!(parse_u16("65536"), None);
    assert_eq!(parse_u16(""), None);
    assert_eq!(parse_u16("+"), None);
    assert_eq!(parse_u16("-1"), None);
    assert_eq!(parse_u16("12a"), None);
    assert_eq!(floors_per_hint_from_bounce(None), 80);
    assert_eq!(floors_per_hint_from_bounce(Some("20")), 20);
    assert_eq!(floors_per_hint_from_bounce(Some("x")), 80);
    assert_eq!(deathlink_cause(5, Difficulty::VeryHard), "died in Mission #5 on Very Hard");
}

#[test]
fn goal_reached() {
    let mut settings = seed_settings();
    let mut checked = vec!["Mission #19 Complete".to_string()];
    assert!(!has_reached_goal(Some(&settings), &checked));
    checked.push("Mission #20 Complete".to_string());
    assert!(has_reached_goal(Some(&settings), &checked));
    assert!(!has_reached_goal(None, &checked));
    settings.goal = Goal::All;
    assert!(!has_reached_goal(Some(&settings), &checked));
    let mut all: Vec<String> = (1..20).map(|i| format!("Mission #{} Complete", i)).collect();
    assert!(!has_reached_goal(Some(&settings), &all));
    all.insert(0, "Mission #20 Complete".to_string());
    assert!(has_reached_goal(Some(&settings), &all));
    settings.goal = Goal::RandomOrder;
    let order: Vec<u8> = (1..=20).rev().collect();
    settings.mission_order = Some(order);
    assert!(!has_reached_goal(Some(&settings), &checked));
    assert!(has_reached_goal(Some(&settings), &vec!["Mission #1 Complete".to_string()]));
    assert!(sent_item_recorded(true, 0x25));
    assert!(!sent_item_recorded(false, 0x25));
    assert!(!sent_item_recorded(true, 0x12));
}

#[test]
fn shop_scouting_positions() {
    let table = location_table();
    let mut settings = seed_settings();
    assert_eq!(shop_locations_to_scout(&table, &settings), vec![6, 5]);
    settings.shop_orb_checks = false;
    assert_eq!(shop_locations_to_scout(&table, &settings), vec![5]);
    settings.shop_gun_checks = false;
    assert!(shop_locations_to_scout(&table, &settings).is_empty());
}

#[test]
fn max_missions_and_unlocked_lists() {
    let mut settings = seed_settings();
    let mut rankings = no_rankings();
    rankings.normal_ranking[0] = 3;
    rankings.normal_ranking[1] = 4;
    rankings.normal_ranking[5] = 1;
    assert_eq!(calculate_max_mission(&settings, &rankings, Difficulty::Normal), 4);
    assert_eq!(calculate_max_mission(&settings, &rankings, Difficulty::Hard), 1);
    assert_eq!(get_unlocked_missions(Difficulty::Normal, &settings, &rankings), vec![1, 2, 6, 4]);
    settings.goal = Goal::All;
    assert_eq!(calculate_max_mission(&settings, &rankings, Difficulty::Hard), 20);
    settings.goal = Goal::RandomOrder;
    settings.mission_order = Some(vec![6, 3, 2]);
    assert_eq!(calculate_max_mission(&settings, &rankings, Difficulty::Normal), 3);
    let available = AvailableMissions::new(&settings, &rankings);
    assert_eq!(available.available_missions.len(), 6);
    assert_eq!(available.available_missions[1].0, "Normal");
    assert_eq!(available.available_missions[1].1, vec![1, 2, 6, 3]);
    assert_eq!(available.available_missions[3].0, "Very Hard");
}

#[test]
fn unlock_flag_bytes() {
    assert_eq!(DifficultyUnlockFlags::create_final_flag(&vec![Difficulty::Easy, Difficulty::Normal]).bits(), 0b1);
    assert_eq!(
        DifficultyUnlockFlags::create_final_flag(&vec![Difficulty::Hard, Difficulty::DanteMustDie, Difficulty::HeavenOrHell])
            .bits(),
        0b11010
    );
    assert_eq!(DifficultyUnlockFlags::create_final_flag(&vec![]).bits(), 0);
    assert_eq!(UnlockFlags::create_final_flag().bits(), 0b11001011);
    assert_eq!(CostumeFlags::create_final_flag().bits(), 0b01010101);
}

#[test]
fn new_game_session() {
    let mut settings = seed_settings();
    settings.goal = Goal::RandomOrder;
    settings.mission_order = Some(vec![7, 1, 2]);
    settings.shop_orb_checks = false;
    let mut session = new_session();
    let flags = set_rando_session_data(&mut session, &settings, [false, false, true, false]).unwrap();
    assert_eq!(flags.difficulties, 1);
    assert_eq!(flags.unlocks, 0b11001011);
    assert_eq!(flags.costumes, 0b01010101);
    assert_eq!(session.style, 1);
    assert_eq!(session.weapons, [0xFF, 1, 0xFF, 1, 1, 1, 1, 1]);
    assert!(session.unlocked_dt);
    assert_eq!(session.red_orbs, 0);
    assert_eq!(session.mission, 7);
    assert_eq!(session.other_mission, 7);
    assert_eq!(session.items[7], 6);
    assert_eq!(session.items[8], 7);
    let mut vergil = new_session();
    vergil.char = 3;
    assert!(set_rando_session_data(&mut vergil, &settings, [true; 4]).is_none());
    assert_eq!(vergil.red_orbs, 300);
}

#[test]
fn mission_order_navigation() {
    let mut settings = seed_settings();
    let order: Vec<u8> = vec![3, 1, 2, 4, 5, 6, 7, 8, 9, 10, 11, 12, 13, 14, 15, 16, 17, 18, 19, 20];
    settings.goal = Goal::RandomOrder;
    settings.mission_order = Some(order);
    assert_eq!(mission_after_select(&settings, 6, 2), Some(1));
    assert_eq!(mission_after_select(&settings, 5, 2), None);
    assert_eq!(mission_after_result(&settings, 0x12, 3), Some(1));
    assert_eq!(mission_after_result(&settings, 0x12, 20), Some(20));
    assert_eq!(mission_after_result(&settings, 0x11, 3), None);
    let (selected, max) = mission_select_values(&settings, 1, &no_rankings());
    assert_eq!(selected, 2);
    assert_eq!(max, [1; 6]);
}

#[test]
fn status_screen_first_weapon() {
    let mut items = [0u8; 62];
    assert_eq!(edit_initial_index(true, &items), 0);
    items[0x1E] = 1;
    assert_eq!(edit_initial_index(true, &items), 2);
    items = [0u8; 62];
    items[0x21] = 1;
    assert_eq!(edit_initial_index(true, &items), 4);
    items = [0u8; 62];
    items[0x1B] = 1;
    assert_eq!(edit_initial_index(false, &items), 4);
    items[0x17] = 1;
    assert_eq!(edit_initial_index(false, &items), 1);
}

#[test]
fn event_script_dummies() {
    let tables = event_tables(3).unwrap();
    assert_eq!(edit_event_drop(&tables, &vec![false, false]), vec![0x450, 0x6A4, 0x72C, 0xEE4]);
    assert_eq!(edit_event_drop(&tables, &vec![false, true]), vec![0x450, 0x6A4, 0x72C, 0xEE4, 0xEFC]);
    let board = event_tables(4).unwrap();
    assert_eq!(end_event_offsets(&board, "Mission #4 - Astronomical Board"), vec![0x8D4]);
    assert!(end_event_offsets(&board, "Mission #4 - Other").is_empty());
    assert!(has_end_event(&board, "Mission #4 - Astronomical Board"));
    assert!(!has_end_event(&tables, "Mission #3 - Shotgun"));
    assert!(location_is_checked_and_end(&board, "Mission #4 - Astronomical Board", true));
    assert!(!location_is_checked_and_end(&board, "Mission #4 - Astronomical Board", false));
    assert!(event_tables(2).is_none());
}

#[test]
fn room_item_replacement() {
    let entry = ItemEntry { room_number: 120, item_id: 0x24, mission: 4, adjudicator: false, coordinates: Coordinates { x: 0, y: 0, z: 0 } };
    assert!(check_and_replace_item(&entry, 120, 0x24, true));
    assert!(!check_and_replace_item(&entry, 120, 0x24, false));
    assert!(!check_and_replace_item(&entry, 121, 0x24, true));
    assert_eq!(ignis_fatuus_route(true), 311);
    assert_eq!(ignis_fatuus_route(false), 303);
}

#[test]
fn adjudicator_bytes() {
    let table = location_table();
    let mut settings = seed_settings();
    assert!(modify_adjudicator(&table, 130, &settings).is_empty());
    settings.adjudicators = Some(vec![(
        "Mission #6 - Adjudicator".to_string(),
        AdjudicatorData { weapon: "Cerberus".to_string(), ranking: 4 },
    )]);
    assert_eq!(modify_adjudicator(&table, 130, &settings), vec![(4, 1)]);
    assert!(modify_adjudicator(&table, 131, &settings).is_empty());
}

#[test]
fn key_items_follow_received() {
    let mut mission = empty_mission();
    let mut flags = vec![0u8; FLAG_AREA_LEN];
    let mut data = ArchipelagoData::new();
    data.add_item("Vajura".to_string());
    mission.items[0x24] = 1;
    let table = location_table();
    let none: Vec<String> = Vec::new();
    assert_eq!(set_relevant_key_items(&mut mission, &mut flags, &data, 5, 7, &table, &none), None);
    assert_eq!(mission.items[0x25], 1);
    assert_eq!(mission.items[0x24], 0);
    assert!(has_item_by_flags(&flags, "Vajura"));
    assert!(!has_item_by_flags(&flags, "Astronomical Board"));
    assert!(!has_item_by_flags(&flags, "Soul of Steel"));
    // In the Vajura's room, while its location is not checked, its flag is cleared.
    assert_eq!(set_relevant_key_items(&mut mission, &mut flags, &data, 5, 120, &table, &none), None);
    assert!(!has_item_by_flags(&flags, "Vajura"));
    assert_eq!(mission.items[0x25], 1);
    let checked = vec!["Mission #5 - Vajura".to_string()];
    set_relevant_key_items(&mut mission, &mut flags, &data, 5, 120, &table, &checked);
    assert!(has_item_by_flags(&flags, "Vajura"));
    // The Ignis Fatuus event in room 302.
    assert_eq!(set_relevant_key_items(&mut mission, &mut flags, &data, 8, 302, &table, &none), Some(303));
    let ignis = vec!["Mission #8 - Ignis Fatuus".to_string()];
    assert_eq!(set_relevant_key_items(&mut mission, &mut flags, &data, 8, 302, &table, &ignis), Some(311));
}

#[test]
fn location_lookup() {
    let table = location_table();
    let pickup = Location {
        location_type: LocationType::Standard,
        item_id: 0x07,
        room: 121,
        mission: 5,
        coordinates: Coordinates { x: 10, y: 2, z: 3 },
        to_display: true,
    };
    assert_eq!(get_location_name_by_data(&table, &pickup), Ok(1));
    let elsewhere = Location { coordinates: Coordinates { x: 11, y: 2, z: 3 }, ..pickup };
    assert_eq!(get_location_name_by_data(&table, &elsewhere), Err(LocationError::NotFound));
    let remote = Location { item_id: 0x26, room: 120, ..pickup };
    assert_eq!(get_location_name_by_data(&table, &remote), Ok(0));
    let complete = Location { location_type: LocationType::MissionComplete, item_id: u32::MAX, room: 0, ..pickup };
    assert_eq!(special_location_key(&complete), Some("Mission #5 Complete".to_string()));
    assert_eq!(get_location_name_by_data(&table, &complete), Ok(2));
    let bought = Location { location_type: LocationType::PurchaseItem, item_id: 7, mission: 2, ..pickup };
    assert_eq!(special_location_key(&bought), Some("Blue Orb #2".to_string()));
    assert_eq!(get_location_name_by_data(&table, &bought), Ok(3));
    let ss = Location { location_type: LocationType::SSRank, ..pickup };
    assert_eq!(special_location_key(&ss), Some("Mission #5 SS Rank".to_string()));
    assert_eq!(special_location_key(&pickup), None);
    assert_eq!(in_key_item_room(&table, 5, 120), Ok(0));
    assert_eq!(in_key_item_room(&table, 5, 121), Err(LocationError::NotKeyItemRoom));
    assert!(pickup == Location { location_type: LocationType::SSRank, mission: 9, to_display: false, ..pickup });
    assert!(pickup != elsewhere);
}

#[test]
fn shown_item_ids() {
    assert_eq!(get_mapped_item_id(None), 0x26);
    assert_eq!(get_mapped_item_id(Some((0x17, true))), 0x17);
    assert_eq!(get_mapped_item_id(Some((0x17, false))), 0x26);
    assert_eq!(get_mapped_item_id(Some((0x41, true))), 0x16);
    assert_eq!(get_mapped_item_id(Some((0x45, true))), 0x17);
    assert_eq!(get_mapped_item_id(Some((0x57, true))), 0x21);
    assert_eq!(get_mapped_item_id(Some((0x60, true))), 0x26);
}

#[test]
fn check_decisions() {
    let settings = seed_settings();
    assert_eq!(mission_complete_checks(&settings, Rank::SS, Difficulty::Easy), (true, true));
    assert_eq!(mission_complete_checks(&settings, Rank::S, Difficulty::Easy), (false, true));
    let mut strict = seed_settings();
    strict.check_ss_difficulty = true;
    strict.mission_clear_difficulty = Difficulty::Hard;
    strict.mission_clear_rank = Rank::A;
    assert_eq!(mission_complete_checks(&strict, Rank::D, Difficulty::Hard), (false, false));
    assert_eq!(mission_complete_checks(&strict, Rank::S, Difficulty::Hard), (false, true));
    assert_eq!(mission_complete_checks(&strict, Rank::SS, Difficulty::Hard), (true, true));
    assert_eq!(mission_complete_checks(&strict, Rank::SS, Difficulty::Normal), (false, false));
    assert_eq!(purchased_check_item(4), Some(0x07));
    assert_eq!(purchased_check_item(5), Some(0x08));
    assert_eq!(purchased_check_item(0), None);
    assert!(is_valid_id(0x07));
    assert!(!is_valid_id(0x05));
    assert!(!is_valid_id(0x0C));
    assert!(event_pickup(0x25, -1, 120, 5).is_some());
    assert!(event_pickup(0x25, 0, 120, 5).is_none());
    assert!(event_pickup(0x02, -1, 120, 5).is_none());
    assert!(ground_pickup(0x3A, Coordinates { x: 1, y: 1, z: 1 }, 1, 1).is_none());
    assert_eq!(ground_pickup(0x07, Coordinates { x: 1, y: 1, z: 1 }, 1, 1).unwrap().item_id, 7);
    assert_eq!(displayed_after_send(u32::MAX), None);
    assert_eq!(displayed_after_send(0x125), Some(0x25));
}

#[test]
fn high_roller_cleared() {
    let mut mission = empty_mission();
    mission.items[0x26] = 1;
    mission.items[0x20] = 1;
    let mut flags = vec![0xFFu8; FLAG_AREA_LEN];
    clear_high_roller(&mut mission, &mut flags);
    assert_eq!(mission.items[0x26], 0);
    assert_eq!(mission.items[0x20], 0);
    assert!(!has_item_by_flags(&flags, "Remote"));
    assert!(!has_item_by_flags(&flags, "Dummy"));
    assert!(has_item_by_flags(&flags, "Vajura"));
}

#[test]
fn shop_rules() {
    let mut settings = seed_settings();
    assert!(!deny_cerberus_or_shotgun(0, 0x17));
    assert!(skill_shop_locked(&settings));
    assert!(!gun_shop_locked(&settings));
    assert!(shop_shows_gun_checks(&settings));
    let checked = vec!["Purchase Shotgun Level 2".to_string(), "Purchase Shotgun Level 3".to_string(), "Purchase Artemis Level 2".to_string()];
    assert_eq!(get_gun_level_checks(&checked), [0, 2, 1, 0, 0]);
    let purchases = gun_upgrade_confirm(&settings, [0, 1, 0, 0, 0], [0, 2, 0, 0, 1]);
    assert_eq!(purchases.len(), 2);
    assert_eq!(purchases[0].gun_index, 1);
    assert_eq!(purchases[0].level, 2);
    assert_eq!(purchases[0].check_item, Some(0x1D));
    assert!(!purchases[0].update_tracker);
    assert_eq!(purchases[1].check_item, Some(0x21));
    settings.shop_gun_checks = false;
    assert!(gun_upgrade_confirm(&settings, [0; 5], [1; 5]).is_empty());
}

#[test]
fn bloody_palace_hints() {
    assert_eq!(hint_floor_range(95, 205, 50), (100, 200));
    let unchecked = vec![1i64, 2, 3, 4, 5];
    let hinted = vec![2i64];
    let hints = fire_off_hints(&unchecked, &hinted, 100, 200, 50);
    assert_eq!(hints.len(), 3);
    for h in &hints {
        assert!(unchecked.contains(h) && !hinted.contains(h));
    }
    let mut sorted = hints.clone();
    sorted.sort();
    sorted.dedup();
    assert_eq!(sorted.len(), 3);
    assert!(fire_off_hints(&unchecked, &hinted, 150, 100, 50).is_empty());
}

#[test]
fn tracker_values() {
    assert_eq!(RoomUpdate::new(false, 5, 120), RoomUpdate { mission: 5, room: 120 });
    assert_eq!(RoomUpdate::new(true, 5, 120), RoomUpdate { mission: 0, room: 0 });
    let guns = GunLevels::new([1, 2, 0, 0, 1]);
    assert_eq!(guns.gun_levels[1], ("Shotgun", 2));
    let styles = StyleLevels::new([1, 2, 3, 4, 5, 6]);
    assert_eq!(
        styles.style_levels,
        vec![("Swordmaster", 1), ("Gunslinger", 2), ("Trickster", 3), ("Royalguard", 4)]
    );
    assert_eq!(SkillUpdate::new(None, Some([7; 8])).skills, [7; 8]);
    assert_eq!(SkillUpdate::new(Some([1; 8]), Some([7; 8])).skills, [1; 8]);
    assert_eq!(SkillUpdate::new(None, None).skills, [0; 8]);
}

#[test]
fn player_data_written() {
    let mut data = ArchipelagoData::new();
    data.add_item("Cerberus".to_string());
    data.add_item("Shotgun".to_string());
    data.add_blue_orb();
    data.add_gun_level(1);
    data.add_style_level(Style::Gunslinger);
    data.add_style_level(Style::Gunslinger);
    let mut session = new_session();
    session.weapons = [0xFF; 8];
    let mut settings = seed_settings();
    settings.randomize_skills = false;
    set_player_data(&mut session, &data, Some(&settings));
    assert_eq!(session.weapons[0], 1);
    assert_eq!(session.weapons[2], 6);
    assert_eq!(session.ranged_weapon_levels, [0, 1, 0, 0, 0]);
    assert_eq!(session.style_levels, [0, 1, 0, 0, 0, 0]);
    assert_eq!(session.expertise, [0; 8]);
    assert_eq!(modify_available_styles(&data, Some(&settings)), Some([false, false, true, false]));
    assert_eq!(modify_available_styles(&data, None), None);
    assert_eq!(style_level_update(0, 1, 2), Some((Style::Swordmaster, 2)));
    assert_eq!(style_level_update(2, 1, 1), None);
}

#[test]
fn entering_a_room_matches_received() {
    let mut session = new_session();
    let mut mission = empty_mission();
    mission.items[0x26] = 1;
    mission.items[0x17] = 1;
    let mut flags = vec![0u8; FLAG_AREA_LEN];
    let mut data = ArchipelagoData::new();
    data.add_item("Rebellion".to_string());
    data.add_item("Soul of Steel".to_string());
    let mut settings = seed_settings();
    settings.randomize_skills = false;
    let table = location_table();
    assert_eq!(
        load_new_room(&mut session, &mut mission, &mut flags, &data, Some(&settings), 5, 121, &table, &Vec::new()),
        None
    );
    assert_eq!(mission.items[0x16], 1);
    assert_eq!(mission.items[0x17], 0);
    assert_eq!(mission.items[0x26], 0);
    assert!(has_item_by_flags(&flags, "Rebellion"));
    assert!(!has_item_by_flags(&flags, "Cerberus"));
    assert!(has_item_by_flags(&flags, "Soul of Steel"));
    assert!(!has_item_by_flags(&flags, "Vajura"));
    assert!(!has_item_by_flags(&flags, "Remote"));
    assert_eq!(session.expertise, [0; 8]);
}

#[test]
fn received_packet_recounts_levels() {
    let mut data = ArchipelagoData::new();
    data.add_gun_level(0);
    data.add_style_level(Style::Trickster);
    begin_received_items(&mut data, 7);
    let list = [(0x53i64, "Ebony & Ivory Level"), (0x53, "Ebony & Ivory Level"), (0x53, "Ebony & Ivory Level"), (0x57, "Kalina Ann Level"), (0x63, "Royalguard Level")];
    let items: Vec<ReceivedItem> = list
        .iter()
        .enumerate()
        .map(|(i, (id, name))| ReceivedItem { index: i as u64, id: *id, name: name.to_string() })
        .collect();
    let (effects, next) = handle_received_items(&mut data, None, &items, 5, 1);
    assert_eq!(data.gun_levels(), [2, 0, 0, 0, 1]);
    assert_eq!(data.style_levels(), [0, 0, 0, 1]);
    assert_eq!(next, 5);
    assert_eq!(effects[4], ReceivedEffect::Nothing);
    assert_eq!(effects[0], ReceivedEffect::GunLevels);
}
