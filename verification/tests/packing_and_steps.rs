use dmc3_randomizer::atlas::pack_font_atlas;
use dmc3_randomizer::bank::Bank;
use dmc3_randomizer::connection::{step, CoreAction, CoreEvent, CoreState, SlotMode};
use dmc3_randomizer::constants::{
    get_items_by_category, get_unlocked_weapon_id, get_weapon_id, Difficulty, ItemCategory, Rank,
};
use dmc3_randomizer::game_manager::{has_item_by_flags, ArchipelagoData, FLAG_AREA_LEN};
use dmc3_randomizer::game_structs::{MissionData, SessionData, TotalRankings};
use dmc3_randomizer::hint::{fire_off_hints, pick_hints};
use dmc3_randomizer::hooks::{calculate_max_mission, start_new_game};
use dmc3_randomizer::mapping::{AutoHint, DeathlinkSetting, Goal, Mapping};
use dmc3_randomizer::receive::{handle_received_items, ReceivedEffect, ReceivedItem};
use dmc3_randomizer::tables::{get_item, get_item_id};

fn settings() -> Mapping {
    Mapping {
        starter_items: Vec::new(),
        adjudicators: None,
        start_melee: 0,
        start_second_melee: 0,
        start_gun: 0,
        start_second_gun: 0,
        randomize_skills: true,
        randomize_gun_levels: true,
        randomize_styles: true,
        purple_orb_mode: false,
        devil_trigger_mode: false,
        check_ss_difficulty: false,
        shop_checks: true,
        shop_orb_checks: true,
        shop_gun_checks: true,
        shop_skill_checks: false,
        auto_gun_hints: AutoHint::Off,
        death_link: DeathlinkSetting::DeathLink,
        goal: Goal::Standard,
        mission_order: None,
        generated_version: None,
        client_version: None,
        mission_clear_rank: Rank::D,
        mission_clear_difficulty: Difficulty::Easy,
        initially_unlocked_difficulties: vec![Difficulty::Easy],
    }
}

fn session() -> SessionData {
    SessionData {
        mission: 1,
        other_mission: 1,
        room: 5,
        difficulty: 1,
        hoh: false,
        char: 0,
        red_orbs: 300,
        items: [0; 20],
        weapon_style_unlocks: [false; 14],
        weapons: [1; 8],
        ranged_weapon_levels: [0; 5],
        melee_index: 0,
        gun_index: 0,
        unlocked_dt: false,
        max_hp: 6000,
        max_magic: 0,
        style: 0,
        style_levels: [0; 6],
        expertise: [0; 8],
    }
}

fn item(index: u64, id: i64, name: &str) -> ReceivedItem {
    ReceivedItem { index, id, name: name.to_string() }
}

#[test]
fn atlas_rows_and_pixels() {
    let widths = vec![2u32, 3, 2];
    let heights = vec![1u32, 2, 1];
    let bitmaps = vec![vec![10u8, 11], vec![20u8, 21, 22, 23, 24, 25], vec![30u8, 31]];
    let atlas = pack_font_atlas(&widths, &heights, &bitmaps, 4);
    assert_eq!(atlas.width, 4);
    assert_eq!(atlas.height, 4);
    assert_eq!(atlas.data.len(), 64);
    let places: Vec<(u32, u32, u32, u32)> =
        atlas.glyphs.iter().map(|g| (g.x, g.y, g.width, g.height)).collect();
    assert_eq!(places, vec![(0, 0, 2, 1), (0, 1, 3, 2), (0, 3, 2, 1)]);
    let pixel = |col: usize, row: usize| {
        let i = (row * 4 + col) * 4;
        (atlas.data[i], atlas.data[i + 1], atlas.data[i + 2], atlas.data[i + 3])
    };
    assert_eq!(pixel(1, 0), (255, 255, 255, 11));
    assert_eq!(pixel(2, 0), (0, 0, 0, 0));
    assert_eq!(pixel(2, 2), (255, 255, 255, 25));
    assert_eq!(pixel(3, 1), (0, 0, 0, 0));
    assert_eq!(pixel(0, 3), (255, 255, 255, 30));
    let fits = pack_font_atlas(&vec![2, 2], &vec![3, 1], &vec![vec![1u8; 6], vec![2u8; 2]], 4);
    assert_eq!(fits.height, 3);
    assert_eq!((fits.glyphs[1].x, fits.glyphs[1].y), (2, 0));
    let empty = pack_font_atlas(&Vec::new(), &Vec::new(), &Vec::new(), 8);
    assert_eq!((empty.height, empty.data.len()), (0, 0));
}

#[test]
fn connection_steps() {
    let mut state = CoreState::new();
    let mut mapping = Some(settings());
    let mut data = ArchipelagoData::new();
    let actions = step(&mut state, &mut mapping, &mut data, &CoreEvent::Connected { mode: SlotMode::Normal, floors_per_hint: 0 });
    assert_eq!(
        actions,
        vec![CoreAction::StoreMapping, CoreAction::SendOfflineChecks, CoreAction::CreateHooks(SlotMode::Normal)]
    );
    let actions = step(
        &mut state,
        &mut mapping,
        &mut data,
        &CoreEvent::HooksCreated { mode: SlotMode::Normal, floors_per_hint: 0, created: true },
    );
    assert_eq!(actions, vec![CoreAction::EnableHooks(SlotMode::Normal), CoreAction::RunSetup]);
    let actions = step(&mut state, &mut mapping, &mut data, &CoreEvent::Connected { mode: SlotMode::Normal, floors_per_hint: 0 });
    assert_eq!(actions, vec![CoreAction::StoreMapping, CoreAction::SendOfflineChecks, CoreAction::RunSetup]);
    let actions = step(&mut state, &mut mapping, &mut data, &CoreEvent::Connected { mode: SlotMode::HintGame, floors_per_hint: 40 });
    assert_eq!(actions, vec![CoreAction::CreateHooks(SlotMode::HintGame)]);
    let actions = step(
        &mut state,
        &mut mapping,
        &mut data,
        &CoreEvent::HooksCreated { mode: SlotMode::HintGame, floors_per_hint: 40, created: false },
    );
    assert_eq!(actions, vec![CoreAction::SetFloorsPerHint(40)]);
    let bounce = CoreEvent::Bounce { hint_game: true, value: Some("25".to_string()) };
    assert_eq!(step(&mut state, &mut mapping, &mut data, &bounce), vec![CoreAction::SetFloorsPerHint(25)]);
    let bounce = CoreEvent::Bounce { hint_game: true, value: None };
    assert_eq!(step(&mut state, &mut mapping, &mut data, &bounce), vec![CoreAction::SetFloorsPerHint(80)]);
    let bounce = CoreEvent::Bounce { hint_game: false, value: Some("25".to_string()) };
    assert!(step(&mut state, &mut mapping, &mut data, &bounce).is_empty());
    assert_eq!(
        step(&mut state, &mut mapping, &mut data, &CoreEvent::DeathLink(Some(DeathlinkSetting::HurtLink))),
        vec![CoreAction::ShowDeathLink, CoreAction::Hurt]
    );
    assert_eq!(
        step(&mut state, &mut mapping, &mut data, &CoreEvent::DeathLink(None)),
        vec![CoreAction::ShowDeathLink]
    );
    assert_eq!(
        step(&mut state, &mut mapping, &mut data, &CoreEvent::ReceivedItems(4)),
        vec![CoreAction::HandleReceivedItems(4)]
    );
    assert!(step(&mut state, &mut mapping, &mut data, &CoreEvent::Other).is_empty());
    data.add_blue_orb();
    let actions = step(&mut state, &mut mapping, &mut data, &CoreEvent::Disconnected);
    assert_eq!(
        actions,
        vec![
            CoreAction::ResetOverlay,
            CoreAction::DisableHooks(SlotMode::Normal),
            CoreAction::RestoreModeTable,
            CoreAction::Stop,
        ]
    );
    assert!(mapping.is_none());
    assert_eq!(data.blue_orbs(), 0);
    assert!(state.hooks.installed && !state.hooks.enabled);
}

#[test]
fn new_game_replays_received_items() {
    let mapping = settings();
    let mut session = session();
    let mut mission = MissionData { gun_stuff: [0; 5], red_orbs: 0, items: [0; 62], bought_items: [0; 8] };
    let mut flags = vec![0u8; FLAG_AREA_LEN];
    let mut data = ArchipelagoData::new();
    data.add_item("Cerberus".to_string());
    for _ in 0..3 {
        data.add_blue_orb();
    }
    let items = vec![item(0, 7, "Blue Orb"), item(1, 0x1B, "Beowulf"), item(2, 2, "Red Orb - 2500")];
    let (unlocks, effects, index) =
        start_new_game(&mut session, &mut mission, &mut flags, &mut data, &mapping, &items, 1);
    assert!(unlocks.is_some());
    assert_eq!(session.red_orbs, 0);
    assert_eq!(mission.items[0x17], 1);
    assert!(has_item_by_flags(&flags, "Cerberus"));
    assert_eq!(effects, vec![ReceivedEffect::Health, ReceivedEffect::Weapons, ReceivedEffect::RedOrbs(2500)]);
    assert_eq!(index, 3);
    assert_eq!(data.blue_orbs(), 1);
    assert!(data.has_item("Beowulf"));
    assert!(!data.has_item("Cerberus"));
}

#[test]
fn packets_in_a_row_and_again() {
    let mapping = settings();
    let first = vec![item(0, 7, "Blue Orb"), item(1, 0x10, "Vital Star L")];
    let second = vec![item(2, 8, "Purple Orb"), item(3, 1, "Red Orb - 1000")];
    let mut both = ArchipelagoData::new();
    let mut all = first.iter().map(|i| item(i.index, i.id, &i.name)).collect::<Vec<_>>();
    all.extend(second.iter().map(|i| item(i.index, i.id, &i.name)));
    let (effects_all, index_all) = handle_received_items(&mut both, Some(&mapping), &all, 0, 1);
    let mut split = ArchipelagoData::new();
    let (mut effects, middle) = handle_received_items(&mut split, Some(&mapping), &first, 0, 1);
    let (more, index) = handle_received_items(&mut split, Some(&mapping), &second, middle, 1);
    effects.extend(more);
    assert_eq!(effects, effects_all);
    assert_eq!(index, index_all);
    assert_eq!(index, 4);
    assert_eq!(split.blue_orbs(), both.blue_orbs());
    assert_eq!(split.purple_orbs(), both.purple_orbs());
    let (again, index_again) = handle_received_items(&mut split, Some(&mapping), &all, index, 1);
    assert_eq!(index_again, 4);
    assert!(again.iter().all(|e| *e == ReceivedEffect::Nothing));
}

#[test]
fn item_ids_distinct_and_round_trip() {
    let names = ["Red Orb - 1", "Gold Orb", "TODO", "Vital Star L", "Vajura", "Samsara", "Blue Orb"];
    let mut ids: Vec<u8> = names.iter().map(|n| get_item_id(n).unwrap()).collect();
    ids.sort();
    ids.dedup();
    assert_eq!(ids.len(), names.len());
    assert_eq!(get_item_id("TODO"), Some(0x0D));
    for x in [0u64, 5, 0x0D, 0x10, 0x25, 0x39] {
        assert_eq!(get_item_id(get_item(x)), Some(x as u8));
    }
    assert_eq!(get_item(0x0E), "TODO");
    assert_eq!(get_item_id(get_item(0x0E)), Some(0x0D));
    assert_eq!(get_item(0x0D), get_item(0x0E));
    assert_eq!(get_item_id(get_item(0x07)), None);
    assert_eq!(get_item_id(get_item(100)), None);
}

#[test]
fn categories_split_the_items() {
    let cats = [ItemCategory::Key, ItemCategory::Consumable, ItemCategory::Weapon, ItemCategory::RedOrb, ItemCategory::Misc];
    let lists: Vec<Vec<&str>> = cats.iter().map(|c| get_items_by_category(*c)).collect();
    let lens: Vec<usize> = lists.iter().map(|l| l.len()).collect();
    assert_eq!(lens, vec![21, 4, 12, 5, 16]);
    assert_eq!(lens.iter().sum::<usize>(), 58);
    for a in 0..5 {
        for b in 0..5 {
            if a != b {
                assert!(lists[a].iter().all(|n| !lists[b].contains(n)));
            }
        }
    }
}

#[test]
fn weapon_slots_in_range_and_distinct() {
    let weapons = get_items_by_category(ItemCategory::Weapon);
    let mut slots: Vec<u8> = weapons.iter().map(|w| get_weapon_id(w)).collect();
    let mut unlocks: Vec<u8> = weapons.iter().map(|w| get_unlocked_weapon_id(w)).collect();
    assert!(slots.iter().all(|s| *s < 12));
    assert!(unlocks.iter().all(|s| *s < 14));
    slots.sort();
    slots.dedup();
    unlocks.sort();
    unlocks.dedup();
    assert_eq!((slots.len(), unlocks.len()), (12, 12));
}

#[test]
fn bank_holds_the_consumables() {
    let bank = Bank::get_bank();
    assert_eq!(bank.len(), 4);
    for name in ["Vital Star L", "Vital Star S", "Devil Star", "Holy Water"] {
        assert_eq!(bank.count(name), Some(0));
    }
    assert_eq!(bank.count("Gold Orb"), None);
}

#[test]
fn long_random_order_counts_done_missions() {
    let mut mapping = settings();
    mapping.goal = Goal::RandomOrder;
    let mut order: Vec<u8> = Vec::new();
    for i in 0..300usize {
        order.push((i % 20) as u8 + 1);
    }
    mapping.mission_order = Some(order);
    let mut rankings = TotalRankings {
        easy_ranking: [0xFF; 20],
        normal_ranking: [0xFF; 20],
        hard_ranking: [0xFF; 20],
        very_hard_ranking: [0xFF; 20],
        dmd_ranking: [0xFF; 20],
        hoh_ranking: [0xFF; 20],
    };
    rankings.easy_ranking[2] = 1;
    assert_eq!(calculate_max_mission(&mapping, &rankings, Difficulty::Easy), 16);
}

#[test]
fn hints_up_to_the_top_floors() {
    let unchecked = vec![1i64, 2, 3];
    let hints = fire_off_hints(&unchecked, &Vec::new(), 65500, 65520, 30);
    assert_eq!(hints.len(), 1);
    assert!(unchecked.contains(&hints[0]));
}

#[test]
fn hints_taken_out_by_the_draws() {
    let pool = vec![10i64, 20, 30, 40];
    assert_eq!(pick_hints(pool.clone(), &vec![1, 0, 1]), vec![20, 10, 40]);
    assert_eq!(pick_hints(pool.clone(), &vec![3, 2, 1, 0]), vec![40, 30, 20, 10]);
    assert_eq!(pick_hints(pool, &Vec::new()), Vec::<i64>::new());
}

#[test]
fn packed_glyphs_do_not_overlap() {
    let widths = vec![3u32, 1, 4, 2, 2];
    let heights = vec![2u32, 3, 1, 2, 1];
    let bitmaps: Vec<Vec<u8>> = widths.iter().zip(&heights).map(|(w, h)| vec![1u8; (w * h) as usize]).collect();
    let atlas = pack_font_atlas(&widths, &heights, &bitmaps, 5);
    for (a, ga) in atlas.glyphs.iter().enumerate() {
        assert!(ga.x + ga.width <= atlas.width && ga.y + ga.height <= atlas.height);
        for gb in atlas.glyphs.iter().skip(a + 1) {
            assert!(ga.y + ga.height <= gb.y || (ga.y == gb.y && ga.x + ga.width <= gb.x));
        }
    }
}
