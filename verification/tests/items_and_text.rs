use dmc3_randomizer::bank::{get_bank_key, Bank};
use dmc3_randomizer::cache::{find_checksum_errors, get_item_id_to_name, invert_name_ids};
use dmc3_randomizer::config::Config;
use dmc3_randomizer::constants::{get_item_name, get_items_by_category, ItemCategory};
use dmc3_randomizer::strings::{contains, decimal_string, push_signed_decimal, starts_with, surround_decimal};
use dmc3_randomizer::sync::{get_new_save_path, get_sync_file_key, load_slot_index, save_slot_index, SyncData};
use dmc3_randomizer::tables::{get_item, get_item_id, set_event_tables, EventCode};
use dmc3_randomizer::ui::{checkbox_text, exception_code_to_str, game_message, get_status_text, Checklist, InputHandler, Status};

#[test]
fn decimal_formatting() {
    assert_eq!(decimal_string(0), "0");
    assert_eq!(decimal_string(7), "7");
    assert_eq!(decimal_string(1234), "1234");
    assert_eq!(decimal_string(u64::MAX), "18446744073709551615");
    assert_eq!(surround_decimal("Mission #", 20, " Complete"), "Mission #20 Complete");
    let mut s = String::from("x");
    push_signed_decimal(&mut s, -42);
    assert_eq!(s, "x-42");
    let mut t = String::new();
    push_signed_decimal(&mut t, i64::MIN);
    assert_eq!(t, i64::MIN.to_string());
}

#[test]
fn substring_search() {
    assert!(starts_with("Purchase Shotgun Level 2", "Purchase "));
    assert!(!starts_with("Purchase", "Purchase "));
    assert!(contains("Purchase Blue Orb #3", "Blue Orb"));
    assert!(!contains("Purchase Blue Orb #3", "Purple"));
    assert!(contains("abc", ""));
}

#[test]
fn event_script_item_ids() {
    assert_eq!(get_item_id("Cerberus"), Some(0x17));
    assert_eq!(get_item_id("Red Orb - 1"), Some(0x00));
    assert_eq!(get_item_id("Samsara"), Some(0x39));
    assert_eq!(get_item_id("TODO"), Some(0x0D));
    assert_eq!(get_item_id("Not an item"), None);
}

#[test]
fn event_script_item_names() {
    assert_eq!(get_item(0x00), "Red Orb - 1");
    assert_eq!(get_item(0x07), "Blue Orb (No Work)");
    assert_eq!(get_item(0x1C), "E&I");
    assert_eq!(get_item(0x39), "Samsara");
    assert_eq!(get_item(0x3A), "Undefined Item");
    assert_eq!(get_item(u64::MAX), "Undefined Item");
}

#[test]
fn event_tables_of_mission_three() {
    let tables = set_event_tables();
    assert_eq!(tables.len(), 1);
    let list = tables.get(&3).unwrap();
    assert_eq!(list.len(), 2);
    assert_eq!(list[0].location, "Mission #3 - Shotgun");
    assert_eq!(list[0].events.len(), 5);
    assert_eq!(list[0].events[2].event_type, EventCode::GIVE);
    assert_eq!(list[0].events[2].offset, 0x6DC);
    assert_eq!(list[1].location, "Mission #3 - Cerberus");
    assert_eq!(list[1].events[1].offset, 0xEFC);
}

#[test]
fn bank_keys_and_counts() {
    assert_eq!(get_bank_key("Holy Water", 0, 3), "team0_slot3_Holy Water");
    let bank = Bank::get_bank();
    let consumables = get_items_by_category(ItemCategory::Consumable);
    assert_eq!(bank.len(), consumables.len());
    for name in &consumables {
        assert_eq!(bank.count(name), Some(0));
    }
    assert_eq!(bank.count("Rebellion"), None);
}

#[test]
fn bank_retrieved_values() {
    let mut bank = Bank::get_bank();
    let retrieved = vec![
        (get_bank_key("Devil Star", 1, 2), Some(4)),
        (get_bank_key("Holy Water", 1, 2), None),
        (get_bank_key("Vital Star L", 9, 9), Some(7)),
    ];
    bank.apply_retrieved(&retrieved, 1, 2);
    assert_eq!(bank.count("Devil Star"), Some(4));
    assert_eq!(bank.count("Holy Water"), Some(0));
    assert_eq!(bank.count("Vital Star L"), Some(0));
}

#[test]
fn bank_inventory_screen_round_trip() {
    let mut bank = Bank::get_bank();
    let retrieved = vec![(get_bank_key("Vital Star S", 0, 1), Some(3)), (get_bank_key("Devil Star", 0, 1), Some(2))];
    bank.apply_retrieved(&retrieved, 0, 1);
    let mut status = vec![0u8; 62];
    status[0x11] = 1;
    status[0x12] = 5;
    let before = status.clone();
    bank.open_inv_screen(&mut status);
    assert_eq!(status[0x11], 4);
    assert_eq!(status[0x12], 7);
    assert_eq!(status[0x10], 0);
    bank.close_inv_screen(&mut status);
    assert_eq!(status, before);
}

#[test]
fn bank_close_does_not_go_below_zero() {
    let mut bank = Bank::get_bank();
    bank.apply_retrieved(&vec![(get_bank_key("Holy Water", 0, 0), Some(9))], 0, 0);
    let mut status = vec![0u8; 62];
    status[0x13] = 2;
    bank.close_inv_screen(&mut status);
    assert_eq!(status[0x13], 0);
}

#[test]
fn bank_use_item_takes_from_bank() {
    let mut bank = Bank::get_bank();
    assert_eq!(bank.use_item(0), None);
    bank.apply_retrieved(&vec![(get_bank_key("Vital Star S", 0, 0), Some(1))], 0, 0);
    assert_eq!(bank.use_item(0), Some("Vital Star S"));
    assert_eq!(bank.use_item(1), None);
    assert_eq!(bank.use_item(4), None);
    assert_eq!(bank.use_item(-1), None);
}

#[test]
fn sync_keys_and_paths() {
    assert_eq!(get_sync_file_key("seed", "Dante".to_string()), "seed_Dante");
    assert_eq!(get_new_save_path("123", "Dante"), "archipelago/dmc3_123_Dante.sav");
}

#[test]
fn sync_slot_reads_back() {
    let mut data = SyncData { room_sync_info: Vec::new() };
    assert_eq!(load_slot_index(&data, "seed_Dante", 3), None);
    save_slot_index(&mut data, "seed_Dante".to_string(), 3, 17);
    assert_eq!(load_slot_index(&data, "seed_Dante", 3), Some(17));
    assert_eq!(load_slot_index(&data, "seed_Dante", 4), Some(0));
    assert_eq!(load_slot_index(&data, "other_Dante", 3), None);
    save_slot_index(&mut data, "other_Dante".to_string(), 3, 5);
    save_slot_index(&mut data, "seed_Dante".to_string(), 3, 20);
    assert_eq!(load_slot_index(&data, "seed_Dante", 3), Some(20));
    assert_eq!(load_slot_index(&data, "other_Dante", 3), Some(5));
    assert_eq!(data.room_sync_info.len(), 2);
}

#[test]
fn checksum_errors() {
    let games = vec!["DMC3".to_string(), "Other".to_string(), "Third".to_string()];
    let room = vec![
        ("DMC3".to_string(), "aaa".to_string()),
        ("Other".to_string(), "bbb".to_string()),
        ("Third".to_string(), "ccc".to_string()),
    ];
    let cached_ok = vec![
        ("DMC3".to_string(), "aaa".to_string()),
        ("Other".to_string(), "bbb".to_string()),
        ("Third".to_string(), "ccc".to_string()),
    ];
    assert_eq!(find_checksum_errors(&games, &room, &cached_ok), None);
    let cached_stale = vec![("DMC3".to_string(), "old".to_string()), ("Third".to_string(), "ccc".to_string())];
    assert_eq!(
        find_checksum_errors(&games, &room, &cached_stale),
        Some(vec!["DMC3".to_string(), "Other".to_string()])
    );
    let room_missing = vec![("Other".to_string(), "bbb".to_string())];
    assert_eq!(
        find_checksum_errors(&games, &room_missing, &cached_ok),
        Some(vec!["DMC3".to_string(), "Third".to_string()])
    );
    let room_partial = vec![("DMC3".to_string(), "aaa".to_string()), ("Third".to_string(), "ccc".to_string())];
    assert_eq!(
        find_checksum_errors(&games, &room_partial, &cached_stale),
        Some(vec!["DMC3".to_string(), "Other".to_string()])
    );
}

#[test]
fn id_to_name_lookups() {
    let pairs = vec![("Blue Orb".to_string(), 7i64), ("Shotgun".to_string(), 0x1D)];
    let inverted = invert_name_ids(&pairs);
    assert_eq!(inverted, vec![(7, "Blue Orb".to_string()), (0x1D, "Shotgun".to_string())]);
    assert_eq!(get_item_id_to_name(None), None);
    assert_eq!(get_item_id_to_name(Some(&pairs)).unwrap().len(), 2);
}

#[test]
fn default_config() {
    let config = Config::default();
    assert_eq!(config.connections.port, 21705);
    assert_eq!(config.connections.address, "localhost");
    assert!(!config.connections.disable_auto_connect);
    assert_eq!(config.connections.reconnect_interval_seconds, 10);
    assert!(!config.mods.disable_ddmk_hooks);
    assert!(!config.mods.disable_crimson_hooks);
    assert_eq!(config.connections.local_url(), "localhost:21705");
}

#[test]
fn status_texts() {
    assert_eq!(get_status_text(Status::Connected), "Connected");
    assert_eq!(get_status_text(Status::InvalidSlot), "Invalid slot (Check name)");
    assert_eq!(get_status_text(Status::InvalidPassword), "Invalid password");
}

#[test]
fn checklist_reads_back() {
    let mut checklist = Checklist::new();
    assert!(!checklist.is_checked("Vajura"));
    assert_eq!(checkbox_text(&checklist, "Vajura"), "Vajura [ ]");
    checklist.set_checklist_item("Vajura", true);
    assert!(checklist.is_checked("Vajura"));
    assert_eq!(checkbox_text(&checklist, "Vajura"), "Vajura [X]");
    checklist.set_checklist_item("Soul of Steel", true);
    checklist.set_checklist_item("Vajura", false);
    assert!(!checklist.is_checked("Vajura"));
    assert!(checklist.is_checked("Soul of Steel"));
}

#[test]
fn input_handler_delay() {
    let mut handler = InputHandler::new(1000);
    assert!(!handler.can_process_key(1050));
    assert!(handler.can_process_key(1100));
    assert!(!handler.can_process_key(1199));
    assert!(handler.can_process_key(1200));
    assert!(!handler.can_process_key(500));
}

#[test]
fn exception_names() {
    assert_eq!(exception_code_to_str(0xC0000005), "Access Violation");
    assert_eq!(exception_code_to_str(0xE06D7363), "C++ Exception");
    assert_eq!(exception_code_to_str(1), "Unknown Exception");
}

#[test]
fn game_message_text() {
    assert_eq!(game_message("Got it"), "<PS 85 305><SZ 24><IT 0>Got it<NE>\0");
    assert_eq!(game_message("a\nb"), "<PS 85 305><SZ 24><IT 0>a<BR>b<NE>\0");
}

#[test]
fn item_names_by_id() {
    assert_eq!(get_item_name(0x17), "Cerberus");
    assert_eq!(get_item_name(0x26), "Remote");
}
