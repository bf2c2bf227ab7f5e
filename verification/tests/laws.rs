use dmc3_randomizer::constants::{item_id_by_name, item_name_by_id, Style};
use dmc3_randomizer::game_manager::{has_item_by_flags, set_loc_chk_flg, ArchipelagoData, FLAG_AREA_LEN};
use dmc3_randomizer::connection::parse_u16;
use dmc3_randomizer::skill_manager::{add_skill, default_skills, set_skills};
use dmc3_randomizer::strings::decimal_string;

#[test]
fn flag_reads_back_and_spares_others() {
    let mut flags = vec![0u8; FLAG_AREA_LEN];
    set_loc_chk_flg(&mut flags, "Vajura", true);
    assert!(has_item_by_flags(&flags, "Vajura"));
    assert!(!has_item_by_flags(&flags, "Astronomical Board"));
    set_loc_chk_flg(&mut flags, "Astronomical Board", true);
    set_loc_chk_flg(&mut flags, "Vajura", false);
    assert!(!has_item_by_flags(&flags, "Vajura"));
    assert!(has_item_by_flags(&flags, "Astronomical Board"));
}

#[test]
fn item_names_and_ids_round_trip() {
    for id in 0..58u32 {
        let name = item_name_by_id(id).unwrap();
        assert_eq!(item_id_by_name(name), Some(id));
    }
    assert_eq!(item_name_by_id(58), None);
    assert_eq!(item_id_by_name("Nothing"), None);
}

#[test]
fn counts_stay_within_caps() {
    let mut data = ArchipelagoData::new();
    for _ in 0..20 {
        data.add_blue_orb();
        data.add_purple_orb(None);
        data.add_gun_level(2);
        data.add_style_level(Style::Royalguard);
        data.add_stinger_level();
    }
    assert_eq!(data.blue_orbs(), 14);
    assert_eq!(data.purple_orbs(), 10);
    assert_eq!(data.gun_levels()[2], 2);
    assert_eq!(data.style_levels()[3], 3);
    assert_eq!(data.stinger_level(), 2);
}

#[test]
fn leveled_skills_come_in_order() {
    let mut data = ArchipelagoData::new();
    add_skill(0x40, &mut data);
    assert!(data.skills().contains(&0x40));
    assert!(!data.skills().contains(&0x41));
    add_skill(0x40, &mut data);
    assert!(data.skills().contains(&0x41));
    assert_eq!(data.stinger_level(), 2);
}

#[test]
fn skill_words_do_not_depend_on_order() {
    let mut first = ArchipelagoData::new();
    first.add_skill(0x44);
    first.add_skill(0x42);
    let mut second = ArchipelagoData::new();
    second.add_skill(0x42);
    second.add_skill(0x44);
    let mut a = [0u32; 8];
    let mut b = [0u32; 8];
    set_skills(&mut a, &first);
    set_skills(&mut b, &second);
    assert_eq!(a, b);
    let base = default_skills();
    assert_eq!(a[0], base[0] | 0x2000);
    assert_eq!(a[1], base[1] | 0x40);
}

#[test]
fn decimal_reads_back() {
    for n in [0u16, 7, 10, 80, 999, 65535] {
        assert_eq!(parse_u16(&decimal_string(n as u64)), Some(n));
    }
}

#[test]
fn style_numberings_agree() {
    let order = Style::internal_order();
    for style in [Style::Trickster, Style::Swordmaster, Style::Gunslinger, Style::Royalguard] {
        assert_eq!(order[style.get_internal_order_index()].index(), style.index());
        assert_eq!(Style::from_repr(style.index()).unwrap().index(), style.index());
    }
}
