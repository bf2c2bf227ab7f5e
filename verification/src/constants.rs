//! The item table of the game and the lookups built on it.
use vstd::prelude::*;
use bimap::BiHashMap;
use crate::item_map::{
    name_id_map_get_by_left, name_id_map_get_by_right, name_id_map_insert, name_id_map_new,
    name_id_pairs, spec_bimap_insert,
};
use crate::strings::str_eq;
use crate::skill_manager::{id_skill_name, spec_skill_name};

verus! {

/// Number of entries of the item table; item ids run from 0 to 0x39.
pub const ITEM_COUNT: usize = 58;

/// One Blue/Purple orb is worth this many points of health or magic.
pub const ONE_ORB: u32 = 1000;
/// Health of Dante without any Blue Orb.
pub const BASE_HP: u32 = 6000;
/// Highest health that Blue Orbs can give.
pub const MAX_HP: u32 = 20000;
/// Highest magic that Purple Orbs can give.
pub const MAX_MAGIC: u32 = 10000;

#[derive(PartialEq, Eq, Structural, Clone, Copy, Debug)]
pub enum ItemCategory {
    Key,
    Consumable,
    Weapon,
    /// Red orbs are special...
    RedOrb,
    Misc,
}

/// An entry of the item table.
#[derive(Clone, Copy, Debug)]
pub struct Item {
    pub id: u32,
    pub name: &'static str,
    pub category: ItemCategory,
    /// Mission the key item is used in, typically the same that it is acquired in
    pub mission: Option<u32>,
    /// Max amount of a consumable
    pub _max_amount: Option<i32>,
    /// Value of an orb, used only for red orbs
    pub _value: Option<i32>,
}

/// The item with id `i`, for `0 <= i < ITEM_COUNT`.
pub open spec fn spec_item(i: int) -> Item {
    item_entry(i as u8)
}

/// The item table, indexed by id.
pub open spec fn item_entry(i: u8) -> Item {
    match i {
        0 => Item {
            id: 0,
            name: "Red Orb - 1",
            category: ItemCategory::RedOrb,
            mission: None,
            _max_amount: Some(999999),
            _value: Some(1),
        },
        1 => Item {
            id: 1,
            name: "Red Orb - 5",
            category: ItemCategory::RedOrb,
            mission: None,
            _max_amount: Some(999999),
            _value: Some(5),
        },
        2 => Item {
            id: 2,
            name: "Red Orb - 20",
            category: ItemCategory::RedOrb,
            mission: None,
            _max_amount: Some(999999),
            _value: Some(1),
        },
        3 => Item {
            id: 3,
            name: "Red Orb - 100",
            category: ItemCategory::RedOrb,
            mission: None,
            _max_amount: Some(999999),
            _value: Some(100),
        },
        4 => Item {
            id: 4,
            name: "Red Orb - 1000",
            category: ItemCategory::RedOrb,
            mission: None,
            _max_amount: Some(999999),
            _value: Some(1000),
        },
        5 => Item {
            id: 5,
            name: "Gold Orb",
            category: ItemCategory::Misc,
            mission: None,
            _max_amount: Some(3),
            _value: None,
        },
        6 => Item {
            id: 6,
            name: "Yellow Orb",
            category: ItemCategory::Misc,
            mission: None,
            _max_amount: Some(99),
            _value: None,
        },
        7 => Item {
            id: 7,
            name: "Blue Orb",
            category: ItemCategory::Misc,
            mission: None,
            _max_amount: None,
            _value: None,
        },
        8 => Item {
            id: 8,
            name: "Purple Orb",
            category: ItemCategory::Misc,
            mission: None,
            _max_amount: None,
            _value: None,
        },
        9 => Item {
            id: 9,
            name: "Blue Orb Fragment",
            category: ItemCategory::Misc,
            mission: None,
            _max_amount: Some(4),
            _value: None,
        },
        10 => Item {
            id: 10,
            name: "Green Orb - Small",
            category: ItemCategory::Misc,
            mission: None,
            _max_amount: None,
            _value: None,
        },
        11 => Item {
            id: 11,
            name: "Green Orb - Medium",
            category: ItemCategory::Misc,
            mission: None,
            _max_amount: None,
            _value: None,
        },
        12 => Item {
            id: 12,
            name: "Green Orb - Large",
            category: ItemCategory::Misc,
            mission: None,
            _max_amount: None,
            _value: None,
        },
        13 => Item {
            id: 13,
            name: "Unknown D",
            category: ItemCategory::Misc,
            mission: None,
            _max_amount: None,
            _value: None,
        },
        14 => Item {
            id: 14,
            name: "Unknown E",
            category: ItemCategory::Misc,
            mission: None,
            _max_amount: None,
            _value: None,
        },
        15 => Item {
            id: 15,
            name: "Unknown F",
            category: ItemCategory::Misc,
            mission: None,
            _max_amount: None,
            _value: None,
        },
        16 => Item {
            id: 16,
            name: "Vital Star L",
            category: ItemCategory::Consumable,
            mission: None,
            _max_amount: Some(30),
            _value: None,
        },
        17 => Item {
            id: 17,
            name: "Vital Star S",
            category: ItemCategory::Consumable,
            mission: None,
            _max_amount: Some(30),
            _value: None,
        },
        18 => Item {
            id: 18,
            name: "Devil Star",
            category: ItemCategory::Consumable,
            mission: None,
            _max_amount: Some(10),
            _value: None,
        },
        19 => Item {
            id: 19,
            name: "Holy Water",
            category: ItemCategory::Consumable,
            mission: None,
            _max_amount: Some(30),
            _value: None,
        },
        20 => Item {
            id: 20,
            name: "Scent of Fear",
            category: ItemCategory::Misc,
            mission: None,
            _max_amount: None,
            _value: None,
        },
        21 => Item {
            id: 21,
            name: "Amulet (Casino Coins)",
            category: ItemCategory::Misc,
            mission: None,
            _max_amount: None,
            _value: None,
        },
        22 => Item {
            id: 22,
            name: "Rebellion",
            category: ItemCategory::Weapon,
            mission: None,
            _max_amount: None,
            _value: None,
        },
        23 => Item {
            id: 23,
            name: "Cerberus",
            category: ItemCategory::Weapon,
            mission: None,
            _max_amount: None,
            _value: None,
        },
        24 => Item {
            id: 24,
            name: "Agni and Rudra",
            category: ItemCategory::Weapon,
            mission: None,
            _max_amount: None,
            _value: None,
        },
        25 => Item {
            id: 25,
            name: "Devil Trigger",
            category: ItemCategory::Misc,
            mission: None,
            _max_amount: None,
            _value: None,
        },
        26 => Item {
            id: 26,
            name: "Nevan",
            category: ItemCategory::Weapon,
            mission: None,
            _max_amount: None,
            _value: None,
        },
        27 => Item {
            id: 27,
            name: "Beowulf",
            category: ItemCategory::Weapon,
            mission: None,
            _max_amount: None,
            _value: None,
        },
        28 => Item {
            id: 28,
            name: "Ebony & Ivory",
            category: ItemCategory::Weapon,
            mission: None,
            _max_amount: None,
            _value: None,
        },
        29 => Item {
            id: 29,
            name: "Shotgun",
            category: ItemCategory::Weapon,
            mission: None,
            _max_amount: None,
            _value: None,
        },
        30 => Item {
            id: 30,
            name: "Artemis",
            category: ItemCategory::Weapon,
            mission: None,
            _max_amount: None,
            _value: None,
        },
        31 => Item {
            id: 31,
            name: "Spiral",
            category: ItemCategory::Weapon,
            mission: None,
            _max_amount: None,
            _value: None,
        },
        32 => Item {
            id: 32,
            name: "Dummy",
            category: ItemCategory::Misc,
            mission: None,
            _max_amount: None,
            _value: None,
        },
        33 => Item {
            id: 33,
            name: "Kalina Ann",
            category: ItemCategory::Weapon,
            mission: None,
            _max_amount: None,
            _value: None,
        },
        34 => Item {
            id: 34,
            name: "Quicksilver Style",
            category: ItemCategory::Weapon,
            mission: None,
            _max_amount: None,
            _value: None,
        },
        35 => Item {
            id: 35,
            name: "Doppelganger Style",
            category: ItemCategory::Weapon,
            mission: None,
            _max_amount: None,
            _value: None,
        },
        36 => Item {
            id: 36,
            name: "Astronomical Board",
            category: ItemCategory::Key,
            mission: Some(5),
            _max_amount: None,
            _value: None,
        },
        37 => Item {
            id: 37,
            name: "Vajura",
            category: ItemCategory::Key,
            mission: Some(5),
            _max_amount: None,
            _value: None,
        },
        38 => Item {
            id: 38,
            name: "Remote",
            category: ItemCategory::Misc,
            mission: None,
            _max_amount: None,
            _value: None,
        },
        39 => Item {
            id: 39,
            name: "Soul of Steel",
            category: ItemCategory::Key,
            mission: Some(5),
            _max_amount: None,
            _value: None,
        },
        40 => Item {
            id: 40,
            name: "Essence of Fighting",
            category: ItemCategory::Key,
            mission: Some(6),
            _max_amount: None,
            _value: None,
        },
        41 => Item {
            id: 41,
            name: "Essence of Technique",
            category: ItemCategory::Key,
            mission: Some(6),
            _max_amount: None,
            _value: None,
        },
        42 => Item {
            id: 42,
            name: "Essence of Intelligence",
            category: ItemCategory::Key,
            mission: Some(6),
            _max_amount: None,
            _value: None,
        },
        43 => Item {
            id: 43,
            name: "Orihalcon Fragment",
            category: ItemCategory::Key,
            mission: Some(7),
            _max_amount: None,
            _value: None,
        },
        44 => Item {
            id: 44,
            name: "Siren's Shriek",
            category: ItemCategory::Key,
            mission: Some(7),
            _max_amount: None,
            _value: None,
        },
        45 => Item {
            id: 45,
            name: "Crystal Skull",
            category: ItemCategory::Key,
            mission: Some(7),
            _max_amount: None,
            _value: None,
        },
        46 => Item {
            id: 46,
            name: "Ignis Fatuus",
            category: ItemCategory::Key,
            mission: Some(8),
            _max_amount: None,
            _value: None,
        },
        47 => Item {
            id: 47,
            name: "Ambrosia",
            category: ItemCategory::Key,
            mission: Some(9),
            _max_amount: None,
            _value: None,
        },
        48 => Item {
            id: 48,
            name: "Stone Mask",
            category: ItemCategory::Key,
            mission: Some(10),
            _max_amount: None,
            _value: None,
        },
        49 => Item {
            id: 49,
            name: "Neo Generator",
            category: ItemCategory::Key,
            mission: Some(10),
            _max_amount: None,
            _value: None,
        },
        50 => Item {
            id: 50,
            name: "Haywire Neo Generator",
            category: ItemCategory::Key,
            mission: Some(12),
            _max_amount: None,
            _value: None,
        },
        51 => Item {
            id: 51,
            name: "Full Orihalcon",
            category: ItemCategory::Key,
            mission: Some(13),
            _max_amount: None,
            _value: None,
        },
        52 => Item {
            id: 52,
            name: "Orihalcon Fragment (Right)",
            category: ItemCategory::Key,
            mission: Some(15),
            _max_amount: None,
            _value: None,
        },
        53 => Item {
            id: 53,
            name: "Orihalcon Fragment (Bottom)",
            category: ItemCategory::Key,
            mission: Some(15),
            _max_amount: None,
            _value: None,
        },
        54 => Item {
            id: 54,
            name: "Orihalcon Fragment (Left)",
            category: ItemCategory::Key,
            mission: Some(15),
            _max_amount: None,
            _value: None,
        },
        55 => Item {
            id: 55,
            name: "Golden Sun",
            category: ItemCategory::Key,
            mission: Some(16),
            _max_amount: None,
            _value: None,
        },
        56 => Item {
            id: 56,
            name: "Onyx Moonshard",
            category: ItemCategory::Key,
            mission: Some(16),
            _max_amount: None,
            _value: None,
        },
        57 => Item {
            id: 57,
            name: "Samsara",
            category: ItemCategory::Key,
            mission: Some(19),
            _max_amount: None,
            _value: None,
        },
        _ => Item {
            id: 0,
            name: "Red Orb - 1",
            category: ItemCategory::RedOrb,
            mission: None,
            _max_amount: Some(999999),
            _value: Some(1),
        },
    }
}

/// The entry of the item table at `index`; the id of an item is its index.
pub fn item_by_index(index: usize) -> (item: Item)
    requires
        index < ITEM_COUNT,
    ensures
        item == spec_item(index as int),
{
    match index {
        0 => Item {
            id: 0,
            name: "Red Orb - 1",
            category: ItemCategory::RedOrb,
            mission: None,
            _max_amount: Some(999999),
            _value: Some(1),
        },
        1 => Item {
            id: 1,
            name: "Red Orb - 5",
            category: ItemCategory::RedOrb,
            mission: None,
            _max_amount: Some(999999),
            _value: Some(5),
        },
        2 => Item {
            id: 2,
            name: "Red Orb - 20",
            category: ItemCategory::RedOrb,
            mission: None,
            _max_amount: Some(999999),
            _value: Some(1),
        },
        3 => Item {
            id: 3,
            name: "Red Orb - 100",
            category: ItemCategory::RedOrb,
            mission: None,
            _max_amount: Some(999999),
            _value: Some(100),
        },
        4 => Item {
            id: 4,
            name: "Red Orb - 1000",
            category: ItemCategory::RedOrb,
            mission: None,
            _max_amount: Some(999999),
            _value: Some(1000),
        },
        5 => Item {
            id: 5,
            name: "Gold Orb",
            category: ItemCategory::Misc,
            mission: None,
            _max_amount: Some(3),
            _value: None,
        },
        6 => Item {
            id: 6,
            name: "Yellow Orb",
            category: ItemCategory::Misc,
            mission: None,
            _max_amount: Some(99),
            _value: None,
        },
        7 => Item {
            id: 7,
            name: "Blue Orb",
            category: ItemCategory::Misc,
            mission: None,
            _max_amount: None,
            _value: None,
        },
        8 => Item {
            id: 8,
            name: "Purple Orb",
            category: ItemCategory::Misc,
            mission: None,
            _max_amount: None,
            _value: None,
        },
        9 => Item {
            id: 9,
            name: "Blue Orb Fragment",
            category: ItemCategory::Misc,
            mission: None,
            _max_amount: Some(4),
            _value: None,
        },
        10 => Item {
            id: 10,
            name: "Green Orb - Small",
            category: ItemCategory::Misc,
            mission: None,
            _max_amount: None,
            _value: None,
        },
        11 => Item {
            id: 11,
            name: "Green Orb - Medium",
            category: ItemCategory::Misc,
            mission: None,
            _max_amount: None,
            _value: None,
        },
        12 => Item {
            id: 12,
            name: "Green Orb - Large",
            category: ItemCategory::Misc,
            mission: None,
            _max_amount: None,
            _value: None,
        },
        13 => Item {
            id: 13,
            name: "Unknown D",
            category: ItemCategory::Misc,
            mission: None,
            _max_amount: None,
            _value: None,
        },
        14 => Item {
            id: 14,
            name: "Unknown E",
            category: ItemCategory::Misc,
            mission: None,
            _max_amount: None,
            _value: None,
        },
        15 => Item {
            id: 15,
            name: "Unknown F",
            category: ItemCategory::Misc,
            mission: None,
            _max_amount: None,
            _value: None,
        },
        16 => Item {
            id: 16,
            name: "Vital Star L",
            category: ItemCategory::Consumable,
            mission: None,
            _max_amount: Some(30),
            _value: None,
        },
        17 => Item {
            id: 17,
            name: "Vital Star S",
            category: ItemCategory::Consumable,
            mission: None,
            _max_amount: Some(30),
            _value: None,
        },
        18 => Item {
            id: 18,
            name: "Devil Star",
            category: ItemCategory::Consumable,
            mission: None,
            _max_amount: Some(10),
            _value: None,
        },
        19 => Item {
            id: 19,
            name: "Holy Water",
            category: ItemCategory::Consumable,
            mission: None,
            _max_amount: Some(30),
            _value: None,
        },
        20 => Item {
            id: 20,
            name: "Scent of Fear",
            category: ItemCategory::Misc,
            mission: None,
            _max_amount: None,
            _value: None,
        },
        21 => Item {
            id: 21,
            name: "Amulet (Casino Coins)",
            category: ItemCategory::Misc,
            mission: None,
            _max_amount: None,
            _value: None,
        },
        22 => Item {
            id: 22,
            name: "Rebellion",
            category: ItemCategory::Weapon,
            mission: None,
            _max_amount: None,
            _value: None,
        },
        23 => Item {
            id: 23,
            name: "Cerberus",
            category: ItemCategory::Weapon,
            mission: None,
            _max_amount: None,
            _value: None,
        },
        24 => Item {
            id: 24,
            name: "Agni and Rudra",
            category: ItemCategory::Weapon,
            mission: None,
            _max_amount: None,
            _value: None,
        },
        25 => Item {
            id: 25,
            name: "Devil Trigger",
            category: ItemCategory::Misc,
            mission: None,
            _max_amount: None,
            _value: None,
        },
        26 => Item {
            id: 26,
            name: "Nevan",
            category: ItemCategory::Weapon,
            mission: None,
            _max_amount: None,
            _value: None,
        },
        27 => Item {
            id: 27,
            name: "Beowulf",
            category: ItemCategory::Weapon,
            mission: None,
            _max_amount: None,
            _value: None,
        },
        28 => Item {
            id: 28,
            name: "Ebony & Ivory",
            category: ItemCategory::Weapon,
            mission: None,
            _max_amount: None,
            _value: None,
        },
        29 => Item {
            id: 29,
            name: "Shotgun",
            category: ItemCategory::Weapon,
            mission: None,
            _max_amount: None,
            _value: None,
        },
        30 => Item {
            id: 30,
            name: "Artemis",
            category: ItemCategory::Weapon,
            mission: None,
            _max_amount: None,
            _value: None,
        },
        31 => Item {
            id: 31,
            name: "Spiral",
            category: ItemCategory::Weapon,
            mission: None,
            _max_amount: None,
            _value: None,
        },
        32 => Item {
            id: 32,
            name: "Dummy",
            category: ItemCategory::Misc,
            mission: None,
            _max_amount: None,
            _value: None,
        },
        33 => Item {
            id: 33,
            name: "Kalina Ann",
            category: ItemCategory::Weapon,
            mission: None,
            _max_amount: None,
            _value: None,
        },
        34 => Item {
            id: 34,
            name: "Quicksilver Style",
            category: ItemCategory::Weapon,
            mission: None,
            _max_amount: None,
            _value: None,
        },
        35 => Item {
            id: 35,
            name: "Doppelganger Style",
            category: ItemCategory::Weapon,
            mission: None,
            _max_amount: None,
            _value: None,
        },
        36 => Item {
            id: 36,
            name: "Astronomical Board",
            category: ItemCategory::Key,
            mission: Some(5),
            _max_amount: None,
            _value: None,
        },
        37 => Item {
            id: 37,
            name: "Vajura",
            category: ItemCategory::Key,
            mission: Some(5),
            _max_amount: None,
            _value: None,
        },
        38 => Item {
            id: 38,
            name: "Remote",
            category: ItemCategory::Misc,
            mission: None,
            _max_amount: None,
            _value: None,
        },
        39 => Item {
            id: 39,
            name: "Soul of Steel",
            category: ItemCategory::Key,
            mission: Some(5),
            _max_amount: None,
            _value: None,
        },
        40 => Item {
            id: 40,
            name: "Essence of Fighting",
            category: ItemCategory::Key,
            mission: Some(6),
            _max_amount: None,
            _value: None,
        },
        41 => Item {
            id: 41,
            name: "Essence of Technique",
            category: ItemCategory::Key,
            mission: Some(6),
            _max_amount: None,
            _value: None,
        },
        42 => Item {
            id: 42,
            name: "Essence of Intelligence",
            category: ItemCategory::Key,
            mission: Some(6),
            _max_amount: None,
            _value: None,
        },
        43 => Item {
            id: 43,
            name: "Orihalcon Fragment",
            category: ItemCategory::Key,
            mission: Some(7),
            _max_amount: None,
            _value: None,
        },
        44 => Item {
            id: 44,
            name: "Siren's Shriek",
            category: ItemCategory::Key,
            mission: Some(7),
            _max_amount: None,
            _value: None,
        },
        45 => Item {
            id: 45,
            name: "Crystal Skull",
            category: ItemCategory::Key,
            mission: Some(7),
            _max_amount: None,
            _value: None,
        },
        46 => Item {
            id: 46,
            name: "Ignis Fatuus",
            category: ItemCategory::Key,
            mission: Some(8),
            _max_amount: None,
            _value: None,
        },
        47 => Item {
            id: 47,
            name: "Ambrosia",
            category: ItemCategory::Key,
            mission: Some(9),
            _max_amount: None,
            _value: None,
        },
        48 => Item {
            id: 48,
            name: "Stone Mask",
            category: ItemCategory::Key,
            mission: Some(10),
            _max_amount: None,
            _value: None,
        },
        49 => Item {
            id: 49,
            name: "Neo Generator",
            category: ItemCategory::Key,
            mission: Some(10),
            _max_amount: None,
            _value: None,
        },
        50 => Item {
            id: 50,
            name: "Haywire Neo Generator",
            category: ItemCategory::Key,
            mission: Some(12),
            _max_amount: None,
            _value: None,
        },
        51 => Item {
            id: 51,
            name: "Full Orihalcon",
            category: ItemCategory::Key,
            mission: Some(13),
            _max_amount: None,
            _value: None,
        },
        52 => Item {
            id: 52,
            name: "Orihalcon Fragment (Right)",
            category: ItemCategory::Key,
            mission: Some(15),
            _max_amount: None,
            _value: None,
        },
        53 => Item {
            id: 53,
            name: "Orihalcon Fragment (Bottom)",
            category: ItemCategory::Key,
            mission: Some(15),
            _max_amount: None,
            _value: None,
        },
        54 => Item {
            id: 54,
            name: "Orihalcon Fragment (Left)",
            category: ItemCategory::Key,
            mission: Some(15),
            _max_amount: None,
            _value: None,
        },
        55 => Item {
            id: 55,
            name: "Golden Sun",
            category: ItemCategory::Key,
            mission: Some(16),
            _max_amount: None,
            _value: None,
        },
        56 => Item {
            id: 56,
            name: "Onyx Moonshard",
            category: ItemCategory::Key,
            mission: Some(16),
            _max_amount: None,
            _value: None,
        },
        57 => Item {
            id: 57,
            name: "Samsara",
            category: ItemCategory::Key,
            mission: Some(19),
            _max_amount: None,
            _value: None,
        },
        _ => Item {
            id: 0,
            name: "Red Orb - 1",
            category: ItemCategory::RedOrb,
            mission: None,
            _max_amount: Some(999999),
            _value: Some(1),
        },
    }
}

/// Every item's id is its index in the table.
pub proof fn lemma_item_ids()
    ensures
        forall|i: int| 0 <= i < ITEM_COUNT ==> #[trigger] spec_item(i).id == i,
{
}

/// A number that tells the item names apart: their length, first and last character.
pub open spec fn name_key(s: Seq<char>) -> int {
    if s.len() == 0 {
        0
    } else {
        s.len() * 0x400_0000_0000 + (s[0] as int) * 0x20_0000 + (s[s.len() - 1] as int)
    }
}

/// The table index of the item whose name has the given key.
pub open spec fn index_of_name_key(key: u64) -> int {
    match key {
        48378683588657 => 0,
        48378683588661 => 1,
        52776730099760 => 2,
        57174776610864 => 3,
        61572823121968 => 4,
        35184520986722 => 5,
        43980651757666 => 6,
        35184510500962 => 7,
        43980632883298 => 8,
        74766929100916 => 9,
        74766939586668 => 10,
        79164986097773 => 11,
        74766939586661 => 12,
        39582596857924 => 13,
        39582596857925 => 14,
        39582596857926 => 15,
        52776738488396 => 16,
        52776738488403 => 17,
        43980607717490 => 18,
        43980616106098 => 19,
        57174778708082 => 20,
        92359113048105 => 21,
        39582590566510 => 22,
        35184512598131 => 23,
        61572787470433 => 24,
        57174747250802 => 25,
        21990396133486 => 26,
        30786463989862 => 27,
        57174749347961 => 28,
        30786499641454 => 29,
        30786461892723 => 30,
        26388453130348 => 31,
        21990375161977 => 32,
        43980622397550 => 33,
        74766960558181 => 34,
        79164979806309 => 35,
        79164973514852 => 36,
        26388459421793 => 37,
        26388451033189 => 38,
        57174778708076 => 39,
        83563028414567 => 40,
        87961074925669 => 41,
        101155214458981 => 42,
        79165002874996 => 43,
        61572825219179 => 44,
        57174745153644 => 45,
        52776711225459 => 46,
        35184508403809 => 47,
        43980639174763 => 48,
        57174768222322 => 49,
        92359127728242 => 50,
        61572797956206 => 51,
        114349374963753 => 52,
        118747421474857 => 53,
        109951328452649 => 54,
        43980614008942 => 55,
        61572816830564 => 56,
        30786499641441 => 57,
        _ => -1,
    }
}

proof fn lemma_name_keys()
    ensures
        forall|i: int|
            0 <= i < ITEM_COUNT ==> index_of_name_key(name_key(#[trigger] spec_item(i).name@) as u64) == i,
{
        reveal_strlit("Red Orb - 1");
        reveal_strlit("Red Orb - 5");
        reveal_strlit("Red Orb - 20");
        reveal_strlit("Red Orb - 100");
        reveal_strlit("Red Orb - 1000");
        reveal_strlit("Gold Orb");
        reveal_strlit("Yellow Orb");
        reveal_strlit("Blue Orb");
        reveal_strlit("Purple Orb");
        reveal_strlit("Blue Orb Fragment");
        reveal_strlit("Green Orb - Small");
        reveal_strlit("Green Orb - Medium");
        reveal_strlit("Green Orb - Large");
        reveal_strlit("Unknown D");
        reveal_strlit("Unknown E");
        reveal_strlit("Unknown F");
        reveal_strlit("Vital Star L");
        reveal_strlit("Vital Star S");
        reveal_strlit("Devil Star");
        reveal_strlit("Holy Water");
        reveal_strlit("Scent of Fear");
        reveal_strlit("Amulet (Casino Coins)");
        reveal_strlit("Rebellion");
        reveal_strlit("Cerberus");
        reveal_strlit("Agni and Rudra");
        reveal_strlit("Devil Trigger");
        reveal_strlit("Nevan");
        reveal_strlit("Beowulf");
        reveal_strlit("Ebony & Ivory");
        reveal_strlit("Shotgun");
        reveal_strlit("Artemis");
        reveal_strlit("Spiral");
        reveal_strlit("Dummy");
        reveal_strlit("Kalina Ann");
        reveal_strlit("Quicksilver Style");
        reveal_strlit("Doppelganger Style");
        reveal_strlit("Astronomical Board");
        reveal_strlit("Vajura");
        reveal_strlit("Remote");
        reveal_strlit("Soul of Steel");
        reveal_strlit("Essence of Fighting");
        reveal_strlit("Essence of Technique");
        reveal_strlit("Essence of Intelligence");
        reveal_strlit("Orihalcon Fragment");
        reveal_strlit("Siren's Shriek");
        reveal_strlit("Crystal Skull");
        reveal_strlit("Ignis Fatuus");
        reveal_strlit("Ambrosia");
        reveal_strlit("Stone Mask");
        reveal_strlit("Neo Generator");
        reveal_strlit("Haywire Neo Generator");
        reveal_strlit("Full Orihalcon");
        reveal_strlit("Orihalcon Fragment (Right)");
        reveal_strlit("Orihalcon Fragment (Bottom)");
        reveal_strlit("Orihalcon Fragment (Left)");
        reveal_strlit("Golden Sun");
        reveal_strlit("Onyx Moonshard");
        reveal_strlit("Samsara");
}

/// No two items share a name.
pub proof fn lemma_item_names_distinct()
    ensures
        forall|i: int, j: int|
            0 <= i < ITEM_COUNT && 0 <= j < ITEM_COUNT && #[trigger] spec_item(i).name@
                == #[trigger] spec_item(j).name@ ==> i == j,
{
    lemma_name_keys();
}


/// The pairs that the first `n` items give, each name to its id.
pub open spec fn items_prefix_pairs(n: int) -> Map<Seq<char>, u32>
    decreases n,
{
    if n <= 0 {
        Map::empty()
    } else {
        items_prefix_pairs(n - 1).insert(spec_item(n - 1).name@, spec_item(n - 1).id)
    }
}

/// Every item's name paired with its id: what `item_map` holds.
pub open spec fn item_name_pairs() -> Map<Seq<char>, u32> {
    items_prefix_pairs(ITEM_COUNT as int)
}

proof fn lemma_items_prefix_pairs(n: int)
    requires
        0 <= n <= ITEM_COUNT,
    ensures
        forall|k: Seq<char>|
            #[trigger] items_prefix_pairs(n).contains_key(k) ==> exists|i: int|
                0 <= i < n && spec_item(i).name@ == k && items_prefix_pairs(n)[k] == i,
        forall|i: int|
            0 <= i < n ==> #[trigger] items_prefix_pairs(n).contains_key(spec_item(i).name@)
                && items_prefix_pairs(n)[spec_item(i).name@] == i,
    decreases n,
{
    lemma_item_ids();
    lemma_item_names_distinct();
    if n > 0 {
        lemma_items_prefix_pairs(n - 1);
        assert forall|k: Seq<char>| #[trigger] items_prefix_pairs(n).contains_key(k) implies exists|i: int|
            0 <= i < n && spec_item(i).name@ == k && items_prefix_pairs(n)[k] == i by {
            if k != spec_item(n - 1).name@ {
                assert(items_prefix_pairs(n - 1).contains_key(k));
            }
        }
        assert forall|i: int| 0 <= i < n implies #[trigger] items_prefix_pairs(n).contains_key(
            spec_item(i).name@,
        ) && items_prefix_pairs(n)[spec_item(i).name@] == i by {
            if i < n - 1 {
                assert(spec_item(i).name@ != spec_item(n - 1).name@);
                assert(items_prefix_pairs(n - 1).contains_key(spec_item(i).name@));
            } else {
                assert(spec_item(n - 1).id == n - 1);
            }
        }
    }
}

/// The name-to-id lookup of every item, built from the item table.
pub fn item_map() -> (map: BiHashMap<&'static str, u32>)
    ensures
        name_id_pairs(map) == item_name_pairs(),
{
    let mut map = name_id_map_new();
    let mut i: usize = 0;
    proof {
        assert(name_id_pairs(map) =~= items_prefix_pairs(0));
    }
    while i < ITEM_COUNT
        invariant
            i <= ITEM_COUNT,
            name_id_pairs(map) == items_prefix_pairs(i as int),
        decreases ITEM_COUNT - i,
    {
        let item = item_by_index(i);
        proof {
            lemma_items_prefix_pairs(i as int);
            lemma_item_ids();
            lemma_item_names_distinct();
            let prefix = items_prefix_pairs(i as int);
            let next = spec_bimap_insert(prefix, item.name@, item.id);
            assert(!prefix.contains_key(item.name@));
            assert forall|k: Seq<char>| #[trigger] prefix.contains_key(k) implies prefix[k] != item.id by {
            }
            assert(next =~= prefix.insert(item.name@, item.id));
        }
        name_id_map_insert(&mut map, item.name, item.id);
        i = i + 1;
    }
    map
}

/// The id of the item with the given name (looked up in `item_map`).
pub fn item_id_by_name(name: &str) -> (id: Option<u32>)
    ensures
        id matches Some(found) ==> found < ITEM_COUNT && spec_item(found as int).name@ == name@,
        id is None ==> forall|i: int| 0 <= i < ITEM_COUNT ==> spec_item(i).name@ != name@,
{
    let map = item_map();
    let res = name_id_map_get_by_left(&map, name);
    proof {
        lemma_items_prefix_pairs(ITEM_COUNT as int);
    }
    res
}

/// The name of the item with the given id (looked up in `item_map`).
pub fn item_name_by_id(id: u32) -> (name: Option<&'static str>)
    ensures
        id < ITEM_COUNT ==> (name matches Some(found) && found@ == spec_item(id as int).name@),
        id >= ITEM_COUNT ==> name is None,
{
    let map = item_map();
    let res = name_id_map_get_by_right(&map, id);
    proof {
        lemma_items_prefix_pairs(ITEM_COUNT as int);
        lemma_item_ids();
        lemma_item_names_distinct();
        if id < ITEM_COUNT {
            let k = spec_item(id as int).name@;
            assert(item_name_pairs().contains_key(k) && item_name_pairs()[k] == id);
        }
    }
    res
}


/// What the game does at a spot of a mission's event script.
#[derive(PartialEq, Eq, Structural, Clone, Copy, Debug)]
pub enum EventCode {
    /// Give the provided item (5c 02)
    Give,
    /// Check to see if the player has the specified item in inventory (14 01)
    Check,
    /// End mission if player has item in inventory - (15 01) - Might be wrong/not fully accurate
    End,
}

/// An event of an event script, at `offset` from the start of the script.
#[derive(PartialEq, Eq, Structural, Clone, Copy, Debug)]
pub struct Event {
    pub event_type: EventCode,
    pub offset: usize,
}

/// The events of a mission's script that belong to one location.
#[derive(Debug)]
pub struct EventTable {
    pub _mission: i32,
    pub location: &'static str,
    pub events: Vec<Event>,
}

/// An event table as a value.
#[verifier::ext_equal]
pub struct EventTableView {
    pub _mission: i32,
    pub location: &'static str,
    pub events: Seq<Event>,
}

impl View for EventTable {
    type V = EventTableView;

    open spec fn view(&self) -> EventTableView {
        EventTableView { _mission: self._mission, location: self.location, events: self.events@ }
    }
}

/// The event tables of each mission that has any.
pub open spec fn spec_event_tables(mission: u32) -> Option<Seq<EventTableView>> {
    match mission {
        3 => Some(seq![EventTableView { _mission: 3, location: "Mission #3 - Shotgun", events: seq![Event { event_type: EventCode::Check, offset: 0x450 }, Event { event_type: EventCode::Check, offset: 0x6A4 }, Event { event_type: EventCode::Give, offset: 0x6DC }, Event { event_type: EventCode::Check, offset: 0x72C }, Event { event_type: EventCode::Give, offset: 0x77C }] }, EventTableView { _mission: 3, location: "Mission #3 - Cerberus", events: seq![Event { event_type: EventCode::Check, offset: 0xEE4 }, Event { event_type: EventCode::Give, offset: 0xEFC }] }]),
        4 => Some(seq![EventTableView { _mission: 4, location: "Mission #4 - Astronomical Board", events: seq![Event { event_type: EventCode::End, offset: 0x8D4 }] }]),
        5 => Some(seq![EventTableView { _mission: 5, location: "Mission #5 - Agni and Rudra", events: seq![Event { event_type: EventCode::Check, offset: 0x186C }, Event { event_type: EventCode::Give, offset: 0x1884 }] }]),
        6 => Some(seq![EventTableView { _mission: 6, location: "Mission #6 - Artemis", events: seq![Event { event_type: EventCode::Give, offset: 0x13D0 }, Event { event_type: EventCode::Check, offset: 0x13C0 }] }]),
        9 => Some(seq![EventTableView { _mission: 9, location: "Mission #9 - Nevan", events: seq![Event { event_type: EventCode::Check, offset: 0xD4C }, Event { event_type: EventCode::Give, offset: 0xD64 }] }, EventTableView { _mission: 9, location: "Mission #9 - Spiral", events: seq![Event { event_type: EventCode::Check, offset: 0x624 }, Event { event_type: EventCode::Give, offset: 0x76C }] }]),
        12 => Some(seq![EventTableView { _mission: 12, location: "Mission #12 - Quicksilver", events: seq![Event { event_type: EventCode::Check, offset: 0x175C }, Event { event_type: EventCode::Give, offset: 0x1774 }] }, EventTableView { _mission: 12, location: "Mission #12 - Haywire Neo Generator", events: seq![Event { event_type: EventCode::Give, offset: 0x130 }] }]),
        14 => Some(seq![EventTableView { _mission: 14, location: "Mission #14 - Beowulf", events: seq![Event { event_type: EventCode::Check, offset: 0x94 }, Event { event_type: EventCode::Give, offset: 0x15C }] }]),
        16 => Some(seq![EventTableView { _mission: 16, location: "Mission #16 - Kalina Ann", events: seq![Event { event_type: EventCode::Check, offset: 0x1360 }, Event { event_type: EventCode::Give, offset: 0x1378 }] }]),
        17 => Some(seq![EventTableView { _mission: 17, location: "Mission #17 - Doppelganger", events: seq![Event { event_type: EventCode::Check, offset: 0xA98 }, Event { event_type: EventCode::Give, offset: 0xAB0 }] }]),
        _ => None,
    }
}

/// The event tables of `mission`, if it has any.
pub fn event_tables(mission: u32) -> (tables: Option<Vec<EventTable>>)
    ensures
        tables is Some == spec_event_tables(mission) is Some,
        tables matches Some(found) ==> found@.map_values(|t: EventTable| t@)
            == spec_event_tables(mission).unwrap(),
{
    match mission {
        3 => {
            let tables = vec![
                EventTable {
                    _mission: 3,
                    location: "Mission #3 - Shotgun",
                    events: vec![Event { event_type: EventCode::Check, offset: 0x450 }, Event { event_type: EventCode::Check, offset: 0x6A4 }, Event { event_type: EventCode::Give, offset: 0x6DC }, Event { event_type: EventCode::Check, offset: 0x72C }, Event { event_type: EventCode::Give, offset: 0x77C }],
                },
                EventTable {
                    _mission: 3,
                    location: "Mission #3 - Cerberus",
                    events: vec![Event { event_type: EventCode::Check, offset: 0xEE4 }, Event { event_type: EventCode::Give, offset: 0xEFC }],
                },
            ];
            proof {
                assert(tables@.map_values(|t: EventTable| t@) =~~= spec_event_tables(mission).unwrap());
            }
            Some(tables)
        },
        4 => {
            let tables = vec![
                EventTable {
                    _mission: 4,
                    location: "Mission #4 - Astronomical Board",
                    events: vec![Event { event_type: EventCode::End, offset: 0x8D4 }],
                },
            ];
            proof {
                assert(tables@.map_values(|t: EventTable| t@) =~~= spec_event_tables(mission).unwrap());
            }
            Some(tables)
        },
        5 => {
            let tables = vec![
                EventTable {
                    _mission: 5,
                    location: "Mission #5 - Agni and Rudra",
                    events: vec![Event { event_type: EventCode::Check, offset: 0x186C }, Event { event_type: EventCode::Give, offset: 0x1884 }],
                },
            ];
            proof {
                assert(tables@.map_values(|t: EventTable| t@) =~~= spec_event_tables(mission).unwrap());
            }
            Some(tables)
        },
        6 => {
            let tables = vec![
                EventTable {
                    _mission: 6,
                    location: "Mission #6 - Artemis",
                    events: vec![Event { event_type: EventCode::Give, offset: 0x13D0 }, Event { event_type: EventCode::Check, offset: 0x13C0 }],
                },
            ];
            proof {
                assert(tables@.map_values(|t: EventTable| t@) =~~= spec_event_tables(mission).unwrap());
            }
            Some(tables)
        },
        9 => {
            let tables = vec![
                EventTable {
                    _mission: 9,
                    location: "Mission #9 - Nevan",
                    events: vec![Event { event_type: EventCode::Check, offset: 0xD4C }, Event { event_type: EventCode::Give, offset: 0xD64 }],
                },
                EventTable {
                    _mission: 9,
                    location: "Mission #9 - Spiral",
                    events: vec![Event { event_type: EventCode::Check, offset: 0x624 }, Event { event_type: EventCode::Give, offset: 0x76C }],
                },
            ];
            proof {
                assert(tables@.map_values(|t: EventTable| t@) =~~= spec_event_tables(mission).unwrap());
            }
            Some(tables)
        },
        12 => {
            let tables = vec![
                EventTable {
                    _mission: 12,
                    location: "Mission #12 - Quicksilver",
                    events: vec![Event { event_type: EventCode::Check, offset: 0x175C }, Event { event_type: EventCode::Give, offset: 0x1774 }],
                },
                EventTable {
                    _mission: 12,
                    location: "Mission #12 - Haywire Neo Generator",
                    events: vec![Event { event_type: EventCode::Give, offset: 0x130 }],
                },
            ];
            proof {
                assert(tables@.map_values(|t: EventTable| t@) =~~= spec_event_tables(mission).unwrap());
            }
            Some(tables)
        },
        14 => {
            let tables = vec![
                EventTable {
                    _mission: 14,
                    location: "Mission #14 - Beowulf",
                    events: vec![Event { event_type: EventCode::Check, offset: 0x94 }, Event { event_type: EventCode::Give, offset: 0x15C }],
                },
            ];
            proof {
                assert(tables@.map_values(|t: EventTable| t@) =~~= spec_event_tables(mission).unwrap());
            }
            Some(tables)
        },
        16 => {
            let tables = vec![
                EventTable {
                    _mission: 16,
                    location: "Mission #16 - Kalina Ann",
                    events: vec![Event { event_type: EventCode::Check, offset: 0x1360 }, Event { event_type: EventCode::Give, offset: 0x1378 }],
                },
            ];
            proof {
                assert(tables@.map_values(|t: EventTable| t@) =~~= spec_event_tables(mission).unwrap());
            }
            Some(tables)
        },
        17 => {
            let tables = vec![
                EventTable {
                    _mission: 17,
                    location: "Mission #17 - Doppelganger",
                    events: vec![Event { event_type: EventCode::Check, offset: 0xA98 }, Event { event_type: EventCode::Give, offset: 0xAB0 }],
                },
            ];
            proof {
                assert(tables@.map_values(|t: EventTable| t@) =~~= spec_event_tables(mission).unwrap());
            }
            Some(tables)
        },
        _ => None,
    }
}

/// The difficulties of the game, in the game's order.
#[derive(PartialEq, Eq, Structural, Clone, Copy, Debug)]
pub enum Difficulty {
    Easy,
    Normal,
    Hard,
    VeryHard,
    DanteMustDie,
    HeavenOrHell,
}

/// The game's number for a difficulty.
pub open spec fn spec_difficulty_index(difficulty: Difficulty) -> u8 {
    match difficulty {
        Difficulty::Easy => 0,
        Difficulty::Normal => 1,
        Difficulty::Hard => 2,
        Difficulty::VeryHard => 3,
        Difficulty::DanteMustDie => 4,
        Difficulty::HeavenOrHell => 5,
    }
}

impl Difficulty {
    /// The game's number for this difficulty.
    pub fn index(&self) -> (index: u8)
        ensures
            index == spec_difficulty_index(*self),
            index < 6,
    {
        match self {
            Difficulty::Easy => 0,
            Difficulty::Normal => 1,
            Difficulty::Hard => 2,
            Difficulty::VeryHard => 3,
            Difficulty::DanteMustDie => 4,
            Difficulty::HeavenOrHell => 5,
        }
    }

    /// The difficulty with the given number, if there is one.
    pub fn from_repr(repr: usize) -> (difficulty: Option<Difficulty>)
        ensures
            repr < 6 <==> difficulty is Some,
            difficulty matches Some(found) ==> spec_difficulty_index(found) == repr,
    {
        match repr {
            0 => Some(Difficulty::Easy),
            1 => Some(Difficulty::Normal),
            2 => Some(Difficulty::Hard),
            3 => Some(Difficulty::VeryHard),
            4 => Some(Difficulty::DanteMustDie),
            5 => Some(Difficulty::HeavenOrHell),
            _ => None,
        }
    }

    /// The name the game shows for this difficulty.
    pub fn name(&self) -> (name: &'static str)
        ensures
            name@ == spec_difficulty_name(*self)@,
    {
        match self {
            Difficulty::Easy => "Easy",
            Difficulty::Normal => "Normal",
            Difficulty::Hard => "Hard",
            Difficulty::VeryHard => "Very Hard",
            Difficulty::DanteMustDie => "Dante Must Die",
            Difficulty::HeavenOrHell => "Heaven or Hell",
        }
    }

    /// The difficulties in the game's order.
    pub fn all() -> (all: Vec<Difficulty>)
        ensures
            all@.len() == 6,
            forall|i: int| 0 <= i < 6 ==> spec_difficulty_index(#[trigger] all@[i]) == i,
    {
        vec![
            Difficulty::Easy,
            Difficulty::Normal,
            Difficulty::Hard,
            Difficulty::VeryHard,
            Difficulty::DanteMustDie,
            Difficulty::HeavenOrHell,
        ]
    }
}

/// The name the game shows for a difficulty.
pub open spec fn spec_difficulty_name(difficulty: Difficulty) -> &'static str {
    match difficulty {
        Difficulty::Easy => "Easy",
        Difficulty::Normal => "Normal",
        Difficulty::Hard => "Hard",
        Difficulty::VeryHard => "Very Hard",
        Difficulty::DanteMustDie => "Dante Must Die",
        Difficulty::HeavenOrHell => "Heaven or Hell",
    }
}

/// The ranks a mission can end with, lowest first.
#[derive(PartialEq, Eq, Structural, Clone, Copy, Debug)]
pub enum Rank {
    D,
    C,
    B,
    A,
    S,
    SS,
    SSS,
}

/// The game's number for a rank.
pub open spec fn spec_rank_index(rank: Rank) -> u8 {
    match rank {
        Rank::D => 0,
        Rank::C => 1,
        Rank::B => 2,
        Rank::A => 3,
        Rank::S => 4,
        Rank::SS => 5,
        Rank::SSS => 6,
    }
}

impl Rank {
    /// The game's number for this rank.
    pub fn index(&self) -> (index: u8)
        ensures
            index == spec_rank_index(*self),
            index < 7,
    {
        match self {
            Rank::D => 0,
            Rank::C => 1,
            Rank::B => 2,
            Rank::A => 3,
            Rank::S => 4,
            Rank::SS => 5,
            Rank::SSS => 6,
        }
    }

    /// The rank with the given number, if there is one.
    pub fn from_repr(repr: usize) -> (rank: Option<Rank>)
        ensures
            repr < 7 <==> rank is Some,
            rank matches Some(found) ==> spec_rank_index(found) == repr,
    {
        match repr {
            0 => Some(Rank::D),
            1 => Some(Rank::C),
            2 => Some(Rank::B),
            3 => Some(Rank::A),
            4 => Some(Rank::S),
            5 => Some(Rank::SS),
            6 => Some(Rank::SSS),
            _ => None,
        }
    }
}

/// The guns, in the order of their levels.
pub open spec fn spec_gun_names() -> Seq<&'static str> {
    seq!["Ebony & Ivory", "Shotgun", "Artemis", "Spiral", "Kalina Ann"]
}

/// The melee weapons.
pub open spec fn spec_melee_names() -> Seq<&'static str> {
    seq!["Rebellion", "Cerberus", "Agni and Rudra", "Nevan", "Beowulf"]
}

/// The guns, in the order of their levels.
pub fn gun_names() -> (names: Vec<&'static str>)
    ensures
        names@ == spec_gun_names(),
{
    let names = vec!["Ebony & Ivory", "Shotgun", "Artemis", "Spiral", "Kalina Ann"];
    proof {
        assert(names@ =~= spec_gun_names());
    }
    names
}

/// The melee weapons.
pub fn melee_names() -> (names: Vec<&'static str>)
    ensures
        names@ == spec_melee_names(),
{
    let names = vec!["Rebellion", "Cerberus", "Agni and Rudra", "Nevan", "Beowulf"];
    proof {
        assert(names@ =~= spec_melee_names());
    }
    names
}

/// The game's slot number of a weapon, 0xFF for "None" and anything else.
pub open spec fn spec_weapon_id(weapon: Seq<char>) -> u8 {
    if weapon == "Rebellion"@ {
        0
    } else if weapon == "Cerberus"@ {
        1
    } else if weapon == "Agni and Rudra"@ {
        2
    } else if weapon == "Nevan"@ {
        3
    } else if weapon == "Beowulf"@ {
        4
    } else if weapon == "Ebony & Ivory"@ {
        5
    } else if weapon == "Shotgun"@ {
        6
    } else if weapon == "Artemis"@ {
        7
    } else if weapon == "Spiral"@ {
        8
    } else if weapon == "Kalina Ann"@ {
        9
    } else if weapon == "Quicksilver Style"@ {
        10
    } else if weapon == "Doppelganger Style"@ {
        11
    } else {
        0xFF
    }
}

/// The game's slot number of a weapon, 0xFF for "None" and anything else.
pub fn get_weapon_id(weapon: &str) -> (id: u8)
    ensures
        id == spec_weapon_id(weapon@),
{
    if str_eq(weapon, "Rebellion") {
        0
    } else if str_eq(weapon, "Cerberus") {
        1
    } else if str_eq(weapon, "Agni and Rudra") {
        2
    } else if str_eq(weapon, "Nevan") {
        3
    } else if str_eq(weapon, "Beowulf") {
        4
    } else if str_eq(weapon, "Ebony & Ivory") {
        5
    } else if str_eq(weapon, "Shotgun") {
        6
    } else if str_eq(weapon, "Artemis") {
        7
    } else if str_eq(weapon, "Spiral") {
        8
    } else if str_eq(weapon, "Kalina Ann") {
        9
    } else if str_eq(weapon, "Quicksilver Style") {
        10
    } else if str_eq(weapon, "Doppelganger Style") {
        11
    } else {
        0xFF
    }
}

/// The index of a weapon in the game's table of unlocked weapons and styles, 0xFF for
/// "None" and anything else.
pub open spec fn spec_unlocked_weapon_id(weapon: Seq<char>) -> u8 {
    if weapon == "Rebellion"@ {
        0
    } else if weapon == "Cerberus"@ {
        1
    } else if weapon == "Agni and Rudra"@ {
        2
    } else if weapon == "Nevan"@ {
        4
    } else if weapon == "Beowulf"@ {
        5
    } else if weapon == "Ebony & Ivory"@ {
        6
    } else if weapon == "Shotgun"@ {
        7
    } else if weapon == "Artemis"@ {
        8
    } else if weapon == "Spiral"@ {
        9
    } else if weapon == "Kalina Ann"@ {
        11
    } else if weapon == "Quicksilver Style"@ {
        12
    } else if weapon == "Doppelganger Style"@ {
        13
    } else {
        0xFF
    }
}

/// The index of a weapon in the game's table of unlocked weapons and styles, 0xFF for
/// "None" and anything else.
pub fn get_unlocked_weapon_id(weapon: &str) -> (id: u8)
    ensures
        id == spec_unlocked_weapon_id(weapon@),
{
    if str_eq(weapon, "Rebellion") {
        0
    } else if str_eq(weapon, "Cerberus") {
        1
    } else if str_eq(weapon, "Agni and Rudra") {
        2
    } else if str_eq(weapon, "Nevan") {
        4
    } else if str_eq(weapon, "Beowulf") {
        5
    } else if str_eq(weapon, "Ebony & Ivory") {
        6
    } else if str_eq(weapon, "Shotgun") {
        7
    } else if str_eq(weapon, "Artemis") {
        8
    } else if str_eq(weapon, "Spiral") {
        9
    } else if str_eq(weapon, "Kalina Ann") {
        11
    } else if str_eq(weapon, "Quicksilver Style") {
        12
    } else if str_eq(weapon, "Doppelganger Style") {
        13
    } else {
        0xFF
    }
}

/// A position in a room, as the game stores an item's position.
#[derive(PartialEq, Eq, Structural, Clone, Copy, Debug)]
pub struct Coordinates {
    pub x: u32,
    pub y: u32,
    pub z: u32,
}

/// An item location of the game: the room it lies in, the item it holds by default, its
/// mission, whether an Adjudicator guards it, and where in the room it lies.
#[derive(PartialEq, Eq, Structural, Clone, Copy, Debug)]
pub struct ItemEntry {
    pub room_number: i32,
    pub item_id: u32,
    pub mission: u32,
    pub adjudicator: bool,
    pub coordinates: Coordinates,
}

/// Coordinates that stand for "no position".
pub fn empty_coordinates() -> (coordinates: Coordinates)
    ensures
        coordinates == (Coordinates { x: 0, y: 0, z: 0 }),
{
    Coordinates { x: 0, y: 0, z: 0 }
}

impl Coordinates {
    /// Whether these coordinates hold a position (a nonzero x).
    pub fn has_coords(&self) -> (has: bool)
        ensures
            has == (self.x > 0),
    {
        self.x > 0
    }
}

/// The playable characters, in the game's order; only Dante is supported.
#[derive(PartialEq, Eq, Structural, Clone, Copy, Debug)]
pub enum Character {
    Dante,
    _Bob,
    _Lady,
    Vergil,
}

impl Character {
    /// The character with the given number, if there is one.
    pub fn from_repr(repr: usize) -> (character: Option<Character>)
        ensures
            repr < 4 <==> character is Some,
            repr == 0 <==> character == Some(Character::Dante),
    {
        match repr {
            0 => Some(Character::Dante),
            1 => Some(Character::_Bob),
            2 => Some(Character::_Lady),
            3 => Some(Character::Vergil),
            _ => None,
        }
    }
}

/// Dante's four basic styles, in the order the randomizer numbers them.
#[derive(PartialEq, Eq, Structural, Clone, Copy, Debug)]
pub enum Style {
    Trickster,
    Swordmaster,
    Gunslinger,
    Royalguard,
}

/// The randomizer's number for a style.
pub open spec fn spec_style_index(style: Style) -> usize {
    match style {
        Style::Trickster => 0,
        Style::Swordmaster => 1,
        Style::Gunslinger => 2,
        Style::Royalguard => 3,
    }
}

/// The game's number for a style (Swordmaster, Gunslinger, Trickster, Royalguard).
pub open spec fn spec_style_internal_index(style: Style) -> usize {
    match style {
        Style::Trickster => 2,
        Style::Swordmaster => 0,
        Style::Gunslinger => 1,
        Style::Royalguard => 3,
    }
}

/// The style with the randomizer's number `i`.
pub open spec fn spec_style_from_index(i: int) -> Style {
    if i == 0 {
        Style::Trickster
    } else if i == 1 {
        Style::Swordmaster
    } else if i == 2 {
        Style::Gunslinger
    } else {
        Style::Royalguard
    }
}

/// The style with the game's number `i`.
pub open spec fn spec_style_internal_order(i: int) -> Style {
    if i == 0 {
        Style::Swordmaster
    } else if i == 1 {
        Style::Gunslinger
    } else if i == 2 {
        Style::Trickster
    } else {
        Style::Royalguard
    }
}

impl Style {
    /// The randomizer's number for this style.
    pub fn index(&self) -> (index: usize)
        ensures
            index == spec_style_index(*self),
            index < 4,
    {
        match self {
            Style::Trickster => 0,
            Style::Swordmaster => 1,
            Style::Gunslinger => 2,
            Style::Royalguard => 3,
        }
    }

    /// The game's number for this style.
    pub fn get_internal_order_index(&self) -> (index: usize)
        ensures
            index == spec_style_internal_index(*self),
            index < 4,
    {
        match self {
            Style::Trickster => 2,
            Style::Swordmaster => 0,
            Style::Gunslinger => 1,
            Style::Royalguard => 3,
        }
    }

    /// The style with the randomizer's number `repr`, if there is one.
    pub fn from_repr(repr: usize) -> (style: Option<Style>)
        ensures
            repr < 4 <==> style is Some,
            style matches Some(found) ==> found == spec_style_from_index(repr as int),
    {
        match repr {
            0 => Some(Style::Trickster),
            1 => Some(Style::Swordmaster),
            2 => Some(Style::Gunslinger),
            3 => Some(Style::Royalguard),
            _ => None,
        }
    }

    /// The styles in the game's order.
    pub fn internal_order() -> (order: [Style; 4])
        ensures
            forall|i: int| 0 <= i < 4 ==> #[trigger] order@[i] == spec_style_internal_order(i),
    {
        [Style::Swordmaster, Style::Gunslinger, Style::Trickster, Style::Royalguard]
    }

    /// The name of this style.
    pub fn name(&self) -> (name: &'static str)
        ensures
            name@ == spec_style_name(*self)@,
    {
        match self {
            Style::Trickster => "Trickster",
            Style::Swordmaster => "Swordmaster",
            Style::Gunslinger => "Gunslinger",
            Style::Royalguard => "Royalguard",
        }
    }
}

/// The name of a style.
pub open spec fn spec_style_name(style: Style) -> &'static str {
    match style {
        Style::Trickster => "Trickster",
        Style::Swordmaster => "Swordmaster",
        Style::Gunslinger => "Gunslinger",
        Style::Royalguard => "Royalguard",
    }
}

/// The style numbering of the game and of the randomizer are permutations of each other.
pub proof fn lemma_style_orders(style: Style)
    ensures
        spec_style_internal_order(spec_style_internal_index(style) as int) == style,
        spec_style_from_index(spec_style_index(style) as int) == style,
{
}

/// The names of the items of `category`, among the first `n` items, in table order.
pub open spec fn names_in_category(category: ItemCategory, n: int) -> Seq<&'static str>
    decreases n,
{
    if n <= 0 {
        Seq::empty()
    } else if spec_item(n - 1).category == category {
        names_in_category(category, n - 1).push(spec_item(n - 1).name)
    } else {
        names_in_category(category, n - 1)
    }
}

/// The names of the items of a category, in table order.
pub fn get_items_by_category(category: ItemCategory) -> (names: Vec<&'static str>)
    ensures
        names@ == names_in_category(category, ITEM_COUNT as int),
{
    let mut names: Vec<&'static str> = Vec::new();
    let mut i: usize = 0;
    while i < ITEM_COUNT
        invariant
            i <= ITEM_COUNT,
            names@ == names_in_category(category, i as int),
        decreases ITEM_COUNT - i,
    {
        let item = item_by_index(i);
        if item.category == category {
            names.push(item.name);
        }
        i = i + 1;
    }
    names
}

/// The names of the key items used in `mission`, among the first `n` items, in table order.
pub open spec fn names_for_mission(mission: u32, n: int) -> Seq<&'static str>
    decreases n,
{
    if n <= 0 {
        Seq::empty()
    } else if spec_item(n - 1).mission == Some(mission) {
        names_for_mission(mission, n - 1).push(spec_item(n - 1).name)
    } else {
        names_for_mission(mission, n - 1)
    }
}

/// The key items used in `mission`: none when the
/// mission uses no key item.
pub fn mission_items(mission: u32) -> (names: Option<Vec<&'static str>>)
    ensures
        names is None <==> names_for_mission(mission, ITEM_COUNT as int).len() == 0,
        names matches Some(found) ==> found@ == names_for_mission(mission, ITEM_COUNT as int),
{
    let mut names: Vec<&'static str> = Vec::new();
    let mut i: usize = 0;
    while i < ITEM_COUNT
        invariant
            i <= ITEM_COUNT,
            names@ == names_for_mission(mission, i as int),
        decreases ITEM_COUNT - i,
    {
        let item = item_by_index(i);
        if item.mission == Some(mission) {
            names.push(item.name);
        }
        i = i + 1;
    }
    if names.len() == 0 {
        None
    } else {
        Some(names)
    }
}

/// The id of the "Dummy" item, which stands in for items already collected.
pub fn dummy_id() -> (id: u32)
    ensures
        id == 0x20,
{
    let found = item_id_by_name("Dummy");
    proof {
        lemma_item_names_distinct();
        assert(spec_item(0x20).name@ == "Dummy"@);
    }
    match found {
        Some(id) => id,
        None => 0x20,
    }
}

/// The id of the "Remote" item, which stands in for items of other worlds.
pub fn remote_id() -> (id: u32)
    ensures
        id == 0x26,
{
    let found = item_id_by_name("Remote");
    proof {
        lemma_item_names_distinct();
        assert(spec_item(0x26).name@ == "Remote"@);
    }
    match found {
        Some(id) => id,
        None => 0x26,
    }
}


/// The name shown for an item id: an item's name, else a skill's, gun upgrade's or style's,
/// else "Unknown".
pub open spec fn spec_item_name(item_id: u32) -> Seq<char> {
    if item_id <= 0x39 {
        spec_item(item_id as int).name@
    } else {
        match spec_skill_name(item_id as usize) {
            Some(name) => name@,
            None => "Unknown"@,
        }
    }
}

/// The name shown for an item id: an item's name, else a skill's, gun upgrade's or style's,
/// else "Unknown".
pub fn get_item_name(item_id: u32) -> (name: &'static str)
    ensures
        name@ == spec_item_name(item_id),
{
    if item_id <= 0x39 {
        match item_name_by_id(item_id) {
            Some(name) => name,
            None => "Unknown",
        }
    } else {
        match id_skill_name(item_id as usize) {
            Some(name) => name,
            None => "Unknown",
        }
    }
}

/// Every item's name leads back to its id.
pub proof fn lemma_item_name_round_trip(id: u32)
    requires
        id < ITEM_COUNT,
    ensures
        spec_item_name(id) == spec_item(id as int).name@,
        item_name_pairs().contains_key(spec_item_name(id)),
        item_name_pairs()[spec_item_name(id)] == id,
{
    lemma_items_prefix_pairs(ITEM_COUNT as int);
    lemma_item_ids();
}

/// Whether some item of `category`, among the first `n`, is called `name`.
pub(crate) proof fn lemma_category_member(category: ItemCategory, n: int, name: &'static str)
    requires
        0 <= n <= ITEM_COUNT,
        names_in_category(category, n).contains(name),
    ensures
        exists|i: int| 0 <= i < n && (#[trigger] spec_item(i)).name == name && spec_item(i).category == category,
    decreases n,
{
    let prev = names_in_category(category, n - 1);
    if spec_item(n - 1).category == category && spec_item(n - 1).name == name {
    } else {
        if spec_item(n - 1).category == category {
            assert(names_in_category(category, n) == prev.push(spec_item(n - 1).name));
            let k = choose|k: int| 0 <= k < prev.len() + 1 && #[trigger] prev.push(spec_item(n - 1).name)[k] == name;
            assert(prev[k] == name);
        }
        lemma_category_member(category, n - 1, name);
    }
}

/// The item categories split the 58 items: 21 key items, 4 consumables, 12 weapons, 5 red
/// orbs and 16 others, and no name is in two categories.
pub proof fn lemma_categories_partition(category1: ItemCategory, category2: ItemCategory, name: &'static str)
    ensures
        names_in_category(ItemCategory::Key, ITEM_COUNT as int).len() == 21,
        names_in_category(ItemCategory::Consumable, ITEM_COUNT as int).len() == 4,
        names_in_category(ItemCategory::Weapon, ITEM_COUNT as int).len() == 12,
        names_in_category(ItemCategory::RedOrb, ITEM_COUNT as int).len() == 5,
        names_in_category(ItemCategory::Misc, ITEM_COUNT as int).len() == 16,
        category1 != category2 ==> !(names_in_category(category1, ITEM_COUNT as int).contains(name)
            && names_in_category(category2, ITEM_COUNT as int).contains(name)),
{
    reveal_with_fuel(names_in_category, 59);
    if category1 != category2 && names_in_category(category1, ITEM_COUNT as int).contains(name)
        && names_in_category(category2, ITEM_COUNT as int).contains(name) {
        lemma_category_member(category1, ITEM_COUNT as int, name);
        lemma_category_member(category2, ITEM_COUNT as int, name);
        lemma_item_names_distinct();
        let i = choose|i: int|
            0 <= i < ITEM_COUNT && (#[trigger] spec_item(i)).name == name && spec_item(i).category == category1;
        let j = choose|j: int|
            0 <= j < ITEM_COUNT && (#[trigger] spec_item(j)).name == name && spec_item(j).category == category2;
        assert(spec_item(i).name@ == spec_item(j).name@);
    }
}

} // verus!
