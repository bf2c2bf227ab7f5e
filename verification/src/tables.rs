//! Item ids and names as the game's event scripts use them, and the event tables.
use vstd::prelude::*;
use std::collections::HashMap;
use crate::strings::str_eq;
use vstd::string::StringExecFns;

verus! {

broadcast use vstd::std_specs::hash::group_hash_axioms;

/// Number of names that `get_item_id` recognises.
pub const ID_TABLE_LEN: usize = 56;
/// Number of ids that `get_item` names.
pub const NAME_TABLE_LEN: usize = 58;

/// The names that `get_item_id` recognises, each with its id, in the order they are tried.
pub open spec fn id_table() -> Seq<(&'static str, u8)> {
    seq![("Red Orb - 1", 0x00u8), ("Red Orb - 5", 0x01u8), ("Red Orb - 20", 0x02u8), ("Red Orb - 100", 0x03u8), ("Red Orb - 1000", 0x04u8), ("Gold Orb", 0x05u8), ("Yellow Orb", 0x06u8), ("Blue Orb", 0x07u8), ("Purple Orb", 0x08u8), ("Blue Orb Fragment", 0x09u8), ("Green Orb", 0x0Au8), ("Grorb", 0x0Bu8), ("Big Green Orb", 0x0Cu8), ("TODO", 0x0Du8), ("Vital Star L", 0x10u8), ("Vital Star S", 0x11u8), ("Devil Star", 0x12u8), ("Holy Water", 0x13u8), ("Reb Orb (Fear Test Test)", 0x14u8), ("Amulet (Casino Coins)", 0x15u8), ("Rebellion (Normal)", 0x16u8), ("Cerberus", 0x17u8), ("Agni and Rudra", 0x18u8), ("Rebellion (Awakened)", 0x19u8), ("Nevan", 0x1Au8), ("Beowulf", 0x1Bu8), ("Ebony & Ivory", 0x1Cu8), ("Shotgun", 0x1Du8), ("Artemis", 0x1Eu8), ("Spiral", 0x1Fu8), ("Red Orb...? (Bomb!)", 0x20u8), ("Kalina Ann", 0x21u8), ("Quicksilver", 0x22u8), ("Dopl Style", 0x23u8), ("Astronomical Board", 0x24u8), ("Vajura", 0x25u8), ("High Roller Card", 0x26u8), ("Soul of Steel", 0x27u8), ("Essence of Fighting", 0x28u8), ("Essence of Technique", 0x29u8), ("Essence of Intelligence", 0x2Au8), ("Orihalcon Fragment", 0x2Bu8), ("Siren's Shriek", 0x2Cu8), ("Crystal Skull", 0x2Du8), ("Ignis Fatuus", 0x2Eu8), ("Ambrosia", 0x2Fu8), ("Stone Mask", 0x30u8), ("Neo Generator", 0x31u8), ("Haywire Neo Generator", 0x32u8), ("Full Orihalcon", 0x33u8), ("Orihalcon Fragment (Right)", 0x34u8), ("Orihalcon Fragment (Bottom)", 0x35u8), ("Orihalcon Fragment (Left)", 0x36u8), ("Golden Sun", 0x37u8), ("Onyx Moonshard", 0x38u8), ("Samsara", 0x39u8)]
}

/// The id of the first entry of `table` from `start` on whose name is `name`.
pub open spec fn match_from(table: Seq<(&'static str, u8)>, name: Seq<char>, start: int) -> Option<u8>
    decreases table.len() - start,
{
    if start < 0 || start >= table.len() {
        None
    } else if table[start].0@ == name {
        Some(table[start].1)
    } else {
        match_from(table, name, start + 1)
    }
}

/// What `get_item_id` gives for a name.
pub open spec fn spec_get_item_id(name: Seq<char>) -> Option<u8> {
    match_from(id_table(), name, 0)
}

fn id_table_exec() -> (table: [(&'static str, u8); 56])
    ensures
        table@ == id_table(),
{
    let table = [("Red Orb - 1", 0x00u8), ("Red Orb - 5", 0x01u8), ("Red Orb - 20", 0x02u8), ("Red Orb - 100", 0x03u8), ("Red Orb - 1000", 0x04u8), ("Gold Orb", 0x05u8), ("Yellow Orb", 0x06u8), ("Blue Orb", 0x07u8), ("Purple Orb", 0x08u8), ("Blue Orb Fragment", 0x09u8), ("Green Orb", 0x0Au8), ("Grorb", 0x0Bu8), ("Big Green Orb", 0x0Cu8), ("TODO", 0x0Du8), ("Vital Star L", 0x10u8), ("Vital Star S", 0x11u8), ("Devil Star", 0x12u8), ("Holy Water", 0x13u8), ("Reb Orb (Fear Test Test)", 0x14u8), ("Amulet (Casino Coins)", 0x15u8), ("Rebellion (Normal)", 0x16u8), ("Cerberus", 0x17u8), ("Agni and Rudra", 0x18u8), ("Rebellion (Awakened)", 0x19u8), ("Nevan", 0x1Au8), ("Beowulf", 0x1Bu8), ("Ebony & Ivory", 0x1Cu8), ("Shotgun", 0x1Du8), ("Artemis", 0x1Eu8), ("Spiral", 0x1Fu8), ("Red Orb...? (Bomb!)", 0x20u8), ("Kalina Ann", 0x21u8), ("Quicksilver", 0x22u8), ("Dopl Style", 0x23u8), ("Astronomical Board", 0x24u8), ("Vajura", 0x25u8), ("High Roller Card", 0x26u8), ("Soul of Steel", 0x27u8), ("Essence of Fighting", 0x28u8), ("Essence of Technique", 0x29u8), ("Essence of Intelligence", 0x2Au8), ("Orihalcon Fragment", 0x2Bu8), ("Siren's Shriek", 0x2Cu8), ("Crystal Skull", 0x2Du8), ("Ignis Fatuus", 0x2Eu8), ("Ambrosia", 0x2Fu8), ("Stone Mask", 0x30u8), ("Neo Generator", 0x31u8), ("Haywire Neo Generator", 0x32u8), ("Full Orihalcon", 0x33u8), ("Orihalcon Fragment (Right)", 0x34u8), ("Orihalcon Fragment (Bottom)", 0x35u8), ("Orihalcon Fragment (Left)", 0x36u8), ("Golden Sun", 0x37u8), ("Onyx Moonshard", 0x38u8), ("Samsara", 0x39u8)];
    proof {
        assert(table@ =~= id_table());
    }
    table
}

/// The event-script id of the item called `item_name`, if it has one.
pub fn get_item_id(item_name: &str) -> (id: Option<u8>)
    ensures
        id == spec_get_item_id(item_name@),
{
    let table = id_table_exec();
    let mut i: usize = 0;
    while i < ID_TABLE_LEN
        invariant
            i <= ID_TABLE_LEN,
            table@ == id_table(),
            id_table().len() == ID_TABLE_LEN,
            match_from(id_table(), item_name@, 0) == match_from(id_table(), item_name@, i as int),
        decreases ID_TABLE_LEN - i,
    {
        let (name, id) = table[i];
        if str_eq(name, item_name) {
            return Some(id);
        }
        i = i + 1;
    }
    None
}

/// The names that `get_item` gives, by id.
pub open spec fn name_table() -> Seq<&'static str> {
    seq!["Red Orb - 1", "Red Orb - 5", "Red Orb - 20", "Red Orb - 100", "Red Orb - 1000", "Gold Orb", "Yellow Orb", "Blue Orb (No Work)", "Purple Orb (No Work)", "Blue Orb Frag", "Green Orb", "Grorb", "Big Green Orb", "TODO", "TODO", "TODO", "Vital Star L", "Vital Star S", "Devil Star", "Holy Water", "Reb Orb (Fear Test Test)", "Amulet (Casino Coins)", "Rebellion (Normal)", "Cerberus", "Agni?", "Rebellion Awakened", "Nevan", "Beowulf", "E&I", "Shotgun", "Artemis(?)", "Spiral(?)", "Red Orb...? (Bomb!)", "Kalina Ann", "Quicksilver", "Dopl Style", "Astro Board", "Vajura", "High Roller Card", "Soul of Steel", "Essence of Fighting", "Essence of Technique", "Essence of Intelligence", "Orihalcon Frag", "TODO", "TODO", "TODO", "TODO", "Stone Mask", "Neo Gen", "Haywire Neo", "Full Orihalcon", "Orihalcon Fragment (Right)", "Orihalcon Fragment (Bottom)", "Orihalcon Fragment (Left)", "Golden Sun", "Onyx Moonshard", "Samsara"]
}

/// The name `get_item` gives to ids it does not know.
pub open spec fn undefined_item_name() -> &'static str {
    "Undefined Item"
}

/// What `get_item` gives for an id.
pub open spec fn spec_get_item(item_id: u64) -> &'static str {
    if item_id < NAME_TABLE_LEN {
        name_table()[item_id as int]
    } else {
        undefined_item_name()
    }
}

/// The event-script name of the item with id `item_id`.
pub fn get_item(item_id: u64) -> (name: &'static str)
    ensures
        name == spec_get_item(item_id),
{
    let names = ["Red Orb - 1", "Red Orb - 5", "Red Orb - 20", "Red Orb - 100", "Red Orb - 1000", "Gold Orb", "Yellow Orb", "Blue Orb (No Work)", "Purple Orb (No Work)", "Blue Orb Frag", "Green Orb", "Grorb", "Big Green Orb", "TODO", "TODO", "TODO", "Vital Star L", "Vital Star S", "Devil Star", "Holy Water", "Reb Orb (Fear Test Test)", "Amulet (Casino Coins)", "Rebellion (Normal)", "Cerberus", "Agni?", "Rebellion Awakened", "Nevan", "Beowulf", "E&I", "Shotgun", "Artemis(?)", "Spiral(?)", "Red Orb...? (Bomb!)", "Kalina Ann", "Quicksilver", "Dopl Style", "Astro Board", "Vajura", "High Roller Card", "Soul of Steel", "Essence of Fighting", "Essence of Technique", "Essence of Intelligence", "Orihalcon Frag", "TODO", "TODO", "TODO", "TODO", "Stone Mask", "Neo Gen", "Haywire Neo", "Full Orihalcon", "Orihalcon Fragment (Right)", "Orihalcon Fragment (Bottom)", "Orihalcon Fragment (Left)", "Golden Sun", "Onyx Moonshard", "Samsara"];
    proof {
        assert(names@ =~= name_table());
    }
    if item_id < 58 {
        names[item_id as usize]
    } else {
        "Undefined Item"
    }
}


/// What an event of an event script does with an item.
#[allow(non_camel_case_types)]
#[derive(PartialEq, Eq, Structural, Clone, Copy, Debug)]
pub enum EventCode {
    GIVE,
    CHECK,
    END,
}

/// An event at `offset` from the start of an event script.
#[derive(PartialEq, Eq, Structural, Clone, Copy, Debug)]
pub struct Event {
    pub event_type: EventCode,
    pub offset: usize,
}

/// The events of a mission's script that belong to one location.
#[derive(Debug)]
pub struct EventTable {
    pub mission: i32,
    pub location: String,
    pub events: Vec<Event>,
}

/// An event table as a value.
pub struct EventTableView {
    pub mission: i32,
    pub location: Seq<char>,
    pub events: Seq<Event>,
}

impl View for EventTable {
    type V = EventTableView;

    open spec fn view(&self) -> EventTableView {
        EventTableView { mission: self.mission, location: self.location@, events: self.events@ }
    }
}

/// The event tables of mission 3, the one mission this table covers.
pub open spec fn mission_three_tables() -> Seq<EventTableView> {
    seq![
        EventTableView {
            mission: 3,
            location: "Mission #3 - Shotgun"@,
            events: seq![
                Event { event_type: EventCode::CHECK, offset: 0x450 },
                Event { event_type: EventCode::CHECK, offset: 0x6A4 },
                Event { event_type: EventCode::GIVE, offset: 0x6DC },
                Event { event_type: EventCode::CHECK, offset: 0x72C },
                Event { event_type: EventCode::GIVE, offset: 0x77C },
            ],
        },
        EventTableView {
            mission: 3,
            location: "Mission #3 - Cerberus"@,
            events: seq![
                Event { event_type: EventCode::CHECK, offset: 0xEE4 },
                Event { event_type: EventCode::GIVE, offset: 0xEFC },
            ],
        },
    ]
}

/// The event tables by mission: mission 3 only.
pub fn set_event_tables() -> (tables: HashMap<i32, Vec<EventTable>>)
    ensures
        tables@.dom() == set![3i32],
        tables@[3i32]@.map_values(|t: EventTable| t@) == mission_three_tables(),
{
    let mut tables: HashMap<i32, Vec<EventTable>> = HashMap::new();
    let shotgun = EventTable {
        mission: 3,
        location: String::from_str("Mission #3 - Shotgun"),
        events: vec![
            Event { event_type: EventCode::CHECK, offset: 0x450 },
            Event { event_type: EventCode::CHECK, offset: 0x6A4 },
            Event { event_type: EventCode::GIVE, offset: 0x6DC },
            Event { event_type: EventCode::CHECK, offset: 0x72C },
            Event { event_type: EventCode::GIVE, offset: 0x77C },
        ],
    };
    let cerberus = EventTable {
        mission: 3,
        location: String::from_str("Mission #3 - Cerberus"),
        events: vec![
            Event { event_type: EventCode::CHECK, offset: 0xEE4 },
            Event { event_type: EventCode::GIVE, offset: 0xEFC },
        ],
    };
    let list = vec![shotgun, cerberus];
    tables.insert(3, list);
    proof {
        assert(tables@.dom() =~= set![3i32]);
        assert(tables@[3i32]@.map_values(|t: EventTable| t@) =~~= mission_three_tables());
    }
    tables
}

/// The id at position `i` of the name table of `get_item_id`: the ids run from 0x00 to 0x0D
/// and then from 0x10 to 0x39, in order.
pub open spec fn id_at(i: int) -> int {
    if i < 14 {
        i
    } else {
        i + 2
    }
}

proof fn lemma_id_table_ids()
    ensures
        id_table().len() == 56,
        forall|i: int| 0 <= i < 56 ==> #[trigger] id_table()[i].1 == id_at(i),
{
    assert forall|i: int| 0 <= i < 56 implies #[trigger] id_table()[i].1 == id_at(i) by {
        let t = id_table();
        assert(t[0].1 == 0 && t[1].1 == 1 && t[2].1 == 2 && t[3].1 == 3 && t[4].1 == 4 && t[5].1 == 5
            && t[6].1 == 6 && t[7].1 == 7 && t[8].1 == 8 && t[9].1 == 9 && t[10].1 == 10 && t[11].1 == 11
            && t[12].1 == 12 && t[13].1 == 13);
    }
}

proof fn lemma_match_found(table: Seq<(&'static str, u8)>, name: Seq<char>, start: int)
    requires
        0 <= start,
        match_from(table, name, start) is Some,
    ensures
        exists|i: int|
            start <= i < table.len() && (#[trigger] table[i]).0@ == name && table[i].1 == match_from(
                table,
                name,
                start,
            ).unwrap(),
    decreases table.len() - start,
{
    if table[start].0@ != name {
        lemma_match_found(table, name, start + 1);
    }
}

/// No two names share an id under `get_item_id`, and the ids it gives run from 0x00 to 0x39
/// without 0x0E and 0x0F.
pub proof fn lemma_item_ids_distinct(name1: Seq<char>, name2: Seq<char>)
    ensures
        spec_get_item_id(name1) matches Some(a) ==> a <= 0x39 && a != 0x0E && a != 0x0F,
        name1 != name2 && spec_get_item_id(name1) is Some && spec_get_item_id(name2) is Some
            ==> spec_get_item_id(name1) != spec_get_item_id(name2),
{
    lemma_id_table_ids();
    if spec_get_item_id(name1) is Some {
        lemma_match_found(id_table(), name1, 0);
    }
    if spec_get_item_id(name2) is Some {
        lemma_match_found(id_table(), name2, 0);
    }
}

/// The positions of the name table of `get_item_id` whose name `get_item` gives to another
/// id's name (or to none).
pub open spec fn renamed(i: int) -> bool {
    i == 7 || i == 8 || i == 9 || i == 22 || i == 23 || i == 26 || i == 28 || i == 29 || i == 34 || i == 41 || i == 42 || i == 43 || i == 44 || i == 45 || i == 47 || i == 48
}

proof fn lemma_renamed_names_unused()
    ensures
        forall|x: int| 0 <= x < 58 ==> name_table()[x]@ != "Blue Orb"@ && name_table()[x]@ != "Purple Orb"@ && name_table()[x]@ != "Blue Orb Fragment"@ && name_table()[x]@ != "Agni and Rudra"@ && name_table()[x]@ != "Rebellion (Awakened)"@ && name_table()[x]@ != "Ebony & Ivory"@ && name_table()[x]@ != "Artemis"@ && name_table()[x]@ != "Spiral"@ && name_table()[x]@ != "Astronomical Board"@ && name_table()[x]@ != "Orihalcon Fragment"@ && name_table()[x]@ != "Siren's Shriek"@ && name_table()[x]@ != "Crystal Skull"@ && name_table()[x]@ != "Ignis Fatuus"@ && name_table()[x]@ != "Ambrosia"@ && name_table()[x]@ != "Neo Generator"@ && name_table()[x]@ != "Haywire Neo Generator"@,
        undefined_item_name()@ != "Blue Orb"@,
        undefined_item_name()@ != "Purple Orb"@,
        undefined_item_name()@ != "Blue Orb Fragment"@,
        undefined_item_name()@ != "Agni and Rudra"@,
        undefined_item_name()@ != "Rebellion (Awakened)"@,
        undefined_item_name()@ != "Ebony & Ivory"@,
        undefined_item_name()@ != "Artemis"@,
        undefined_item_name()@ != "Spiral"@,
        undefined_item_name()@ != "Astronomical Board"@,
        undefined_item_name()@ != "Orihalcon Fragment"@,
        undefined_item_name()@ != "Siren's Shriek"@,
        undefined_item_name()@ != "Crystal Skull"@,
        undefined_item_name()@ != "Ignis Fatuus"@,
        undefined_item_name()@ != "Ambrosia"@,
        undefined_item_name()@ != "Neo Generator"@,
        undefined_item_name()@ != "Haywire Neo Generator"@,
{
    reveal_strlit("Red Orb - 1");
    reveal_strlit("Red Orb - 5");
    reveal_strlit("Red Orb - 20");
    reveal_strlit("Red Orb - 100");
    reveal_strlit("Red Orb - 1000");
    reveal_strlit("Gold Orb");
    reveal_strlit("Yellow Orb");
    reveal_strlit("Blue Orb (No Work)");
    reveal_strlit("Purple Orb (No Work)");
    reveal_strlit("Blue Orb Frag");
    reveal_strlit("Green Orb");
    reveal_strlit("Grorb");
    reveal_strlit("Big Green Orb");
    reveal_strlit("TODO");
    reveal_strlit("Vital Star L");
    reveal_strlit("Vital Star S");
    reveal_strlit("Devil Star");
    reveal_strlit("Holy Water");
    reveal_strlit("Reb Orb (Fear Test Test)");
    reveal_strlit("Amulet (Casino Coins)");
    reveal_strlit("Rebellion (Normal)");
    reveal_strlit("Cerberus");
    reveal_strlit("Agni?");
    reveal_strlit("Rebellion Awakened");
    reveal_strlit("Nevan");
    reveal_strlit("Beowulf");
    reveal_strlit("E&I");
    reveal_strlit("Shotgun");
    reveal_strlit("Artemis(?)");
    reveal_strlit("Spiral(?)");
    reveal_strlit("Red Orb...? (Bomb!)");
    reveal_strlit("Kalina Ann");
    reveal_strlit("Quicksilver");
    reveal_strlit("Dopl Style");
    reveal_strlit("Astro Board");
    reveal_strlit("Vajura");
    reveal_strlit("High Roller Card");
    reveal_strlit("Soul of Steel");
    reveal_strlit("Essence of Fighting");
    reveal_strlit("Essence of Technique");
    reveal_strlit("Essence of Intelligence");
    reveal_strlit("Orihalcon Frag");
    reveal_strlit("Stone Mask");
    reveal_strlit("Neo Gen");
    reveal_strlit("Haywire Neo");
    reveal_strlit("Full Orihalcon");
    reveal_strlit("Orihalcon Fragment (Right)");
    reveal_strlit("Orihalcon Fragment (Bottom)");
    reveal_strlit("Orihalcon Fragment (Left)");
    reveal_strlit("Golden Sun");
    reveal_strlit("Onyx Moonshard");
    reveal_strlit("Samsara");
    reveal_strlit("Undefined Item");
    reveal_strlit("Blue Orb");
    reveal_strlit("Purple Orb");
    reveal_strlit("Blue Orb Fragment");
    reveal_strlit("Agni and Rudra");
    reveal_strlit("Rebellion (Awakened)");
    reveal_strlit("Ebony & Ivory");
    reveal_strlit("Artemis");
    reveal_strlit("Spiral");
    reveal_strlit("Astronomical Board");
    reveal_strlit("Orihalcon Fragment");
    reveal_strlit("Siren's Shriek");
    reveal_strlit("Crystal Skull");
    reveal_strlit("Ignis Fatuus");
    reveal_strlit("Ambrosia");
    reveal_strlit("Neo Generator");
    reveal_strlit("Haywire Neo Generator");
    assert("Red Orb - 1"@.len() == 11);
    assert("Red Orb - 5"@.len() == 11);
    assert("Red Orb - 20"@.len() == 12);
    assert("Red Orb - 100"@.len() == 13);
    assert("Red Orb - 1000"@.len() == 14);
    assert("Gold Orb"@.len() == 8);
    assert("Yellow Orb"@.len() == 10);
    assert("Blue Orb (No Work)"@.len() == 18);
    assert("Purple Orb (No Work)"@.len() == 20);
    assert("Blue Orb Frag"@.len() == 13);
    assert("Green Orb"@.len() == 9);
    assert("Grorb"@.len() == 5);
    assert("Big Green Orb"@.len() == 13);
    assert("TODO"@.len() == 4);
    assert("Vital Star L"@.len() == 12);
    assert("Vital Star S"@.len() == 12);
    assert("Devil Star"@.len() == 10);
    assert("Holy Water"@.len() == 10);
    assert("Reb Orb (Fear Test Test)"@.len() == 24);
    assert("Amulet (Casino Coins)"@.len() == 21);
    assert("Rebellion (Normal)"@.len() == 18);
    assert("Cerberus"@.len() == 8);
    assert("Agni?"@.len() == 5);
    assert("Rebellion Awakened"@.len() == 18);
    assert("Nevan"@.len() == 5);
    assert("Beowulf"@.len() == 7);
    assert("E&I"@.len() == 3);
    assert("Shotgun"@.len() == 7);
    assert("Artemis(?)"@.len() == 10);
    assert("Spiral(?)"@.len() == 9);
    assert("Red Orb...? (Bomb!)"@.len() == 19);
    assert("Kalina Ann"@.len() == 10);
    assert("Quicksilver"@.len() == 11);
    assert("Dopl Style"@.len() == 10);
    assert("Astro Board"@.len() == 11);
    assert("Vajura"@.len() == 6);
    assert("High Roller Card"@.len() == 16);
    assert("Soul of Steel"@.len() == 13);
    assert("Essence of Fighting"@.len() == 19);
    assert("Essence of Technique"@.len() == 20);
    assert("Essence of Intelligence"@.len() == 23);
    assert("Orihalcon Frag"@.len() == 14);
    assert("Stone Mask"@.len() == 10);
    assert("Neo Gen"@.len() == 7);
    assert("Haywire Neo"@.len() == 11);
    assert("Full Orihalcon"@.len() == 14);
    assert("Orihalcon Fragment (Right)"@.len() == 26);
    assert("Orihalcon Fragment (Bottom)"@.len() == 27);
    assert("Orihalcon Fragment (Left)"@.len() == 25);
    assert("Golden Sun"@.len() == 10);
    assert("Onyx Moonshard"@.len() == 14);
    assert("Samsara"@.len() == 7);
    assert("Undefined Item"@.len() == 14);
    assert("Blue Orb"@.len() == 8);
    assert("Purple Orb"@.len() == 10);
    assert("Blue Orb Fragment"@.len() == 17);
    assert("Agni and Rudra"@.len() == 14);
    assert("Rebellion (Awakened)"@.len() == 20);
    assert("Ebony & Ivory"@.len() == 13);
    assert("Artemis"@.len() == 7);
    assert("Spiral"@.len() == 6);
    assert("Astronomical Board"@.len() == 18);
    assert("Orihalcon Fragment"@.len() == 18);
    assert("Siren's Shriek"@.len() == 14);
    assert("Crystal Skull"@.len() == 13);
    assert("Ignis Fatuus"@.len() == 12);
    assert("Ambrosia"@.len() == 8);
    assert("Neo Generator"@.len() == 13);
    assert("Haywire Neo Generator"@.len() == 21);
    assert("Agni and Rudra"@[0] == 'A');
    assert("Ambrosia"@[0] == 'A');
    assert("Amulet (Casino Coins)"@[0] == 'A');
    assert("Artemis"@[0] == 'A');
    assert("Artemis(?)"@[0] == 'A');
    assert("Astronomical Board"@[0] == 'A');
    assert("Beowulf"@[0] == 'B');
    assert("Big Green Orb"@[0] == 'B');
    assert("Blue Orb"@[0] == 'B');
    assert("Blue Orb (No Work)"@[0] == 'B');
    assert("Blue Orb Frag"@[0] == 'B');
    assert("Cerberus"@[0] == 'C');
    assert("Crystal Skull"@[0] == 'C');
    assert("Devil Star"@[0] == 'D');
    assert("Dopl Style"@[0] == 'D');
    assert("Ebony & Ivory"@[0] == 'E');
    assert("Essence of Technique"@[0] == 'E');
    assert("Full Orihalcon"@[0] == 'F');
    assert("Gold Orb"@[0] == 'G');
    assert("Golden Sun"@[0] == 'G');
    assert("Haywire Neo Generator"@[0] == 'H');
    assert("Holy Water"@[0] == 'H');
    assert("Ignis Fatuus"@[0] == 'I');
    assert("Kalina Ann"@[0] == 'K');
    assert("Neo Gen"@[0] == 'N');
    assert("Neo Generator"@[0] == 'N');
    assert("Onyx Moonshard"@[0] == 'O');
    assert("Orihalcon Frag"@[0] == 'O');
    assert("Orihalcon Fragment"@[0] == 'O');
    assert("Purple Orb"@[0] == 'P');
    assert("Purple Orb (No Work)"@[0] == 'P');
    assert("Rebellion (Awakened)"@[0] == 'R');
    assert("Rebellion (Normal)"@[0] == 'R');
    assert("Rebellion Awakened"@[0] == 'R');
    assert("Red Orb - 100"@[0] == 'R');
    assert("Red Orb - 1000"@[0] == 'R');
    assert("Red Orb - 20"@[0] == 'R');
    assert("Samsara"@[0] == 'S');
    assert("Shotgun"@[0] == 'S');
    assert("Siren's Shriek"@[0] == 'S');
    assert("Soul of Steel"@[0] == 'S');
    assert("Spiral"@[0] == 'S');
    assert("Stone Mask"@[0] == 'S');
    assert("Undefined Item"@[0] == 'U');
    assert("Vajura"@[0] == 'V');
    assert("Vital Star L"@[0] == 'V');
    assert("Vital Star S"@[0] == 'V');
    assert("Yellow Orb"@[0] == 'Y');
    assert forall|x: int| 0 <= x < 58 implies name_table()[x]@ != "Blue Orb"@ && name_table()[x]@ != "Purple Orb"@ && name_table()[x]@ != "Blue Orb Fragment"@ && name_table()[x]@ != "Agni and Rudra"@ && name_table()[x]@ != "Rebellion (Awakened)"@ && name_table()[x]@ != "Ebony & Ivory"@ && name_table()[x]@ != "Artemis"@ && name_table()[x]@ != "Spiral"@ && name_table()[x]@ != "Astronomical Board"@ && name_table()[x]@ != "Orihalcon Fragment"@ && name_table()[x]@ != "Siren's Shriek"@ && name_table()[x]@ != "Crystal Skull"@ && name_table()[x]@ != "Ignis Fatuus"@ && name_table()[x]@ != "Ambrosia"@ && name_table()[x]@ != "Neo Generator"@ && name_table()[x]@ != "Haywire Neo Generator"@ by {
    }
}

proof fn lemma_id_table_names_distinct()
    ensures
        forall|i: int, j: int|
            0 <= i < 56 && 0 <= j < 56 && i != j ==> (#[trigger] id_table()[i]).0@ != (#[trigger] id_table()[j]).0@,
{
    reveal_strlit("Red Orb - 1");
    reveal_strlit("Red Orb - 5");
    reveal_strlit("Red Orb - 20");
    reveal_strlit("Red Orb - 100");
    reveal_strlit("Red Orb - 1000");
    reveal_strlit("Gold Orb");
    reveal_strlit("Yellow Orb");
    reveal_strlit("Blue Orb");
    reveal_strlit("Purple Orb");
    reveal_strlit("Blue Orb Fragment");
    reveal_strlit("Green Orb");
    reveal_strlit("Grorb");
    reveal_strlit("Big Green Orb");
    reveal_strlit("TODO");
    reveal_strlit("Vital Star L");
    reveal_strlit("Vital Star S");
    reveal_strlit("Devil Star");
    reveal_strlit("Holy Water");
    reveal_strlit("Reb Orb (Fear Test Test)");
    reveal_strlit("Amulet (Casino Coins)");
    reveal_strlit("Rebellion (Normal)");
    reveal_strlit("Cerberus");
    reveal_strlit("Agni and Rudra");
    reveal_strlit("Rebellion (Awakened)");
    reveal_strlit("Nevan");
    reveal_strlit("Beowulf");
    reveal_strlit("Ebony & Ivory");
    reveal_strlit("Shotgun");
    reveal_strlit("Artemis");
    reveal_strlit("Spiral");
    reveal_strlit("Red Orb...? (Bomb!)");
    reveal_strlit("Kalina Ann");
    reveal_strlit("Quicksilver");
    reveal_strlit("Dopl Style");
    reveal_strlit("Astronomical Board");
    reveal_strlit("Vajura");
    reveal_strlit("High Roller Card");
    reveal_strlit("Soul of Steel");
    reveal_strlit("Essence of Fighting");
    reveal_strlit("Essence of Technique");
    reveal_strlit("Essence of Intelligence");
    reveal_strlit("Orihalcon Fragment");
    reveal_strlit("Siren's Shriek");
    reveal_strlit("Crystal Skull");
    reveal_strlit("Ignis Fatuus");
    reveal_strlit("Ambrosia");
    reveal_strlit("Stone Mask");
    reveal_strlit("Neo Generator");
    reveal_strlit("Haywire Neo Generator");
    reveal_strlit("Full Orihalcon");
    reveal_strlit("Orihalcon Fragment (Right)");
    reveal_strlit("Orihalcon Fragment (Bottom)");
    reveal_strlit("Orihalcon Fragment (Left)");
    reveal_strlit("Golden Sun");
    reveal_strlit("Onyx Moonshard");
    reveal_strlit("Samsara");
    assert("Red Orb - 1"@.len() == 11);
    assert("Red Orb - 5"@.len() == 11);
    assert("Red Orb - 20"@.len() == 12);
    assert("Red Orb - 100"@.len() == 13);
    assert("Red Orb - 1000"@.len() == 14);
    assert("Gold Orb"@.len() == 8);
    assert("Yellow Orb"@.len() == 10);
    assert("Blue Orb"@.len() == 8);
    assert("Purple Orb"@.len() == 10);
    assert("Blue Orb Fragment"@.len() == 17);
    assert("Green Orb"@.len() == 9);
    assert("Grorb"@.len() == 5);
    assert("Big Green Orb"@.len() == 13);
    assert("TODO"@.len() == 4);
    assert("Vital Star L"@.len() == 12);
    assert("Vital Star S"@.len() == 12);
    assert("Devil Star"@.len() == 10);
    assert("Holy Water"@.len() == 10);
    assert("Reb Orb (Fear Test Test)"@.len() == 24);
    assert("Amulet (Casino Coins)"@.len() == 21);
    assert("Rebellion (Normal)"@.len() == 18);
    assert("Cerberus"@.len() == 8);
    assert("Agni and Rudra"@.len() == 14);
    assert("Rebellion (Awakened)"@.len() == 20);
    assert("Nevan"@.len() == 5);
    assert("Beowulf"@.len() == 7);
    assert("Ebony & Ivory"@.len() == 13);
    assert("Shotgun"@.len() == 7);
    assert("Artemis"@.len() == 7);
    assert("Spiral"@.len() == 6);
    assert("Red Orb...? (Bomb!)"@.len() == 19);
    assert("Kalina Ann"@.len() == 10);
    assert("Quicksilver"@.len() == 11);
    assert("Dopl Style"@.len() == 10);
    assert("Astronomical Board"@.len() == 18);
    assert("Vajura"@.len() == 6);
    assert("High Roller Card"@.len() == 16);
    assert("Soul of Steel"@.len() == 13);
    assert("Essence of Fighting"@.len() == 19);
    assert("Essence of Technique"@.len() == 20);
    assert("Essence of Intelligence"@.len() == 23);
    assert("Orihalcon Fragment"@.len() == 18);
    assert("Siren's Shriek"@.len() == 14);
    assert("Crystal Skull"@.len() == 13);
    assert("Ignis Fatuus"@.len() == 12);
    assert("Ambrosia"@.len() == 8);
    assert("Stone Mask"@.len() == 10);
    assert("Neo Generator"@.len() == 13);
    assert("Haywire Neo Generator"@.len() == 21);
    assert("Full Orihalcon"@.len() == 14);
    assert("Orihalcon Fragment (Right)"@.len() == 26);
    assert("Orihalcon Fragment (Bottom)"@.len() == 27);
    assert("Orihalcon Fragment (Left)"@.len() == 25);
    assert("Golden Sun"@.len() == 10);
    assert("Onyx Moonshard"@.len() == 14);
    assert("Samsara"@.len() == 7);
    assert("Agni and Rudra"@[0] == 'A');
    assert("Ambrosia"@[0] == 'A');
    assert("Amulet (Casino Coins)"@[0] == 'A');
    assert("Artemis"@[0] == 'A');
    assert("Astronomical Board"@[0] == 'A');
    assert("Beowulf"@[0] == 'B');
    assert("Big Green Orb"@[0] == 'B');
    assert("Blue Orb"@[0] == 'B');
    assert("Cerberus"@[0] == 'C');
    assert("Crystal Skull"@[0] == 'C');
    assert("Devil Star"@[0] == 'D');
    assert("Devil Star"@[1] == 'e');
    assert("Dopl Style"@[0] == 'D');
    assert("Dopl Style"@[1] == 'o');
    assert("Ebony & Ivory"@[0] == 'E');
    assert("Essence of Fighting"@[0] == 'E');
    assert("Essence of Technique"@[0] == 'E');
    assert("Full Orihalcon"@[0] == 'F');
    assert("Gold Orb"@[0] == 'G');
    assert("Golden Sun"@[0] == 'G');
    assert("Grorb"@[0] == 'G');
    assert("Haywire Neo Generator"@[0] == 'H');
    assert("Holy Water"@[0] == 'H');
    assert("Ignis Fatuus"@[0] == 'I');
    assert("Kalina Ann"@[0] == 'K');
    assert("Neo Generator"@[0] == 'N');
    assert("Nevan"@[0] == 'N');
    assert("Onyx Moonshard"@[0] == 'O');
    assert("Orihalcon Fragment"@[0] == 'O');
    assert("Purple Orb"@[0] == 'P');
    assert("Quicksilver"@[0] == 'Q');
    assert("Rebellion (Awakened)"@[0] == 'R');
    assert("Rebellion (Normal)"@[0] == 'R');
    assert("Red Orb - 1"@[0] == 'R');
    assert("Red Orb - 1"@[10] == '1');
    assert("Red Orb - 100"@[0] == 'R');
    assert("Red Orb - 1000"@[0] == 'R');
    assert("Red Orb - 20"@[0] == 'R');
    assert("Red Orb - 5"@[0] == 'R');
    assert("Red Orb - 5"@[10] == '5');
    assert("Red Orb...? (Bomb!)"@[0] == 'R');
    assert("Samsara"@[0] == 'S');
    assert("Samsara"@[1] == 'a');
    assert("Shotgun"@[0] == 'S');
    assert("Shotgun"@[1] == 'h');
    assert("Siren's Shriek"@[0] == 'S');
    assert("Soul of Steel"@[0] == 'S');
    assert("Spiral"@[0] == 'S');
    assert("Stone Mask"@[0] == 'S');
    assert("Vajura"@[0] == 'V');
    assert("Vital Star L"@[0] == 'V');
    assert("Vital Star L"@[11] == 'L');
    assert("Vital Star S"@[0] == 'V');
    assert("Vital Star S"@[11] == 'S');
    assert("Yellow Orb"@[0] == 'Y');
    assert forall|i: int, j: int|
        0 <= i < 56 && 0 <= j < 56 && i != j implies (#[trigger] id_table()[i]).0@ != (#[trigger] id_table()[j]).0@ by {
    }
}

proof fn lemma_unrenamed_names()
    ensures
        forall|i: int| 0 <= i < 56 && !renamed(i) ==> name_table()[id_at(i)]@ == (#[trigger] id_table()[i]).0@,
{
}

proof fn lemma_match_exists(table: Seq<(&'static str, u8)>, name: Seq<char>, start: int, p: int)
    requires
        0 <= start <= p < table.len(),
        table[p].0@ == name,
    ensures
        match_from(table, name, start) is Some,
    decreases p - start,
{
    if start < p && table[start].0@ != name {
        lemma_match_exists(table, name, start + 1, p);
    }
}

/// The ids whose `get_item` name `get_item_id` maps back to the id itself.
pub open spec fn keeps_own_id(x: u64) -> bool {
    x <= 0x06 || (0x0A <= x <= 0x0D) || (0x10 <= x <= 0x17) || x == 0x1A || x == 0x1B || x == 0x1D || (0x20 <= x
        <= 0x23) || (0x25 <= x <= 0x2A) || x == 0x30 || (0x33 <= x <= 0x39)
}

/// `get_item` and `get_item_id` undo each other: the id that `get_item_id` finds for the name
/// `get_item` gives is one that `get_item` names the same way, and it is the id itself for
/// the ids of `keeps_own_id` (for the other ids, such as 0x0E, also named "TODO", or 0x07,
/// named "Blue Orb (No Work)", it is another id or none).
pub proof fn lemma_item_names_round_trip(x: u64)
    ensures
        spec_get_item_id(spec_get_item(x)@) matches Some(y) ==> spec_get_item(y as u64)@ == spec_get_item(x)@,
        keeps_own_id(x) ==> spec_get_item_id(spec_get_item(x)@) == Some(x as u8),
{
    lemma_id_table_ids();
    lemma_unrenamed_names();
    lemma_renamed_names_unused();
    let name = spec_get_item(x)@;
    if spec_get_item_id(name) is Some {
        lemma_match_found(id_table(), name, 0);
        let i = choose|i: int|
            0 <= i < id_table().len() && (#[trigger] id_table()[i]).0@ == name && id_table()[i].1
                == match_from(id_table(), name, 0).unwrap();
        assert(!renamed(i));
    }
    if keeps_own_id(x) {
        let p = if x < 14 { x as int } else { x as int - 2 };
        assert(id_table()[p].0@ == name);
        lemma_match_exists(id_table(), name, 0, p);
        lemma_match_found(id_table(), name, 0);
        lemma_id_table_names_distinct();
        let i = choose|i: int|
            0 <= i < id_table().len() && (#[trigger] id_table()[i]).0@ == name && id_table()[i].1
                == match_from(id_table(), name, 0).unwrap();
        assert(i == p);
    }
}

} // verus!
