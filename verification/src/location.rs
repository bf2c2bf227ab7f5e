//! Which location of the seed a pick-up, a mission result or a purchase stands for.
use vstd::prelude::*;
use vstd::string::StringExecFns;
use crate::constants::{
    Coordinates, Difficulty, ITEM_COUNT, ItemCategory, ItemEntry, Rank, EventCode, EventTable,
    EventTableView, get_item_name, get_items_by_category, names_in_category, spec_difficulty_index,
    spec_item, spec_item_name, spec_rank_index,
};
use crate::game_manager::{FLAG_AREA_LEN, contains_name, names_contain, set_item, spec_flags_after, spec_id_of};
use crate::game_structs::MissionData;
use crate::mapping::Mapping;
use crate::strings::{contains, decimal, push_decimal, spec_contains, str_eq};
use crate::game_structs::{SessionData, spec_session_difficulty};

verus! {

/// What kind of location a check is.
#[derive(PartialEq, Eq, Structural, Clone, Copy, Debug)]
pub enum LocationType {
    /// An item picked up in a room.
    Standard,
    /// A mission completed at the required rank and difficulty.
    MissionComplete,
    /// A mission completed at SS rank.
    SSRank,
    /// An item bought in the shop.
    PurchaseItem,
}

/// A check that the game reports: for a purchase, `mission` holds how many were bought.
#[derive(Clone, Copy, Debug)]
pub struct Location {
    pub location_type: LocationType,
    pub item_id: u32,
    pub room: i32,
    pub mission: u32,
    pub coordinates: Coordinates,
    /// Whether sending it shows a message.
    pub to_display: bool,
}

impl PartialEq for Location {
    /// Two checks are the same pick-up when their position, room and item agree.
    fn eq(&self, other: &Self) -> (same: bool) {
        self.coordinates == other.coordinates && self.room == other.room && self.item_id
            == other.item_id
    }
}

impl vstd::std_specs::cmp::PartialEqSpecImpl for Location {
    open spec fn obeys_eq_spec() -> bool {
        true
    }

    open spec fn eq_spec(&self, other: &Self) -> bool {
        self.coordinates == other.coordinates && self.room == other.room && self.item_id
            == other.item_id
    }
}

/// Why no location was found.
#[derive(PartialEq, Eq, Structural, Clone, Copy, Debug)]
pub enum LocationError {
    /// No location of the table matches.
    NotFound,
    /// The current room holds no key-item location of the current mission.
    NotKeyItemRoom,
}

/// A location of the seed's table: its name and where it lies.
#[derive(Debug)]
pub struct NamedLocation {
    pub name: String,
    pub entry: ItemEntry,
}

/// A named location as values.
pub struct NamedLocationView {
    pub name: Seq<char>,
    pub entry: ItemEntry,
}

impl View for NamedLocation {
    type V = NamedLocationView;

    open spec fn view(&self) -> NamedLocationView {
        NamedLocationView { name: self.name@, entry: self.entry }
    }
}

/// The table as values.
pub open spec fn table_view(table: Seq<NamedLocation>) -> Seq<NamedLocationView> {
    table.map_values(|l: NamedLocation| l@)
}

/// The id of the "Remote" item.
pub const REMOTE_ITEM_ID: u32 = 0x26;
/// The id of the "Dummy" item.
pub const DUMMY_ITEM_ID: u32 = 0x20;

/// Whether an id is one the randomizer treats as a check: not one of the orbs.
pub open spec fn spec_is_valid_id(item_id: u32) -> bool {
    !(item_id <= 0x06 || (0x0A <= item_id <= 0x0F))
}

/// Whether an id is one the randomizer treats as a check: not one of the orbs.
pub fn is_valid_id(item_id: u32) -> (valid: bool)
    ensures
        valid == spec_is_valid_id(item_id),
{
    let invalid_ids: [u32; 13] = [
        0x00, 0x01, 0x02, 0x03, 0x04, 0x05, 0x06, 0x0A, 0x0B, 0x0C, 0x0D, 0x0E, 0x0F,
    ];
    let mut i: usize = 0;
    while i < 13
        invariant
            i <= 13,
            invalid_ids@ == seq![0x00u32, 0x01, 0x02, 0x03, 0x04, 0x05, 0x06, 0x0A, 0x0B, 0x0C, 0x0D, 0x0E, 0x0F],
            forall|j: int| 0 <= j < i ==> invalid_ids@[j] != item_id,
        decreases 13 - i,
    {
        if invalid_ids[i] == item_id {
            return false;
        }
        i = i + 1;
    }
    proof {
        assert(forall|j: int| 0 <= j < 13 ==> invalid_ids@[j] != item_id);
        assert(invalid_ids@[0] != item_id && invalid_ids@[6] != item_id);
        if 0x0A <= item_id <= 0x0F {
            assert(invalid_ids@[(item_id - 3) as int] == item_id);
        }
        if item_id <= 0x06 {
            assert(invalid_ids@[item_id as int] == item_id);
        }
    }
    true
}

/// The table name of a check that is not a pick-up: "Mission #<n> Complete",
/// "Mission #<n> SS Rank", or for the purchases of Blue and Purple Orbs
/// "Blue Orb #<n>" and "Purple Orb #<n>" (with `n` the number bought).
pub open spec fn spec_special_key(location: Location) -> Option<Seq<char>> {
    let n = decimal(location.mission as nat);
    match location.location_type {
        LocationType::Standard => None,
        LocationType::MissionComplete => Some("Mission #"@ + n + " Complete"@),
        LocationType::SSRank => Some("Mission #"@ + n + " SS Rank"@),
        LocationType::PurchaseItem => if location.item_id == 0x07 {
            Some("Blue Orb #"@ + n)
        } else if location.item_id == 0x08 {
            Some("Purple Orb #"@ + n)
        } else {
            None
        },
    }
}

/// The table name of a check that is not a pick-up (see `spec_special_key`).
pub fn special_location_key(location: &Location) -> (key: Option<String>)
    ensures
        key matches Some(k) ==> spec_special_key(*location) == Some(k@),
        key is None ==> spec_special_key(*location) is None,
{
    let (prefix, suffix) = match location.location_type {
        LocationType::Standard => {
            return None;
        },
        LocationType::MissionComplete => ("Mission #", " Complete"),
        LocationType::SSRank => ("Mission #", " SS Rank"),
        LocationType::PurchaseItem => {
            if location.item_id == 0x07 {
                ("Blue Orb #", "")
            } else if location.item_id == 0x08 {
                ("Purple Orb #", "")
            } else {
                return None;
            }
        },
    };
    let mut key = String::from_str(prefix);
    push_decimal(&mut key, location.mission as u64);
    key.append(suffix);
    proof {
        reveal_strlit("");
        assert(key@ =~= prefix@ + decimal(location.mission as nat) + suffix@);
        if location.location_type == LocationType::PurchaseItem {
            assert(prefix@ + decimal(location.mission as nat) + suffix@ =~= prefix@ + decimal(location.mission as nat));
        }
    }
    Some(key)
}

/// The first location of the table, from `start` on, whose name is `key`.
pub open spec fn first_named(table: Seq<NamedLocationView>, key: Seq<char>, start: int) -> Option<int>
    decreases table.len() - start,
{
    if start < 0 || start >= table.len() {
        None
    } else if table[start].name == key {
        Some(start)
    } else {
        first_named(table, key, start + 1)
    }
}

/// The position of the location called `key` in the table: the first one, if any.
pub fn find_location_by_key(table: &Vec<NamedLocation>, key: &str) -> (found: Option<usize>)
    ensures
        found matches Some(i) ==> first_named(table_view(table@), key@, 0) == Some(i as int),
        found is None ==> first_named(table_view(table@), key@, 0) is None,
{
    let ghost view = table_view(table@);
    let mut i: usize = 0;
    while i < table.len()
        invariant
            i <= table@.len(),
            view == table_view(table@),
            first_named(view, key@, 0) == first_named(view, key@, i as int),
        decreases table@.len() - i,
    {
        if str_eq(table[i].name.as_str(), key) {
            return Some(i);
        }
        i = i + 1;
    }
    None
}

/// Whether a table location is the place of a pick-up: same room, and the same position
/// unless the location has none, and the item is the location's default, the "Remote" item
/// or the "Dummy" item.
pub open spec fn spec_matches_pickup(entry: ItemEntry, location: Location) -> bool {
    &&& entry.room_number == location.room
    &&& (!(entry.coordinates.x > 0) || entry.coordinates == location.coordinates)
    &&& (entry.item_id == location.item_id || location.item_id == REMOTE_ITEM_ID
        || location.item_id == DUMMY_ITEM_ID)
}

/// The first table location, from `start` on, that is the place of the pick-up.
pub open spec fn first_pickup(table: Seq<NamedLocationView>, location: Location, start: int) -> Option<int>
    decreases table.len() - start,
{
    if start < 0 || start >= table.len() {
        None
    } else if spec_matches_pickup(table[start].entry, location) {
        Some(start)
    } else {
        first_pickup(table, location, start + 1)
    }
}

/// The location of the table that a check stands for, by its position in the table. A
/// pick-up is matched by room, position and item; other checks by their name (see
/// `spec_special_key`), which the table must hold.
pub fn get_location_name_by_data(table: &Vec<NamedLocation>, location: &Location) -> (found: Result<usize, LocationError>)
    requires
        location.location_type != LocationType::Standard ==> (spec_special_key(*location) matches Some(
            k,
        ) && first_named(table_view(table@), k, 0) is Some),
    ensures
        location.location_type != LocationType::Standard ==> found == Ok::<usize, LocationError>(
            first_named(table_view(table@), spec_special_key(*location).unwrap(), 0).unwrap() as usize,
        ),
        location.location_type == LocationType::Standard ==> found == match first_pickup(
            table_view(table@),
            *location,
            0,
        ) {
            Some(i) => Ok::<usize, LocationError>(i as usize),
            None => Err(LocationError::NotFound),
        },
{
    if location.location_type != LocationType::Standard {
        match special_location_key(location) {
            Some(key) => {
                match find_location_by_key(table, key.as_str()) {
                    Some(i) => {
                        return Ok(i);
                    },
                    None => {
                        return Err(LocationError::NotFound);
                    },
                }
            },
            None => {
                return Err(LocationError::NotFound);
            },
        }
    }
    let ghost view = table_view(table@);
    let mut i: usize = 0;
    while i < table.len()
        invariant
            i <= table@.len(),
            view == table_view(table@),
            location.location_type == LocationType::Standard,
            first_pickup(view, *location, 0) == first_pickup(view, *location, i as int),
        decreases table@.len() - i,
    {
        let entry = table[i].entry;
        if entry.room_number == location.room && (!entry.coordinates.has_coords()
            || entry.coordinates == location.coordinates) {
            if entry.item_id == location.item_id || location.item_id == REMOTE_ITEM_ID
                || location.item_id == DUMMY_ITEM_ID {
                return Ok(i);
            }
        }
        i = i + 1;
    }
    Err(LocationError::NotFound)
}

/// Whether a table location holds a key item of the given mission in the given room.
pub open spec fn spec_key_item_here(entry: ItemEntry, mission: u32, room: i32) -> bool {
    &&& names_contain(names_in_category(ItemCategory::Key, ITEM_COUNT as int), spec_item_name(entry.item_id))
    &&& room == entry.room_number
    &&& mission == entry.mission
}

/// The first table location, from `start` on, that holds a key item of the mission here.
pub open spec fn first_key_room(table: Seq<NamedLocationView>, mission: u32, room: i32, start: int) -> Option<int>
    decreases table.len() - start,
{
    if start < 0 || start >= table.len() {
        None
    } else if spec_key_item_here(table[start].entry, mission, room) {
        Some(start)
    } else {
        first_key_room(table, mission, room, start + 1)
    }
}

/// The key-item location of the current mission in the current room, by its position in
/// the table, if there is one.
pub fn in_key_item_room(table: &Vec<NamedLocation>, mission: u32, room: i32) -> (found: Result<usize, LocationError>)
    ensures
        found == match first_key_room(table_view(table@), mission, room, 0) {
            Some(i) => Ok::<usize, LocationError>(i as usize),
            None => Err(LocationError::NotKeyItemRoom),
        },
{
    let keys = get_items_by_category(ItemCategory::Key);
    let ghost view = table_view(table@);
    let mut i: usize = 0;
    while i < table.len()
        invariant
            i <= table@.len(),
            view == table_view(table@),
            keys@ == names_in_category(ItemCategory::Key, ITEM_COUNT as int),
            first_key_room(view, mission, room, 0) == first_key_room(view, mission, room, i as int),
        decreases table@.len() - i,
    {
        let entry = table[i].entry;
        let name = get_item_name(entry.item_id);
        if contains_name(&keys, name) && room == entry.room_number && mission == entry.mission {
            return Ok(i);
        }
        i = i + 1;
    }
    Err(LocationError::NotKeyItemRoom)
}

/// The id of the item shown for a location, from what scouting it told: the item's id when
/// it is this world's own item of the game's items, a weapon's picture for skills and gun
/// upgrades, and the "Remote" item otherwise (also when the location was not scouted).
pub open spec fn spec_mapped_item_id(scouted: Option<(u32, bool)>) -> u32 {
    let id = match scouted {
        Some((item, own)) => if own {
            item
        } else {
            REMOTE_ITEM_ID
        },
        None => REMOTE_ITEM_ID,
    };
    if id <= 0x39 {
        id
    } else if 0x40 <= id < 0x44 {
        0x16
    } else if id == 0x44 || id == 0x45 {
        0x17
    } else if 0x46 <= id < 0x4A {
        0x18
    } else if 0x4A <= id < 0x4F {
        0x1A
    } else if 0x4F <= id < 0x53 {
        0x1B
    } else if id == 0x53 {
        0x1C
    } else if id == 0x54 {
        0x1D
    } else if id == 0x55 {
        0x1E
    } else if id == 0x56 {
        0x1F
    } else if id == 0x57 {
        0x21
    } else {
        REMOTE_ITEM_ID
    }
}

/// The id of the item shown for a location (see `spec_mapped_item_id`). `scouted` is what
/// scouting the location told: the item's id and whether it belongs to this world.
pub fn get_mapped_item_id(scouted: Option<(u32, bool)>) -> (id: u32)
    ensures
        id == spec_mapped_item_id(scouted),
{
    let id = match scouted {
        Some((item, own)) => if own {
            item
        } else {
            REMOTE_ITEM_ID
        },
        None => REMOTE_ITEM_ID,
    };
    if id > 0x39 {
        if 0x40 <= id && id < 0x44 {
            0x16
        } else if id == 0x44 || id == 0x45 {
            0x17
        } else if 0x46 <= id && id < 0x4A {
            0x18
        } else if 0x4A <= id && id < 0x4F {
            0x1A
        } else if 0x4F <= id && id < 0x53 {
            0x1B
        } else if id == 0x53 {
            0x1C
        } else if id == 0x54 {
            0x1D
        } else if id == 0x55 {
            0x1E
        } else if id == 0x56 {
            0x1F
        } else if id == 0x57 {
            0x21
        } else {
            REMOTE_ITEM_ID
        }
    } else {
        id
    }
}

/// The offsets of the END events of the given location in the given tables, table by table.
pub open spec fn end_offsets_from(tables: Seq<EventTableView>, location: Seq<char>, n: int) -> Seq<usize>
    decreases n,
{
    if n <= 0 {
        Seq::empty()
    } else {
        end_offsets_from(tables, location, n - 1) + if tables[n - 1].location@ == location {
            tables[n - 1].events.filter(|e: crate::constants::Event| e.event_type == EventCode::End).map_values(
                |e: crate::constants::Event| e.offset,
            )
        } else {
            Seq::empty()
        }
    }
}

/// The offsets, in the mission's event script, of the END events of a location: the
/// events that are turned into a Red Orb once its item was picked up, so that the mission
/// ends properly.
pub fn end_event_offsets(tables: &Vec<EventTable>, location: &str) -> (offsets: Vec<usize>)
    ensures
        offsets@ == end_offsets_from(
            tables@.map_values(|t: EventTable| t@),
            location@,
            tables@.len() as int,
        ),
{
    let ghost views = tables@.map_values(|t: EventTable| t@);
    let mut offsets: Vec<usize> = Vec::new();
    let mut i: usize = 0;
    while i < tables.len()
        invariant
            i <= tables@.len(),
            views == tables@.map_values(|t: EventTable| t@),
            offsets@ == end_offsets_from(views, location@, i as int),
        decreases tables@.len() - i,
    {
        let table = &tables[i];
        if str_eq(table.location, location) {
            let ghost before = offsets@;
            let mut j: usize = 0;
            while j < table.events.len()
                invariant
                    j <= table.events@.len(),
                    offsets@ == before + table.events@.take(j as int).filter(
                        |e: crate::constants::Event| e.event_type == EventCode::End,
                    ).map_values(|e: crate::constants::Event| e.offset),
                decreases table.events@.len() - j,
            {
                let event = table.events[j];
                proof {
                    reveal(Seq::filter);
                    assert(table.events@.take(j + 1).drop_last() =~= table.events@.take(j as int));
                }
                if event.event_type == EventCode::End {
                    offsets.push(event.offset);
                }
                proof {
                    let f = |e: crate::constants::Event| e.event_type == EventCode::End;
                    let g = |e: crate::constants::Event| e.offset;
                    assert(table.events@.take(j + 1).last() == event);
                    assert(offsets@ =~= before + table.events@.take(j + 1).filter(f).map_values(g));
                }
                j = j + 1;
            }
            proof {
                assert(table.events@.take(table.events@.len() as int) =~= table.events@);
                assert(views[i as int].events == table.events@);
            }
        }
        i = i + 1;
    }
    offsets
}

/// Whether a location has an END event in the given tables.
pub open spec fn spec_has_end_event(tables: Seq<EventTableView>, location: Seq<char>) -> bool {
    exists|i: int, j: int|
        0 <= i < tables.len() && 0 <= j < tables[i].events.len() && tables[i].location@ == location
            && (#[trigger] tables[i].events[j]).event_type == EventCode::End
}

/// Whether a location has an END event in the given tables.
pub fn has_end_event(tables: &Vec<EventTable>, location: &str) -> (found: bool)
    ensures
        found == spec_has_end_event(tables@.map_values(|t: EventTable| t@), location@),
{
    let ghost views = tables@.map_values(|t: EventTable| t@);
    let mut i: usize = 0;
    while i < tables.len()
        invariant
            i <= tables@.len(),
            views == tables@.map_values(|t: EventTable| t@),
            forall|a: int, b: int|
                0 <= a < i && 0 <= b < views[a].events.len() && views[a].location@ == location@
                    ==> (#[trigger] views[a].events[b]).event_type != EventCode::End,
        decreases tables@.len() - i,
    {
        let table = &tables[i];
        if str_eq(table.location, location) {
            let mut j: usize = 0;
            while j < table.events.len()
                invariant
                    j <= table.events@.len(),
                    i < tables@.len(),
                    views == tables@.map_values(|t: EventTable| t@),
                    table == &tables@[i as int],
                    table.location@ == location@,
                    views[i as int].events == table.events@,
                    forall|b: int| 0 <= b < j ==> (#[trigger] table.events@[b]).event_type != EventCode::End,
                decreases table.events@.len() - j,
            {
                if table.events[j].event_type == EventCode::End {
                    proof {
                        assert(views[i as int] == tables@[i as int]@);
                        assert(views[i as int].location@ == location@);
                        assert(views[i as int].events[j as int].event_type == EventCode::End);
                        assert(spec_has_end_event(views, location@));
                    }
                    return true;
                }
                j = j + 1;
            }
        }
        i = i + 1;
    }
    false
}

/// Whether the item of a location is to be shown as the "Dummy" item: the location has an
/// END event and was already checked, so that picking it up again does not end the mission.
pub fn location_is_checked_and_end(tables: &Vec<EventTable>, location: &str, checked: bool) -> (dummy: bool)
    ensures
        dummy == (checked && spec_has_end_event(tables@.map_values(|t: EventTable| t@), location@)),
{
    checked && has_end_event(tables, location)
}

/// The checks that finishing a mission sends: the SS rank check (`.0`) when the rank is SS
/// and, if the seed asks for a difficulty for it, the difficulty is at least the required one; the mission check (`.1`) when rank and difficulty are at least
/// the required ones.
pub fn mission_complete_checks(mapping: &Mapping, rank: Rank, difficulty: Difficulty) -> (sends: (bool, bool))
    ensures
        sends.0 == (rank == Rank::SS && (!mapping.check_ss_difficulty || spec_difficulty_index(difficulty)
            >= spec_difficulty_index(mapping.mission_clear_difficulty))),
        sends.1 == (spec_rank_index(rank) >= spec_rank_index(mapping.mission_clear_rank)
            && spec_difficulty_index(difficulty) >= spec_difficulty_index(
            mapping.mission_clear_difficulty,
        )),
{
    let difficulty_met = difficulty.index() >= mapping.mission_clear_difficulty.index();
    let ss = rank == Rank::SS && (!mapping.check_ss_difficulty || difficulty_met);
    let complete = rank.index() >= mapping.mission_clear_rank.index() && difficulty_met;
    (ss, complete)
}

/// The item bought, by its place in the shop's list, when it is one the randomizer checks:
/// a Blue Orb (place 4) or a Purple Orb (place 5).
pub fn purchased_check_item(shop_index: i32) -> (item_id: Option<u32>)
    ensures
        item_id == (if shop_index == 4 {
            Some(0x07u32)
        } else if shop_index == 5 {
            Some(0x08u32)
        } else {
            None
        }),
{
    if shop_index == 4 {
        Some(0x07)
    } else if shop_index == 5 {
        Some(0x08)
    } else {
        None
    }
}

/// The check of an item picked up through an event: only for the items that count as
/// checks, and only when the game marks the pick-up as an event's (`unknown == -1`).
pub fn event_pickup(item_id: i16, unknown: i32, room: i32, mission: u32) -> (location: Option<Location>)
    ensures
        location == (if spec_is_valid_id(item_id as u32) && unknown == -1 {
            Some(
                Location {
                    location_type: LocationType::Standard,
                    item_id: item_id as u32,
                    room,
                    mission,
                    coordinates: Coordinates { x: 0, y: 0, z: 0 },
                    to_display: true,
                },
            )
        } else {
            None
        }),
{
    let id = item_id as u32;
    if is_valid_id(id) && unknown == -1 {
        Some(
            Location {
                location_type: LocationType::Standard,
                item_id: id,
                room,
                mission,
                coordinates: Coordinates { x: 0, y: 0, z: 0 },
                to_display: true,
            },
        )
    } else {
        None
    }
}

/// The check of an item picked up in a room: only for the items that count as checks and
/// are no Red Orbs (ids below 0x3A).
pub fn ground_pickup(item_id: u8, coordinates: Coordinates, room: i32, mission: u32) -> (location: Option<Location>)
    ensures
        location == (if spec_is_valid_id(item_id as u32) && item_id < 0x3A {
            Some(
                Location {
                    location_type: LocationType::Standard,
                    item_id: item_id as u32,
                    room,
                    mission,
                    coordinates,
                    to_display: true,
                },
            )
        } else {
            None
        }),
{
    if is_valid_id(item_id as u32) && item_id < 0x3A {
        Some(
            Location {
                location_type: LocationType::Standard,
                item_id: item_id as u32,
                room,
                mission,
                coordinates,
                to_display: true,
            },
        )
    } else {
        None
    }
}


/// Marks the "Remote" and "Dummy" items as not held and clears their location-check flags,
/// so that the stand-ins of other worlds' items and of collected items can be picked up
/// again.
pub fn clear_high_roller(mission: &mut MissionData, flags: &mut Vec<u8>)
    requires
        old(flags)@.len() >= FLAG_AREA_LEN,
    ensures
        final(mission).items@ == old(mission).items@.update(REMOTE_ITEM_ID as int, 0u8).update(
            DUMMY_ITEM_ID as int,
            0u8,
        ),
        final(flags)@ == spec_flags_after(
            spec_flags_after(old(flags)@, REMOTE_ITEM_ID as int, false),
            DUMMY_ITEM_ID as int,
            false,
        ),
{
    proof {
        crate::hooks::lemma_id_of_item(0x26);
        crate::hooks::lemma_id_of_item(0x20);
        reveal_strlit("Remote");
        reveal_strlit("Dummy");
        assert(spec_item(0x26).name@ == "Remote"@);
        assert(spec_item(0x20).name@ == "Dummy"@);
    }
    set_item(mission, flags, "Remote", false, true);
    set_item(mission, flags, "Dummy", false, true);
}

/// The item id shown as last obtained once a check was sent with `to_display`: none for
/// `u32::MAX` (nothing to show); otherwise its low byte, after the "Remote" and "Dummy"
/// items were cleared (see `clear_high_roller`).
pub fn displayed_after_send(to_display: u32) -> (shown: Option<u8>)
    ensures
        shown == (if to_display == u32::MAX {
            None
        } else {
            Some(to_display as u8)
        }),
{
    if to_display != u32::MAX {
        Some(#[verifier::truncate] (to_display as u8))
    } else {
        None
    }
}


/// The positions, among the first `n` table locations, of those of the mission.
pub open spec fn mission_positions(table: Seq<NamedLocationView>, mission: u32, n: int) -> Seq<usize>
    decreases n,
{
    if n <= 0 {
        Seq::empty()
    } else if table[n - 1].entry.mission == mission {
        mission_positions(table, mission, n - 1).push((n - 1) as usize)
    } else {
        mission_positions(table, mission, n - 1)
    }
}

/// The locations of a mission, by position in the table, in table order
///.
pub fn get_locations_by_mission(table: &Vec<NamedLocation>, mission: u32) -> (positions: Vec<usize>)
    ensures
        positions@ == mission_positions(table_view(table@), mission, table@.len() as int),
{
    let ghost view = table_view(table@);
    let mut positions: Vec<usize> = Vec::new();
    let mut i: usize = 0;
    while i < table.len()
        invariant
            i <= table@.len(),
            view == table_view(table@),
            positions@ == mission_positions(view, mission, i as int),
        decreases table@.len() - i,
    {
        proof {
            assert(view[i as int].entry == table@[i as int].entry);
        }
        if table[i].entry.mission == mission {
            positions.push(i);
        }
        i = i + 1;
    }
    positions
}

/// The positions, among the first `n` table locations, of the Secret Missions.
pub open spec fn secret_positions(table: Seq<NamedLocationView>, n: int) -> Seq<usize>
    decreases n,
{
    if n <= 0 {
        Seq::empty()
    } else if spec_contains(table[n - 1].name, "Secret Mission"@) {
        secret_positions(table, n - 1).push((n - 1) as usize)
    } else {
        secret_positions(table, n - 1)
    }
}

/// The Secret Mission locations, by position in the table, in table order
///.
pub fn get_secret_missions(table: &Vec<NamedLocation>) -> (positions: Vec<usize>)
    ensures
        positions@ == secret_positions(table_view(table@), table@.len() as int),
{
    let ghost view = table_view(table@);
    let mut positions: Vec<usize> = Vec::new();
    let mut i: usize = 0;
    while i < table.len()
        invariant
            i <= table@.len(),
            view == table_view(table@),
            positions@ == secret_positions(view, i as int),
        decreases table@.len() - i,
    {
        proof {
            assert(view[i as int].name == table@[i as int].name@);
        }
        if contains(table[i].name.as_str(), "Secret Mission") {
            positions.push(i);
        }
        i = i + 1;
    }
    positions
}

/// The checks that finishing a mission sends, from the session and
/// the rank the game computed (0 to 6, D to SSS): the SS rank check and then the mission's
/// check, each when `mission_complete_checks` says so.
pub fn mission_complete_check(mapping: &Mapping, session: &SessionData, final_ranking: i32) -> (checks: Vec<Location>)
    requires
        0 <= final_ranking < 7,
        session.hoh || session.difficulty < 6,
    ensures
        ({
            let rank = rank_of(final_ranking as int);
            let difficulty = spec_session_difficulty(*session);
            let ss = rank == Rank::SS && (!mapping.check_ss_difficulty || difficulty >= spec_difficulty_index(
                mapping.mission_clear_difficulty));
            let complete = spec_rank_index(rank) >= spec_rank_index(mapping.mission_clear_rank)
                && difficulty >= spec_difficulty_index(mapping.mission_clear_difficulty);
            let check = |t: LocationType|
                Location {
                    location_type: t,
                    item_id: u32::MAX,
                    room: 0,
                    mission: session.mission,
                    coordinates: Coordinates { x: 0, y: 0, z: 0 },
                    to_display: true,
                };
            checks@ == (if ss { seq![check(LocationType::SSRank)] } else { Seq::empty() }) + (if complete {
                seq![check(LocationType::MissionComplete)]
            } else {
                Seq::empty()
            })
        }),
{
    let rank = match Rank::from_repr(final_ranking as usize) {
        Some(r) => r,
        None => Rank::D,
    };
    let difficulty = crate::game_structs::get_difficulty(session);
    let (ss, complete) = mission_complete_checks(mapping, rank, difficulty);
    let mut checks: Vec<Location> = Vec::new();
    if ss {
        checks.push(
            Location {
                location_type: LocationType::SSRank,
                item_id: u32::MAX,
                room: 0,
                mission: session.mission,
                coordinates: Coordinates { x: 0, y: 0, z: 0 },
                to_display: true,
            },
        );
    }
    if complete {
        checks.push(
            Location {
                location_type: LocationType::MissionComplete,
                item_id: u32::MAX,
                room: 0,
                mission: session.mission,
                coordinates: Coordinates { x: 0, y: 0, z: 0 },
                to_display: true,
            },
        );
    }
    proof {
        match rank {
            Rank::D => {},
            Rank::C => {},
            Rank::B => {},
            Rank::A => {},
            Rank::S => {},
            Rank::SS => {},
            Rank::SSS => {},
        }
        assert(rank == rank_of(final_ranking as int));
    }
    checks
}

/// The rank with the game's number `i` (0 to 6, D to SSS).
pub open spec fn rank_of(i: int) -> Rank {
    if i == 0 {
        Rank::D
    } else if i == 1 {
        Rank::C
    } else if i == 2 {
        Rank::B
    } else if i == 3 {
        Rank::A
    } else if i == 4 {
        Rank::S
    } else if i == 5 {
        Rank::SS
    } else {
        Rank::SSS
    }
}

/// The check of a shop purchase: when the shop's purchases are
/// checks and the item bought (by its place in the shop's list) is a Blue or Purple Orb,
/// the purchase of that orb's `bought`-th copy.
pub fn purchase_item_check(mapping: &Mapping, shop_index: i32, bought: u8) -> (check: Option<Location>)
    ensures
        check == (if mapping.shop_checks && (shop_index == 4 || shop_index == 5) {
            Some(
                Location {
                    location_type: LocationType::PurchaseItem,
                    item_id: if shop_index == 4 { 0x07u32 } else { 0x08u32 },
                    room: 0,
                    mission: bought as u32,
                    coordinates: Coordinates { x: 0, y: 0, z: 0 },
                    to_display: true,
                },
            )
        } else {
            None
        }),
{
    if !mapping.shop_checks {
        return None;
    }
    match purchased_check_item(shop_index) {
        Some(item_id) => Some(
            Location {
                location_type: LocationType::PurchaseItem,
                item_id,
                room: 0,
                mission: bought as u32,
                coordinates: Coordinates { x: 0, y: 0, z: 0 },
                to_display: true,
            },
        ),
        None => None,
    }
}

/// A pick-up stands for a table location only when that location is in the pick-up's room,
/// at its position unless the location has none, and holds the picked-up item, or the item
/// picked up is the "Remote" (0x26) or "Dummy" (0x20) stand-in; the location found is the
/// first such one, and none is found when no location is such.
pub proof fn lemma_pickup_lookup(table: Seq<NamedLocationView>, location: Location)
    ensures
        first_pickup(table, location, 0) matches Some(i) ==> {
            &&& 0 <= i < table.len()
            &&& table[i].entry.room_number == location.room
            &&& (table[i].entry.coordinates.x == 0 || table[i].entry.coordinates == location.coordinates)
            &&& (table[i].entry.item_id == location.item_id || location.item_id == 0x26 || location.item_id == 0x20)
            &&& forall|j: int|
                0 <= j < i ==> !(#[trigger] table[j].entry.room_number == location.room && (table[j].entry.coordinates.x
                    == 0 || table[j].entry.coordinates == location.coordinates) && (table[j].entry.item_id
                    == location.item_id || location.item_id == 0x26 || location.item_id == 0x20))
        },
        first_pickup(table, location, 0) is None ==> forall|j: int|
            0 <= j < table.len() ==> !(#[trigger] table[j].entry.room_number == location.room && (
            table[j].entry.coordinates.x == 0 || table[j].entry.coordinates == location.coordinates) && (
            table[j].entry.item_id == location.item_id || location.item_id == 0x26 || location.item_id == 0x20)),
{
    lemma_pickup_from(table, location, 0);
}

proof fn lemma_pickup_from(table: Seq<NamedLocationView>, location: Location, start: int)
    requires
        0 <= start,
    ensures
        first_pickup(table, location, start) matches Some(i) ==> {
            &&& start <= i < table.len()
            &&& table[i].entry.room_number == location.room
            &&& (table[i].entry.coordinates.x == 0 || table[i].entry.coordinates == location.coordinates)
            &&& (table[i].entry.item_id == location.item_id || location.item_id == 0x26 || location.item_id == 0x20)
            &&& forall|j: int|
                start <= j < i ==> !(#[trigger] table[j].entry.room_number == location.room && (
                table[j].entry.coordinates.x == 0 || table[j].entry.coordinates == location.coordinates) && (
                table[j].entry.item_id == location.item_id || location.item_id == 0x26 || location.item_id == 0x20))
        },
        first_pickup(table, location, start) is None ==> forall|j: int|
            start <= j < table.len() ==> !(#[trigger] table[j].entry.room_number == location.room && (
            table[j].entry.coordinates.x == 0 || table[j].entry.coordinates == location.coordinates) && (
            table[j].entry.item_id == location.item_id || location.item_id == 0x26 || location.item_id == 0x20)),
    decreases table.len() - start,
{
    if start < table.len() {
        lemma_pickup_from(table, location, start + 1);
    }
}

} // verus!
