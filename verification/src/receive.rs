//! What the client does with the list of items that the server says this slot received.
use vstd::prelude::*;
use crate::constants::{ITEM_COUNT, Style, mission_items, names_for_mission, spec_style_index};
use crate::game_manager::{
    ArchipelagoData, ArchipelagoDataView, MAX_BLUE_ORBS, MAX_GUN_LEVEL, MAX_PURPLE_ORBS,
    MAX_SKILL_LEVEL, MAX_STYLE_LEVEL, bump, contains_name, names_contain,
};
use crate::mapping::{AutoHint, Mapping};
use crate::skill_manager::{add_skill, spec_leveled_skill_id};

verus! {

/// What the game is to be told once a received item has been counted.
#[derive(PartialEq, Eq, Structural, Clone, Copy, Debug)]
pub enum ReceivedEffect {
    /// Nothing to do in the game.
    Nothing,
    /// Give this many Red Orbs.
    RedOrbs(i32),
    /// Raise the current health by one orb.
    Health,
    /// Raise the current magic by this many orbs.
    Magic(u32),
    /// Add the consumable with this id to the inventory.
    Consumable(u32),
    /// Mark the key item as held, with its location-check flag.
    KeyItem,
    /// Write the received skills into the game.
    Skills,
    /// Write the gun levels into the game.
    GunLevels,
    /// Apply the level of this style.
    StyleLevel(Style),
    /// Put the received weapons in the inventory.
    Weapons,
    /// Ask the server to hint the gun's level purchases, then put the received weapons in
    /// the inventory.
    GunHintsAndWeapons,
    /// An id that the client does not handle.
    Unhandled,
}

/// One entry of the received-items list: its index in the list, its id and its name.
pub struct ReceivedItem {
    pub index: u64,
    pub id: i64,
    pub name: String,
}

/// A received item as values.
pub struct ReceivedItemView {
    pub index: u64,
    pub id: i64,
    pub name: Seq<char>,
}

impl View for ReceivedItem {
    type V = ReceivedItemView;

    open spec fn view(&self) -> ReceivedItemView {
        ReceivedItemView { index: self.index, id: self.id, name: self.name@ }
    }
}

/// Whether the item at `item_index` is new to this save: the save has handled the items
/// before `current_index` (a negative index counts as past every item).
pub open spec fn spec_is_new(item_index: u64, current_index: i64) -> bool {
    current_index >= 0 && item_index >= current_index
}

/// The save's current index once the item at `item_index` was handled.
pub open spec fn spec_index_after(current_index: i64, item_index: u64) -> i64 {
    if spec_is_new(item_index, current_index) {
        (item_index + 1) as i64
    } else {
        current_index
    }
}

/// Red Orbs given for the Red Orb bundles (ids 1 to 3).
pub open spec fn spec_red_orbs(item_id: i64) -> i32 {
    if item_id == 1 {
        1000
    } else if item_id == 2 {
        2500
    } else {
        5000
    }
}

/// The style that the style items (ids 0x60 to 0x63) give a level of.
pub open spec fn spec_style_item(item_id: i64) -> Style {
    if item_id == 0x60 {
        Style::Trickster
    } else if item_id == 0x61 {
        Style::Swordmaster
    } else if item_id == 0x62 {
        Style::Gunslinger
    } else {
        Style::Royalguard
    }
}

/// Whether the seed randomizes skills.
pub open spec fn skills_randomized(mapping: Option<&Mapping>) -> bool {
    mapping matches Some(m) && m.randomize_skills
}

/// Whether a received gun makes the client hint its level purchases.
pub open spec fn gun_hints_on(mapping: Option<&Mapping>) -> bool {
    mapping matches Some(m) && m.shop_gun_checks && m.auto_gun_hints == AutoHint::Obtained
}

/// What the game is told for a received item.
pub open spec fn spec_effect(
    mapping: Option<&Mapping>,
    item_id: i64,
    name: Seq<char>,
    is_new: bool,
    mission: u32,
) -> ReceivedEffect {
    if 1 <= item_id < 4 {
        if is_new {
            ReceivedEffect::RedOrbs(spec_red_orbs(item_id))
        } else {
            ReceivedEffect::Nothing
        }
    } else if item_id == 7 {
        if is_new {
            ReceivedEffect::Health
        } else {
            ReceivedEffect::Nothing
        }
    } else if item_id == 8 {
        if is_new {
            ReceivedEffect::Magic(1)
        } else {
            ReceivedEffect::Nothing
        }
    } else if 0x10 <= item_id < 0x14 {
        if is_new {
            ReceivedEffect::Consumable(item_id as u32)
        } else {
            ReceivedEffect::Nothing
        }
    } else if item_id == 0x19 {
        if is_new {
            ReceivedEffect::Magic(3)
        } else {
            ReceivedEffect::Nothing
        }
    } else if 0x22 <= item_id < 0x24 {
        ReceivedEffect::Nothing
    } else if 0x24 <= item_id < 0x3A {
        if names_contain(names_for_mission(mission, ITEM_COUNT as int), name) {
            ReceivedEffect::KeyItem
        } else {
            ReceivedEffect::Nothing
        }
    } else if 0x3A <= item_id < 0x53 {
        if skills_randomized(mapping) {
            ReceivedEffect::Skills
        } else {
            ReceivedEffect::Nothing
        }
    } else if 0x53 <= item_id < 0x58 {
        ReceivedEffect::GunLevels
    } else if 0x60 <= item_id < 0x64 {
        if is_new {
            ReceivedEffect::StyleLevel(spec_style_item(item_id))
        } else {
            ReceivedEffect::Nothing
        }
    } else if (0x16 <= item_id <= 0x18) || (0x1A <= item_id <= 0x1B) {
        ReceivedEffect::Weapons
    } else if 0x1C <= item_id <= 0x21 {
        if gun_hints_on(mapping) {
            ReceivedEffect::GunHintsAndWeapons
        } else {
            ReceivedEffect::Weapons
        }
    } else {
        ReceivedEffect::Unhandled
    }
}

/// The received data once a skill item was counted.
pub open spec fn spec_skill_added(d: ArchipelagoDataView, id: usize) -> ArchipelagoDataView {
    ArchipelagoDataView {
        skills: d.skills.insert(spec_leveled_skill_id(id, d)),
        stinger_level: if id == 0x40 {
            bump(d.stinger_level as int, MAX_SKILL_LEVEL as int) as u8
        } else {
            d.stinger_level
        },
        jet_stream_level: if id == 0x46 {
            bump(d.jet_stream_level as int, MAX_SKILL_LEVEL as int) as u8
        } else {
            d.jet_stream_level
        },
        reverb_level: if id == 0x4A {
            bump(d.reverb_level as int, MAX_SKILL_LEVEL as int) as u8
        } else {
            d.reverb_level
        },
        beowulf_level: if id == 0x50 {
            bump(d.beowulf_level as int, MAX_SKILL_LEVEL as int) as u8
        } else {
            d.beowulf_level
        },
        ..d
    }
}

/// The received data once an item was counted: its name is recorded, then its id counts
/// towards what it stands for.
pub open spec fn spec_data_after(
    data: ArchipelagoDataView,
    mapping: Option<&Mapping>,
    item_id: i64,
    name: Seq<char>,
) -> ArchipelagoDataView {
    let d = ArchipelagoDataView { items: data.items.insert(name), ..data };
    if item_id == 7 {
        ArchipelagoDataView { blue_orbs: bump(d.blue_orbs, MAX_BLUE_ORBS as int), ..d }
    } else if item_id == 8 {
        ArchipelagoDataView {
            purple_orbs: bump(d.purple_orbs, MAX_PURPLE_ORBS as int),
            dt_unlocked: d.dt_unlocked || (mapping matches Some(m) && !m.devil_trigger_mode),
            ..d
        }
    } else if item_id == 0x19 {
        ArchipelagoDataView {
            dt_unlocked: d.dt_unlocked || (mapping matches Some(m) && m.devil_trigger_mode),
            purple_orbs: if mapping matches Some(m) && !m.purple_orb_mode {
                if d.purple_orbs + 3 < MAX_PURPLE_ORBS {
                    d.purple_orbs + 3
                } else {
                    MAX_PURPLE_ORBS as int
                }
            } else {
                d.purple_orbs
            },
            ..d
        }
    } else if 0x3A <= item_id < 0x53 && skills_randomized(mapping) {
        spec_skill_added(d, item_id as usize)
    } else if 0x53 <= item_id < 0x58 {
        ArchipelagoDataView {
            gun_levels: d.gun_levels.update(
                item_id - 0x53,
                bump(d.gun_levels[item_id - 0x53] as int, MAX_GUN_LEVEL as int) as u32,
            ),
            ..d
        }
    } else if 0x60 <= item_id < 0x64 {
        let index = spec_style_index(spec_style_item(item_id)) as int;
        ArchipelagoDataView {
            style_levels: d.style_levels.update(
                index,
                bump(d.style_levels[index] as int, MAX_STYLE_LEVEL as int) as i32,
            ),
            ..d
        }
    } else {
        d
    }
}

/// Whether the item at `item_index` is new to this save.
pub fn is_new_item(item_index: u64, current_index: i64) -> (new: bool)
    ensures
        new == spec_is_new(item_index, current_index),
{
    current_index >= 0 && item_index >= current_index as u64
}

/// The save's current index once the item at `item_index` was handled.
pub fn index_after(current_index: i64, item_index: u64) -> (next: i64)
    requires
        item_index < i64::MAX,
    ensures
        next == spec_index_after(current_index, item_index),
{
    if is_new_item(item_index, current_index) {
        (item_index + 1) as i64
    } else {
        current_index
    }
}

/// Whether a received item is announced on screen: only new ones, and not at the main menu.
pub fn announces_item(on_main_menu: bool, item_index: u64, current_index: i64) -> (shown: bool)
    ensures
        shown == (!on_main_menu && spec_is_new(item_index, current_index)),
{
    !on_main_menu && is_new_item(item_index, current_index)
}

/// Counts one received item into `data` and says what the game is to be told about it.
/// `is_new` says whether the save has not handled it yet; `mission` is the current mission.
pub fn receive_item(
    data: &mut ArchipelagoData,
    mapping: Option<&Mapping>,
    item_id: i64,
    item_name: &str,
    is_new: bool,
    mission: u32,
) -> (effect: ReceivedEffect)
    ensures
        effect == spec_effect(mapping, item_id, item_name@, is_new, mission),
        final(data)@ == spec_data_after(old(data)@, mapping, item_id, item_name@),
{
    data.within_caps();
    data.add_item(String::from_str(item_name));
    let ghost recorded = data@;
    proof {
        assert(recorded =~= ArchipelagoDataView {
            items: old(data)@.items.insert(item_name@),
            ..old(data)@
        });
    }
    if 1 <= item_id && item_id < 4 {
        if is_new {
            let orbs: i32 = if item_id == 1 {
                1000
            } else if item_id == 2 {
                2500
            } else {
                5000
            };
            ReceivedEffect::RedOrbs(orbs)
        } else {
            ReceivedEffect::Nothing
        }
    } else if item_id == 7 {
        data.add_blue_orb();
        if is_new {
            ReceivedEffect::Health
        } else {
            ReceivedEffect::Nothing
        }
    } else if item_id == 8 {
        data.add_purple_orb(mapping);
        if is_new {
            ReceivedEffect::Magic(1)
        } else {
            ReceivedEffect::Nothing
        }
    } else if 0x10 <= item_id && item_id < 0x14 {
        if is_new {
            ReceivedEffect::Consumable(item_id as u32)
        } else {
            ReceivedEffect::Nothing
        }
    } else if item_id == 0x19 {
        data.add_dt(mapping);
        if is_new {
            ReceivedEffect::Magic(3)
        } else {
            ReceivedEffect::Nothing
        }
    } else if 0x22 <= item_id && item_id < 0x24 {
        ReceivedEffect::Nothing
    } else if 0x24 <= item_id && item_id < 0x3A {
        let held = match mission_items(mission) {
            Some(list) => contains_name(&list, item_name),
            None => false,
        };
        if held {
            ReceivedEffect::KeyItem
        } else {
            ReceivedEffect::Nothing
        }
    } else if 0x3A <= item_id && item_id < 0x53 {
        let randomized = match mapping {
            Some(m) => m.randomize_skills,
            None => false,
        };
        if randomized {
            add_skill(item_id as usize, data);
            proof {
                assert(data@ =~= spec_skill_added(recorded, item_id as usize));
            }
            ReceivedEffect::Skills
        } else {
            ReceivedEffect::Nothing
        }
    } else if 0x53 <= item_id && item_id < 0x58 {
        data.add_gun_level((item_id - 0x53) as usize);
        ReceivedEffect::GunLevels
    } else if 0x60 <= item_id && item_id < 0x64 {
        let style = if item_id == 0x60 {
            Style::Trickster
        } else if item_id == 0x61 {
            Style::Swordmaster
        } else if item_id == 0x62 {
            Style::Gunslinger
        } else {
            Style::Royalguard
        };
        data.add_style_level(style);
        if is_new {
            ReceivedEffect::StyleLevel(style)
        } else {
            ReceivedEffect::Nothing
        }
    } else if (0x16 <= item_id && item_id <= 0x18) || (0x1A <= item_id && item_id <= 0x1B) {
        ReceivedEffect::Weapons
    } else if 0x1C <= item_id && item_id <= 0x21 {
        let hints = match mapping {
            Some(m) => m.shop_gun_checks && m.auto_gun_hints == AutoHint::Obtained,
            None => false,
        };
        if hints {
            ReceivedEffect::GunHintsAndWeapons
        } else {
            ReceivedEffect::Weapons
        }
    } else {
        ReceivedEffect::Unhandled
    }
}


/// The received data of a save that has received nothing.
pub open spec fn empty_data() -> ArchipelagoDataView {
    ArchipelagoDataView {
        blue_orbs: 0,
        purple_orbs: 0,
        dt_unlocked: false,
        gun_levels: seq![0u32, 0, 0, 0, 0],
        style_levels: seq![0i32, 0, 0, 0],
        stinger_level: 0,
        jet_stream_level: 0,
        reverb_level: 0,
        beowulf_level: 0,
        items: Set::empty(),
        skills: Set::empty(),
    }
}

/// The received data when a received-items packet starts at `packet_index`: from scratch when
/// the packet is the whole list, and in any case with the orbs, gun levels and style levels
/// back at nothing, to be counted again from the list.
pub open spec fn spec_data_at_packet_start(data: ArchipelagoDataView, packet_index: u64) -> ArchipelagoDataView {
    let d = if packet_index == 0 { empty_data() } else { data };
    ArchipelagoDataView {
        blue_orbs: 0,
        purple_orbs: 0,
        gun_levels: seq![0u32, 0, 0, 0, 0],
        style_levels: seq![0i32, 0, 0, 0],
        ..d
    }
}

/// Prepares the received data for a received-items packet that starts at `packet_index`.
pub fn begin_received_items(data: &mut ArchipelagoData, packet_index: u64)
    ensures
        final(data)@ == spec_data_at_packet_start(old(data)@, packet_index),
{
    if packet_index == 0 {
        *data = ArchipelagoData::new();
    }
    data.reset_orbs();
    data.reset_gun_levels();
    data.reset_style_levels();
    proof {
        assert(data@ =~= spec_data_at_packet_start(old(data)@, packet_index));
    }
}

/// The save's current index after the first `n` items of `items` were handled.
pub open spec fn index_after_items(current_index: i64, items: Seq<ReceivedItemView>, n: int) -> i64
    decreases n,
{
    if n <= 0 {
        current_index
    } else {
        spec_index_after(index_after_items(current_index, items, n - 1), items[n - 1].index)
    }
}

/// The received data after the first `n` items of `items` were counted.
pub open spec fn data_after_items(
    data: ArchipelagoDataView,
    mapping: Option<&Mapping>,
    items: Seq<ReceivedItemView>,
    n: int,
) -> ArchipelagoDataView
    decreases n,
{
    if n <= 0 {
        data
    } else {
        spec_data_after(
            data_after_items(data, mapping, items, n - 1),
            mapping,
            items[n - 1].id,
            items[n - 1].name,
        )
    }
}

/// What the game is told for the item at position `n` of `items`.
pub open spec fn effect_at(
    current_index: i64,
    mapping: Option<&Mapping>,
    items: Seq<ReceivedItemView>,
    n: int,
    mission: u32,
) -> ReceivedEffect {
    spec_effect(
        mapping,
        items[n].id,
        items[n].name,
        spec_is_new(items[n].index, index_after_items(current_index, items, n)),
        mission,
    )
}

/// Counts the items of a received-items packet, in order, into `data`; says for each what
/// the game is to be told, and gives the save's current index after them.
pub fn handle_received_items(
    data: &mut ArchipelagoData,
    mapping: Option<&Mapping>,
    items: &Vec<ReceivedItem>,
    current_index: i64,
    mission: u32,
) -> (result: (Vec<ReceivedEffect>, i64))
    requires
        forall|i: int| 0 <= i < items@.len() ==> #[trigger] items@[i].index < i64::MAX,
    ensures
        result.0@.len() == items@.len(),
        forall|i: int|
            0 <= i < items@.len() ==> #[trigger] result.0@[i] == effect_at(
                current_index,
                mapping,
                items@.map_values(|it: ReceivedItem| it@),
                i,
                mission,
            ),
        result.1 == index_after_items(
            current_index,
            items@.map_values(|it: ReceivedItem| it@),
            items@.len() as int,
        ),
        final(data)@ == data_after_items(
            old(data)@,
            mapping,
            items@.map_values(|it: ReceivedItem| it@),
            items@.len() as int,
        ),
{
    let ghost views = items@.map_values(|it: ReceivedItem| it@);
    let mut effects: Vec<ReceivedEffect> = Vec::new();
    let mut index = current_index;
    let mut i: usize = 0;
    while i < items.len()
        invariant
            i <= items@.len(),
            views == items@.map_values(|it: ReceivedItem| it@),
            forall|j: int| 0 <= j < items@.len() ==> #[trigger] items@[j].index < i64::MAX,
            effects@.len() == i,
            forall|j: int|
                0 <= j < i ==> #[trigger] effects@[j] == effect_at(
                    current_index,
                    mapping,
                    views,
                    j,
                    mission,
                ),
            index == index_after_items(current_index, views, i as int),
            data@ == data_after_items(old(data)@, mapping, views, i as int),
        decreases items@.len() - i,
    {
        let item = &items[i];
        let new = is_new_item(item.index, index);
        let effect = receive_item(data, mapping, item.id, item.name.as_str(), new, mission);
        effects.push(effect);
        index = index_after(index, item.index);
        i = i + 1;
    }
    (effects, index)
}

/// How many items of the first `n` of `items` have id `item_id`.
pub open spec fn count_id(items: Seq<ReceivedItemView>, item_id: i64, n: int) -> int
    decreases n,
{
    if n <= 0 {
        0
    } else {
        count_id(items, item_id, n - 1) + if items[n - 1].id == item_id {
            1int
        } else {
            0int
        }
    }
}

/// Blue Orbs are counted again from the list at every packet: after a packet, the save has
/// as many as the list holds, up to the cap.
pub proof fn lemma_blue_orbs_recounted(
    data: ArchipelagoDataView,
    mapping: Option<&Mapping>,
    packet_index: u64,
    items: Seq<ReceivedItemView>,
)
    ensures
        data_after_items(
            spec_data_at_packet_start(data, packet_index),
            mapping,
            items,
            items.len() as int,
        ).blue_orbs == if count_id(items, 7, items.len() as int) < MAX_BLUE_ORBS {
            count_id(items, 7, items.len() as int)
        } else {
            MAX_BLUE_ORBS as int
        },
{
    lemma_blue_orbs_prefix(spec_data_at_packet_start(data, packet_index), mapping, items, items.len() as int);
}

proof fn lemma_blue_orbs_prefix(
    start: ArchipelagoDataView,
    mapping: Option<&Mapping>,
    items: Seq<ReceivedItemView>,
    n: int,
)
    requires
        start.blue_orbs == 0,
        0 <= n <= items.len(),
    ensures
        data_after_items(start, mapping, items, n).blue_orbs == if count_id(items, 7, n)
            < MAX_BLUE_ORBS {
            count_id(items, 7, n)
        } else {
            MAX_BLUE_ORBS as int
        },
    decreases n,
{
    if n > 0 {
        lemma_blue_orbs_prefix(start, mapping, items, n - 1);
    }
}

/// Every received item's name is recorded: after a packet, the recorded names are those
/// recorded before it (none when the packet is the whole list) and the packet's names.
pub proof fn lemma_received_names_recorded(
    data: ArchipelagoDataView,
    mapping: Option<&Mapping>,
    packet_index: u64,
    items: Seq<ReceivedItemView>,
)
    ensures
        data_after_items(
            spec_data_at_packet_start(data, packet_index),
            mapping,
            items,
            items.len() as int,
        ).items == (if packet_index == 0 {
            Set::<Seq<char>>::empty()
        } else {
            data.items
        }).union(items.map_values(|it: ReceivedItemView| it.name).to_set()),
{
    lemma_names_prefix(spec_data_at_packet_start(data, packet_index), mapping, items, items.len() as int);
    assert(items.map_values(|it: ReceivedItemView| it.name).take(items.len() as int)
        =~= items.map_values(|it: ReceivedItemView| it.name));
}

proof fn lemma_names_prefix(
    start: ArchipelagoDataView,
    mapping: Option<&Mapping>,
    items: Seq<ReceivedItemView>,
    n: int,
)
    requires
        0 <= n <= items.len(),
    ensures
        data_after_items(start, mapping, items, n).items == start.items.union(
            items.map_values(|it: ReceivedItemView| it.name).take(n).to_set(),
        ),
    decreases n,
{
    let names = items.map_values(|it: ReceivedItemView| it.name);
    if n == 0 {
        assert(names.take(0).to_set() =~= Set::empty());
        assert(start.items.union(Set::empty()) =~= start.items);
    } else {
        lemma_names_prefix(start, mapping, items, n - 1);
        assert(names.take(n) =~= names.take(n - 1).push(items[n - 1].name));
        names.take(n - 1).lemma_push_to_set_commute(items[n - 1].name);
        assert(names.take(n).to_set() =~= names.take(n - 1).to_set().insert(items[n - 1].name));
        assert(data_after_items(start, mapping, items, n).items =~= start.items.union(
            names.take(n).to_set(),
        ));
    }
}


/// `count` up to the cap `cap`.
pub open spec fn capped(count: int, cap: int) -> int {
    if count < cap {
        count
    } else {
        cap
    }
}

proof fn lemma_levels_prefix(
    start: ArchipelagoDataView,
    mapping: Option<&Mapping>,
    items: Seq<ReceivedItemView>,
    n: int,
)
    requires
        start.gun_levels == seq![0u32, 0, 0, 0, 0],
        start.style_levels == seq![0i32, 0, 0, 0],
        0 <= n <= items.len(),
    ensures
        data_after_items(start, mapping, items, n).gun_levels.len() == 5,
        data_after_items(start, mapping, items, n).style_levels.len() == 4,
        forall|g: int|
            0 <= g < 5 ==> #[trigger] data_after_items(start, mapping, items, n).gun_levels[g] == capped(
                count_id(items, (0x53 + g) as i64, n),
                MAX_GUN_LEVEL as int,
            ),
        forall|s: int|
            0 <= s < 4 ==> #[trigger] data_after_items(start, mapping, items, n).style_levels[s] == capped(
                count_id(items, (0x60 + s) as i64, n),
                MAX_STYLE_LEVEL as int,
            ),
    decreases n,
{
    if n > 0 {
        lemma_levels_prefix(start, mapping, items, n - 1);
        let id = items[n - 1].id;
        if 0x60 <= id < 0x64 {
            assert(spec_style_index(spec_style_item(id)) == id - 0x60);
        }
    }
}

/// Gun and style levels are counted again from the list at every packet: after a packet,
/// each gun's level is the number of its level items in the list, and each style's the number
/// of its style items, up to their caps.
pub proof fn lemma_levels_recounted(
    data: ArchipelagoDataView,
    mapping: Option<&Mapping>,
    packet_index: u64,
    items: Seq<ReceivedItemView>,
)
    ensures
        forall|g: int|
            0 <= g < 5 ==> #[trigger] data_after_items(
                spec_data_at_packet_start(data, packet_index),
                mapping,
                items,
                items.len() as int,
            ).gun_levels[g] == capped(count_id(items, (0x53 + g) as i64, items.len() as int), MAX_GUN_LEVEL as int),
        forall|s: int|
            0 <= s < 4 ==> #[trigger] data_after_items(
                spec_data_at_packet_start(data, packet_index),
                mapping,
                items,
                items.len() as int,
            ).style_levels[s] == capped(count_id(items, (0x60 + s) as i64, items.len() as int), MAX_STYLE_LEVEL as int),
{
    lemma_levels_prefix(spec_data_at_packet_start(data, packet_index), mapping, items, items.len() as int);
}

proof fn lemma_index_after_grows(c: i64, items: Seq<ReceivedItemView>, n: int)
    requires
        0 <= n <= items.len(),
        forall|k: int| 0 <= k < items.len() ==> #[trigger] items[k].index < i64::MAX,
    ensures
        c < 0 ==> index_after_items(c, items, n) == c,
        c >= 0 ==> index_after_items(c, items, n) >= c,
        c >= 0 ==> forall|k: int| 0 <= k < n ==> #[trigger] items[k].index < index_after_items(c, items, n),
    decreases n,
{
    if n > 0 {
        lemma_index_after_grows(c, items, n - 1);
    }
}

proof fn lemma_index_stays(c: i64, items: Seq<ReceivedItemView>, n: int)
    requires
        0 <= n <= items.len(),
        c < 0 || forall|k: int| 0 <= k < items.len() ==> #[trigger] items[k].index < c,
    ensures
        index_after_items(c, items, n) == c,
    decreases n,
{
    if n > 0 {
        lemma_index_stays(c, items, n - 1);
    }
}

/// Handling a received-items packet a second time grants nothing again: from the index
/// that the first handling left, no item is new, the index stays, and each item is told to the
/// game as an item already handled.
pub proof fn lemma_repeated_packet_grants_nothing(
    current_index: i64,
    items: Seq<ReceivedItemView>,
    mapping: Option<&Mapping>,
    mission: u32,
)
    requires
        forall|k: int| 0 <= k < items.len() ==> #[trigger] items[k].index < i64::MAX,
    ensures
        ({
            let after = index_after_items(current_index, items, items.len() as int);
            &&& index_after_items(after, items, items.len() as int) == after
            &&& forall|k: int|
                0 <= k < items.len() ==> #[trigger] effect_at(after, mapping, items, k, mission) == spec_effect(
                    mapping,
                    items[k].id,
                    items[k].name,
                    false,
                    mission,
                )
        }),
{
    let after = index_after_items(current_index, items, items.len() as int);
    lemma_index_after_grows(current_index, items, items.len() as int);
    lemma_index_stays(after, items, items.len() as int);
    assert forall|k: int| 0 <= k < items.len() implies #[trigger] effect_at(after, mapping, items, k, mission)
        == spec_effect(mapping, items[k].id, items[k].name, false, mission) by {
        lemma_index_stays(after, items, k);
    }
}

proof fn lemma_index_split(c: i64, a: Seq<ReceivedItemView>, b: Seq<ReceivedItemView>, n: int)
    requires
        0 <= n <= b.len(),
    ensures
        index_after_items(c, a + b, a.len() + n) == index_after_items(
            index_after_items(c, a, a.len() as int),
            b,
            n,
        ),
    decreases n,
{
    if n == 0 {
        lemma_index_prefix(c, a, b, a.len() as int);
    } else {
        lemma_index_split(c, a, b, n - 1);
        assert((a + b)[a.len() + n - 1] == b[n - 1]);
    }
}

proof fn lemma_index_prefix(c: i64, a: Seq<ReceivedItemView>, b: Seq<ReceivedItemView>, n: int)
    requires
        0 <= n <= a.len(),
    ensures
        index_after_items(c, a + b, n) == index_after_items(c, a, n),
    decreases n,
{
    if n > 0 {
        lemma_index_prefix(c, a, b, n - 1);
        assert((a + b)[n - 1] == a[n - 1]);
    }
}

proof fn lemma_data_prefix(
    d: ArchipelagoDataView,
    mapping: Option<&Mapping>,
    a: Seq<ReceivedItemView>,
    b: Seq<ReceivedItemView>,
    n: int,
)
    requires
        0 <= n <= a.len(),
    ensures
        data_after_items(d, mapping, a + b, n) == data_after_items(d, mapping, a, n),
    decreases n,
{
    if n > 0 {
        lemma_data_prefix(d, mapping, a, b, n - 1);
        assert((a + b)[n - 1] == a[n - 1]);
    }
}

proof fn lemma_data_split(
    d: ArchipelagoDataView,
    mapping: Option<&Mapping>,
    a: Seq<ReceivedItemView>,
    b: Seq<ReceivedItemView>,
    n: int,
)
    requires
        0 <= n <= b.len(),
    ensures
        data_after_items(d, mapping, a + b, a.len() + n) == data_after_items(
            data_after_items(d, mapping, a, a.len() as int),
            mapping,
            b,
            n,
        ),
    decreases n,
{
    if n == 0 {
        lemma_data_prefix(d, mapping, a, b, a.len() as int);
    } else {
        lemma_data_split(d, mapping, a, b, n - 1);
        assert((a + b)[a.len() + n - 1] == b[n - 1]);
    }
}

/// Two lists of received items handled one after the other give what the two handled as one
/// list give: the same index after them, the same received data, and the same thing told to
/// the game for each item.
pub proof fn lemma_packets_compose(
    current_index: i64,
    data: ArchipelagoDataView,
    mapping: Option<&Mapping>,
    first: Seq<ReceivedItemView>,
    second: Seq<ReceivedItemView>,
    mission: u32,
)
    ensures
        ({
            let both = first + second;
            let middle = index_after_items(current_index, first, first.len() as int);
            &&& index_after_items(current_index, both, both.len() as int) == index_after_items(
                middle,
                second,
                second.len() as int,
            )
            &&& data_after_items(data, mapping, both, both.len() as int) == data_after_items(
                data_after_items(data, mapping, first, first.len() as int),
                mapping,
                second,
                second.len() as int,
            )
            &&& forall|k: int|
                0 <= k < first.len() ==> #[trigger] effect_at(current_index, mapping, both, k, mission)
                    == effect_at(current_index, mapping, first, k, mission)
            &&& forall|k: int|
                0 <= k < second.len() ==> #[trigger] effect_at(
                    current_index,
                    mapping,
                    both,
                    first.len() + k,
                    mission,
                ) == effect_at(middle, mapping, second, k, mission)
        }),
{
    let both = first + second;
    lemma_index_split(current_index, first, second, second.len() as int);
    lemma_data_split(data, mapping, first, second, second.len() as int);
    assert forall|k: int| 0 <= k < first.len() implies #[trigger] effect_at(current_index, mapping, both, k, mission)
        == effect_at(current_index, mapping, first, k, mission) by {
        lemma_index_prefix(current_index, first, second, k);
        assert(both[k] == first[k]);
    }
    assert forall|k: int| 0 <= k < second.len() implies #[trigger] effect_at(
        current_index,
        mapping,
        both,
        first.len() + k,
        mission,
    ) == effect_at(
        index_after_items(current_index, first, first.len() as int),
        mapping,
        second,
        k,
        mission,
    ) by {
        lemma_index_split(current_index, first, second, k);
        assert(both[first.len() + k] == second[k]);
    }
}

/// A new Red Orb bundle gives 1000, 2500 or 5000 Red Orbs for the ids 1, 2 and 3, whatever the
/// settings, name or mission; one already handled gives nothing.
pub proof fn lemma_red_orb_bundles(mapping: Option<&Mapping>, name: Seq<char>, mission: u32)
    ensures
        spec_effect(mapping, 1, name, true, mission) == ReceivedEffect::RedOrbs(1000),
        spec_effect(mapping, 2, name, true, mission) == ReceivedEffect::RedOrbs(2500),
        spec_effect(mapping, 3, name, true, mission) == ReceivedEffect::RedOrbs(5000),
        forall|id: i64| 1 <= id <= 3 ==> #[trigger] spec_effect(mapping, id, name, false, mission) == ReceivedEffect::Nothing,
{
}

/// The leveled skill items (Stinger 0x40, Jet Stream 0x46, Reverb Shock 0x4A, Beast Uppercut
/// 0x50) grant their first level (the item's own id) when none was received yet and their
/// second (the next id) after that; every other skill item grants its own id. So the same
/// leveled item received twice grants both levels.
pub proof fn lemma_leveled_skills(d: ArchipelagoDataView, id: usize)
    requires
        d.stinger_level <= 2,
        d.jet_stream_level <= 2,
        d.reverb_level <= 2,
        d.beowulf_level <= 2,
    ensures
        spec_leveled_skill_id(0x40, d) == if d.stinger_level == 0 { 0x40usize } else { 0x41usize },
        spec_leveled_skill_id(0x46, d) == if d.jet_stream_level == 0 { 0x46usize } else { 0x47usize },
        spec_leveled_skill_id(0x4A, d) == if d.reverb_level == 0 { 0x4Ausize } else { 0x4Busize },
        spec_leveled_skill_id(0x50, d) == if d.beowulf_level == 0 { 0x50usize } else { 0x51usize },
        id != 0x40 && id != 0x46 && id != 0x4A && id != 0x50 ==> spec_leveled_skill_id(id, d) == id,
        (id == 0x40 || id == 0x46 || id == 0x4A || id == 0x50) && spec_leveled_skill_id(id, d) == id
            ==> spec_leveled_skill_id(id, spec_skill_added(d, id)) == id + 1,
        (id == 0x40 || id == 0x46 || id == 0x4A || id == 0x50) ==> spec_skill_added(d, id).skills.contains(
            spec_leveled_skill_id(id, d),
        ) && spec_skill_added(spec_skill_added(d, id), id).skills.contains((id + 1) as usize),
{
}

} // verus!
