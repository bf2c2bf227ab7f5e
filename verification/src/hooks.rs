//! The decisions that the randomizer's game hooks make: which missions are open, what a new
//! game starts with, which mission comes next, and which bytes of an event script or a room
//! are rewritten.
use vstd::prelude::*;
use crate::constants::{
    Difficulty, EventCode, EventTable, EventTableView, ITEM_COUNT, ItemEntry, Style, spec_item,
    get_unlocked_weapon_id, mission_items, names_for_mission, spec_difficulty_index,
    spec_style_from_index, spec_style_internal_index, spec_unlocked_weapon_id,
};
use crate::game_manager::{
    ArchipelagoData, FLAG_AREA_LEN, has_item_by_flags, is_item_name, set_item, spec_flag_set,
    spec_id_of,
};
use crate::game_structs::{MissionData, SessionData, TotalRankings};
use crate::location::{NamedLocation, NamedLocationView, table_view};
use crate::mapping::{AdjudicatorData, Goal, Mapping, spec_index_for_mission, spec_index_for_mission_defined};
use crate::strings::str_eq;
use crate::game_manager::{
    set_gun_levels, set_max_hp_and_magic, set_session_weapons, set_style_levels, spec_max_hp,
    spec_max_magic, style_level_for_game, unlocks_after, weapon_names, weapons_after,
};
use crate::skill_manager::{set_skills, skill_words_hold, spec_skill_data};
use crate::game_manager::{is_weapon_id, set_weapons_in_inv, weapon_ids};
use crate::location::{clear_high_roller, first_key_room, in_key_item_room, spec_key_item_here};
use crate::connection::checked_contains;
use crate::constants::{ItemCategory, get_item_name, names_in_category, spec_item_name};
use crate::game_manager::{names_contain, set_loc_chk_flg};
use crate::receive::{
    ReceivedEffect, ReceivedItem, begin_received_items, data_after_items, effect_at, handle_received_items,
    index_after_items, spec_data_at_packet_start,
};

verus! {

/// The ranking byte of a mission that was not completed.
pub const NOT_COMPLETED: u8 = 0xFF;

/// Missions 1 to 20, in the game's order.
pub open spec fn standard_order() -> Seq<u8> {
    seq![1u8, 2, 3, 4, 5, 6, 7, 8, 9, 10, 11, 12, 13, 14, 15, 16, 17, 18, 19, 20]
}

/// How many of the first `n` missions of `order` were completed in `ranking`.
pub open spec fn completed_count(order: Seq<u8>, ranking: Seq<u8>, n: int) -> int
    decreases n,
{
    if n <= 0 {
        0
    } else {
        completed_count(order, ranking, n - 1) + if ranking[order[n - 1] - 1] != NOT_COMPLETED {
            1int
        } else {
            0int
        }
    }
}

/// Whether every mission of `order` is one of the twenty.
pub open spec fn order_in_range(order: Seq<u8>) -> bool {
    forall|i: int| 0 <= i < order.len() ==> 1 <= #[trigger] order[i] <= 20
}

/// Whether `calculate_max_mission` can count the open missions of a ranking: a random order
/// is given, names only the twenty missions, and has fewer than 255 completed entries (the
/// count is kept in a byte).
pub open spec fn max_mission_defined(mapping: &Mapping, ranking: Seq<u8>) -> bool {
    mapping.goal == Goal::RandomOrder ==> (mapping.spec_order() matches Some(order) && order_in_range(
        order,
    ) && completed_count(order, ranking, order.len() as int) < 255)
}

/// Whether `calculate_max_mission` can count the open missions of every difficulty.
pub open spec fn max_missions_defined(mapping: &Mapping, rankings: &TotalRankings) -> bool {
    forall|d: Difficulty| #![trigger rankings.spec_ranking(d)] max_mission_defined(mapping, rankings.spec_ranking(d)@)
}

/// The number of missions open on a difficulty: one more than the completed ones, in the
/// seed's order for a random order, all twenty when every mission is open from the start.
pub open spec fn spec_max_mission(mapping: &Mapping, ranking: Seq<u8>) -> int {
    match mapping.goal {
        Goal::RandomOrder => {
            let order = mapping.spec_order().unwrap();
            1 + completed_count(order, ranking, order.len() as int)
        },
        Goal::Standard => 1 + completed_count(standard_order(), ranking, 20),
        Goal::All => 20,
    }
}

proof fn lemma_completed_count_bounds(order: Seq<u8>, ranking: Seq<u8>, n: int)
    requires
        0 <= n <= order.len(),
    ensures
        0 <= completed_count(order, ranking, n) <= n,
    decreases n,
{
    if n > 0 {
        lemma_completed_count_bounds(order, ranking, n - 1);
    }
}

proof fn lemma_completed_count_monotone(order: Seq<u8>, ranking: Seq<u8>, i: int, j: int)
    requires
        0 <= i <= j,
    ensures
        completed_count(order, ranking, i) <= completed_count(order, ranking, j),
    decreases j - i,
{
    if i < j {
        lemma_completed_count_monotone(order, ranking, i, j - 1);
    }
}

fn count_completed(order: &[u8], ranking: &[u8; 20]) -> (count: u8)
    requires
        order_in_range(order@),
        completed_count(order@, ranking@, order@.len() as int) < 255,
    ensures
        count == 1 + completed_count(order@, ranking@, order@.len() as int),
{
    let mut max_idx: u8 = 1;
    let mut i: usize = 0;
    while i < order.len()
        invariant
            i <= order@.len(),
            completed_count(order@, ranking@, order@.len() as int) < 255,
            order_in_range(order@),
            max_idx == 1 + completed_count(order@, ranking@, i as int),
        decreases order@.len() - i,
    {
        proof {
            lemma_completed_count_monotone(order@, ranking@, i + 1, order@.len() as int);
        }
        let val = order[i];
        if ranking[(val - 1) as usize] != NOT_COMPLETED {
            max_idx = max_idx + 1;
        }
        i = i + 1;
    }
    max_idx
}

/// The number of missions open on `difficulty` (see `spec_max_mission`).
pub fn calculate_max_mission(mapping: &Mapping, rankings: &TotalRankings, difficulty: Difficulty) -> (max: u8)
    requires
        max_mission_defined(mapping, rankings.spec_ranking(difficulty)@),
    ensures
        max == spec_max_mission(mapping, rankings.spec_ranking(difficulty)@),
        1 <= max,
        mapping.goal != Goal::RandomOrder ==> max <= 21,
{
    let ranking = rankings.get_ranking_for_difficulty(difficulty);
    match mapping.goal {
        Goal::RandomOrder => {
            let order = match &mapping.mission_order {
                Some(order) => order,
                None => {
                    return 0;
                },
            };
            let max = count_completed(order.as_slice(), &ranking);
            proof {
                lemma_completed_count_bounds(order@, ranking@, order@.len() as int);
            }
            max
        },
        Goal::Standard => {
            let order: [u8; 20] = [
                1, 2, 3, 4, 5, 6, 7, 8, 9, 10, 11, 12, 13, 14, 15, 16, 17, 18, 19, 20,
            ];
            proof {
                assert(order@ =~= standard_order());
                lemma_completed_count_bounds(order@, ranking@, 20);
            }
            count_completed(&order, &ranking)
        },
        Goal::All => 20,
    }
}

/// The completed missions of a ranking, by number, among the first `n`.
pub open spec fn completed_missions(ranking: Seq<u8>, n: int) -> Seq<u8>
    decreases n,
{
    if n <= 0 {
        Seq::empty()
    } else if ranking[n - 1] != NOT_COMPLETED {
        completed_missions(ranking, n - 1).push(n as u8)
    } else {
        completed_missions(ranking, n - 1)
    }
}

/// The missions open on a difficulty, for the tracker: the completed ones by number, then
/// the number of open missions.
pub fn get_unlocked_missions(difficulty: Difficulty, mapping: &Mapping, rankings: &TotalRankings) -> (missions: Vec<u8>)
    requires
        max_mission_defined(mapping, rankings.spec_ranking(difficulty)@),
    ensures
        missions@ == completed_missions(rankings.spec_ranking(difficulty)@, 20).push(
            spec_max_mission(mapping, rankings.spec_ranking(difficulty)@) as u8,
        ),
{
    let ranking = rankings.get_ranking_for_difficulty(difficulty);
    let mut res: Vec<u8> = Vec::new();
    let mut ind: usize = 0;
    while ind < 20
        invariant
            ind <= 20,
            ranking == rankings.spec_ranking(difficulty),
            res@ == completed_missions(ranking@, ind as int),
        decreases 20 - ind,
    {
        if ranking[ind] != NOT_COMPLETED {
            res.push(1 + (ind as u8));
        }
        ind = ind + 1;
    }
    res.push(calculate_max_mission(mapping, rankings, difficulty));
    res
}

/// The difficulties unlocked on a save file, one bit each (Normal has none).
pub struct DifficultyUnlockFlags(pub u8);

/// The bit of a difficulty among the unlocked difficulties.
pub open spec fn difficulty_bit(difficulty: Difficulty) -> u8 {
    match difficulty {
        Difficulty::Easy => 0b00000001,
        Difficulty::Normal => 0b00000000,
        Difficulty::Hard => 0b00000010,
        Difficulty::VeryHard => 0b00000100,
        Difficulty::DanteMustDie => 0b00001000,
        Difficulty::HeavenOrHell => 0b00010000,
    }
}

/// The bits of the first `n` difficulties of a list, together.
pub open spec fn difficulty_bits(difficulties: Seq<Difficulty>, n: int) -> u8
    decreases n,
{
    if n <= 0 {
        0
    } else {
        difficulty_bits(difficulties, n - 1) | difficulty_bit(difficulties[n - 1])
    }
}

proof fn lemma_or_keeps(a: u8, b: u8, c: u8)
    ensures
        a & c == c ==> (a | b) & c == c,
        (b | c) & c == c,
{
    assert(a & c == c ==> (a | b) & c == c) by (bit_vector);
    assert((b | c) & c == c) by (bit_vector);
}

proof fn lemma_difficulty_bits_hold(difficulties: Seq<Difficulty>, n: int, i: int)
    requires
        0 <= i < n <= difficulties.len(),
    ensures
        difficulty_bits(difficulties, n) & difficulty_bit(difficulties[i]) == difficulty_bit(difficulties[i]),
    decreases n,
{
    let b = difficulty_bit(difficulties[i]);
    if i == n - 1 {
        lemma_or_keeps(0, difficulty_bits(difficulties, n - 1), b);
    } else {
        lemma_difficulty_bits_hold(difficulties, n - 1, i);
        lemma_or_keeps(difficulty_bits(difficulties, n - 1), difficulty_bit(difficulties[n - 1]), b);
    }
}

impl DifficultyUnlockFlags {
    /// The flags that unlock exactly the given difficulties.
    pub fn create_final_flag(difficulties: &Vec<Difficulty>) -> (flags: DifficultyUnlockFlags)
        ensures
            flags.0 == difficulty_bits(difficulties@, difficulties@.len() as int),
    {
        let mut res: u8 = 0;
        let mut i: usize = 0;
        while i < difficulties.len()
            invariant
                i <= difficulties@.len(),
                res == difficulty_bits(difficulties@, i as int),
            decreases difficulties@.len() - i,
        {
            let bit: u8 = match difficulties[i] {
                Difficulty::Easy => 0b00000001,
                Difficulty::Normal => 0b00000000,
                Difficulty::Hard => 0b00000010,
                Difficulty::VeryHard => 0b00000100,
                Difficulty::DanteMustDie => 0b00001000,
                Difficulty::HeavenOrHell => 0b00010000,
            };
            res = res | bit;
            i = i + 1;
        }
        DifficultyUnlockFlags(res)
    }

    /// The flags as the byte the game stores.
    pub fn bits(&self) -> (bits: u8)
        ensures
            bits == self.0,
    {
        self.0
    }
}

/// Every listed difficulty is unlocked by the flags made from the list.
pub proof fn lemma_listed_difficulties_unlocked(difficulties: Seq<Difficulty>, i: int)
    requires
        0 <= i < difficulties.len(),
    ensures
        difficulty_bits(difficulties, difficulties.len() as int) & difficulty_bit(difficulties[i])
            == difficulty_bit(difficulties[i]),
{
    lemma_difficulty_bits_hold(difficulties, difficulties.len() as int, i);
}

/// The modes and costumes unlocked on a save file, one bit each.
pub struct UnlockFlags(pub u8);

impl UnlockFlags {
    /// The randomizer unlocks both Dante costumes, Bloody Palace, the gallery and mission
    /// select (not Vergil, nor the two unknown bits).
    pub fn create_final_flag() -> (flags: UnlockFlags)
        ensures
            flags.0 == 0b11001011,
    {
        let dmc1_dante_costume: u8 = 0b10000000;
        let shirtless_dante_costume: u8 = 0b01000000;
        let bloody_palace: u8 = 0b00001000;
        let gallery: u8 = 0b00000010;
        let mission_select: u8 = 0b00000001;
        let res: u8 = dmc1_dante_costume | shirtless_dante_costume | bloody_palace | gallery
            | mission_select;
        assert(0b10000000u8 | 0b01000000u8 | 0b00001000u8 | 0b00000010u8 | 0b00000001u8
            == 0b11001011u8) by (bit_vector);
        UnlockFlags(res)
    }

    /// The flags as the byte the game stores.
    pub fn bits(&self) -> (bits: u8)
        ensures
            bits == self.0,
    {
        self.0
    }
}

/// Vergil's and Dante's alternative costumes unlocked on a save file, one bit each.
pub struct CostumeFlags(pub u8);

impl CostumeFlags {
    /// The randomizer unlocks Corrupt Vergil, coatless Vergil, Sparda and coatless DMC1 Dante
    /// (none of the "super" costumes).
    pub fn create_final_flag() -> (flags: CostumeFlags)
        ensures
            flags.0 == 0b01010101,
    {
        let corrupt_vergil: u8 = 0b01000000;
        let coatless_vergil: u8 = 0b00010000;
        let sparda: u8 = 0b00000100;
        let coatless_dmc1_dante: u8 = 0b00000001;
        let res: u8 = corrupt_vergil | coatless_vergil | sparda | coatless_dmc1_dante;
        assert(0b01000000u8 | 0b00010000u8 | 0b00000100u8 | 0b00000001u8 == 0b01010101u8) by (bit_vector);
        CostumeFlags(res)
    }

    /// The flags as the byte the game stores.
    pub fn bits(&self) -> (bits: u8)
        ensures
            bits == self.0,
    {
        self.0
    }
}


/// The first unlocked style, by the randomizer's number, if any.
pub open spec fn first_unlocked(unlocked: Seq<bool>, start: int) -> Option<int>
    decreases unlocked.len() - start,
{
    if start < 0 || start >= unlocked.len() {
        None
    } else if unlocked[start] {
        Some(start)
    } else {
        first_unlocked(unlocked, start + 1)
    }
}

/// Whether a new game can be set up for the seed: a random order must name a first mission.
pub open spec fn new_game_defined(mapping: &Mapping) -> bool {
    mapping.goal == Goal::RandomOrder ==> (mapping.spec_order() matches Some(order) && order.len() > 0)
}

/// The session of a new game once the randomizer has set it up (see `set_rando_session_data`).
pub open spec fn spec_new_game(old: SessionData, mapping: &Mapping, unlocked: Seq<bool>) -> SessionData {
    let style = if mapping.randomize_styles && first_unlocked(unlocked, 0) is Some {
        spec_style_internal_index(spec_style_from_index(first_unlocked(unlocked, 0).unwrap())) as u32
    } else {
        old.style
    };
    let mission = if mapping.goal == Goal::RandomOrder {
        mapping.spec_order().unwrap()[0] as u32
    } else {
        old.mission
    };
    let other_mission = if mapping.goal == Goal::RandomOrder {
        mapping.spec_order().unwrap()[0] as u32
    } else {
        old.other_mission
    };
    SessionData {
        style,
        mission,
        other_mission,
        red_orbs: 0,
        unlocked_dt: true,
        ..old
    }
}

/// Whether `after` is the session `before` set up for a new game of the seed, with `flags`
/// the bytes to unlock (see `set_rando_session_data`): for another character than Dante
/// nothing changes and there is nothing to unlock.
pub open spec fn new_game_set_up(
    before: SessionData,
    after: SessionData,
    mapping: &Mapping,
    unlocked: Seq<bool>,
    flags: Option<NewGameFlags>,
) -> bool {
    &&& before.char != 0 ==> flags is None && after == before
    &&& before.char == 0 ==> {
        &&& flags matches Some(f) && f.difficulties == difficulty_bits(
            mapping.initially_unlocked_difficulties@,
            mapping.initially_unlocked_difficulties@.len() as int,
        ) && f.unlocks == 0b11001011 && f.costumes == 0b01010101
        &&& after.weapons@ == before.weapons@.update(0, 0xFFu8).update(2, 0xFFu8)
        &&& after.items@ == if mapping.shop_orb_checks {
            before.items@
        } else {
            before.items@.update(7, 6u8).update(8, 7u8)
        }
        &&& after == SessionData {
            weapons: after.weapons,
            items: after.items,
            ..spec_new_game(before, mapping, unlocked)
        }
    }
}

/// The bytes that unlock difficulties, modes and costumes on a new game.
pub struct NewGameFlags {
    pub difficulties: u8,
    pub unlocks: u8,
    pub costumes: u8,
}

/// Sets up the session of a new game for the seed, when the character is Dante (the only
/// one supported; otherwise nothing changes and there is nothing to unlock): the first
/// unlocked style when styles are items, no starting weapons, Devil Trigger unlocked, no Red
/// Orbs, the first mission of a random order, and, when the shop's orbs are no checks, both
/// orbs at their last purchase. Gives the bytes that unlock the seed's starting difficulties,
/// the modes and the costumes. `unlocked` is which styles are unlocked, by the randomizer's
/// number.
pub fn set_rando_session_data(session: &mut SessionData, mapping: &Mapping, unlocked: [bool; 4]) -> (flags: Option<NewGameFlags>)
    requires
        new_game_defined(mapping),
    ensures
        new_game_set_up(*old(session), *final(session), mapping, unlocked@, flags),
{
    if session.char != 0 {
        return None;
    }
    let difficulty_flags = DifficultyUnlockFlags::create_final_flag(&mapping.initially_unlocked_difficulties);
    let unlock_flags = UnlockFlags::create_final_flag();
    let costume_flags = CostumeFlags::create_final_flag();
    if mapping.randomize_styles {
        let mut index: usize = 0;
        while index < 4
            invariant
                index <= 4,
                first_unlocked(unlocked@, 0) == first_unlocked(unlocked@, index as int),
                *session == *old(session),
            ensures
                index <= 4,
                index < 4 ==> unlocked@[index as int],
                first_unlocked(unlocked@, 0) == first_unlocked(unlocked@, index as int),
                *session == *old(session),
            decreases 4 - index,
        {
            if unlocked[index] {
                break;
            }
            index = index + 1;
        }
        if index < 4 {
            match Style::from_repr(index) {
                Some(style) => {
                    session.style = style.get_internal_order_index() as u32;
                },
                None => {},
            }
        }
    }
    session.weapons[0] = 0xFF;
    session.weapons[2] = 0xFF;
    session.unlocked_dt = true;
    session.red_orbs = 0;
    if mapping.goal == Goal::RandomOrder {
        match &mapping.mission_order {
            Some(order) => {
                session.mission = order[0] as u32;
                session.other_mission = order[0] as u32;
            },
            None => {},
        }
    }
    if !mapping.shop_orb_checks {
        session.items[7] = 6;
        session.items[8] = 7;
    }
    Some(
        NewGameFlags {
            difficulties: difficulty_flags.bits(),
            unlocks: unlock_flags.bits(),
            costumes: costume_flags.bits(),
        },
    )
}

/// Starts a new game of the seed: sets the session up (`set_rando_session_data`, with the
/// styles unlocked so far), writes the received skills into the session's expertise and the
/// received weapons into the mission's inventory and flags, and then handles the whole
/// received list again from the start, the save's index back at 0 and the received data
/// counted from nothing. Gives the unlock bytes, what the game is to be told for each received
/// item, and the save's index after them.
pub fn start_new_game(
    session: &mut SessionData,
    mission_data: &mut MissionData,
    flags: &mut Vec<u8>,
    data: &mut ArchipelagoData,
    mapping: &Mapping,
    items: &Vec<ReceivedItem>,
    mission: u32,
) -> (result: (Option<NewGameFlags>, Vec<ReceivedEffect>, i64))
    requires
        new_game_defined(mapping),
        old(flags)@.len() >= FLAG_AREA_LEN,
        forall|skill: usize| old(data)@.skills.contains(skill) ==> #[trigger] spec_skill_data(skill) is Some,
        forall|i: int| 0 <= i < items@.len() ==> #[trigger] items@[i].index < i64::MAX,
    ensures
        new_game_set_up(
            *old(session),
            SessionData { expertise: old(session).expertise, ..*final(session) },
            mapping,
            Seq::new(4, |i: int| old(data)@.style_levels[i] > 0),
            result.0,
        ),
        skill_words_hold(final(session).expertise@, old(data)@.skills),
        final(flags)@.len() == old(flags)@.len(),
        forall|i: int|
            0 <= i < weapon_names().len() ==> final(mission_data).items[spec_id_of(
                #[trigger] weapon_names()[i]@,
            )] == if old(data)@.items.contains(weapon_names()[i]@) { 1u8 } else { 0u8 },
        forall|i: int|
            0 <= i < weapon_names().len() ==> spec_flag_set(
                final(flags)@,
                spec_id_of(#[trigger] weapon_names()[i]@),
            ) == old(data)@.items.contains(weapon_names()[i]@),
        forall|id: int|
            0 <= id < ITEM_COUNT && !is_weapon_id(id) ==> #[trigger] spec_flag_set(final(flags)@, id)
                == spec_flag_set(old(flags)@, id),
        forall|id: int|
            0 <= id < 62 && !is_weapon_id(id) ==> #[trigger] final(mission_data).items[id] == old(
                mission_data,
            ).items[id],
        *final(mission_data) == (MissionData { items: final(mission_data).items, ..*old(mission_data) }),
        result.1@.len() == items@.len(),
        forall|i: int|
            0 <= i < items@.len() ==> #[trigger] result.1@[i] == effect_at(
                0,
                Some(mapping),
                items@.map_values(|it: ReceivedItem| it@),
                i,
                mission,
            ),
        result.2 == index_after_items(0, items@.map_values(|it: ReceivedItem| it@), items@.len() as int),
        final(data)@ == data_after_items(
            spec_data_at_packet_start(old(data)@, 0),
            Some(mapping),
            items@.map_values(|it: ReceivedItem| it@),
            items@.len() as int,
        ),
{
    let unlocked = data.get_style_unlocked();
    proof {
        assert(unlocked@ =~= Seq::new(4, |i: int| old(data)@.style_levels[i] > 0));
    }
    let ghost before = *session;
    let new_game_flags = set_rando_session_data(session, mapping, unlocked);
    let ghost set_up = *session;
    set_skills(&mut session.expertise, data);
    proof {
        assert(SessionData { expertise: before.expertise, ..*session } == set_up);
    }
    set_weapons_in_inv(mission_data, flags, data);
    begin_received_items(data, 0);
    let (effects, index) = handle_received_items(data, Some(mapping), items, 0, mission);
    (new_game_flags, effects, index)
}

/// What the mission select screen shows when a seed does not play the missions in the
/// standard way: the selected entry (one more than the current mission's place in the
/// order) and the number of open missions on each difficulty.
pub fn mission_select_values(mapping: &Mapping, mission: u32, rankings: &TotalRankings) -> (values: (u8, [u8; 6]))
    requires
        max_missions_defined(mapping, rankings),
        spec_index_for_mission_defined(mapping.spec_order(), mission),
        spec_index_for_mission(mapping.spec_order(), mission) < 255,
    ensures
        values.0 == 1 + spec_index_for_mission(mapping.spec_order(), mission),
        forall|d: Difficulty|
            #[trigger] values.1[spec_difficulty_index(d) as int] == spec_max_mission(
                mapping,
                rankings.spec_ranking(d)@,
            ),
{
    let selected = 1 + mapping.get_index_for_mission(mission) as u8;
    let mut max_missions: [u8; 6] = [0; 6];
    let mut d: usize = 0;
    while d < 6
        invariant
            d <= 6,
            max_missions_defined(mapping, rankings),
            forall|k: Difficulty|
                spec_difficulty_index(k) < d ==> #[trigger] max_missions[spec_difficulty_index(k) as int]
                    == spec_max_mission(mapping, rankings.spec_ranking(k)@),
        decreases 6 - d,
    {
        match Difficulty::from_repr(d) {
            Some(difficulty) => {
                max_missions[d] = calculate_max_mission(mapping, rankings, difficulty);
                proof {
                    assert forall|k: Difficulty| spec_difficulty_index(k) == d implies k == difficulty by {
                        match k {
                            Difficulty::Easy => {},
                            Difficulty::Normal => {},
                            Difficulty::Hard => {},
                            Difficulty::VeryHard => {},
                            Difficulty::DanteMustDie => {},
                            Difficulty::HeavenOrHell => {},
                        }
                        match difficulty {
                            Difficulty::Easy => {},
                            Difficulty::Normal => {},
                            Difficulty::Hard => {},
                            Difficulty::VeryHard => {},
                            Difficulty::DanteMustDie => {},
                            Difficulty::HeavenOrHell => {},
                        }
                    }
                }
            },
            None => {},
        }
        d = d + 1;
    }
    (selected, max_missions)
}


/// The mission that the mission select screen starts, in a random order: the one at the
/// selected mission's place in the order, whenever the screen's
/// button byte is 6.
pub fn mission_after_select(mapping: &Mapping, button: u8, mission: u32) -> (next: Option<u32>)
    requires
        button == 6 && mapping.goal == Goal::RandomOrder && mapping.spec_order() is Some ==> 1 <= mission
            <= mapping.spec_order().unwrap().len(),
    ensures
        next == (if button == 6 && mapping.goal == Goal::RandomOrder && mapping.spec_order() is Some {
            Some(mapping.spec_order().unwrap()[mission - 1] as u32)
        } else {
            None
        }),
{
    if button == 6 && mapping.goal == Goal::RandomOrder {
        match &mapping.mission_order {
            Some(order) => Some(order[(mission - 1) as usize] as u32),
            None => None,
        }
    } else {
        None
    }
}

/// The mission that "next mission" on the result screen starts, in a random order: the one
/// after the current mission in the order, the twentieth at most; only for the button byte
/// 0x12.
pub fn mission_after_result(mapping: &Mapping, button: i32, current_mission: u32) -> (next: Option<u32>)
    requires
        button == 0x12 && mapping.goal == Goal::RandomOrder ==> (mapping.spec_order() matches Some(order)
            && order.len() >= 20 && spec_index_for_mission_defined(
            mapping.spec_order(),
            current_mission,
        )),
    ensures
        next == (if button == 0x12 && mapping.goal == Goal::RandomOrder {
            Some(
                mapping.spec_order().unwrap()[if spec_index_for_mission(mapping.spec_order(), current_mission) + 1 < 19 {
                    spec_index_for_mission(mapping.spec_order(), current_mission) + 1
                } else {
                    19
                }] as u32,
            )
        } else {
            None
        }),
{
    if button == 0x12 && mapping.goal == Goal::RandomOrder {
        let index = mapping.get_index_for_mission(current_mission);
        let next_index: usize = if index < 18 {
            index + 1
        } else {
            19
        };
        match &mapping.mission_order {
            Some(order) => Some(order[next_index] as u32),
            None => None,
        }
    } else {
        None
    }
}

/// The first held gun's place on the status screen: the first of the four guns before
/// Kalina Ann that is held, else Kalina Ann's place when it is held, else 0.
pub open spec fn spec_gun_index(items: Seq<u8>) -> u8 {
    if items[0x1C] == 1 {
        0
    } else if items[0x1D] == 1 {
        1
    } else if items[0x1E] == 1 {
        2
    } else if items[0x1F] == 1 {
        3
    } else if items[0x20] == 1 {
        4
    } else if items[0x21] == 1 {
        4
    } else {
        0
    }
}

/// The first held melee weapon's place on the status screen: the first of the four melee
/// items from Rebellion on that is held, else Nevan's place (3), else Beowulf's (4), else 0.
pub open spec fn spec_melee_index(items: Seq<u8>) -> u8 {
    if items[0x16] == 1 {
        0
    } else if items[0x17] == 1 {
        1
    } else if items[0x18] == 1 {
        2
    } else if items[0x19] == 1 {
        3
    } else if items[0x1A] == 1 {
        3
    } else if items[0x1B] == 1 {
        4
    } else {
        0
    }
}

/// The weapon first selected when the status screen shows the guns (`is_gun`) or the melee
/// weapons, by the mission's record of held items.
pub fn edit_initial_index(is_gun: bool, items: &[u8; 62]) -> (index: u8)
    ensures
        index == if is_gun {
            spec_gun_index(items@)
        } else {
            spec_melee_index(items@)
        },
{
    if is_gun {
        let mut index: usize = 0;
        while index < 5
            invariant
                index <= 5,
                is_gun,
                forall|k: int| 0x1C <= k < 0x1C + index ==> items@[k] != 1,
            decreases 5 - index,
        {
            if items[0x1C + index] == 1 {
                return index as u8;
            }
            index = index + 1;
        }
        if items[0x21] == 1 {
            return 4;
        }
    } else {
        let mut index: usize = 0;
        while index <= 3
            invariant
                index <= 4,
                !is_gun,
                forall|k: int| 0x16 <= k < 0x16 + index ==> items@[k] != 1,
            decreases 4 - index,
        {
            if items[0x16 + index] == 1 {
                return index as u8;
            }
            index = index + 1;
        }
        if items[0x1A] == 1 {
            return 3;
        }
        if items[0x1B] == 1 {
            return 4;
        }
    }
    0
}

/// The offsets of the events of one table that are to hold the "Dummy" item: all of them
/// once the table's location is checked, else its CHECK and END events (the GIVE events
/// still give the location's item).
pub open spec fn table_dummy_offsets(table: EventTableView, checked: bool) -> Seq<usize> {
    if checked {
        table.events.map_values(|e: crate::constants::Event| e.offset)
    } else {
        table.events.filter(|e: crate::constants::Event| e.event_type != EventCode::Give).map_values(
            |e: crate::constants::Event| e.offset,
        )
    }
}

/// The offsets of the first `n` tables, table by table.
pub open spec fn dummy_offsets_upto(tables: Seq<EventTableView>, checked: Seq<bool>, n: int) -> Seq<usize>
    decreases n,
{
    if n <= 0 {
        Seq::empty()
    } else {
        dummy_offsets_upto(tables, checked, n - 1) + table_dummy_offsets(tables[n - 1], checked[n - 1])
    }
}

/// The offsets, in the mission's event script, of the events that are to hold the "Dummy"
/// item; `checked[i]` says whether the location of `tables[i]` is
/// checked.
pub fn edit_event_drop(tables: &Vec<EventTable>, checked: &Vec<bool>) -> (offsets: Vec<usize>)
    requires
        checked@.len() == tables@.len(),
    ensures
        offsets@ == dummy_offsets_upto(
            tables@.map_values(|t: EventTable| t@),
            checked@,
            tables@.len() as int,
        ),
{
    let ghost views = tables@.map_values(|t: EventTable| t@);
    let mut offsets: Vec<usize> = Vec::new();
    let mut i: usize = 0;
    while i < tables.len()
        invariant
            i <= tables@.len(),
            checked@.len() == tables@.len(),
            views == tables@.map_values(|t: EventTable| t@),
            offsets@ == dummy_offsets_upto(views, checked@, i as int),
        decreases tables@.len() - i,
    {
        let table = &tables[i];
        let is_checked = checked[i];
        let ghost before = offsets@;
        let mut j: usize = 0;
        while j < table.events.len()
            invariant
                j <= table.events@.len(),
                offsets@ == before + table_dummy_offsets(
                    EventTableView { events: table.events@.take(j as int), ..views[i as int] },
                    is_checked,
                ),
            decreases table.events@.len() - j,
        {
            let event = table.events[j];
            proof {
                reveal(Seq::filter);
                assert(table.events@.take(j + 1).drop_last() =~= table.events@.take(j as int));
                assert(table.events@.take(j + 1).last() == event);
            }
            if is_checked || event.event_type != EventCode::Give {
                offsets.push(event.offset);
            }
            proof {
                let f = |e: crate::constants::Event| e.event_type != EventCode::Give;
                let g = |e: crate::constants::Event| e.offset;
                if is_checked {
                    assert(table.events@.take(j + 1).map_values(g) =~= table.events@.take(
                        j as int,
                    ).map_values(g).push(event.offset));
                }
                assert(offsets@ =~= before + table_dummy_offsets(
                    EventTableView { events: table.events@.take(j + 1), ..views[i as int] },
                    is_checked,
                ));
            }
            j = j + 1;
        }
        proof {
            assert(table.events@.take(table.events@.len() as int) =~= table.events@);
            assert(views[i as int] == tables@[i as int]@);
            assert(EventTableView { events: table.events@, ..views[i as int] } == views[i as int]);
        }
        i = i + 1;
    }
    offsets
}

/// Whether an item lying in a room is to be replaced by the "Dummy" item: the location
/// lies in a room (its room is not 0), in this room, holds this item and is no
/// Adjudicator's, and `checked_end` (its location is checked and has an END event) holds.
pub fn check_and_replace_item(entry: &ItemEntry, room: i32, item_id: u32, checked_end: bool) -> (replace: bool)
    ensures
        replace == (entry.room_number != 0 && entry.room_number == room && entry.item_id == item_id
            && !entry.adjudicator && checked_end),
{
    if entry.room_number == 0 {
        return false;
    }
    entry.room_number == room && entry.item_id == item_id && !entry.adjudicator && checked_end
}

/// The room that the Ignis Fatuus event leads to: the usual one (311) once the location
/// is checked, else the one that leads to it (303).
pub fn ignis_fatuus_route(checked: bool) -> (room: i32)
    ensures
        room == if checked { 311i32 } else { 303i32 },
{
    if checked {
        311
    } else {
        303
    }
}

/// The rank and weapon bytes written into an Adjudicator: for each Adjudicator location of
/// the table in this room that the seed has data for, in table order.
pub open spec fn adjudicator_patches_upto(
    table: Seq<NamedLocationView>,
    room: i32,
    data: Seq<(Seq<char>, u8, Seq<char>)>,
    n: int,
) -> Seq<(u8, u8)>
    decreases n,
{
    if n <= 0 {
        Seq::empty()
    } else {
        let rest = adjudicator_patches_upto(table, room, data, n - 1);
        let entry = table[n - 1];
        if entry.entry.adjudicator && entry.entry.room_number == room {
            match first_adjudicator(data, entry.name, 0) {
                Some(k) => rest.push((data[k].1, spec_unlocked_weapon_id(data[k].2))),
                None => rest,
            }
        } else {
            rest
        }
    }
}

/// The first Adjudicator entry of the seed, from `start` on, for the named location.
pub open spec fn first_adjudicator(data: Seq<(Seq<char>, u8, Seq<char>)>, name: Seq<char>, start: int) -> Option<int>
    decreases data.len() - start,
{
    if start < 0 || start >= data.len() {
        None
    } else if data[start].0 == name {
        Some(start)
    } else {
        first_adjudicator(data, name, start + 1)
    }
}

proof fn lemma_first_adjudicator_bounds(data: Seq<(Seq<char>, u8, Seq<char>)>, name: Seq<char>, start: int)
    requires
        0 <= start,
    ensures
        first_adjudicator(data, name, start) matches Some(k) ==> start <= k < data.len(),
    decreases data.len() - start,
{
    if start < data.len() && data[start].0 != name {
        lemma_first_adjudicator_bounds(data, name, start + 1);
    }
}

/// The seed's Adjudicator data as values: location name, rank and weapon name.
pub open spec fn adjudicators_view(mapping: &Mapping) -> Seq<(Seq<char>, u8, Seq<char>)> {
    match &mapping.adjudicators {
        Some(list) => list@.map_values(|p: (String, AdjudicatorData)| (p.0@, p.1.ranking, p.1.weapon@)),
        None => Seq::empty(),
    }
}

fn find_adjudicator<'a>(list: &'a Vec<(String, AdjudicatorData)>, name: &str) -> (found: Option<&'a AdjudicatorData>)
    ensures
        found matches Some(d) ==> first_adjudicator(
            list@.map_values(|p: (String, AdjudicatorData)| (p.0@, p.1.ranking, p.1.weapon@)),
            name@,
            0,
        ) matches Some(k) && *d == list@[k].1,
        found is None ==> first_adjudicator(
            list@.map_values(|p: (String, AdjudicatorData)| (p.0@, p.1.ranking, p.1.weapon@)),
            name@,
            0,
        ) is None,
{
    let ghost view = list@.map_values(|p: (String, AdjudicatorData)| (p.0@, p.1.ranking, p.1.weapon@));
    let mut i: usize = 0;
    while i < list.len()
        invariant
            i <= list@.len(),
            view == list@.map_values(|p: (String, AdjudicatorData)| (p.0@, p.1.ranking, p.1.weapon@)),
            first_adjudicator(view, name@, 0) == first_adjudicator(view, name@, i as int),
        decreases list@.len() - i,
    {
        if str_eq(list[i].0.as_str(), name) {
            return Some(&list[i].1);
        }
        i = i + 1;
    }
    None
}

/// The rank and weapon bytes to write into the Adjudicator of this room,
/// in the order they are written (see `adjudicator_patches_upto`).
pub fn modify_adjudicator(table: &Vec<NamedLocation>, room: i32, mapping: &Mapping) -> (patches: Vec<(u8, u8)>)
    ensures
        patches@ == adjudicator_patches_upto(
            table_view(table@),
            room,
            adjudicators_view(mapping),
            table@.len() as int,
        ),
{
    let ghost view = table_view(table@);
    let mut patches: Vec<(u8, u8)> = Vec::new();
    let mut i: usize = 0;
    while i < table.len()
        invariant
            i <= table@.len(),
            view == table_view(table@),
            patches@ == adjudicator_patches_upto(view, room, adjudicators_view(mapping), i as int),
        decreases table@.len() - i,
    {
        let location = &table[i];
        proof {
            assert(view[i as int] == table@[i as int]@);
        }
        if location.entry.adjudicator && location.entry.room_number == room {
            match &mapping.adjudicators {
                Some(list) => {
                    match find_adjudicator(list, location.name.as_str()) {
                        Some(data) => {
                            let weapon = get_unlocked_weapon_id(data.weapon.as_str());
                            patches.push((data.ranking, weapon));
                            proof {
                                lemma_first_adjudicator_bounds(adjudicators_view(mapping), view[i as int].name, 0);
                                let k = first_adjudicator(adjudicators_view(mapping), view[i as int].name, 0).unwrap();
                                assert(adjudicators_view(mapping)[k] == (list@[k].0@, list@[k].1.ranking, list@[k].1.weapon@));
                            }
                        },
                        None => {},
                    }
                },
                None => {
                    proof {
                        assert(first_adjudicator(adjudicators_view(mapping), view[i as int].name, 0) is None);
                    }
                },
            }
        }
        i = i + 1;
    }
    patches
}


pub(crate) proof fn lemma_id_of_item(k: int)
    requires
        0 <= k < ITEM_COUNT,
    ensures
        is_item_name(spec_item(k).name@),
        spec_id_of(spec_item(k).name@) == k,
{
    crate::constants::lemma_item_names_distinct();
    assert(0 <= k < ITEM_COUNT && spec_item(k).name@ == spec_item(k).name@);
    let c = spec_id_of(spec_item(k).name@);
    assert(0 <= c < ITEM_COUNT && spec_item(c).name@ == spec_item(k).name@);
}

/// The key items of a mission are items of the table, each with its own id, in id order.
proof fn lemma_mission_names(mission: u32, n: int)
    requires
        0 <= n <= ITEM_COUNT,
    ensures
        forall|i: int|
            0 <= i < names_for_mission(mission, n).len() ==> is_item_name(
                #[trigger] names_for_mission(mission, n)[i]@,
            ) && 0 <= spec_id_of(names_for_mission(mission, n)[i]@) < n,
        forall|i: int, j: int|
            0 <= i < j < names_for_mission(mission, n).len() ==> spec_id_of(
                #[trigger] names_for_mission(mission, n)[i]@,
            ) < spec_id_of(#[trigger] names_for_mission(mission, n)[j]@),
        forall|i: int|
            0 <= i < names_for_mission(mission, n).len() ==> spec_item(
                spec_id_of(#[trigger] names_for_mission(mission, n)[i]@),
            ).mission == Some(mission),
    decreases n,
{
    if n > 0 {
        lemma_mission_names(mission, n - 1);
        lemma_id_of_item(n - 1);
        let prev = names_for_mission(mission, n - 1);
        let cur = names_for_mission(mission, n);
        if spec_item(n - 1).mission == Some(mission) {
            assert(cur == prev.push(spec_item(n - 1).name));
            assert forall|i: int| 0 <= i < cur.len() implies is_item_name(#[trigger] cur[i]@) && 0
                <= spec_id_of(cur[i]@) < n && spec_item(spec_id_of(cur[i]@)).mission == Some(mission) by {
                if i < prev.len() {
                    assert(cur[i] == prev[i]);
                }
            }
            assert forall|i: int, j: int| 0 <= i < j < cur.len() implies spec_id_of(
                #[trigger] cur[i]@,
            ) < spec_id_of(#[trigger] cur[j]@) by {
                assert(cur[i] == prev[i]);
                if j < prev.len() {
                    assert(cur[j] == prev[j]);
                }
            }
        } else {
            assert(cur == prev);
        }
    }
}

/// Whether an item id is the id of one of the mission's key items.
pub open spec fn is_mission_key_id(mission: u32, id: int) -> bool {
    exists|k: int|
        0 <= k < names_for_mission(mission, ITEM_COUNT as int).len() && spec_id_of(
            #[trigger] names_for_mission(mission, ITEM_COUNT as int)[k]@,
        ) == id
}

/// Makes the key items of the mission match what was received: a received key item whose
/// location-check flag is not set yet is marked as held with its flag; one not received is
/// marked as not held and its flag cleared.
fn mark_mission_key_items(
    mission_data: &mut MissionData,
    flags: &mut Vec<u8>,
    data: &ArchipelagoData,
    mission: u32,
)
    requires
        old(flags)@.len() >= FLAG_AREA_LEN,
    ensures
        final(flags)@.len() == old(flags)@.len(),
        forall|i: int|
            0 <= i < names_for_mission(mission, ITEM_COUNT as int).len() ==> {
                let name = (#[trigger] names_for_mission(mission, ITEM_COUNT as int)[i])@;
                let id = spec_id_of(name);
                &&& spec_flag_set(final(flags)@, id) == data@.items.contains(name)
                &&& final(mission_data).items[id] == if data@.items.contains(name) {
                    if spec_flag_set(old(flags)@, id) {
                        old(mission_data).items[id]
                    } else {
                        1u8
                    }
                } else {
                    0u8
                }
            },
        forall|id: int|
            0 <= id < ITEM_COUNT && !is_mission_key_id(mission, id) ==> #[trigger] spec_flag_set(
                final(flags)@,
                id,
            ) == spec_flag_set(old(flags)@, id),
        forall|id: int|
            0 <= id < 62 && !is_mission_key_id(mission, id) ==> #[trigger] final(mission_data).items[id]
                == old(mission_data).items[id],
        *final(mission_data) == (MissionData { items: final(mission_data).items, ..*old(mission_data) }),
{
    let names = match mission_items(mission) {
        Some(list) => list,
        None => {
            return;
        },
    };
    proof {
        lemma_mission_names(mission, ITEM_COUNT as int);
    }
    let ghost all = names_for_mission(mission, ITEM_COUNT as int);
    let mut i: usize = 0;
    while i < names.len()
        invariant
            i <= names@.len(),
            names@ == all,
            all == names_for_mission(mission, ITEM_COUNT as int),
            flags@.len() == old(flags)@.len(),
            old(flags)@.len() >= FLAG_AREA_LEN,
            forall|k: int| 0 <= k < all.len() ==> is_item_name(#[trigger] all[k]@) && 0 <= spec_id_of(
                all[k]@,
            ) < ITEM_COUNT,
            forall|a: int, b: int|
                0 <= a < b < all.len() ==> spec_id_of(#[trigger] all[a]@) < spec_id_of(#[trigger] all[b]@),
            forall|k: int|
                i <= k < all.len() ==> spec_flag_set(flags@, spec_id_of(#[trigger] all[k]@))
                    == spec_flag_set(old(flags)@, spec_id_of(all[k]@)) && mission_data.items[spec_id_of(
                    all[k]@,
                )] == old(mission_data).items[spec_id_of(all[k]@)],
            forall|k: int|
                0 <= k < i ==> {
                    let name = (#[trigger] all[k])@;
                    let id = spec_id_of(name);
                    &&& spec_flag_set(flags@, id) == data@.items.contains(name)
                    &&& mission_data.items[id] == if data@.items.contains(name) {
                        if spec_flag_set(old(flags)@, id) {
                            old(mission_data).items[id]
                        } else {
                            1u8
                        }
                    } else {
                        0u8
                    }
                },
            forall|id: int|
                0 <= id < ITEM_COUNT && !is_mission_key_id(mission, id) ==> #[trigger] spec_flag_set(flags@, id)
                    == spec_flag_set(old(flags)@, id),
            forall|id: int|
                0 <= id < 62 && !is_mission_key_id(mission, id) ==> #[trigger] mission_data.items[id]
                    == old(mission_data).items[id],
            *mission_data == (MissionData { items: mission_data.items, ..*old(mission_data) }),
        decreases names@.len() - i,
    {
        let item = names[i];
        let ghost id = spec_id_of(item@);
        let ghost before_flags = flags@;
        let ghost before_items = mission_data.items@;
        proof {
            assert(all[i as int] == item);
        }
        if data.has_item(item) {
            let res = has_item_by_flags(flags, item);
            if !res {
                set_item(mission_data, flags, item, true, true);
            }
        } else {
            set_item(mission_data, flags, item, false, true);
        }
        proof {
            assert forall|k: int| 0 <= k < all.len() && k != i implies spec_flag_set(
                flags@,
                spec_id_of(#[trigger] all[k]@),
            ) == spec_flag_set(before_flags, spec_id_of(all[k]@)) && mission_data.items[spec_id_of(
                all[k]@,
            )] == before_items[spec_id_of(all[k]@)] by {
                if k < i {
                    assert(spec_id_of(all[k]@) < spec_id_of(all[i as int]@));
                } else {
                    assert(spec_id_of(all[i as int]@) < spec_id_of(all[k]@));
                }
                crate::game_manager::lemma_flags_read_back(before_flags, id, data@.items.contains(item@), spec_id_of(all[k]@));
            }
            crate::game_manager::lemma_flags_read_back(before_flags, id, data@.items.contains(item@), id);
            assert(is_mission_key_id(mission, id));
            assert forall|other: int|
                0 <= other < ITEM_COUNT && !is_mission_key_id(mission, other) implies #[trigger] spec_flag_set(
                flags@,
                other,
            ) == spec_flag_set(old(flags)@, other) by {
                crate::game_manager::lemma_flags_read_back(before_flags, id, data@.items.contains(item@), other);
            }
        }
        i = i + 1;
    }
}


/// The room the Ignis Fatuus event is pointed to on entering `room`: in room 302, the usual
/// one (311) once "Mission #8 - Ignis Fatuus" is checked, else the one that leads to it (303);
/// nothing in any other room.
pub open spec fn spec_ignis_route(room: i32, checked: Seq<Seq<char>>) -> Option<i32> {
    if room == 302 {
        Some(if checked.contains("Mission #8 - Ignis Fatuus"@) { 311i32 } else { 303i32 })
    } else {
        None
    }
}

/// The item whose location-check flag is cleared on entering `room`: the item of the mission's
/// key-item location in this room (see `in_key_item_room`) when that location is not checked,
/// so that it can still be picked up there.
pub open spec fn key_room_cleared(
    table: Seq<NamedLocationView>,
    mission: u32,
    room: i32,
    checked: Seq<Seq<char>>,
) -> Option<int> {
    match first_key_room(table, mission, room, 0) {
        Some(k) => if checked.contains(table[k].name) {
            None
        } else {
            Some(spec_id_of(spec_item_name(table[k].entry.item_id)))
        },
        None => None,
    }
}

proof fn lemma_key_room_item(table: Seq<NamedLocationView>, mission: u32, room: i32, checked: Seq<Seq<char>>)
    ensures
        key_room_cleared(table, mission, room, checked) matches Some(id) ==> 0 <= id < ITEM_COUNT && forall|i: int|
            0 <= i < 12 ==> #[trigger] weapon_ids()[i] != id,
{
    if let Some(k) = first_key_room(table, mission, room, 0) {
        lemma_first_key_room(table, mission, room, 0);
        let n = spec_item_name(table[k].entry.item_id);
        let keys = names_in_category(ItemCategory::Key, ITEM_COUNT as int);
        let j = choose|j: int| 0 <= j < keys.len() && (#[trigger] keys[j])@ == n;
        assert(keys.contains(keys[j]));
        crate::constants::lemma_category_member(ItemCategory::Key, ITEM_COUNT as int, keys[j]);
        let a = choose|a: int|
            0 <= a < ITEM_COUNT && (#[trigger] spec_item(a)).name == keys[j] && spec_item(a).category == ItemCategory::Key;
        assert(is_item_name(n));
        let c = spec_id_of(n);
        crate::constants::lemma_item_names_distinct();
        assert(spec_item(c).name@ == spec_item(a).name@);
        assert(c == a);
        crate::game_manager::lemma_weapon_ids();
        crate::game_manager::lemma_weapon_names();
        assert forall|i: int| 0 <= i < 12 implies #[trigger] weapon_ids()[i] != c by {
            let ws = names_in_category(ItemCategory::Weapon, ITEM_COUNT as int);
            assert(ws.contains(ws[i]));
            crate::constants::lemma_category_member(ItemCategory::Weapon, ITEM_COUNT as int, ws[i]);
            let b = choose|b: int|
                0 <= b < ITEM_COUNT && (#[trigger] spec_item(b)).name == ws[i] && spec_item(b).category
                    == ItemCategory::Weapon;
            let w = weapon_ids()[i];
            assert(spec_id_of(weapon_names()[i]@) == w);
            assert(spec_item(w).name@ == spec_item(b).name@);
            assert(w == b);
        }
    }
}

proof fn lemma_first_key_room(table: Seq<NamedLocationView>, mission: u32, room: i32, start: int)
    requires
        0 <= start,
    ensures
        first_key_room(table, mission, room, start) matches Some(k) ==> start <= k < table.len()
            && spec_key_item_here(table[k].entry, mission, room),
    decreases table.len() - start,
{
    if start < table.len() && !spec_key_item_here(table[start].entry, mission, room) {
        lemma_first_key_room(table, mission, room, start + 1);
    }
}

/// On entering a room (`set_relevant_key_items`): makes the key items of the current mission
/// match what was received (a received key item whose flag is not set yet is marked as held
/// with its flag; one not received is marked as not held and its flag cleared); then, in a
/// room holding a key-item location of the mission that is not checked, clears that item's
/// flag so that the location can still be picked up; and gives the room the Ignis Fatuus
/// event is to lead to (see `spec_ignis_route`). `table` holds the seed's locations and
/// `checked` the names of the checked ones.
pub fn set_relevant_key_items(
    mission_data: &mut MissionData,
    flags: &mut Vec<u8>,
    data: &ArchipelagoData,
    mission: u32,
    room: i32,
    table: &Vec<NamedLocation>,
    checked: &Vec<String>,
) -> (ignis_route: Option<i32>)
    requires
        old(flags)@.len() >= FLAG_AREA_LEN,
    ensures
        ignis_route == spec_ignis_route(room, checked@.map_values(|c: String| c@)),
        final(flags)@.len() == old(flags)@.len(),
        ({
            let cleared = key_room_cleared(table_view(table@), mission, room, checked@.map_values(|c: String| c@));
            &&& forall|i: int|
                0 <= i < names_for_mission(mission, ITEM_COUNT as int).len() ==> {
                    let name = (#[trigger] names_for_mission(mission, ITEM_COUNT as int)[i])@;
                    let id = spec_id_of(name);
                    &&& spec_flag_set(final(flags)@, id) == (data@.items.contains(name) && cleared != Some(id))
                    &&& final(mission_data).items[id] == if data@.items.contains(name) {
                        if spec_flag_set(old(flags)@, id) {
                            old(mission_data).items[id]
                        } else {
                            1u8
                        }
                    } else {
                        0u8
                    }
                }
            &&& forall|id: int|
                0 <= id < ITEM_COUNT && !is_mission_key_id(mission, id) ==> #[trigger] spec_flag_set(
                    final(flags)@,
                    id,
                ) == (spec_flag_set(old(flags)@, id) && cleared != Some(id))
        }),
        forall|id: int|
            0 <= id < 62 && !is_mission_key_id(mission, id) ==> #[trigger] final(mission_data).items[id]
                == old(mission_data).items[id],
        *final(mission_data) == (MissionData { items: final(mission_data).items, ..*old(mission_data) }),
{
    mark_mission_key_items(mission_data, flags, data, mission);
    let ghost marked = flags@;
    let ghost names = checked@.map_values(|c: String| c@);
    let ghost cleared = key_room_cleared(table_view(table@), mission, room, names);
    let ignis_route = if room == 302 {
        Some(ignis_fatuus_route(checked_contains(checked, "Mission #8 - Ignis Fatuus")))
    } else {
        None
    };
    proof {
        lemma_key_room_item(table_view(table@), mission, room, names);
        lemma_first_key_room(table_view(table@), mission, room, 0);
        lemma_mission_names(mission, ITEM_COUNT as int);
    }
    let found = in_key_item_room(table, mission, room);
    let table_len = table.len();
    match found {
        Ok(k) => {
            let ghost tv = table_view(table@);
            proof {
                let i = first_key_room(tv, mission, room, 0).unwrap();
                assert(tv.len() == table@.len());
                assert(0 <= i < tv.len());
                assert(i < table_len);
                assert(i == k as int);
                assert(tv[k as int] == table@[k as int]@);
                assert(spec_key_item_here(tv[k as int].entry, mission, room));
            }
            if !checked_contains(checked, table[k].name.as_str()) {
                let name = get_item_name(table[k].entry.item_id);
                proof {
                    let keys = names_in_category(ItemCategory::Key, ITEM_COUNT as int);
                    crate::bank::lemma_category_names(ItemCategory::Key, ITEM_COUNT as int);
                    assert(names_contain(keys, name@));
                    let j = choose|j: int| 0 <= j < keys.len() && (#[trigger] keys[j])@ == name@;
                    assert(is_item_name(keys[j]@));
                    assert(cleared == Some(spec_id_of(name@)));
                }
                set_loc_chk_flg(flags, name, false);
                proof {
                    let id = spec_id_of(name@);
                    assert forall|other: int| 0 <= other < ITEM_COUNT implies #[trigger] spec_flag_set(flags@, other)
                        == (spec_flag_set(marked, other) && cleared != Some(other)) by {
                        crate::game_manager::lemma_flags_read_back(marked, id, false, other);
                    }
                }
            } else {
                proof {
                    assert(cleared is None);
                }
            }
        },
        Err(_) => {
            proof {
                assert(cleared is None);
            }
        },
    }
    proof {
        let all = names_for_mission(mission, ITEM_COUNT as int);
        assert forall|i: int| 0 <= i < all.len() implies spec_flag_set(flags@, spec_id_of(#[trigger] all[i]@))
            == (spec_flag_set(marked, spec_id_of(all[i]@)) && cleared != Some(spec_id_of(all[i]@))) by {
            assert(0 <= spec_id_of(all[i]@) < ITEM_COUNT);
        }
    }
    ignis_route
}

/// Whether the seed's settings let the player data be written: when skills are items, every
/// received skill is a known one.
pub open spec fn player_data_defined(data: &ArchipelagoData, mapping: Option<&Mapping>) -> bool {
    mapping matches Some(m) && m.randomize_skills ==> forall|skill: usize|
        data@.skills.contains(skill) ==> #[trigger] spec_skill_data(skill) is Some
}

/// Writes what was received into the session when the player's data is set up
/// (`set_player_data`): the weapons, max health and magic, and, for the parts of the game the
/// seed randomizes, the gun levels, skills and style levels.
pub fn set_player_data(session: &mut SessionData, data: &ArchipelagoData, mapping: Option<&Mapping>)
    requires
        player_data_defined(data, mapping),
    ensures
        final(session).weapons@ == weapons_after(
            old(session).weapons@,
            weapon_names(),
            data@.items,
            weapon_names().len() as int,
        ),
        final(session).weapon_style_unlocks@ == unlocks_after(
            old(session).weapon_style_unlocks@,
            weapon_names(),
            data@.items,
            weapon_names().len() as int,
        ),
        final(session).max_hp == spec_max_hp(data@.blue_orbs),
        final(session).max_magic == spec_max_magic(data@.purple_orbs, data@.dt_unlocked),
        final(session).ranged_weapon_levels@ == if mapping matches Some(m) && m.randomize_gun_levels {
            data@.gun_levels
        } else {
            old(session).ranged_weapon_levels@
        },
        mapping matches Some(m) && m.randomize_skills ==> skill_words_hold(final(session).expertise@, data@.skills),
        !(mapping matches Some(m) && m.randomize_skills) ==> final(session).expertise == old(session).expertise,
        final(session).style_levels@ == if mapping matches Some(m) && m.randomize_styles {
            seq![
                style_level_for_game(data@.style_levels[1]),
                style_level_for_game(data@.style_levels[2]),
                style_level_for_game(data@.style_levels[0]),
                style_level_for_game(data@.style_levels[3]),
                0u32,
                0u32,
            ]
        } else {
            old(session).style_levels@
        },
        *final(session) == (SessionData {
            weapons: final(session).weapons,
            weapon_style_unlocks: final(session).weapon_style_unlocks,
            max_hp: final(session).max_hp,
            max_magic: final(session).max_magic,
            ranged_weapon_levels: final(session).ranged_weapon_levels,
            expertise: final(session).expertise,
            style_levels: final(session).style_levels,
            ..*old(session)
        }),
{
    set_session_weapons(session, data);
    set_max_hp_and_magic(session, data);
    if let Some(m) = mapping {
        if m.randomize_gun_levels {
            set_gun_levels(session, data);
        }
        if m.randomize_skills {
            set_skills(&mut session.expertise, data);
        }
        if m.randomize_styles {
            set_style_levels(session, data);
        }
    }
}

/// The styles the style menu offers (`modify_available_styles`): when styles are items, the
/// unlocked ones (by the randomizer's number); otherwise the game decides.
pub fn modify_available_styles(data: &ArchipelagoData, mapping: Option<&Mapping>) -> (styles: Option<[bool; 4]>)
    ensures
        styles is Some == (mapping matches Some(m) && m.randomize_styles),
        styles matches Some(s) ==> forall|i: int| 0 <= i < 4 ==> #[trigger] s@[i] == (data@.style_levels[i] > 0),
{
    match mapping {
        Some(m) => {
            if m.randomize_styles {
                Some(data.get_style_unlocked())
            } else {
                None
            }
        },
        None => None,
    }
}

/// What the tracker is told when granting style experience raised the equipped style's
/// level: the style (by the game's number of the equipped one) and its new level.
pub fn style_level_update(equipped_style: u32, level_before: u32, level_after: u32) -> (update: Option<(Style, u32)>)
    requires
        equipped_style < 4,
    ensures
        update == (if level_after > level_before {
            Some((crate::constants::spec_style_internal_order(equipped_style as int), level_after))
        } else {
            None
        }),
{
    if level_after > level_before {
        let order = Style::internal_order();
        Some((order[equipped_style as usize], level_after))
    } else {
        None
    }
}


/// Brings the mission's record and the location-check flags in line with what was received
/// on entering a room (`load_new_room`): the received weapons are held, the mission's key
/// items follow what was received and the key item of an unchecked key-item location in this
/// room is unflagged (see `set_relevant_key_items`), the "Remote" and "Dummy" stand-ins are
/// cleared, and, when skills are items, the skill words are written. Afterwards every weapon
/// is flagged exactly when it was received, and every key item of the mission too, but for
/// that unflagged one. Gives the room the Ignis Fatuus event is to lead to.
#[verifier::rlimit(60)]
pub fn load_new_room(
    session: &mut SessionData,
    mission_data: &mut MissionData,
    flags: &mut Vec<u8>,
    data: &ArchipelagoData,
    mapping: Option<&Mapping>,
    mission: u32,
    room: i32,
    table: &Vec<NamedLocation>,
    checked: &Vec<String>,
) -> (ignis_route: Option<i32>)
    requires
        old(flags)@.len() >= FLAG_AREA_LEN,
        player_data_defined(data, mapping),
    ensures
        ignis_route == spec_ignis_route(room, checked@.map_values(|c: String| c@)),
        final(flags)@.len() == old(flags)@.len(),
        forall|i: int|
            0 <= i < 12 ==> spec_flag_set(final(flags)@, #[trigger] weapon_ids()[i]) == data@.items.contains(
                weapon_names()[i]@,
            ) && final(mission_data).items[weapon_ids()[i]] == if data@.items.contains(weapon_names()[i]@) {
                1u8
            } else {
                0u8
            },
        forall|k: int|
            0 <= k < names_for_mission(mission, ITEM_COUNT as int).len() ==> spec_flag_set(
                final(flags)@,
                spec_id_of(#[trigger] names_for_mission(mission, ITEM_COUNT as int)[k]@),
            ) == (data@.items.contains(names_for_mission(mission, ITEM_COUNT as int)[k]@) && key_room_cleared(
                table_view(table@),
                mission,
                room,
                checked@.map_values(|c: String| c@),
            ) != Some(spec_id_of(names_for_mission(mission, ITEM_COUNT as int)[k]@))),
        !spec_flag_set(final(flags)@, 0x26),
        !spec_flag_set(final(flags)@, 0x20),
        final(mission_data).items[0x26] == 0,
        final(mission_data).items[0x20] == 0,
        mapping matches Some(m) && m.randomize_skills ==> skill_words_hold(final(session).expertise@, data@.skills),
        !(mapping matches Some(m) && m.randomize_skills) ==> *final(session) == *old(session),
        *final(session) == (SessionData { expertise: final(session).expertise, ..*old(session) }),
{
    proof {
        crate::game_manager::lemma_weapon_ids();
        crate::game_manager::lemma_weapon_names();
        lemma_mission_names(mission, ITEM_COUNT as int);
    }
    set_weapons_in_inv(mission_data, flags, data);
    let ghost after_weapons = flags@;
    let ghost weapon_items = mission_data.items@;
    let ignis_route = set_relevant_key_items(mission_data, flags, data, mission, room, table, checked);
    let ghost after_keys = flags@;
    let ghost key_items = mission_data.items@;
    clear_high_roller(mission_data, flags);
    proof {
        let names = names_for_mission(mission, ITEM_COUNT as int);
        assert(spec_item(0x26).mission is None);
        assert(spec_item(0x20).mission is None);
        assert(!is_mission_key_id(mission, 0x26) && !is_mission_key_id(mission, 0x20)) by {
            if is_mission_key_id(mission, 0x26) {
                let k = choose|k: int| 0 <= k < names.len() && spec_id_of(#[trigger] names[k]@) == 0x26;
                assert(spec_item(spec_id_of(names[k]@)).mission == Some(mission));
            }
            if is_mission_key_id(mission, 0x20) {
                let k = choose|k: int| 0 <= k < names.len() && spec_id_of(#[trigger] names[k]@) == 0x20;
                assert(spec_item(spec_id_of(names[k]@)).mission == Some(mission));
            }
        }
        let mid = crate::game_manager::spec_flags_after(after_keys, 0x26, false);
        crate::game_manager::lemma_flags_read_back(after_keys, 0x26, false, 0x26);
        crate::game_manager::lemma_flags_read_back(mid, 0x20, false, 0x20);
        crate::game_manager::lemma_flags_read_back(mid, 0x20, false, 0x26);
        assert forall|i: int| 0 <= i < 12 implies spec_flag_set(flags@, #[trigger] weapon_ids()[i])
            == data@.items.contains(weapon_names()[i]@) && mission_data.items[weapon_ids()[i]] == if data@.items.contains(
            weapon_names()[i]@,
        ) {
            1u8
        } else {
            0u8
        } by {
            let w = weapon_ids()[i];
            assert(is_weapon_id(w));
            assert(!is_mission_key_id(mission, w)) by {
                if is_mission_key_id(mission, w) {
                    let k = choose|k: int| 0 <= k < names.len() && spec_id_of(#[trigger] names[k]@) == w;
                    assert(spec_item(spec_id_of(names[k]@)).mission == Some(mission));
                }
            }
            assert(spec_id_of(weapon_names()[i]@) == w);
            lemma_key_room_item(table_view(table@), mission, room, checked@.map_values(|c: String| c@));
            crate::game_manager::lemma_flags_read_back(after_keys, 0x26, false, w);
            crate::game_manager::lemma_flags_read_back(mid, 0x20, false, w);
        }
        let cleared = key_room_cleared(table_view(table@), mission, room, checked@.map_values(|c: String| c@));
        assert forall|k: int| 0 <= k < names.len() implies spec_flag_set(
            flags@,
            spec_id_of(#[trigger] names[k]@),
        ) == (data@.items.contains(names[k]@) && cleared != Some(spec_id_of(names[k]@))) by {
            let id = spec_id_of(names[k]@);
            assert(spec_item(id).mission == Some(mission));
            assert(id != 0x26 && id != 0x20);
            crate::game_manager::lemma_flags_read_back(after_keys, 0x26, false, id);
            crate::game_manager::lemma_flags_read_back(mid, 0x20, false, id);
        }
    }
    if let Some(m) = mapping {
        if m.randomize_skills {
            set_skills(&mut session.expertise, data);
        }
    }
    ignis_route
}

} // verus!
