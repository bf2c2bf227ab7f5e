//! The slot data that the Archipelago server sends: the randomizer's settings for a seed.
use vstd::prelude::*;
use crate::constants::{Difficulty, Rank, spec_difficulty_index, spec_rank_index};
use crate::strings::str_eq;

verus! {

/// How the seed is won.
#[derive(PartialEq, Eq, Structural, Clone, Copy, Debug)]
pub enum Goal {
    /// Beat M20 in linear order M1-M20 (Default)
    Standard,
    /// Beat all missions, all are unlocked at start
    All,
    /// Beat all missions in a randomized linear order
    RandomOrder,
}

/// What a DeathLink message does.
#[derive(PartialEq, Eq, Structural, Clone, Copy, Debug)]
pub enum DeathlinkSetting {
    /// Normal DeathLink Behavior
    DeathLink,
    /// Sends out DeathLink messages when you die. But only hurts you if you receive one
    HurtLink,
    /// Don't send/receive DL related messages
    Off,
}

/// Which locations the client asks the server to hint on its own.
#[derive(PartialEq, Eq, Structural, Clone, Copy, Debug)]
pub enum AutoHint {
    /// No automatic hints.
    Off,
    /// Hint a gun's level purchases once the gun is obtained.
    Obtained,
    /// Hint all of them from the start.
    All,
}

/// The weapon and rank that an Adjudicator asks for.
#[derive(Debug)]
pub struct AdjudicatorData {
    pub weapon: String,
    pub ranking: u8,
}

/// A version number of the randomizer.
#[derive(PartialEq, Eq, Structural, Clone, Copy, Debug)]
pub struct ApVersion {
    pub major: u32,
    pub minor: u32,
    pub build: u32,
}

/// The randomizer's settings for a seed (the slot data).
#[derive(Debug)]
pub struct Mapping {
    pub starter_items: Vec<String>,
    /// Each Adjudicator location's name with what it asks for.
    pub adjudicators: Option<Vec<(String, AdjudicatorData)>>,
    pub start_melee: u8,
    pub start_second_melee: u8,
    pub start_gun: u8,
    pub start_second_gun: u8,
    pub randomize_skills: bool,
    pub randomize_gun_levels: bool,
    pub randomize_styles: bool,
    pub purple_orb_mode: bool,
    pub devil_trigger_mode: bool,
    pub check_ss_difficulty: bool,
    pub shop_checks: bool,
    pub shop_orb_checks: bool,
    pub shop_gun_checks: bool,
    pub shop_skill_checks: bool,
    pub auto_gun_hints: AutoHint,
    pub death_link: DeathlinkSetting,
    pub goal: Goal,
    pub mission_order: Option<Vec<u8>>,
    pub generated_version: Option<ApVersion>,
    pub client_version: Option<ApVersion>,
    pub mission_clear_rank: Rank,
    pub mission_clear_difficulty: Difficulty,
    pub initially_unlocked_difficulties: Vec<Difficulty>,
}

/// The first index of `order` that holds `mission`, if there is one.
pub open spec fn spec_first_index_of(order: Seq<u8>, mission: u32) -> Option<int> {
    if exists|i: int| 0 <= i < order.len() && order[i] as u32 == mission {
        Some(
            choose|i: int|
                0 <= i < order.len() && order[i] as u32 == mission && forall|j: int|
                    0 <= j < i ==> order[j] as u32 != mission,
        )
    } else {
        None
    }
}

/// Where `mission` stands in the mission order: its first index there, else `mission - 1`.
pub open spec fn spec_index_for_mission(mission_order: Option<Seq<u8>>, mission: u32) -> int {
    match mission_order {
        Some(order) => match spec_first_index_of(order, mission) {
            Some(i) => i,
            None => mission - 1,
        },
        None => mission - 1,
    }
}

/// Whether `get_index_for_mission` can answer for `mission`: it fails only when `mission`
/// is 0 and the order does not hold it.
pub open spec fn spec_index_for_mission_defined(mission_order: Option<Seq<u8>>, mission: u32) -> bool {
    mission >= 1 || (mission_order matches Some(order) && spec_first_index_of(order, mission) is Some)
}

proof fn lemma_first_index_found(order: Seq<u8>, mission: u32, i: int)
    requires
        0 <= i < order.len(),
        order[i] as u32 == mission,
        forall|j: int| 0 <= j < i ==> order[j] as u32 != mission,
    ensures
        spec_first_index_of(order, mission) == Some(i),
{
    let c = choose|k: int|
        0 <= k < order.len() && order[k] as u32 == mission && forall|j: int|
            0 <= j < k ==> order[j] as u32 != mission;
    assert(0 <= c < order.len() && order[c] as u32 == mission && forall|j: int|
        0 <= j < c ==> order[j] as u32 != mission);
    if c < i {
    } else if c > i {
        assert(order[i] as u32 != mission);
    }
}

impl Mapping {
    /// The mission order as a sequence, if the seed has one.
    pub open spec fn spec_order(&self) -> Option<Seq<u8>> {
        match &self.mission_order {
            Some(order) => Some(order@),
            None => None,
        }
    }

    /// Takes a mission and returns its index in mission_order
    pub fn get_index_for_mission(&self, mission: u32) -> (index: usize)
        requires
            spec_index_for_mission_defined(self.spec_order(), mission),
        ensures
            index == spec_index_for_mission(self.spec_order(), mission),
    {
        if let Some(order) = &self.mission_order {
            let mut i: usize = 0;
            while i < order.len()
                invariant
                    i <= order@.len(),
                    self.spec_order() == Some(order@),
                    spec_index_for_mission_defined(self.spec_order(), mission),
                    forall|j: int| 0 <= j < i ==> order@[j] as u32 != mission,
                decreases order@.len() - i,
            {
                if order[i] as u32 == mission {
                    proof {
                        lemma_first_index_found(order@, mission, i as int);
                    }
                    return i;
                }
                i = i + 1;
            }
            (mission - 1) as usize
        } else {
            (mission - 1) as usize
        }
    }

    /// What the Adjudicator at `location` asks for, if the seed changes it.
    pub fn adjudicator_for(&self, location: &str) -> (data: Option<&AdjudicatorData>)
        ensures
            data is Some <==> (self.adjudicators matches Some(list) && exists|i: int|
                0 <= i < list@.len() && (#[trigger] list@[i]).0@ == location@),
            data matches Some(found) ==> (self.adjudicators matches Some(list) && exists|i: int|
                0 <= i < list@.len() && (#[trigger] list@[i]).0@ == location@ && list@[i].1 == *found),
    {
        match &self.adjudicators {
            None => None,
            Some(list) => {
                let mut i: usize = 0;
                while i < list.len()
                    invariant
                        i <= list@.len(),
                        self.adjudicators == Some(*list),
                        forall|j: int| 0 <= j < i ==> (#[trigger] list@[j]).0@ != location@,
                    decreases list@.len() - i,
                {
                    if str_eq(list[i].0.as_str(), location) {
                        proof {
                            assert(list@[i as int].0@ == location@);
                            assert(self.adjudicators matches Some(l) && l@[i as int].0@ == location@);
                        }
                        return Some(&list[i].1);
                    }
                    i = i + 1;
                }
                None
            }
        }
    }
}

/// The goal that slot data without one means.
pub fn default_goal() -> (goal: Goal)
    ensures
        goal == Goal::Standard,
{
    Goal::Standard
}

/// The difficulties that slot data without a list unlocks at the start.
pub fn default_difficulty_list() -> (list: Vec<Difficulty>)
    ensures
        list@ == seq![Difficulty::Easy, Difficulty::Normal],
{
    let list = vec![Difficulty::Easy, Difficulty::Normal];
    proof {
        assert(list@ =~= seq![Difficulty::Easy, Difficulty::Normal]);
    }
    list
}

/// What the slot data holds for an option that should be a number.
#[derive(PartialEq, Eq, Structural, Clone, Copy, Debug)]
pub enum SlotValue {
    /// A number that fits an `i64`.
    Integer(i64),
    /// Any other number (a fraction, or above `i64::MAX`).
    OtherNumber,
    /// Not a number at all.
    NotANumber,
}

/// Why an option of the slot data was refused.
#[derive(PartialEq, Eq, Structural, Clone, Copy, Debug)]
pub enum SlotDataError {
    InvalidDeathLink(i64),
    InvalidGoal(i64),
    InvalidRank(i64),
    InvalidDifficulty(i64),
    /// The option was not a number.
    UnexpectedType,
}

/// The integer that a number option stands for: a number that is no `i64` counts as 0.
pub open spec fn spec_slot_integer(value: SlotValue) -> i64 {
    match value {
        SlotValue::Integer(n) => n,
        _ => 0,
    }
}

/// Figure out which DL setting were on
pub fn parse_death_link(value: SlotValue) -> (setting: Result<DeathlinkSetting, SlotDataError>)
    ensures
        value is NotANumber ==> setting == Err::<DeathlinkSetting, SlotDataError>(
            SlotDataError::UnexpectedType,
        ),
        !(value is NotANumber) ==> setting == (match spec_slot_integer(value) {
            0 => Ok(DeathlinkSetting::Off),
            1 => Ok(DeathlinkSetting::DeathLink),
            2 => Ok(DeathlinkSetting::HurtLink),
            n => Err(SlotDataError::InvalidDeathLink(n)),
        }),
{
    let n = match value {
        SlotValue::NotANumber => return Err(SlotDataError::UnexpectedType),
        SlotValue::Integer(n) => n,
        SlotValue::OtherNumber => 0,
    };
    match n {
        0 => Ok(DeathlinkSetting::Off),
        1 => Ok(DeathlinkSetting::DeathLink),
        2 => Ok(DeathlinkSetting::HurtLink),
        _ => Err(SlotDataError::InvalidDeathLink(n)),
    }
}

/// Parse which goal we are on
pub fn parse_goal(value: SlotValue) -> (goal: Result<Goal, SlotDataError>)
    ensures
        value is NotANumber ==> goal == Err::<Goal, SlotDataError>(SlotDataError::UnexpectedType),
        !(value is NotANumber) ==> goal == (match spec_slot_integer(value) {
            0 => Ok(Goal::Standard),
            1 => Ok(Goal::All),
            2 => Ok(Goal::RandomOrder),
            n => Err(SlotDataError::InvalidGoal(n)),
        }),
{
    let n = match value {
        SlotValue::NotANumber => return Err(SlotDataError::UnexpectedType),
        SlotValue::Integer(n) => n,
        SlotValue::OtherNumber => 0,
    };
    match n {
        0 => Ok(Goal::Standard),
        1 => Ok(Goal::All),
        2 => Ok(Goal::RandomOrder),
        _ => Err(SlotDataError::InvalidGoal(n)),
    }
}

/// Parse rank value
pub fn parse_rank(value: SlotValue) -> (rank: Result<Rank, SlotDataError>)
    ensures
        value is NotANumber ==> rank == Err::<Rank, SlotDataError>(SlotDataError::UnexpectedType),
        !(value is NotANumber) && 0 <= spec_slot_integer(value) < 7 ==> (rank matches Ok(found)
            && spec_rank_index(found) == spec_slot_integer(value)),
        !(value is NotANumber) && !(0 <= spec_slot_integer(value) < 7) ==> rank == Err::<
            Rank,
            SlotDataError,
        >(SlotDataError::InvalidRank(spec_slot_integer(value))),
{
    let n = match value {
        SlotValue::NotANumber => return Err(SlotDataError::UnexpectedType),
        SlotValue::Integer(n) => n,
        SlotValue::OtherNumber => 0,
    };
    if n < 0 || n >= 7 {
        return Err(SlotDataError::InvalidRank(n));
    }
    match Rank::from_repr(n as usize) {
        None => Err(SlotDataError::InvalidRank(n)),
        Some(rank) => Ok(rank),
    }
}

/// Parse difficulty value
pub fn parse_difficulty(value: SlotValue) -> (difficulty: Result<Difficulty, SlotDataError>)
    ensures
        value is NotANumber ==> difficulty == Err::<Difficulty, SlotDataError>(
            SlotDataError::UnexpectedType,
        ),
        !(value is NotANumber) && 0 <= spec_slot_integer(value) < 6 ==> (difficulty matches Ok(
            found,
        ) && spec_difficulty_index(found) == spec_slot_integer(value)),
        !(value is NotANumber) && !(0 <= spec_slot_integer(value) < 6) ==> difficulty == Err::<
            Difficulty,
            SlotDataError,
        >(SlotDataError::InvalidDifficulty(spec_slot_integer(value))),
{
    let n = match value {
        SlotValue::NotANumber => return Err(SlotDataError::UnexpectedType),
        SlotValue::Integer(n) => n,
        SlotValue::OtherNumber => 0,
    };
    if n < 0 || n >= 6 {
        return Err(SlotDataError::InvalidDifficulty(n));
    }
    match Difficulty::from_repr(n as usize) {
        None => Err(SlotDataError::InvalidDifficulty(n)),
        Some(difficulty) => Ok(difficulty),
    }
}

} // verus!
