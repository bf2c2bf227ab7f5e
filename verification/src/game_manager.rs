//! What the randomizer has received so far, and how it is written into the game's records.
use vstd::prelude::*;
use std::collections::HashSet;
use crate::constants::{
    BASE_HP, Difficulty, ITEM_COUNT, ItemCategory, MAX_HP, MAX_MAGIC, ONE_ORB, Style,
    get_items_by_category, get_unlocked_weapon_id, get_weapon_id, gun_names, item_id_by_name,
    melee_names, names_in_category, spec_gun_names, spec_item, spec_melee_names,
    spec_style_index, spec_style_internal_index, spec_unlocked_weapon_id, spec_weapon_id,
};
use crate::game_structs::{MissionData, SessionData};
use crate::strings::str_eq;
use crate::mapping::Mapping;

verus! {

broadcast use {vstd::std_specs::hash::group_hash_axioms, vstd::seq_lib::group_seq_properties};

/// Blue Orbs count up to this many.
pub const MAX_BLUE_ORBS: i32 = 14;
/// Purple Orbs count up to this many.
pub const MAX_PURPLE_ORBS: i32 = 10;
/// Gun levels count up to this level.
pub const MAX_GUN_LEVEL: u32 = 2;
/// Style levels count up to this level (0 is "not unlocked").
pub const MAX_STYLE_LEVEL: i32 = 3;
/// Skills with two levels count up to this level.
pub const MAX_SKILL_LEVEL: u8 = 2;

/// The received items that the randomizer keeps track of.
#[derive(Debug)]
pub struct ArchipelagoData {
    blue_orbs: i32,
    purple_orbs: i32,
    dt_unlocked: bool,
    gun_levels: [u32; 5],
    style_levels: [i32; 4],
    stinger_level: u8,
    jet_stream_level: u8,
    reverb_level: u8,
    /// Beast uppercut -> Rising dragon
    beowulf_level: u8,
    items: Vec<String>,
    skills: HashSet<usize>,
}

/// The received items as values.
#[verifier::ext_equal]
pub struct ArchipelagoDataView {
    pub blue_orbs: int,
    pub purple_orbs: int,
    pub dt_unlocked: bool,
    pub gun_levels: Seq<u32>,
    pub style_levels: Seq<i32>,
    pub stinger_level: u8,
    pub jet_stream_level: u8,
    pub reverb_level: u8,
    pub beowulf_level: u8,
    /// The names of the received items.
    pub items: Set<Seq<char>>,
    /// The ids of the received skills.
    pub skills: Set<usize>,
}

impl View for ArchipelagoData {
    type V = ArchipelagoDataView;

    closed spec fn view(&self) -> ArchipelagoDataView {
        ArchipelagoDataView {
            blue_orbs: self.blue_orbs as int,
            purple_orbs: self.purple_orbs as int,
            dt_unlocked: self.dt_unlocked,
            gun_levels: self.gun_levels@,
            style_levels: self.style_levels@,
            stinger_level: self.stinger_level,
            jet_stream_level: self.jet_stream_level,
            reverb_level: self.reverb_level,
            beowulf_level: self.beowulf_level,
            items: self.items@.map_values(|s: String| s@).to_set(),
            skills: self.skills@,
        }
    }
}

/// The counts stay within their caps.
pub open spec fn data_within_caps(data: ArchipelagoDataView) -> bool {
    &&& 0 <= data.blue_orbs <= MAX_BLUE_ORBS
    &&& 0 <= data.purple_orbs <= MAX_PURPLE_ORBS
    &&& data.gun_levels.len() == 5
    &&& forall|i: int| 0 <= i < 5 ==> #[trigger] data.gun_levels[i] <= MAX_GUN_LEVEL
    &&& data.style_levels.len() == 4
    &&& forall|i: int| 0 <= i < 4 ==> 0 <= #[trigger] data.style_levels[i] <= MAX_STYLE_LEVEL
    &&& data.stinger_level <= MAX_SKILL_LEVEL
    &&& data.jet_stream_level <= MAX_SKILL_LEVEL
    &&& data.reverb_level <= MAX_SKILL_LEVEL
    &&& data.beowulf_level <= MAX_SKILL_LEVEL
}

/// `value + 1`, but no more than `cap`.
pub open spec fn bump(value: int, cap: int) -> int {
    if value + 1 < cap {
        value + 1
    } else {
        cap
    }
}

/// Nothing but the listed parts differ between two views.
pub open spec fn same_counts(a: ArchipelagoDataView, b: ArchipelagoDataView) -> bool {
    &&& a.blue_orbs == b.blue_orbs
    &&& a.purple_orbs == b.purple_orbs
    &&& a.dt_unlocked == b.dt_unlocked
    &&& a.gun_levels == b.gun_levels
    &&& a.style_levels == b.style_levels
    &&& a.stinger_level == b.stinger_level
    &&& a.jet_stream_level == b.jet_stream_level
    &&& a.reverb_level == b.reverb_level
    &&& a.beowulf_level == b.beowulf_level
}

impl ArchipelagoData {
    #[verifier::type_invariant]
    closed spec fn inv(self) -> bool {
        data_within_caps(self@)
    }

    /// Nothing received yet.
    pub fn new() -> (data: Self)
        ensures
            data@.blue_orbs == 0,
            data@.purple_orbs == 0,
            !data@.dt_unlocked,
            data@.gun_levels == seq![0u32, 0, 0, 0, 0],
            data@.style_levels == seq![0i32, 0, 0, 0],
            data@.stinger_level == 0,
            data@.jet_stream_level == 0,
            data@.reverb_level == 0,
            data@.beowulf_level == 0,
            data@.items.is_empty(),
            data@.skills.is_empty(),
    {
        let data = ArchipelagoData {
            blue_orbs: 0,
            purple_orbs: 0,
            dt_unlocked: false,
            gun_levels: [0; 5],
            style_levels: [0; 4],
            stinger_level: 0,
            jet_stream_level: 0,
            reverb_level: 0,
            beowulf_level: 0,
            items: Vec::new(),
            skills: HashSet::new(),
        };
        proof {
            assert(data@.gun_levels =~= seq![0u32, 0, 0, 0, 0]);
            assert(data@.style_levels =~= seq![0i32, 0, 0, 0]);
            assert(data@.items =~= Set::empty());
        }
        data
    }

    /// Every state of the data keeps its counts within their caps (nothing to run: it states
    /// the fact for its caller).
    pub fn within_caps(&self)
        ensures
            data_within_caps(self@),
    {
        proof {
            use_type_invariant(self);
        }
    }

    /// Whether an item of this name was received.
    pub fn has_item(&self, name: &str) -> (received: bool)
        ensures
            received == self@.items.contains(name@),
    {
        let mut i: usize = 0;
        while i < self.items.len()
            invariant
                i <= self.items@.len(),
                forall|j: int| 0 <= j < i ==> (#[trigger] self.items@[j])@ != name@,
            decreases self.items@.len() - i,
        {
            if crate::strings::str_eq(self.items[i].as_str(), name) {
                proof {
                    assert(self.items@.map_values(|s: String| s@)[i as int] == name@);
                }
                return true;
            }
            i = i + 1;
        }
        proof {
            let mapped = self.items@.map_values(|s: String| s@);
            assert forall|j: int| 0 <= j < mapped.len() implies mapped[j] != name@ by {
                assert(self.items@[j]@ != name@);
            }
            assert(!mapped.contains(name@));
        }
        false
    }

    /// Records a received item by its name.
    pub fn add_item(&mut self, item: String)
        ensures
            final(self)@.items == old(self)@.items.insert(item@),
            final(self)@.skills == old(self)@.skills,
            same_counts(final(self)@, old(self)@),
    {
        proof {
            use_type_invariant(&*self);
        }
        if !self.has_item(item.as_str()) {
            let ghost before = self.items@;
            let mut items: Vec<String> = Vec::new();
            std::mem::swap(&mut items, &mut self.items);
            items.push(item);
            self.items = items;
            proof {
                assert(self.items@.map_values(|s: String| s@) =~= before.map_values(
                    |s: String| s@,
                ).push(item@));
                assert(self.items@.map_values(|s: String| s@).to_set() =~= before.map_values(
                    |s: String| s@,
                ).to_set().insert(item@));
            }
        } else {
            proof {
                assert(old(self)@.items.insert(item@) =~= old(self)@.items);
            }
        }
    }

    /// Records a received skill by its id.
    pub fn add_skill(&mut self, skill_id: usize)
        ensures
            final(self)@.skills == old(self)@.skills.insert(skill_id),
            final(self)@.items == old(self)@.items,
            same_counts(final(self)@, old(self)@),
    {
        proof {
            use_type_invariant(&*self);
        }
        let mut skills: HashSet<usize> = HashSet::new();
        std::mem::swap(&mut skills, &mut self.skills);
        skills.insert(skill_id);
        self.skills = skills;
    }

    /// The ids of the received skills.
    pub fn skills(&self) -> (skills: &HashSet<usize>)
        ensures
            skills@ == self@.skills,
    {
        &self.skills
    }

    pub fn blue_orbs(&self) -> (count: i32)
        ensures
            count == self@.blue_orbs,
    {
        self.blue_orbs
    }

    pub fn purple_orbs(&self) -> (count: i32)
        ensures
            count == self@.purple_orbs,
    {
        self.purple_orbs
    }

    pub fn dt_unlocked(&self) -> (unlocked: bool)
        ensures
            unlocked == self@.dt_unlocked,
    {
        self.dt_unlocked
    }

    pub fn gun_levels(&self) -> (levels: [u32; 5])
        ensures
            levels@ == self@.gun_levels,
    {
        self.gun_levels
    }

    pub fn style_levels(&self) -> (levels: [i32; 4])
        ensures
            levels@ == self@.style_levels,
    {
        self.style_levels
    }

    pub fn stinger_level(&self) -> (level: u8)
        ensures
            level == self@.stinger_level,
    {
        self.stinger_level
    }

    pub fn jet_stream_level(&self) -> (level: u8)
        ensures
            level == self@.jet_stream_level,
    {
        self.jet_stream_level
    }

    pub fn reverb_level(&self) -> (level: u8)
        ensures
            level == self@.reverb_level,
    {
        self.reverb_level
    }

    pub fn beowulf_level(&self) -> (level: u8)
        ensures
            level == self@.beowulf_level,
    {
        self.beowulf_level
    }

    /// One more Blue Orb, up to the cap.
    pub fn add_blue_orb(&mut self)
        ensures
            final(self)@.blue_orbs == bump(old(self)@.blue_orbs, MAX_BLUE_ORBS as int),
            final(self)@ == (ArchipelagoDataView { blue_orbs: final(self)@.blue_orbs, ..old(self)@ }),
    {
        proof {
            use_type_invariant(&*self);
        }
        self.blue_orbs = if self.blue_orbs + 1 < MAX_BLUE_ORBS {
            self.blue_orbs + 1
        } else {
            MAX_BLUE_ORBS
        };
    }

    /// One more Purple Orb, up to the cap; unless Devil Trigger is an item of its own, the
    /// first Purple Orb unlocks it.
    pub fn add_purple_orb(&mut self, mapping: Option<&Mapping>)
        ensures
            final(self)@.purple_orbs == bump(old(self)@.purple_orbs, MAX_PURPLE_ORBS as int),
            final(self)@.dt_unlocked == (old(self)@.dt_unlocked || (mapping matches Some(m)
                && !m.devil_trigger_mode)),
            final(self)@ == (ArchipelagoDataView {
                purple_orbs: final(self)@.purple_orbs,
                dt_unlocked: final(self)@.dt_unlocked,
                ..old(self)@
            }),
    {
        proof {
            use_type_invariant(&*self);
        }
        self.purple_orbs = if self.purple_orbs + 1 < MAX_PURPLE_ORBS {
            self.purple_orbs + 1
        } else {
            MAX_PURPLE_ORBS
        };
        if let Some(mappings) = mapping {
            if !mappings.devil_trigger_mode {
                self.dt_unlocked = true;
            }
        }
    }

    /// Devil Trigger received: it unlocks Devil Trigger when that is an item of its own, and
    /// gives three Purple Orbs (up to the cap) unless Purple Orbs are items of their own.
    pub fn add_dt(&mut self, mapping: Option<&Mapping>)
        ensures
            final(self)@.dt_unlocked == (old(self)@.dt_unlocked || (mapping matches Some(m)
                && m.devil_trigger_mode)),
            final(self)@.purple_orbs == (if mapping matches Some(m) && !m.purple_orb_mode {
                if old(self)@.purple_orbs + 3 < MAX_PURPLE_ORBS {
                    old(self)@.purple_orbs + 3
                } else {
                    MAX_PURPLE_ORBS as int
                }
            } else {
                old(self)@.purple_orbs
            }),
            final(self)@ == (ArchipelagoDataView {
                purple_orbs: final(self)@.purple_orbs,
                dt_unlocked: final(self)@.dt_unlocked,
                ..old(self)@
            }),
    {
        proof {
            use_type_invariant(&*self);
        }
        if let Some(mappings) = mapping {
            if mappings.devil_trigger_mode {
                self.dt_unlocked = true;
            }
            if !mappings.purple_orb_mode {
                self.purple_orbs = if self.purple_orbs + 3 < MAX_PURPLE_ORBS {
                    self.purple_orbs + 3
                } else {
                    MAX_PURPLE_ORBS
                };
            }
        }
    }

    /// Blue and Purple Orbs back to none, before the received items are counted again.
    pub fn reset_orbs(&mut self)
        ensures
            final(self)@ == (ArchipelagoDataView { blue_orbs: 0, purple_orbs: 0, ..old(self)@ }),
    {
        proof {
            use_type_invariant(&*self);
        }
        self.blue_orbs = 0;
        self.purple_orbs = 0;
    }

    /// One more level of the gun at `gun_index` (in the order of `gun_names`), up to the cap.
    pub fn add_gun_level(&mut self, gun_index: usize)
        requires
            gun_index < 5,
        ensures
            final(self)@.gun_levels == old(self)@.gun_levels.update(
                gun_index as int,
                bump(old(self)@.gun_levels[gun_index as int] as int, MAX_GUN_LEVEL as int) as u32,
            ),
            final(self)@ == (ArchipelagoDataView { gun_levels: final(self)@.gun_levels, ..old(self)@ }),
    {
        proof {
            use_type_invariant(&*self);
        }
        let level = self.gun_levels[gun_index];
        let next = if level + 1 < MAX_GUN_LEVEL {
            level + 1
        } else {
            MAX_GUN_LEVEL
        };
        let mut levels = self.gun_levels;
        levels[gun_index] = next;
        self.gun_levels = levels;
    }

    /// Every gun back to its first level.
    pub fn reset_gun_levels(&mut self)
        ensures
            final(self)@ == (ArchipelagoDataView { gun_levels: seq![0u32, 0, 0, 0, 0], ..old(self)@ }),
    {
        proof {
            use_type_invariant(&*self);
        }
        self.gun_levels = [0;5];
        proof {
            assert(self.gun_levels@ =~= seq![0u32, 0, 0, 0, 0]);
        }
    }

    /// One more level of `style`, up to the cap. 0 = not unlocked, 1 = level 1, 2 = level 2,
    /// 3 = level 3; in terms of style levelling, the game considers 0 to be level 1.
    pub fn add_style_level(&mut self, style: Style)
        ensures
            final(self)@.style_levels == old(self)@.style_levels.update(
                spec_style_index(style) as int,
                bump(old(self)@.style_levels[spec_style_index(style) as int] as int, MAX_STYLE_LEVEL as int) as i32,
            ),
            final(self)@ == (ArchipelagoDataView { style_levels: final(self)@.style_levels, ..old(self)@ }),
    {
        proof {
            use_type_invariant(&*self);
        }
        let index = style.index();
        let level = self.style_levels[index];
        let next = if level + 1 < MAX_STYLE_LEVEL {
            level + 1
        } else {
            MAX_STYLE_LEVEL
        };
        let mut levels = self.style_levels;
        levels[index] = next;
        self.style_levels = levels;
    }

    /// Every style back to "not unlocked".
    pub fn reset_style_levels(&mut self)
        ensures
            final(self)@ == (ArchipelagoDataView { style_levels: seq![0i32, 0, 0, 0], ..old(self)@ }),
    {
        proof {
            use_type_invariant(&*self);
        }
        self.style_levels = [0;4];
        proof {
            assert(self.style_levels@ =~= seq![0i32, 0, 0, 0]);
        }
    }

    /// Which styles are unlocked, in the randomizer's order (Trick, Sword, Gun, Royal).
    pub fn get_style_unlocked(&self) -> (unlocked: [bool; 4])
        ensures
            forall|i: int| 0 <= i < 4 ==> #[trigger] unlocked@[i] == (self@.style_levels[i] > 0),
    {
        proof {
            use_type_invariant(self);
        }
        let mut style_table = [false; 4];
        let mut i: usize = 0;
        while i < 4
            invariant
                i <= 4,
                self@.style_levels.len() == 4,
                forall|j: int| 0 <= j < i ==> #[trigger] style_table@[j] == (self@.style_levels[j] > 0),
            decreases 4 - i,
        {
            style_table[i] = self.style_levels[i] > 0;
            i = i + 1;
        }
        style_table
    }

    /// The style levels in the game's order (Sword, Gun, Trick, Royal), as the game counts them
    /// (0 is level 1); Quicksilver and Doppelganger stay at 0.
    pub fn get_style_level_array(&self) -> (levels: [u32; 6])
        ensures
            levels@ == seq![
                style_level_for_game(self@.style_levels[1]),
                style_level_for_game(self@.style_levels[2]),
                style_level_for_game(self@.style_levels[0]),
                style_level_for_game(self@.style_levels[3]),
                0u32,
                0u32,
            ],
    {
        proof {
            use_type_invariant(self);
        }
        let mut style_levels = [0u32; 6];
        style_levels[0] = game_style_level(self.style_levels[1]);
        style_levels[1] = game_style_level(self.style_levels[2]);
        style_levels[2] = game_style_level(self.style_levels[0]);
        style_levels[3] = game_style_level(self.style_levels[3]);
        proof {
            assert(style_levels@ =~= seq![
                style_level_for_game(self@.style_levels[1]),
                style_level_for_game(self@.style_levels[2]),
                style_level_for_game(self@.style_levels[0]),
                style_level_for_game(self@.style_levels[3]),
                0u32,
                0u32,
            ]);
        }
        style_levels
    }

    /// One more level of Stinger, up to the cap.
    pub fn add_stinger_level(&mut self)
        ensures
            final(self)@.stinger_level == bump(old(self)@.stinger_level as int, MAX_SKILL_LEVEL as int),
            final(self)@ == (ArchipelagoDataView { stinger_level: final(self)@.stinger_level, ..old(self)@ }),
    {
        proof {
            use_type_invariant(&*self);
        }
        self.stinger_level = if self.stinger_level + 1 < MAX_SKILL_LEVEL {
            self.stinger_level + 1
        } else {
            MAX_SKILL_LEVEL
        };
    }

    /// One more level of Jet Stream, up to the cap.
    pub fn add_jet_stream_level(&mut self)
        ensures
            final(self)@.jet_stream_level == bump(old(self)@.jet_stream_level as int, MAX_SKILL_LEVEL as int),
            final(self)@ == (ArchipelagoDataView { jet_stream_level: final(self)@.jet_stream_level, ..old(self)@ }),
    {
        proof {
            use_type_invariant(&*self);
        }
        self.jet_stream_level = if self.jet_stream_level + 1 < MAX_SKILL_LEVEL {
            self.jet_stream_level + 1
        } else {
            MAX_SKILL_LEVEL
        };
    }

    /// One more level of Reverb Shock, up to the cap.
    pub fn add_reverb_level(&mut self)
        ensures
            final(self)@.reverb_level == bump(old(self)@.reverb_level as int, MAX_SKILL_LEVEL as int),
            final(self)@ == (ArchipelagoDataView { reverb_level: final(self)@.reverb_level, ..old(self)@ }),
    {
        proof {
            use_type_invariant(&*self);
        }
        self.reverb_level = if self.reverb_level + 1 < MAX_SKILL_LEVEL {
            self.reverb_level + 1
        } else {
            MAX_SKILL_LEVEL
        };
    }

    /// One more level of Beast Uppercut/Rising Dragon, up to the cap.
    pub fn add_beowulf_level(&mut self)
        ensures
            final(self)@.beowulf_level == bump(old(self)@.beowulf_level as int, MAX_SKILL_LEVEL as int),
            final(self)@ == (ArchipelagoDataView { beowulf_level: final(self)@.beowulf_level, ..old(self)@ }),
    {
        proof {
            use_type_invariant(&*self);
        }
        self.beowulf_level = if self.beowulf_level + 1 < MAX_SKILL_LEVEL {
            self.beowulf_level + 1
        } else {
            MAX_SKILL_LEVEL
        };
    }
}

impl Default for ArchipelagoData {
    fn default() -> (data: Self)
        ensures
            data@.blue_orbs == 0,
            data@.purple_orbs == 0,
            !data@.dt_unlocked,
            data@.items.is_empty(),
            data@.skills.is_empty(),
    {
        ArchipelagoData::new()
    }
}

/// A style level as the game counts it: one less, but not below 0.
pub open spec fn style_level_for_game(level: i32) -> u32 {
    if level - 1 > 0 {
        (level - 1) as u32
    } else {
        0
    }
}

fn game_style_level(level: i32) -> (game_level: u32)
    requires
        0 <= level <= MAX_STYLE_LEVEL,
    ensures
        game_level == style_level_for_game(level),
{
    if level - 1 > 0 {
        (level - 1) as u32
    } else {
        0
    }
}

/// Max health in points: the base and one orb's worth per Blue Orb, up to the cap.
pub open spec fn spec_max_hp(blue_orbs: int) -> int {
    if BASE_HP + blue_orbs * ONE_ORB < MAX_HP {
        BASE_HP + blue_orbs * ONE_ORB
    } else {
        MAX_HP as int
    }
}

/// Max magic in points: one orb's worth per Purple Orb, up to the cap, or none at all while
/// Devil Trigger is locked.
pub open spec fn spec_max_magic(purple_orbs: int, dt_unlocked: bool) -> int {
    if !dt_unlocked {
        0
    } else if purple_orbs * ONE_ORB < MAX_MAGIC {
        purple_orbs * ONE_ORB
    } else {
        MAX_MAGIC as int
    }
}

/// Max health in points for the received Blue Orbs.
pub fn max_hp_for(data: &ArchipelagoData) -> (hp: u32)
    ensures
        hp == spec_max_hp(data@.blue_orbs),
{
    data.within_caps();
    let blue = data.blue_orbs() as u32;
    if BASE_HP + blue * ONE_ORB < MAX_HP {
        BASE_HP + blue * ONE_ORB
    } else {
        MAX_HP
    }
}

/// Max magic in points for the received Purple Orbs and Devil Trigger.
pub fn max_magic_for(data: &ArchipelagoData) -> (magic: u32)
    ensures
        magic == spec_max_magic(data@.purple_orbs, data@.dt_unlocked),
{
    data.within_caps();
    if !data.dt_unlocked() {
        0
    } else {
        let purple = data.purple_orbs() as u32;
        if purple * ONE_ORB < MAX_MAGIC {
            purple * ONE_ORB
        } else {
            MAX_MAGIC
        }
    }
}


/// Whether `names` holds a name with the characters of `name`.
pub open spec fn names_contain(names: Seq<&'static str>, name: Seq<char>) -> bool {
    exists|i: int| 0 <= i < names.len() && (#[trigger] names[i])@ == name
}

/// Whether `names` holds a name with the characters of `name`.
pub fn contains_name(names: &Vec<&'static str>, name: &str) -> (found: bool)
    ensures
        found == names_contain(names@, name@),
{
    let mut i: usize = 0;
    while i < names.len()
        invariant
            i <= names@.len(),
            forall|j: int| 0 <= j < i ==> (#[trigger] names@[j])@ != name@,
        decreases names@.len() - i,
    {
        if str_eq(names[i], name) {
            return true;
        }
        i = i + 1;
    }
    false
}

/// Writes the max health and magic that the received orbs give into the session record.
pub fn set_max_hp_and_magic(session: &mut SessionData, data: &ArchipelagoData)
    ensures
        final(session).max_hp == spec_max_hp(data@.blue_orbs),
        final(session).max_magic == spec_max_magic(data@.purple_orbs, data@.dt_unlocked),
        *final(session) == (SessionData {
            max_hp: final(session).max_hp,
            max_magic: final(session).max_magic,
            ..*old(session)
        }),
{
    session.max_hp = max_hp_for(data);
    session.max_magic = max_magic_for(data);
}

/// The fraction of max health, as numerator and denominator, that a HurtLink takes on each
/// difficulty; on Heaven or Hell it kills.
pub fn hurt_fraction(difficulty: Difficulty) -> (fraction: (u32, u32))
    ensures
        fraction == (match difficulty {
            Difficulty::Easy => (1u32, 4u32),
            Difficulty::Normal => (1u32, 3u32),
            Difficulty::Hard => (1u32, 2u32),
            Difficulty::VeryHard => (2u32, 3u32),
            Difficulty::DanteMustDie => (5u32, 6u32),
            Difficulty::HeavenOrHell => (1u32, 1u32),
        }),
{
    match difficulty {
        Difficulty::Easy => (1, 4),
        Difficulty::Normal => (1, 3),
        Difficulty::Hard => (1, 2),
        Difficulty::VeryHard => (2, 3),
        Difficulty::DanteMustDie => (5, 6),
        Difficulty::HeavenOrHell => (1, 1),
    }
}

/// Puts a weapon into the first free slot of a pair (slots `first` and `first + 1`), unless
/// it is already in the first.
pub open spec fn place_in_slots(weapons: Seq<u8>, first: int, id: u8) -> Seq<u8> {
    let placed = if weapons[first] == 0xFF {
        weapons.update(first, id)
    } else {
        weapons
    };
    if placed[first] != id && placed[first + 1] == 0xFF {
        placed.update(first + 1, id)
    } else {
        placed
    }
}

/// The weapon slots after a weapon is considered: a received melee weapon goes to the melee
/// slots (0 and 1), a received gun to the gun slots (2 and 3).
pub open spec fn place_weapon(weapons: Seq<u8>, name: Seq<char>, received: bool) -> Seq<u8> {
    let id = spec_weapon_id(name);
    if !received {
        weapons
    } else {
        let after_melee = if names_contain(spec_melee_names(), name) {
            place_in_slots(weapons, 0, id)
        } else {
            weapons
        };
        if names_contain(spec_gun_names(), name) {
            place_in_slots(after_melee, 2, id)
        } else {
            after_melee
        }
    }
}

/// The weapon slots after the first `n` weapons of `names` are considered in order.
pub open spec fn weapons_after(
    weapons: Seq<u8>,
    names: Seq<&'static str>,
    items: Set<Seq<char>>,
    n: int,
) -> Seq<u8>
    decreases n,
{
    if n <= 0 {
        weapons
    } else {
        let before = weapons_after(weapons, names, items, n - 1);
        place_weapon(before, names[n - 1]@, items.contains(names[n - 1]@))
    }
}

/// The weapon and style unlocks after the first `n` weapons of `names` are considered in order:
/// each is unlocked exactly when it was received.
pub open spec fn unlocks_after(
    unlocks: Seq<bool>,
    names: Seq<&'static str>,
    items: Set<Seq<char>>,
    n: int,
) -> Seq<bool>
    decreases n,
{
    if n <= 0 {
        unlocks
    } else {
        unlocks_after(unlocks, names, items, n - 1).update(
            spec_unlocked_weapon_id(names[n - 1]@) as int,
            items.contains(names[n - 1]@),
        )
    }
}

/// The weapons, in table order.
pub open spec fn weapon_names() -> Seq<&'static str> {
    names_in_category(ItemCategory::Weapon, ITEM_COUNT as int)
}

pub(crate) proof fn lemma_weapon_names()
    ensures
        weapon_names() == seq![
            "Rebellion",
            "Cerberus",
            "Agni and Rudra",
            "Nevan",
            "Beowulf",
            "Ebony & Ivory",
            "Shotgun",
            "Artemis",
            "Spiral",
            "Kalina Ann",
            "Quicksilver Style",
            "Doppelganger Style",
        ],
{
    reveal_with_fuel(names_in_category, 59);
    assert(weapon_names() =~= seq![
        "Rebellion",
        "Cerberus",
        "Agni and Rudra",
        "Nevan",
        "Beowulf",
        "Ebony & Ivory",
        "Shotgun",
        "Artemis",
        "Spiral",
        "Kalina Ann",
        "Quicksilver Style",
        "Doppelganger Style",
    ]);
}

/// Puts the received weapons into free weapon slots of the session record and marks each
/// weapon unlocked exactly when it was received.
pub fn set_session_weapons(session: &mut SessionData, data: &ArchipelagoData)
    ensures
        final(session).weapons@ == weapons_after(
            old(session).weapons@,
            weapon_names(),
            data@.items,
            weapon_names().len() as int,
        ),
        final(session).weapon_style_unlocks@ == unlocks_after(
            old(session).weapon_style_unlocks@,
            weapon_names(),
            data@.items,
            weapon_names().len() as int,
        ),
        *final(session) == (SessionData {
            weapons: final(session).weapons,
            weapon_style_unlocks: final(session).weapon_style_unlocks,
            ..*old(session)
        }),
{
    let weapons = get_items_by_category(ItemCategory::Weapon);
    let melee = melee_names();
    let guns = gun_names();
    proof {
        lemma_weapon_names();
    }
    let mut i: usize = 0;
    while i < weapons.len()
        invariant
            i <= weapons@.len(),
            weapons@ == weapon_names(),
            melee@ == spec_melee_names(),
            guns@ == spec_gun_names(),
            weapons@.len() == 12,
            forall|j: int| 0 <= j < 12 ==> spec_unlocked_weapon_id(#[trigger] weapons@[j]@) < 14,
            session.weapons@ == weapons_after(old(session).weapons@, weapon_names(), data@.items, i as int),
            session.weapon_style_unlocks@ == unlocks_after(
                old(session).weapon_style_unlocks@,
                weapon_names(),
                data@.items,
                i as int,
            ),
            *session == (SessionData {
                weapons: session.weapons,
                weapon_style_unlocks: session.weapon_style_unlocks,
                ..*old(session)
            }),
        decreases weapons@.len() - i,
    {
        let weapon = weapons[i];
        let weapon_id = get_weapon_id(weapon);
        let received = data.has_item(weapon);
        let ghost before = session.weapons@;
        if received {
            if contains_name(&melee, weapon) {
                if session.weapons[0] == 0xFF {
                    session.weapons[0] = weapon_id;
                }
                if session.weapons[0] != weapon_id && session.weapons[1] == 0xFF {
                    session.weapons[1] = weapon_id;
                }
            }
            if contains_name(&guns, weapon) {
                if session.weapons[2] == 0xFF {
                    session.weapons[2] = weapon_id;
                }
                if session.weapons[2] != weapon_id && session.weapons[3] == 0xFF {
                    session.weapons[3] = weapon_id;
                }
            }
        }
        let unlocked = get_unlocked_weapon_id(weapon) as usize;
        session.weapon_style_unlocks[unlocked] = received;
        proof {
            assert(session.weapons@ =~= place_weapon(before, weapon@, received));
        }
        i = i + 1;
    }
}

/// Writes the received gun levels into the session record.
pub fn set_gun_levels(session: &mut SessionData, data: &ArchipelagoData)
    ensures
        final(session).ranged_weapon_levels@ == data@.gun_levels,
        *final(session) == (SessionData {
            ranged_weapon_levels: final(session).ranged_weapon_levels,
            ..*old(session)
        }),
{
    session.ranged_weapon_levels = data.gun_levels();
}

/// Writes the received style levels into the session record, as the game counts them.
pub fn set_style_levels(session: &mut SessionData, data: &ArchipelagoData)
    ensures
        final(session).style_levels@ == seq![
            style_level_for_game(data@.style_levels[1]),
            style_level_for_game(data@.style_levels[2]),
            style_level_for_game(data@.style_levels[0]),
            style_level_for_game(data@.style_levels[3]),
            0u32,
            0u32,
        ],
        *final(session) == (SessionData { style_levels: final(session).style_levels, ..*old(session) }),
{
    session.style_levels = data.get_style_level_array();
}

/// Adds red orbs to the session record and, when there is one, to the mission record.
pub fn give_red_orbs(session: &mut SessionData, mission: &mut Option<MissionData>, orbs: i32)
    requires
        i32::MIN <= old(session).red_orbs + orbs <= i32::MAX,
        *old(mission) matches Some(m) ==> i32::MIN <= m.red_orbs + orbs <= i32::MAX,
    ensures
        final(session).red_orbs == old(session).red_orbs + orbs,
        *final(session) == (SessionData { red_orbs: final(session).red_orbs, ..*old(session) }),
        final(mission).is_some() == old(mission).is_some(),
        *old(mission) matches Some(m) ==> *final(mission) == Some(
            MissionData { red_orbs: (m.red_orbs + orbs) as i32, ..m },
        ),
{
    session.red_orbs = session.red_orbs + orbs;
    if let Some(m) = mission {
        m.red_orbs = m.red_orbs + orbs;
    }
}

/// Adds one of a consumable to the session record and, when there is one, to the mission
/// record.
pub fn add_consumable(session: &mut SessionData, mission: &mut Option<MissionData>, item_id: u32)
    requires
        item_id < 20,
        old(session).items[item_id as int] < 255,
        *old(mission) matches Some(m) ==> m.items[item_id as int] < 255,
    ensures
        final(session).items@ == old(session).items@.update(
            item_id as int,
            (old(session).items[item_id as int] + 1) as u8,
        ),
        *final(session) == (SessionData { items: final(session).items, ..*old(session) }),
        final(mission).is_some() == old(mission).is_some(),
        *old(mission) matches Some(m) ==> *final(mission) == Some(
            MissionData {
                items: final(mission).unwrap().items,
                ..m
            },
        ) && final(mission).unwrap().items@ == m.items@.update(
            item_id as int,
            (m.items[item_id as int] + 1) as u8,
        ),
{
    if let Some(m) = mission {
        m.items[item_id as usize] = m.items[item_id as usize] + 1;
    }
    session.items[item_id as usize] = session.items[item_id as usize] + 1;
}

/// The experience that takes the equipped style up one level when a level of `style` is
/// received: none unless `style` is the equipped one (by the game's numbering) and below its
/// last level.
pub fn style_xp_to_grant(style: Style, equipped_style: u32, level: u32) -> (xp: Option<u32>)
    ensures
        xp == (if spec_style_internal_index(style) == equipped_style as int {
            if level == 0 {
                Some(30000u32)
            } else if level == 1 {
                Some(99999u32)
            } else {
                None
            }
        } else {
            None
        }),
{
    if style.get_internal_order_index() == equipped_style as usize {
        match level {
            0 => Some(30000),
            1 => Some(99999),
            _ => None,
        }
    } else {
        None
    }
}


/// Offset of the first copy of the location-check flags in the flag area.
pub const FIRST_FLAGS: usize = 0x7DA;
/// Offset of the second copy of the location-check flags in the flag area.
pub const SECOND_FLAGS: usize = 0x7E2;
/// Length of the flag area that the two copies need.
pub const FLAG_AREA_LEN: usize = 0x7EA;

/// Whether `name` is the name of an item of the table.
pub open spec fn is_item_name(name: Seq<char>) -> bool {
    exists|i: int| 0 <= i < ITEM_COUNT && #[trigger] spec_item(i).name@ == name
}

/// The id of the item named `name`.
pub open spec fn spec_id_of(name: Seq<char>) -> int {
    choose|i: int| 0 <= i < ITEM_COUNT && #[trigger] spec_item(i).name@ == name
}

/// The bit of an item's location-check flag within its byte.
pub open spec fn spec_flag_mask(id: int) -> u8 {
    1u8 << ((id % 8) as u8)
}

/// Whether the location-check flag of item `id` is set in both copies.
pub open spec fn spec_flag_set(flags: Seq<u8>, id: int) -> bool {
    &&& flags[FIRST_FLAGS + id / 8] & spec_flag_mask(id) != 0
    &&& flags[SECOND_FLAGS + id / 8] & spec_flag_mask(id) != 0
}

/// A byte of the flag area after an item's flag is set or cleared in it.
pub open spec fn spec_write_flag(byte: u8, mask: u8, set: bool) -> u8 {
    if set {
        byte | mask
    } else {
        byte & !mask
    }
}

/// The flag area after item `id`'s flag is set or cleared in both copies.
pub open spec fn spec_flags_after(flags: Seq<u8>, id: int, set: bool) -> Seq<u8> {
    let first = FIRST_FLAGS + id / 8;
    let second = SECOND_FLAGS + id / 8;
    let mask = spec_flag_mask(id);
    flags.update(first, spec_write_flag(flags[first], mask, set)).update(
        second,
        spec_write_flag(flags[second], mask, set),
    )
}

/// The byte and bit of an item's location-check flag.
fn flag_position(item_id: i32) -> (position: (usize, u8))
    requires
        0 <= item_id < ITEM_COUNT,
    ensures
        position.0 == item_id / 8,
        position.1 == spec_flag_mask(item_id as int),
{
    proof {
        assert((item_id >> 0x1Fi32) & 0x7i32 == 0i32) by (bit_vector)
            requires
                0 <= item_id < 58,
        ;
        assert(item_id >> 3i32 == item_id / 8i32) by (bit_vector)
            requires
                0 <= item_id < 58,
        ;
        assert(item_id & 7i32 == item_id % 8) by (bit_vector)
            requires
                0 <= item_id < 58,
        ;
    }
    let sign_fix: i32 = (item_id >> 0x1F) & 0x7;
    let adjusted: i32 = item_id + sign_fix;
    let item_flag: usize = (adjusted >> 3) as usize;
    let shift: i32 = item_id & 7;
    let mask: u8 = 1u8 << (shift as u8);
    (item_flag, mask)
}

/// The id of the item named `item_name`.
pub(crate) fn id_of_item(item_name: &str) -> (id: i32)
    requires
        is_item_name(item_name@),
    ensures
        0 <= id < ITEM_COUNT,
        id == spec_id_of(item_name@),
        spec_item(id as int).name@ == item_name@,
{
    proof {
        crate::constants::lemma_item_names_distinct();
    }
    match item_id_by_name(item_name) {
        Some(id) => id as i32,
        None => 0,
    }
}

/// Whether the location-check flag of the named item is set in both copies.
pub fn has_item_by_flags(flags: &Vec<u8>, item_name: &str) -> (set: bool)
    requires
        flags@.len() >= FLAG_AREA_LEN,
        is_item_name(item_name@),
    ensures
        set == spec_flag_set(flags@, spec_id_of(item_name@)),
{
    let item_id = id_of_item(item_name);
    let (item_flag, mask) = flag_position(item_id);
    if (flags[FIRST_FLAGS + item_flag] & mask) == 0 {
        return false;
    }
    if (flags[SECOND_FLAGS + item_flag] & mask) == 0 {
        return false;
    }
    true
}

/// Sets or clears the location-check flag of the named item in both copies.
pub fn set_loc_chk_flg(flags: &mut Vec<u8>, item_name: &str, set_flag: bool)
    requires
        old(flags)@.len() >= FLAG_AREA_LEN,
        is_item_name(item_name@),
    ensures
        final(flags)@ == spec_flags_after(old(flags)@, spec_id_of(item_name@), set_flag),
{
    let item_id = id_of_item(item_name);
    let (item_flag, mask) = flag_position(item_id);
    let first = FIRST_FLAGS + item_flag;
    let value = flags[first];
    if set_flag {
        flags.set(first, value | mask);
    } else {
        flags.set(first, value & !mask);
    }
    let second = SECOND_FLAGS + item_flag;
    let value = flags[second];
    if set_flag {
        flags.set(second, value | mask);
    } else {
        flags.set(second, value & !mask);
    }
}

proof fn lemma_mask_bits(byte: u8, shift: u8, other: u8)
    requires
        shift < 8,
        other < 8,
    ensures
        (byte | (1u8 << shift)) & (1u8 << shift) != 0,
        (byte & !(1u8 << shift)) & (1u8 << shift) == 0,
        shift != other ==> ((byte | (1u8 << shift)) & (1u8 << other)) == (byte & (1u8 << other)),
        shift != other ==> ((byte & !(1u8 << shift)) & (1u8 << other)) == (byte & (1u8 << other)),
{
    assert((byte | (1u8 << shift)) & (1u8 << shift) != 0) by (bit_vector)
        requires
            shift < 8,
    ;
    assert((byte & !(1u8 << shift)) & (1u8 << shift) == 0) by (bit_vector)
        requires
            shift < 8,
    ;
    assert(shift != other ==> ((byte | (1u8 << shift)) & (1u8 << other)) == (byte & (1u8
        << other))) by (bit_vector)
        requires
            shift < 8,
            other < 8,
    ;
    assert(shift != other ==> ((byte & !(1u8 << shift)) & (1u8 << other)) == (byte & (1u8
        << other))) by (bit_vector)
        requires
            shift < 8,
            other < 8,
    ;
}

/// A location-check flag reads back as it was last written, and writing one item's flag
/// leaves every other item's flag as it was.
pub proof fn lemma_flags_read_back(flags: Seq<u8>, id: int, set: bool, other: int)
    requires
        flags.len() >= FLAG_AREA_LEN,
        0 <= id < ITEM_COUNT,
        0 <= other < ITEM_COUNT,
    ensures
        spec_flag_set(spec_flags_after(flags, id, set), id) == set,
        other != id ==> spec_flag_set(spec_flags_after(flags, id, set), other) == spec_flag_set(
            flags,
            other,
        ),
{
    let after = spec_flags_after(flags, id, set);
    let first = FIRST_FLAGS + id / 8;
    let second = SECOND_FLAGS + id / 8;
    lemma_mask_bits(flags[first], (id % 8) as u8, (other % 8) as u8);
    lemma_mask_bits(flags[second], (id % 8) as u8, (other % 8) as u8);
    if other != id && other / 8 == id / 8 {
        assert(other % 8 != id % 8);
    }
}

/// Marks a weapon or key item as held or not in the mission record, and when asked sets or
/// clears its location-check flag the same way.
pub fn set_item(
    mission: &mut MissionData,
    flags: &mut Vec<u8>,
    item_name: &str,
    has_item: bool,
    set_flag: bool,
)
    requires
        old(flags)@.len() >= FLAG_AREA_LEN,
        is_item_name(item_name@),
    ensures
        final(mission).items@ == old(mission).items@.update(
            spec_id_of(item_name@),
            if has_item { 1u8 } else { 0u8 },
        ),
        *final(mission) == (MissionData { items: final(mission).items, ..*old(mission) }),
        final(flags)@ == (if set_flag {
            spec_flags_after(old(flags)@, spec_id_of(item_name@), has_item)
        } else {
            old(flags)@
        }),
{
    let item_id = id_of_item(item_name);
    mission.items[item_id as usize] = if has_item { 1 } else { 0 };
    if set_flag {
        set_loc_chk_flg(flags, item_name, has_item);
    }
}

/// Marks every weapon as held or not, with its location-check flag, as it was received.
pub fn set_weapons_in_inv(mission: &mut MissionData, flags: &mut Vec<u8>, data: &ArchipelagoData)
    requires
        old(flags)@.len() >= FLAG_AREA_LEN,
    ensures
        final(flags)@.len() == old(flags)@.len(),
        forall|i: int|
            0 <= i < weapon_names().len() ==> final(mission).items[spec_id_of(
                #[trigger] weapon_names()[i]@,
            )] == if data@.items.contains(weapon_names()[i]@) { 1u8 } else { 0u8 },
        forall|i: int|
            0 <= i < weapon_names().len() ==> spec_flag_set(
                final(flags)@,
                spec_id_of(#[trigger] weapon_names()[i]@),
            ) == data@.items.contains(weapon_names()[i]@),
        forall|id: int|
            0 <= id < ITEM_COUNT && !is_weapon_id(id) ==> #[trigger] spec_flag_set(final(flags)@, id)
                == spec_flag_set(old(flags)@, id),
        forall|id: int| 0 <= id < 62 && !is_weapon_id(id) ==> #[trigger] final(mission).items[id] == old(mission).items[id],
        *final(mission) == (MissionData { items: final(mission).items, ..*old(mission) }),
{
    let weapons = get_items_by_category(ItemCategory::Weapon);
    proof {
        lemma_weapon_names();
        lemma_weapon_ids();
    }
    let mut i: usize = 0;
    while i < weapons.len()
        invariant
            i <= weapons@.len(),
            weapons@ == weapon_names(),
            weapons@.len() == 12,
            flags@.len() == old(flags)@.len(),
            old(flags)@.len() >= FLAG_AREA_LEN,
            forall|j: int| 0 <= j < 12 ==> is_item_name(#[trigger] weapons@[j]@),
            forall|j: int, k: int|
                0 <= j < 12 && 0 <= k < 12 && j != k ==> spec_id_of(#[trigger] weapons@[j]@)
                    != spec_id_of(#[trigger] weapons@[k]@),
            forall|j: int| 0 <= j < 12 ==> 0 <= spec_id_of(#[trigger] weapons@[j]@) < ITEM_COUNT,
            forall|j: int|
                0 <= j < i ==> mission.items[spec_id_of(#[trigger] weapons@[j]@)] == if data@.items.contains(
                    weapons@[j]@,
                ) {
                    1u8
                } else {
                    0u8
                },
            forall|j: int|
                0 <= j < i ==> spec_flag_set(flags@, spec_id_of(#[trigger] weapons@[j]@))
                    == data@.items.contains(weapons@[j]@),
            forall|j: int| 0 <= j < 12 ==> spec_id_of(#[trigger] weapons@[j]@) == weapon_ids()[j],
            forall|id: int|
                0 <= id < ITEM_COUNT && !is_weapon_id(id) ==> #[trigger] spec_flag_set(flags@, id)
                    == spec_flag_set(old(flags)@, id),
            forall|id: int| 0 <= id < 62 && !is_weapon_id(id) ==> #[trigger] mission.items[id] == old(mission).items[id],
            *mission == (MissionData { items: mission.items, ..*old(mission) }),
        decreases weapons@.len() - i,
    {
        let weapon = weapons[i];
        let received = data.has_item(weapon);
        let ghost before_flags = flags@;
        let ghost before_items = mission.items@;
        set_item(mission, flags, weapon, received, true);
        proof {
            let id = spec_id_of(weapon@);
            assert forall|j: int| 0 <= j < i + 1 implies spec_flag_set(
                flags@,
                spec_id_of(#[trigger] weapons@[j]@),
            ) == data@.items.contains(weapons@[j]@) by {
                lemma_flags_read_back(before_flags, id, received, spec_id_of(weapons@[j]@));
            }
            assert(is_weapon_id(id)) by {
                assert(weapon_ids()[i as int] == id);
            }
            assert forall|other: int|
                0 <= other < ITEM_COUNT && !is_weapon_id(other) implies #[trigger] spec_flag_set(flags@, other)
                    == spec_flag_set(old(flags)@, other) by {
                lemma_flags_read_back(before_flags, id, received, other);
            }
        }
        i = i + 1;
    }
}

/// The item ids of the weapons, in the order of `weapon_names`.
pub open spec fn weapon_ids() -> Seq<int> {
    seq![0x16, 0x17, 0x18, 0x1A, 0x1B, 0x1C, 0x1D, 0x1E, 0x1F, 0x21, 0x22, 0x23]
}

/// Whether an item id is a weapon's.
pub open spec fn is_weapon_id(id: int) -> bool {
    weapon_ids().contains(id)
}

pub(crate) proof fn lemma_weapon_ids()
    ensures
        forall|j: int| 0 <= j < 12 ==> is_item_name(#[trigger] weapon_names()[j]@),
        forall|j: int|
            0 <= j < 12 ==> 0 <= spec_id_of(#[trigger] weapon_names()[j]@) < ITEM_COUNT,
        forall|j: int| 0 <= j < 12 ==> spec_id_of(#[trigger] weapon_names()[j]@) == weapon_ids()[j],
        forall|j: int, k: int|
            0 <= j < 12 && 0 <= k < 12 && j != k ==> spec_id_of(#[trigger] weapon_names()[j]@)
                != spec_id_of(#[trigger] weapon_names()[k]@),
        forall|id: int| #[trigger] is_weapon_id(id) ==> spec_item(id).mission is None && id != 0x20
            && id != 0x26,
{
    lemma_weapon_names();
    crate::constants::lemma_item_names_distinct();
    crate::constants::lemma_item_ids();
    let ids = weapon_ids();
    assert forall|j: int| 0 <= j < 12 implies spec_item(ids[j]).name@ == #[trigger] weapon_names()[j]@
        && is_item_name(weapon_names()[j]@) && spec_id_of(weapon_names()[j]@) == ids[j] by {
        assert(spec_item(ids[j]).name@ == weapon_names()[j]@);
        let c = spec_id_of(weapon_names()[j]@);
        assert(0 <= c < ITEM_COUNT && spec_item(c).name@ == weapon_names()[j]@);
    }
    assert forall|id: int| #[trigger] is_weapon_id(id) implies spec_item(id).mission is None && id
        != 0x20 && id != 0x26 by {
        let j = choose|j: int| 0 <= j < ids.len() && ids[j] == id;
        assert(0 <= j < 12);
    }
}

/// Every weapon has a slot number below 12 and a place below 14 in the table of unlocked
/// weapons and styles, and no two weapons share either.
pub proof fn lemma_weapon_slots(i: int, j: int)
    requires
        0 <= i < weapon_names().len(),
        0 <= j < weapon_names().len(),
    ensures
        weapon_names().len() == 12,
        spec_weapon_id(weapon_names()[i]@) < 12,
        spec_unlocked_weapon_id(weapon_names()[i]@) < 14,
        i != j ==> spec_weapon_id(weapon_names()[i]@) != spec_weapon_id(weapon_names()[j]@),
        i != j ==> spec_unlocked_weapon_id(weapon_names()[i]@) != spec_unlocked_weapon_id(weapon_names()[j]@),
{
    lemma_weapon_names();
    reveal_strlit("Rebellion");
    reveal_strlit("Cerberus");
    reveal_strlit("Agni and Rudra");
    reveal_strlit("Nevan");
    reveal_strlit("Beowulf");
    reveal_strlit("Ebony & Ivory");
    reveal_strlit("Shotgun");
    reveal_strlit("Artemis");
    reveal_strlit("Spiral");
    reveal_strlit("Kalina Ann");
    reveal_strlit("Quicksilver Style");
    reveal_strlit("Doppelganger Style");
    assert("Rebellion"@.len() == 9);
    assert("Cerberus"@.len() == 8);
    assert("Agni and Rudra"@.len() == 14);
    assert("Nevan"@.len() == 5);
    assert("Beowulf"@.len() == 7);
    assert("Ebony & Ivory"@.len() == 13);
    assert("Shotgun"@.len() == 7);
    assert("Artemis"@.len() == 7);
    assert("Spiral"@.len() == 6);
    assert("Kalina Ann"@.len() == 10);
    assert("Quicksilver Style"@.len() == 17);
    assert("Doppelganger Style"@.len() == 18);
    assert("Artemis"@[0] == 'A');
    assert("Beowulf"@[0] == 'B');
    assert("Shotgun"@[0] == 'S');
}

/// How a received weapon is placed in a pair of slots (`first` and `first + 1`): into the first
/// when it is free; else into the second when that is free and the first holds another weapon;
/// otherwise nothing changes, and no other slot ever does. So a pair that does not hold the
/// weapon in its second slot never comes to hold it twice, and two different weapons placed
/// into a free pair fill both slots.
pub proof fn lemma_weapon_pair(weapons: Seq<u8>, first: int, a: u8, b: u8)
    requires
        0 <= first,
        first + 1 < weapons.len(),
        a != 0xFF,
        b != 0xFF,
    ensures
        ({
            let r = place_in_slots(weapons, first, a);
            &&& r.len() == weapons.len()
            &&& forall|j: int| 0 <= j < weapons.len() && j != first && j != first + 1 ==> #[trigger] r[j] == weapons[j]
            &&& weapons[first] == 0xFF ==> r[first] == a && r[first + 1] == weapons[first + 1]
            &&& weapons[first] != 0xFF && weapons[first] != a && weapons[first + 1] == 0xFF ==> r[first]
                == weapons[first] && r[first + 1] == a
            &&& (weapons[first] == a || (weapons[first] != 0xFF && weapons[first + 1] != 0xFF)) ==> r == weapons
            &&& weapons[first + 1] != a && (weapons[first + 1] == 0xFF || weapons[first] != weapons[first + 1])
                ==> (r[first + 1] == 0xFF || r[first] != r[first + 1])
        }),
        weapons[first] == 0xFF && weapons[first + 1] == 0xFF && a != b ==> {
            let r = place_in_slots(place_in_slots(weapons, first, a), first, b);
            r[first] == a && r[first + 1] == b
        },
{
}

} // verus!
