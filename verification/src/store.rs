//! The decisions of the shop hooks: which purchases the randomizer allows, and which
//! checks a gun upgrade bought in the shop sends.
use vstd::prelude::*;
use vstd::string::StringExecFns;
use crate::constants::{gun_names, spec_gun_names, spec_item};
use crate::mapping::Mapping;
use crate::strings::{decimal, str_eq};

verus! {

/// The game would put the Shotgun or Cerberus in the second weapon slot; the randomizer
/// never lets it.
pub fn deny_cerberus_or_shotgun(_param_1: usize, _id: u8) -> (allowed: bool)
    ensures
        !allowed,
{
    false
}

/// Whether the skill shop refuses purchases: skills are items of the seed and buying them
/// is no check.
pub fn skill_shop_locked(mapping: &Mapping) -> (locked: bool)
    ensures
        locked == (mapping.randomize_skills && !mapping.shop_skill_checks),
{
    mapping.randomize_skills && !mapping.shop_skill_checks
}

/// Whether the gun upgrade shop refuses purchases: gun levels are items of the seed and
/// buying them is no check.
pub fn gun_shop_locked(mapping: &Mapping) -> (locked: bool)
    ensures
        locked == (mapping.randomize_gun_levels && !mapping.shop_gun_checks),
{
    mapping.randomize_gun_levels && !mapping.shop_gun_checks
}

/// Whether the gun upgrade shop shows, in place of the gun levels, how many level checks of
/// each gun were bought: when gun levels are items and buying them is a check.
pub fn shop_shows_gun_checks(mapping: &Mapping) -> (shows: bool)
    ensures
        shows == (mapping.shop_gun_checks && mapping.randomize_gun_levels),
{
    mapping.shop_gun_checks && mapping.randomize_gun_levels
}

/// The name of the location of buying a gun's level: "Purchase <gun> Level <level>".
pub open spec fn spec_gun_level_location(gun: Seq<char>, level: int) -> Seq<char> {
    "Purchase "@ + gun + " Level "@ + decimal(level as nat)
}

/// Whether the checked locations hold the one of buying the gun's level.
pub open spec fn level_checked(checked: Seq<Seq<char>>, gun: Seq<char>, level: int) -> bool {
    checked.contains(spec_gun_level_location(gun, level))
}

/// How many level checks of a gun were bought: 2 with both levels, 1 with level 2 alone.
pub open spec fn spec_gun_checks(checked: Seq<Seq<char>>, gun: Seq<char>) -> u8 {
    if level_checked(checked, gun, 2) && level_checked(checked, gun, 3) {
        2
    } else if level_checked(checked, gun, 2) {
        1
    } else {
        0
    }
}

fn contains_string(list: &Vec<String>, s: &str) -> (found: bool)
    ensures
        found == list@.map_values(|x: String| x@).contains(s@),
{
    let mut i: usize = 0;
    while i < list.len()
        invariant
            i <= list@.len(),
            forall|j: int| 0 <= j < i ==> (#[trigger] list@[j])@ != s@,
        decreases list@.len() - i,
    {
        if str_eq(list[i].as_str(), s) {
            proof {
                assert(list@.map_values(|x: String| x@)[i as int] == s@);
            }
            return true;
        }
        i = i + 1;
    }
    proof {
        let mapped = list@.map_values(|x: String| x@);
        assert forall|j: int| 0 <= j < mapped.len() implies mapped[j] != s@ by {
            assert(list@[j]@ != s@);
        }
    }
    false
}

/// The name of the location of buying a gun's level (see `spec_gun_level_location`).
pub fn gun_level_location(gun: &str, level: u64) -> (name: String)
    ensures
        name@ == spec_gun_level_location(gun@, level as int),
{
    let mut name = String::from_str("Purchase ");
    name.append(gun);
    name.append(" Level ");
    crate::strings::push_decimal(&mut name, level);
    name
}

/// How many level checks of each gun (in the order of `gun_names`) the checked locations show.
pub fn get_gun_level_checks(checked: &Vec<String>) -> (levels: [u8; 5])
    ensures
        forall|i: int|
            0 <= i < 5 ==> #[trigger] levels@[i] == spec_gun_checks(
                checked@.map_values(|x: String| x@),
                spec_gun_names()[i]@,
            ),
{
    let guns = gun_names();
    let mut res: [u8; 5] = [0; 5];
    let mut i: usize = 0;
    while i < 5
        invariant
            i <= 5,
            guns@ == spec_gun_names(),
            forall|k: int|
                0 <= k < i ==> #[trigger] res@[k] == spec_gun_checks(
                    checked@.map_values(|x: String| x@),
                    spec_gun_names()[k]@,
                ),
        decreases 5 - i,
    {
        let gun = guns[i];
        let level_2 = gun_level_location(gun, 2);
        let level_3 = gun_level_location(gun, 3);
        let has_level_2 = contains_string(checked, level_2.as_str());
        let has_level_3 = contains_string(checked, level_3.as_str());
        res[i] = if has_level_2 && has_level_3 {
            2
        } else if has_level_2 {
            1
        } else {
            0
        };
        i = i + 1;
    }
    res
}

/// The item id that stands for a gun in the checks of its level purchases.
pub open spec fn spec_gun_check_item(gun_index: int) -> u32 {
    if gun_index == 0 {
        0x1C
    } else if gun_index == 1 {
        0x1D
    } else if gun_index == 2 {
        0x1E
    } else if gun_index == 3 {
        0x1F
    } else {
        0x21
    }
}

/// What a gun upgrade bought in the shop leads to: the tracker is told the gun's level, and
/// a check is sent for the level.
#[derive(PartialEq, Eq, Structural, Clone, Copy, Debug)]
pub struct GunPurchase {
    pub gun_index: usize,
    pub level: u8,
    /// Whether the tracker is told the gun's new level (gun levels are no items).
    pub update_tracker: bool,
    /// The item id of the check for the level, when buying it is a check; the check's
    /// count is `level + 1`.
    pub check_item: Option<u32>,
}

/// The upgrades of a confirmed purchase, gun by gun: those whose level went up.
pub open spec fn purchases_upto(mapping: &Mapping, before: Seq<u8>, after: Seq<u8>, n: int) -> Seq<GunPurchase>
    decreases n,
{
    if n <= 0 {
        Seq::empty()
    } else if after[n - 1] > before[n - 1] {
        purchases_upto(mapping, before, after, n - 1).push(
            GunPurchase {
                gun_index: (n - 1) as usize,
                level: after[n - 1],
                update_tracker: !mapping.randomize_gun_levels,
                check_item: if mapping.shop_gun_checks {
                    Some(spec_gun_check_item(n - 1))
                } else {
                    None
                },
            },
        )
    } else {
        purchases_upto(mapping, before, after, n - 1)
    }
}

/// The upgrades of a confirmed gun purchase, from the gun levels
/// before and after it; none when the shop refuses purchases (see `gun_shop_locked`).
pub fn gun_upgrade_confirm(mapping: &Mapping, before: [u8; 5], after: [u8; 5]) -> (purchases: Vec<GunPurchase>)
    ensures
        mapping.randomize_gun_levels && !mapping.shop_gun_checks ==> purchases@.len() == 0,
        !(mapping.randomize_gun_levels && !mapping.shop_gun_checks) ==> purchases@ == purchases_upto(
            mapping,
            before@,
            after@,
            5,
        ),
{
    let mut purchases: Vec<GunPurchase> = Vec::new();
    if gun_shop_locked(mapping) {
        return purchases;
    }
    let mut gun_idx: usize = 0;
    while gun_idx < 5
        invariant
            gun_idx <= 5,
            purchases@ == purchases_upto(mapping, before@, after@, gun_idx as int),
        decreases 5 - gun_idx,
    {
        if after[gun_idx] > before[gun_idx] {
            let item: u32 = if gun_idx == 0 {
                0x1C
            } else if gun_idx == 1 {
                0x1D
            } else if gun_idx == 2 {
                0x1E
            } else if gun_idx == 3 {
                0x1F
            } else {
                0x21
            };
            purchases.push(
                GunPurchase {
                    gun_index: gun_idx,
                    level: after[gun_idx],
                    update_tracker: !mapping.randomize_gun_levels,
                    check_item: if mapping.shop_gun_checks {
                        Some(item)
                    } else {
                        None
                    },
                },
            );
        }
        gun_idx = gun_idx + 1;
    }
    purchases
}

/// The check sent for a gun's level purchase is the gun's own item: the item table's entry
/// with that id is the gun (Ebony & Ivory 0x1C, Shotgun 0x1D, Artemis 0x1E, Spiral 0x1F,
/// Kalina Ann 0x21), so different guns send different checks; and every purchase found is of a
/// gun whose level rose, at its new level.
pub proof fn lemma_gun_purchases(mapping: &Mapping, before: Seq<u8>, after: Seq<u8>, n: int)
    requires
        0 <= n <= 5,
        before.len() == 5,
        after.len() == 5,
    ensures
        forall|g: int| 0 <= g < 5 ==> (#[trigger] spec_item(spec_gun_check_item(g) as int)).name == spec_gun_names()[g],
        forall|g: int, h: int| 0 <= g < 5 && 0 <= h < 5 && g != h ==> #[trigger] spec_gun_check_item(g)
            != #[trigger] spec_gun_check_item(h),
        forall|k: int|
            0 <= k < purchases_upto(mapping, before, after, n).len() ==> {
                let p = #[trigger] purchases_upto(mapping, before, after, n)[k];
                &&& p.gun_index < 5
                &&& after[p.gun_index as int] > before[p.gun_index as int]
                &&& p.level == after[p.gun_index as int]
                &&& (p.check_item matches Some(c) ==> spec_item(c as int).name == spec_gun_names()[p.gun_index as int])
                &&& (p.check_item is Some <==> mapping.shop_gun_checks)
            },
    decreases n,
{
    assert(spec_item(0x1C).name == spec_gun_names()[0]);
    assert(spec_item(0x1D).name == spec_gun_names()[1]);
    assert(spec_item(0x1E).name == spec_gun_names()[2]);
    assert(spec_item(0x1F).name == spec_gun_names()[3]);
    assert(spec_item(0x21).name == spec_gun_names()[4]);
    if n > 0 {
        lemma_gun_purchases(mapping, before, after, n - 1);
    }
}

} // verus!
