//! The Bloody Palace hint game: every so many floors climbed earns a hint on a location of
//! the seed that is neither checked nor hinted yet.
use vstd::prelude::*;
use rand::seq::IteratorRandom;
use vstd::string::StringExecFns;
use crate::strings::{decimal, push_decimal};

verus! {

broadcast use {vstd::seq_lib::group_filter_ensures, vstd::seq::Seq::lemma_filter_contains_rev};

/// The floors at which hints are earned since the last floor change: from the first
/// multiple of `floors_per_hint` after `last_level`, up to the last one at most `level`.
pub fn hint_floor_range(last_level: u16, level: u16, floors_per_hint: u16) -> (range: (u16, u16))
    requires
        floors_per_hint > 0,
        (last_level / floors_per_hint + 1) * floors_per_hint <= u16::MAX,
    ensures
        range.0 == (last_level / floors_per_hint + 1) * floors_per_hint,
        range.1 == (level / floors_per_hint) * floors_per_hint,
{
    proof {
        assert((level / floors_per_hint) * floors_per_hint <= level) by (nonlinear_arith)
            requires
                floors_per_hint > 0,
        ;
    }
    let q = last_level / floors_per_hint;
    assert(q + 1 <= 65535 && (q + 1) * floors_per_hint <= 65535) by (nonlinear_arith)
        requires
            floors_per_hint > 0,
            (last_level / floors_per_hint + 1) * floors_per_hint <= 65535,
            q == last_level / floors_per_hint,
    ;
    let first = (q + 1) * floors_per_hint;
    let last = (level / floors_per_hint) * floors_per_hint;
    (first, last)
}

/// How many hints the floors from `first` to `last`, every `step` floors, earn.
pub open spec fn hints_between(first: int, last: int, step: int) -> nat
    decreases last - first + step,
{
    if step <= 0 || first > last {
        0
    } else {
        1 + hints_between(first + step, last, step)
    }
}

/// The locations that a hint can be made for: the unchecked ones that are not hinted yet,
/// in order.
pub open spec fn hintable(unchecked: Seq<i64>, hinted: Seq<i64>) -> Seq<i64> {
    unchecked.filter(|l: i64| !hinted.contains(l))
}

fn contains_id(list: &Vec<i64>, id: i64) -> (found: bool)
    ensures
        found == list@.contains(id),
{
    let mut i: usize = 0;
    while i < list.len()
        invariant
            i <= list@.len(),
            forall|j: int| 0 <= j < i ==> list@[j] != id,
        decreases list@.len() - i,
    {
        if list[i] == id {
            return true;
        }
        i = i + 1;
    }
    false
}

fn hintable_locations(unchecked: &Vec<i64>, hinted: &Vec<i64>) -> (possible: Vec<i64>)
    ensures
        possible@ == hintable(unchecked@, hinted@),
{
    let mut possible: Vec<i64> = Vec::new();
    let mut i: usize = 0;
    while i < unchecked.len()
        invariant
            i <= unchecked@.len(),
            possible@ == unchecked@.take(i as int).filter(|l: i64| !hinted@.contains(l)),
        decreases unchecked@.len() - i,
    {
        proof {
            reveal(Seq::filter);
            assert(unchecked@.take(i + 1).drop_last() =~= unchecked@.take(i as int));
            assert(unchecked@.take(i + 1).last() == unchecked@[i as int]);
        }
        let location = unchecked[i];
        if !contains_id(hinted, location) {
            possible.push(location);
        }
        i = i + 1;
    }
    proof {
        assert(unchecked@.take(unchecked@.len() as int) =~= unchecked@);
    }
    possible
}

/// A random place in a list of `len` entries: `(0..len).choose(&mut rand::rng())` from
/// rand, which gives none for an empty list and a place below `len` otherwise.
#[verifier::external_body]
fn choose_index(len: usize) -> (picked: Option<usize>)
    ensures
        len == 0 ==> picked.is_none(),
        len > 0 ==> (picked.is_some() && picked.unwrap() < len),
{
    (0..len).choose(&mut rand::rng())
}

/// Whether no entry of `s` appears twice.
pub open spec fn all_distinct(s: Seq<i64>) -> bool {
    forall|a: int, b: int| 0 <= a < s.len() && 0 <= b < s.len() && a != b ==> s[a] != s[b]
}

/// Whether `picks` can be drawn from a pool of `len` entries, one after the other, each
/// taking its entry out: the `k`-th is a place among the `len - k` entries left.
pub open spec fn picks_fit(picks: Seq<usize>, len: int) -> bool {
    &&& picks.len() <= len
    &&& forall|k: int| 0 <= k < picks.len() ==> #[trigger] picks[k] < len - k
}

/// The pool once the entry at `i` is taken out by moving the last entry into its place.
pub open spec fn swap_removed(pool: Seq<i64>, i: int) -> Seq<i64> {
    pool.update(i, pool.last()).drop_last()
}

/// The hints that the draws `picks` give from `pool`: the first draw takes the entry at its
/// place out of the pool (the last entry moving into that place), and so on for the others.
pub open spec fn spec_pick_hints(pool: Seq<i64>, picks: Seq<usize>) -> Seq<i64>
    decreases picks.len(),
{
    if picks.len() == 0 {
        Seq::empty()
    } else {
        seq![pool[picks[0] as int]] + spec_pick_hints(swap_removed(pool, picks[0] as int), picks.drop_first())
    }
}

/// Takes out of `pool` the entry at each place of `picks` in turn (see `spec_pick_hints`).
pub fn pick_hints(pool: Vec<i64>, picks: &Vec<usize>) -> (hints: Vec<i64>)
    requires
        picks_fit(picks@, pool@.len() as int),
    ensures
        hints@ == spec_pick_hints(pool@, picks@),
{
    let mut pool = pool;
    let ghost start = pool@;
    let mut hints: Vec<i64> = Vec::new();
    let mut k: usize = 0;
    proof {
        assert(picks@.skip(0) =~= picks@);
        assert(hints@ + spec_pick_hints(pool@, picks@) =~= spec_pick_hints(pool@, picks@));
    }
    while k < picks.len()
        invariant
            k <= picks@.len(),
            picks_fit(picks@.skip(k as int), pool@.len() as int),
            hints@ + spec_pick_hints(pool@, picks@.skip(k as int)) == spec_pick_hints(start, picks@),
        decreases picks@.len() - k,
    {
        let ghost rest = picks@.skip(k as int);
        proof {
            assert(rest[0] == picks@[k as int]);
            assert(rest.drop_first() =~= picks@.skip(k + 1));
            assert(picks_fit(picks@.skip(k + 1), pool@.len() - 1)) by {
                assert forall|j: int| 0 <= j < picks@.skip(k + 1).len() implies #[trigger] picks@.skip(k + 1)[j]
                    < pool@.len() - 1 - j by {
                    assert(picks@.skip(k + 1)[j] == rest[j + 1]);
                }
            }
        }
        let ghost before = pool@;
        let picked = pool.swap_remove(picks[k]);
        hints.push(picked);
        proof {
            assert(pool@ == swap_removed(before, rest[0] as int));
            assert(hints@ + spec_pick_hints(pool@, picks@.skip(k + 1)) =~= (hints@.drop_last() + spec_pick_hints(
                before,
                rest,
            )));
        }
        k = k + 1;
    }
    proof {
        assert(picks@.skip(k as int) =~= Seq::<usize>::empty());
        assert(hints@ + Seq::<i64>::empty() =~= hints@);
    }
    hints
}

/// Draws `count` places at random from a pool of `len` entries that shrinks by one with each
/// draw (see `choose_index`).
fn draw_picks(len: usize, count: usize) -> (picks: Vec<usize>)
    requires
        count <= len,
    ensures
        picks@.len() == count,
        picks_fit(picks@, len as int),
{
    let mut picks: Vec<usize> = Vec::new();
    let mut k: usize = 0;
    while k < count
        invariant
            k <= count <= len,
            picks@.len() == k,
            forall|j: int| 0 <= j < k ==> #[trigger] picks@[j] < len - j,
        decreases count - k,
    {
        let index = match choose_index(len - k) {
            Some(i) => i,
            None => 0,
        };
        picks.push(index);
        k = k + 1;
    }
    picks
}

/// What the hints drawn from `pool` are: entries of the pool, as many as the draws, and all
/// different when the pool's entries are.
pub proof fn lemma_pick_hints(pool: Seq<i64>, picks: Seq<usize>)
    requires
        picks_fit(picks, pool.len() as int),
    ensures
        spec_pick_hints(pool, picks).len() == picks.len(),
        forall|k: int| 0 <= k < picks.len() ==> pool.contains(#[trigger] spec_pick_hints(pool, picks)[k]),
        all_distinct(pool) ==> all_distinct(spec_pick_hints(pool, picks)),
    decreases picks.len(),
{
    if picks.len() > 0 {
        let i = picks[0] as int;
        let rest_pool = swap_removed(pool, i);
        let rest_picks = picks.drop_first();
        assert(picks_fit(rest_picks, rest_pool.len() as int)) by {
            assert forall|j: int| 0 <= j < rest_picks.len() implies #[trigger] rest_picks[j] < rest_pool.len() - j by {
                assert(rest_picks[j] == picks[j + 1]);
            }
        }
        lemma_pick_hints(rest_pool, rest_picks);
        let rest = spec_pick_hints(rest_pool, rest_picks);
        let all = spec_pick_hints(pool, picks);
        assert(all == seq![pool[i]] + rest);
        assert forall|j: int| 0 <= j < rest_pool.len() implies pool.contains(#[trigger] rest_pool[j]) by {
            if j == i {
                assert(rest_pool[j] == pool[pool.len() - 1]);
            } else {
                assert(rest_pool[j] == pool[j]);
            }
        }
        assert forall|k: int| 0 <= k < picks.len() implies pool.contains(#[trigger] all[k]) by {
            if k == 0 {
                assert(all[0] == pool[i]);
            } else {
                assert(all[k] == rest[k - 1]);
                assert(rest_pool.contains(rest[k - 1]));
            }
        }
        if all_distinct(pool) {
            assert(all_distinct(rest_pool)) by {
                assert forall|a: int, b: int| 0 <= a < rest_pool.len() && 0 <= b < rest_pool.len() && a != b implies rest_pool[a]
                    != rest_pool[b] by {
                    let ia = if a == i { pool.len() - 1 } else { a };
                    let ib = if b == i { pool.len() - 1 } else { b };
                    assert(rest_pool[a] == pool[ia]);
                    assert(rest_pool[b] == pool[ib]);
                }
            }
            assert(!rest_pool.contains(pool[i])) by {
                if rest_pool.contains(pool[i]) {
                    let j = choose|j: int| 0 <= j < rest_pool.len() && rest_pool[j] == pool[i];
                    let ij = if j == i { pool.len() - 1 } else { j };
                    assert(rest_pool[j] == pool[ij]);
                }
            }
            assert forall|a: int, b: int| 0 <= a < all.len() && 0 <= b < all.len() && a != b implies all[a] != all[b] by {
                if a > 0 && b > 0 {
                    assert(all[a] == rest[a - 1] && all[b] == rest[b - 1]);
                } else if a == 0 {
                    assert(all[b] == rest[b - 1]);
                    assert(rest_pool.contains(rest[b - 1]));
                } else {
                    assert(all[a] == rest[a - 1]);
                    assert(rest_pool.contains(rest[a - 1]));
                }
            }
        }
    }
}

/// The locations to hint for the floors from `first` to `last`, every `floors_per_hint`
/// floors: one per such floor, drawn at random, each taken out of the unchecked locations that
/// are not hinted yet (see `pick_hints`). So the hints are such locations, all different when
/// the unchecked locations are.
pub fn fire_off_hints(
    unchecked: &Vec<i64>,
    hinted: &Vec<i64>,
    first: u16,
    last: u16,
    floors_per_hint: u16,
) -> (hints: Vec<i64>)
    requires
        floors_per_hint > 0,
        first + hints_between(first as int, last as int, floors_per_hint as int) * floors_per_hint
            <= u16::MAX,
        hints_between(first as int, last as int, floors_per_hint as int) <= hintable(
            unchecked@,
            hinted@,
        ).len(),
    ensures
        exists|picks: Seq<usize>|
            picks_fit(picks, hintable(unchecked@, hinted@).len() as int) && picks.len() == hints_between(
                first as int,
                last as int,
                floors_per_hint as int,
            ) && hints@ == spec_pick_hints(hintable(unchecked@, hinted@), picks),
        hints@.len() == hints_between(first as int, last as int, floors_per_hint as int),
        forall|k: int|
            0 <= k < hints@.len() ==> unchecked@.contains(#[trigger] hints@[k]) && !hinted@.contains(
                hints@[k],
            ),
        all_distinct(unchecked@) ==> all_distinct(hints@),
{
    let possible = hintable_locations(unchecked, hinted);
    let ghost pool = possible@;
    let possible_len = possible.len();
    let mut count: usize = 0;
    let mut f: u16 = first;
    while f <= last
        invariant
            floors_per_hint > 0,
            f + hints_between(f as int, last as int, floors_per_hint as int) * floors_per_hint
                == first + hints_between(first as int, last as int, floors_per_hint as int) * floors_per_hint,
            first + hints_between(first as int, last as int, floors_per_hint as int) * floors_per_hint
                <= u16::MAX,
            count + hints_between(f as int, last as int, floors_per_hint as int)
                == hints_between(first as int, last as int, floors_per_hint as int),
            hints_between(first as int, last as int, floors_per_hint as int) <= pool.len(),
            pool.len() == possible_len,
        decreases last as int + floors_per_hint as int - f as int,
    {
        proof {
            let h = hints_between(f as int + floors_per_hint as int, last as int, floors_per_hint as int);
            assert(hints_between(f as int, last as int, floors_per_hint as int) == 1 + h);
            assert(f + (1 + h) * floors_per_hint == (f + floors_per_hint) + h * floors_per_hint
                && (f + floors_per_hint) + h * floors_per_hint >= f + floors_per_hint) by (nonlinear_arith);
        }
        count = count + 1;
        f = f + floors_per_hint;
    }
    let picks = draw_picks(possible.len(), count);
    let hints = pick_hints(possible, &picks);
    proof {
        lemma_pick_hints(pool, picks@);
        assert forall|k: int| 0 <= k < hints@.len() implies unchecked@.contains(#[trigger] hints@[k])
            && !hinted@.contains(hints@[k]) by {
            assert(pool.contains(hints@[k]));
        }
        if all_distinct(unchecked@) {
            lemma_filter_distinct(unchecked@, hinted@);
        }
    }
    hints
}

proof fn lemma_filter_distinct(unchecked: Seq<i64>, hinted: Seq<i64>)
    requires
        all_distinct(unchecked),
    ensures
        all_distinct(hintable(unchecked, hinted)),
    decreases unchecked.len(),
{
    reveal(Seq::filter);
    if unchecked.len() > 0 {
        let rest = unchecked.drop_last();
        assert(all_distinct(rest)) by {
            assert forall|a: int, b: int| 0 <= a < rest.len() && 0 <= b < rest.len() && a != b implies rest[a]
                != rest[b] by {
                assert(rest[a] == unchecked[a] && rest[b] == unchecked[b]);
            }
        }
        lemma_filter_distinct(rest, hinted);
        let f = |l: i64| !hinted.contains(l);
        let x = unchecked.last();
        assert(!rest.contains(x)) by {
            if rest.contains(x) {
                let j = choose|j: int| 0 <= j < rest.len() && rest[j] == x;
                assert(unchecked[j] == unchecked[unchecked.len() - 1]);
            }
        }
        if f(x) {
            let fr = rest.filter(f);
            assert(hintable(unchecked, hinted) == fr.push(x));
            assert forall|a: int, b: int| 0 <= a < fr.len() + 1 && 0 <= b < fr.len() + 1 && a != b implies fr.push(
                x,
            )[a] != fr.push(x)[b] by {
                if a < fr.len() && b < fr.len() {
                } else if a < fr.len() {
                    assert(fr.contains(fr[a]));
                    assert(rest.contains(fr[a]));
                } else {
                    assert(fr.contains(fr[b]));
                    assert(rest.contains(fr[b]));
                }
            }
        } else {
            assert(hintable(unchecked, hinted) == rest.filter(f));
        }
    }
}


/// The mission number of the Bloody Palace.
pub const BLOODY_PALACE: u32 = 21;

/// The event code of climbing to a new Bloody Palace floor.
pub const FLOOR_CHANGE_EVENT: u8 = 0x8A;

/// The floors that earn hints when an event runs: only for the
/// Bloody Palace's floor-change event, the range of `hint_floor_range`.
pub fn on_bp_floor_change(mission: u32, event_code: u8, last_level: u16, level: u16, floors_per_hint: u16) -> (range: Option<(u16, u16)>)
    requires
        mission == BLOODY_PALACE && event_code == FLOOR_CHANGE_EVENT ==> floors_per_hint > 0 && (last_level
            / floors_per_hint + 1) * floors_per_hint <= u16::MAX,
    ensures
        range == (if mission == BLOODY_PALACE && event_code == FLOOR_CHANGE_EVENT {
            Some(
                (
                    ((last_level / floors_per_hint + 1) * floors_per_hint) as u16,
                    ((level / floors_per_hint) * floors_per_hint) as u16,
                ),
            )
        } else {
            None
        }),
{
    if mission == BLOODY_PALACE && event_code == FLOOR_CHANGE_EVENT {
        Some(hint_floor_range(last_level, level, floors_per_hint))
    } else {
        None
    }
}

/// The data-storage key of the hints already read by a player: "_read_hints_<team>_<slot>".
pub fn read_hints_key(team: u32, slot: u32) -> (key: String)
    ensures
        key@ == "_read_hints_"@ + decimal(team as nat) + "_"@ + decimal(slot as nat),
{
    let mut key = String::from_str("_read_hints_");
    push_decimal(&mut key, team as u64);
    key.append("_");
    push_decimal(&mut key, slot as u64);
    key
}

} // verus!
