//! The cached data package: which games' cached checksums no longer match the room's, and
//! the id-to-name lookups built from it.
use vstd::prelude::*;
use vstd::string::StringExecFns;
use crate::strings::str_eq;

verus! {

/// The first entry, from `start` on, stored under the key.
pub open spec fn first_entry(entries: Seq<(Seq<char>, Seq<char>)>, key: Seq<char>, start: int) -> Option<Seq<char>>
    decreases entries.len() - start,
{
    if start < 0 || start >= entries.len() {
        None
    } else if entries[start].0 == key {
        Some(entries[start].1)
    } else {
        first_entry(entries, key, start + 1)
    }
}

/// Name-and-checksum pairs as values.
pub open spec fn pairs_view(pairs: Seq<(String, String)>) -> Seq<(Seq<char>, Seq<char>)> {
    pairs.map_values(|p: (String, String)| (p.0@, p.1@))
}

/// Whether a game's cache matches the room: the cache holds the game, the room has a checksum
/// for it, and the two checksums are equal.
pub open spec fn cache_matches(
    game: Seq<char>,
    room: Seq<(Seq<char>, Seq<char>)>,
    cached: Seq<(Seq<char>, Seq<char>)>,
) -> bool {
    match (first_entry(cached, game, 0), first_entry(room, game, 0)) {
        (Some(cached_sum), Some(room_sum)) => cached_sum == room_sum,
        _ => false,
    }
}

/// The games, among the first `n` of the room, in order, whose cache is missing or does not
/// match the room's checksum.
pub open spec fn checksum_scan(
    games: Seq<Seq<char>>,
    room: Seq<(Seq<char>, Seq<char>)>,
    cached: Seq<(Seq<char>, Seq<char>)>,
    n: int,
) -> Seq<Seq<char>>
    decreases n,
{
    if n <= 0 {
        Seq::empty()
    } else {
        let failed = checksum_scan(games, room, cached, n - 1);
        if cache_matches(games[n - 1], room, cached) {
            failed
        } else {
            failed.push(games[n - 1])
        }
    }
}

fn find_entry<'a>(entries: &'a Vec<(String, String)>, key: &str) -> (found: Option<&'a String>)
    ensures
        found matches Some(v) ==> first_entry(pairs_view(entries@), key@, 0) == Some(v@),
        found is None ==> first_entry(pairs_view(entries@), key@, 0) is None,
{
    let ghost view = pairs_view(entries@);
    let mut i: usize = 0;
    while i < entries.len()
        invariant
            i <= entries@.len(),
            view == pairs_view(entries@),
            first_entry(view, key@, 0) == first_entry(view, key@, i as int),
        decreases entries@.len() - i,
    {
        if str_eq(entries[i].0.as_str(), key) {
            return Some(&entries[i].1);
        }
        i = i + 1;
    }
    None
}

/// The room's games, in order, whose cached data is missing or does not match the room's
/// checksum (a game without a checksum in the room counts as not matching); none when every
/// game matches. `room_checksums` and `cached` pair each game's name with its checksum.
pub fn find_checksum_errors(
    games: &Vec<String>,
    room_checksums: &Vec<(String, String)>,
    cached: &Vec<(String, String)>,
) -> (errors: Option<Vec<String>>)
    ensures
        ({
            let failed = checksum_scan(
                games@.map_values(|g: String| g@),
                pairs_view(room_checksums@),
                pairs_view(cached@),
                games@.len() as int,
            );
            if failed.len() == 0 {
                errors is None
            } else {
                errors matches Some(list) && list@.map_values(|g: String| g@) == failed
            }
        }),
{
    let ghost names = games@.map_values(|g: String| g@);
    let mut failed_checks: Vec<String> = Vec::new();
    let mut i: usize = 0;
    while i < games.len()
        invariant
            i <= games@.len(),
            names == games@.map_values(|g: String| g@),
            checksum_scan(names, pairs_view(room_checksums@), pairs_view(cached@), i as int)
                == failed_checks@.map_values(|g: String| g@),
        decreases games@.len() - i,
    {
        let name = games[i].as_str();
        proof {
            assert(names[i as int] == name@);
        }
        let matches = match (find_entry(cached, name), find_entry(room_checksums, name)) {
            (Some(cached_sum), Some(room_sum)) => str_eq(room_sum.as_str(), cached_sum.as_str()),
            _ => false,
        };
        if !matches {
            failed_checks.push(String::from_str(name));
        }
        proof {
            assert(failed_checks@.map_values(|g: String| g@) =~= checksum_scan(
                names,
                pairs_view(room_checksums@),
                pairs_view(cached@),
                i + 1,
            ));
        }
        i = i + 1;
    }
    if failed_checks.len() == 0 {
        None
    } else {
        Some(failed_checks)
    }
}

/// The names of a data package's items or locations looked up by id: each name-and-id pair
/// turned around, in order.
pub fn invert_name_ids(pairs: &Vec<(String, i64)>) -> (inverted: Vec<(i64, String)>)
    ensures
        inverted@.len() == pairs@.len(),
        forall|i: int|
            0 <= i < pairs@.len() ==> (#[trigger] inverted@[i]).0 == pairs@[i].1 && inverted@[i].1@
                == pairs@[i].0@,
{
    let mut inverted: Vec<(i64, String)> = Vec::new();
    let mut i: usize = 0;
    while i < pairs.len()
        invariant
            i <= pairs@.len(),
            inverted@.len() == i,
            forall|k: int|
                0 <= k < i ==> (#[trigger] inverted@[k]).0 == pairs@[k].1 && inverted@[k].1@ == pairs@[k].0@,
        decreases pairs@.len() - i,
    {
        inverted.push((pairs[i].1, String::from_str(pairs[i].0.as_str())));
        i = i + 1;
    }
    inverted
}

/// The game's item names by id, from its data package's name-to-id pairs when the package
/// is loaded.
pub fn get_item_id_to_name(item_name_to_id: Option<&Vec<(String, i64)>>) -> (names: Option<Vec<(i64, String)>>)
    ensures
        names is Some == item_name_to_id is Some,
        names matches Some(list) ==> list@.len() == item_name_to_id.unwrap()@.len() && forall|i: int|
            0 <= i < list@.len() ==> (#[trigger] list@[i]).0 == item_name_to_id.unwrap()@[i].1
                && list@[i].1@ == item_name_to_id.unwrap()@[i].0@,
{
    match item_name_to_id {
        Some(pairs) => Some(invert_name_ids(pairs)),
        None => None,
    }
}

/// The game's location names by id, from its data package's name-to-id pairs when the
/// package is loaded.
pub fn get_location_id_to_name(location_name_to_id: Option<&Vec<(String, i64)>>) -> (names: Option<Vec<(i64, String)>>)
    ensures
        names is Some == location_name_to_id is Some,
        names matches Some(list) ==> list@.len() == location_name_to_id.unwrap()@.len() && forall|i: int|
            0 <= i < list@.len() ==> (#[trigger] list@[i]).0 == location_name_to_id.unwrap()@[i].1
                && list@[i].1@ == location_name_to_id.unwrap()@[i].0@,
{
    match location_name_to_id {
        Some(pairs) => Some(invert_name_ids(pairs)),
        None => None,
    }
}

} // verus!
