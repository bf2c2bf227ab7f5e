//! Trusted items for the `bimap` crate's `BiHashMap`, keyed by names and ids.
use vstd::prelude::*;
use bimap::BiHashMap;

verus! {

#[verifier::external_type_specification]
#[verifier::external_body]
#[verifier::reject_recursive_types(L)]
#[verifier::reject_recursive_types(R)]
#[verifier::reject_recursive_types(LS)]
#[verifier::reject_recursive_types(RS)]
pub struct ExBiHashMap<L, R, LS, RS>(BiHashMap<L, R, LS, RS>);

/// The left-to-right pairs that a name-to-id bimap holds, each name taken by its characters.
pub uninterp spec fn name_id_pairs(pairs: BiHashMap<&'static str, u32>) -> Map<Seq<char>, u32>;

/// What `BiHashMap::insert(left, right)` leaves: the pair whose left value is `left` and the
/// pair whose right value is `right` are removed, then `left <> right` is added.
pub open spec fn spec_bimap_insert(pairs: Map<Seq<char>, u32>, left: Seq<char>, right: u32) -> Map<
    Seq<char>,
    u32,
> {
    Map::new(
        |k: Seq<char>| k == left || (pairs.contains_key(k) && pairs[k] != right),
        |k: Seq<char>|
            if k == left {
                right
            } else {
                pairs[k]
            },
    )
}

/// Whether some pair of `pairs` has `right` as its right value.
pub open spec fn spec_has_right(pairs: Map<Seq<char>, u32>, right: u32) -> bool {
    exists|k: Seq<char>| pairs.contains_key(k) && #[trigger] pairs[k] == right
}

/// `BiHashMap::new`: the bimap that it returns holds no pair.
#[verifier::external_body]
pub(crate) fn name_id_map_new() -> (res: BiHashMap<&'static str, u32>)
    ensures
        name_id_pairs(res).dom().is_empty(),
{
    BiHashMap::new()
}

/// `BiHashMap::insert`: removes the pairs that hold `left` or `right`, then adds
/// `left <> right` (the source removes by left, then by right, then inserts). The value
/// that tells which pairs were overwritten is dropped.
#[verifier::external_body]
pub(crate) fn name_id_map_insert(
    pairs: &mut BiHashMap<&'static str, u32>,
    left: &'static str,
    right: u32,
)
    ensures
        name_id_pairs(*final(pairs)) == spec_bimap_insert(name_id_pairs(*old(pairs)), left@, right),
{
    pairs.insert(left, right);
}

/// `BiHashMap::get_by_left`: the right value paired with `left`, if there is one
/// (`&str` compares and hashes by its characters).
#[verifier::external_body]
pub(crate) fn name_id_map_get_by_left(
    pairs: &BiHashMap<&'static str, u32>,
    left: &str,
) -> (res: Option<u32>)
    ensures
        res == (if name_id_pairs(*pairs).contains_key(left@) {
            Some(name_id_pairs(*pairs)[left@])
        } else {
            None
        }),
{
    pairs.get_by_left(left).copied()
}

/// `BiHashMap::get_by_right`: the left value paired with `right`, if there is one.
#[verifier::external_body]
pub(crate) fn name_id_map_get_by_right(
    pairs: &BiHashMap<&'static str, u32>,
    right: u32,
) -> (res: Option<&'static str>)
    ensures
        res.is_some() == spec_has_right(name_id_pairs(*pairs), right),
        res matches Some(found) ==> name_id_pairs(*pairs).contains_key(found@) && name_id_pairs(*pairs)[found@] == right,
{
    pairs.get_by_right(&right).copied()
}

} // verus!
