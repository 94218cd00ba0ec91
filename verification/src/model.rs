//! Copying and comparing values by their views.
//!
//! A value that holds texts or lists is known to the contracts by its view. The
//! two traits below say that a copy has the view of what was copied, and that a
//! comparison compares views; the functions lift them to lists and options.

use vstd::prelude::*;

use crate::text;

verus! {

/// The views of the items of a list.
pub open spec fn views<T: View>(list: Seq<T>) -> Seq<T::V> {
    Seq::new(list.len(), |i: int| list[i]@)
}

/// The view of an optional value.
pub open spec fn opt_view<T: View>(value: Option<T>) -> Option<T::V> {
    match value {
        Some(v) => Some(v@),
        None => None,
    }
}

/// A value that can be copied with its view kept.
pub trait Duplicate: View + Sized {
    /// A copy of this value.
    fn duplicate(&self) -> (r: Self)
        ensures
            r@ == self@,
    ;
}

/// A value that can be compared by its view.
pub trait Same: View {
    /// Whether the two values have the same view.
    fn same_as(&self, other: &Self) -> (r: bool)
        ensures
            r == (self@ == other@),
    ;
}

impl Duplicate for String {
    fn duplicate(&self) -> (r: String) {
        self.clone()
    }
}

impl Same for String {
    fn same_as(&self, other: &String) -> (r: bool) {
        text::same(self.as_str(), other.as_str())
    }
}

/// A copy of a list, item by item.
pub fn duplicate_all<T: Duplicate>(list: &Vec<T>) -> (r: Vec<T>)
    ensures
        views(r@) == views(list@),
{
    let mut out: Vec<T> = Vec::new();
    let mut i: usize = 0;
    while i < list.len()
        invariant
            i <= list@.len(),
            out@.len() == i,
            forall|k: int| 0 <= k < i ==> (#[trigger] out@[k])@ == list@[k]@,
        decreases list@.len() - i,
    {
        out.push(list[i].duplicate());
        i = i + 1;
    }
    proof {
        assert(views(out@) =~= views(list@));
    }
    out
}

/// A copy of an optional value.
pub fn duplicate_opt<T: Duplicate>(value: &Option<T>) -> (r: Option<T>)
    ensures
        opt_view(r) == opt_view(*value),
{
    match value {
        Some(v) => Some(v.duplicate()),
        None => None,
    }
}

/// Whether two lists hold items of the same views in the same order.
pub fn same_all<T: Same>(a: &Vec<T>, b: &Vec<T>) -> (r: bool)
    ensures
        r == (views(a@) == views(b@)),
{
    if a.len() != b.len() {
        assert(views(a@).len() != views(b@).len());
        return false;
    }
    let mut i: usize = 0;
    while i < a.len()
        invariant
            i <= a@.len(),
            a@.len() == b@.len(),
            forall|k: int| 0 <= k < i ==> (#[trigger] a@[k])@ == b@[k]@,
        decreases a@.len() - i,
    {
        if !a[i].same_as(&b[i]) {
            assert(views(a@)[i as int] != views(b@)[i as int]);
            return false;
        }
        i = i + 1;
    }
    assert(views(a@) =~= views(b@));
    true
}

/// Whether two optional values have the same view.
pub fn same_opt<T: Same>(a: &Option<T>, b: &Option<T>) -> (r: bool)
    ensures
        r == (opt_view(*a) == opt_view(*b)),
{
    match (a, b) {
        (Some(x), Some(y)) => x.same_as(y),
        (None, None) => true,
        _ => false,
    }
}

/// The views of the values of a map.
pub open spec fn map_views<T: View>(map: Map<Seq<char>, T>) -> Map<Seq<char>, T::V> {
    Map::new(|key: Seq<char>| map.dom().contains(key), |key: Seq<char>| map[key]@)
}

/// Inserting a value inserts its view.
pub broadcast proof fn map_views_insert<T: View>(map: Map<Seq<char>, T>, key: Seq<char>, value: T)
    ensures
        #[trigger] map_views(map.insert(key, value)) == map_views(map).insert(key, value@),
{
    assert(map_views(map.insert(key, value)) =~= map_views(map).insert(key, value@));
}

/// Removing a value removes its view.
pub broadcast proof fn map_views_remove<T: View>(map: Map<Seq<char>, T>, key: Seq<char>)
    ensures
        #[trigger] map_views(map.remove(key)) == map_views(map).remove(key),
{
    assert(map_views(map.remove(key)) =~= map_views(map).remove(key));
}

/// The map without entries has none in its views.
pub broadcast proof fn map_views_empty<T: View>()
    ensures
        #[trigger] map_views(Map::<Seq<char>, T>::empty()) == Map::<Seq<char>, T::V>::empty(),
{
    assert(map_views(Map::<Seq<char>, T>::empty()) =~= Map::<Seq<char>, T::V>::empty());
}

/// The version that follows `rev`. Versions wrap around.
pub open spec fn next_rev(rev: u64) -> u64 {
    if rev == u64::MAX {
        0
    } else {
        (rev + 1) as u64
    }
}

/// `next_rev`, executable.
pub fn bump(rev: u64) -> (r: u64)
    ensures
        r == next_rev(rev),
{
    if rev == u64::MAX {
        0
    } else {
        rev + 1
    }
}

/// What is picked from a list is what some item of it gives, and all of that.
pub proof fn picked_is_given_by_an_item<A, B>(
    list: Seq<A>,
    pick: spec_fn(A) -> Option<B>,
    found: B,
)
    ensures
        list.filter_map(pick).contains(found) <==> exists|i: int|
            0 <= i < list.len() && pick(#[trigger] list[i]) == Some(found),
    decreases list.len(),
{
    if list.len() > 0 {
        let front = list.drop_last();
        let last = list.len() - 1;
        let picked = front.filter_map(pick);
        let all = list.filter_map(pick);
        picked_is_given_by_an_item(front, pick, found);
        assert(list.last() == list[last]);
        if picked.contains(found) {
            let i = choose|i: int| 0 <= i < front.len() && pick(#[trigger] front[i]) == Some(found);
            assert(pick(list[i]) == Some(found));
            let k = choose|k: int| 0 <= k < picked.len() && picked[k] == found;
            assert(all[k] == found);
        }
        if all.contains(found) && !picked.contains(found) {
            let k = choose|k: int| 0 <= k < all.len() && all[k] == found;
            if k < picked.len() {
                assert(picked[k] == found);
            }
            assert(pick(list[last]) == Some(found));
        }
        if exists|i: int| 0 <= i < list.len() && pick(#[trigger] list[i]) == Some(found) {
            let i = choose|i: int| 0 <= i < list.len() && pick(#[trigger] list[i]) == Some(found);
            if i < last {
                assert(pick(front[i]) == Some(found));
            } else {
                assert(all[picked.len() as int] == found);
            }
        }
    } else {
        assert(list.filter_map(pick).len() == 0);
    }
}

/// A version is followed by another one: the next number, as long as there is one.
pub proof fn versions_differ_from_the_one_before(rev: u64)
    ensures
        next_rev(rev) != rev,
        rev < u64::MAX ==> next_rev(rev) == rev + 1,
{
}

} // verus!
