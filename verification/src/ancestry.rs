//! Why a walk towards the root may stop after as many parent links as the
//! snapshot has windows.
//!
//! A chain of parents that has not ended by then has come back to a window
//! it left, and goes round from there on: it finds nothing that it has not
//! seen. So the bound on the walks of [`WindowGroup`] loses nothing.

use vstd::prelude::*;
use vstd::set_lib::lemma_len_subset;
use crate::session::WindowGroup;

verus! {

/// The windows in `seen` lie on one chain of parents that leads to `cur`:
/// each has a parent, and that parent is in `seen` or is `cur`.
pub open spec fn leads_to(group: &WindowGroup, seen: Set<u32>, cur: u32) -> bool {
    &&& seen.finite()
    &&& seen.subset_of(group@.dom())
    &&& forall|v: u32| #[trigger]
        seen.contains(v) ==> group.parent_of(v) is Some && (seen.contains(group.parent_of(v)->0)
            || group.parent_of(v)->0 == cur)
}

/// A set of windows below the number of windows of the snapshot leaves a
/// window out; with one more window it is still no larger than the
/// snapshot.
proof fn lemma_room_for_one(group: &WindowGroup, seen: Set<u32>, p: u32)
    requires
        seen.finite(),
        seen.subset_of(group@.dom()),
        group@.contains_key(p),
        !seen.contains(p),
    ensures
        seen.len() < group@.len(),
        seen.insert(p).len() == seen.len() + 1,
        seen.insert(p).finite(),
        seen.insert(p).subset_of(group@.dom()),
{
    group.lemma_finite();
    lemma_len_subset(seen.insert(p), group@.dom());
}

/// From a window on a ring of windows whose parents are not selectable, no
/// walk finds a selectable ancestor.
proof fn lemma_ring_without_selectable(group: &WindowGroup, seen: Set<u32>, v: u32, fuel: nat)
    requires
        seen.contains(v),
        forall|u: u32| #[trigger]
            seen.contains(u) ==> group.parent_of(u) is Some && seen.contains(group.parent_of(u)->0)
                && !group.is_selectable(group.parent_of(u)->0),
    ensures
        group.selectable_above(v, fuel) is None,
    decreases fuel,
{
    if fuel > 0 {
        lemma_ring_without_selectable(group, seen, group.parent_of(v)->0, (fuel - 1) as nat);
    }
}

/// From a window on a ring of windows none of which is a root, no walk
/// reaches a root.
proof fn lemma_ring_without_root(group: &WindowGroup, seen: Set<u32>, v: u32, fuel: nat)
    requires
        seen.contains(v),
        forall|u: u32| #[trigger]
            seen.contains(u) ==> group.parent_of(u) is Some && seen.contains(group.parent_of(u)->0),
    ensures
        group.offset_within(v, fuel) is None,
    decreases fuel,
{
    if fuel > 0 {
        lemma_ring_without_root(group, seen, group.parent_of(v)->0, (fuel - 1) as nat);
    }
}

proof fn lemma_selectable_walk(group: &WindowGroup, seen: Set<u32>, cur: u32, f: nat, g: nat)
    requires
        leads_to(group, seen, cur),
        forall|v: u32| #[trigger] seen.contains(v) ==> !group.is_selectable(group.parent_of(v)->0),
        f + seen.len() >= group@.len(),
        g + seen.len() >= group@.len(),
    ensures
        group.selectable_above(cur, f) == group.selectable_above(cur, g),
    decreases group@.len() - seen.len(),
{
    group.lemma_finite();
    lemma_len_subset(seen, group@.dom());
    if let Some(p) = group.parent_of(cur) {
        if seen.contains(cur) {
            lemma_ring_without_selectable(group, seen, cur, f);
            lemma_ring_without_selectable(group, seen, cur, g);
        } else {
            lemma_room_for_one(group, seen, cur);
            if !group@[p].selectable {
                let more = seen.insert(cur);
                assert(leads_to(group, more, p));
                lemma_selectable_walk(group, more, p, (f - 1) as nat, (g - 1) as nat);
            }
        }
    }
}

proof fn lemma_offset_walk(group: &WindowGroup, seen: Set<u32>, cur: u32, f: nat, g: nat)
    requires
        leads_to(group, seen, cur),
        f + seen.len() >= group@.len(),
        g + seen.len() >= group@.len(),
    ensures
        group.offset_within(cur, f) == group.offset_within(cur, g),
    decreases group@.len() - seen.len(),
{
    group.lemma_finite();
    lemma_len_subset(seen, group@.dom());
    if group@.contains_key(cur) && !group@[cur].is_root() {
        if seen.contains(cur) {
            lemma_ring_without_root(group, seen, cur, f);
            lemma_ring_without_root(group, seen, cur, g);
        } else {
            lemma_room_for_one(group, seen, cur);
            if let Some(p) = group.parent_of(cur) {
                let more = seen.insert(cur);
                assert(leads_to(group, more, p));
                lemma_offset_walk(group, more, p, (f - 1) as nat, (g - 1) as nat);
            }
        }
    }
}

/// To follow more parent links than the snapshot has windows finds no
/// selectable ancestor that the bounded walk does not find.
pub proof fn lemma_selectable_ancestor_is_complete(group: &WindowGroup, id: u32, fuel: nat)
    requires
        fuel >= group@.len(),
    ensures
        group.selectable_above(id, fuel) == group.selectable_ancestor(id),
{
    lemma_selectable_walk(group, Set::<u32>::empty(), id, fuel, group@.len());
}

/// To follow more parent links than the snapshot has windows reaches no
/// root that the bounded walk does not reach.
pub proof fn lemma_abs_offset_is_complete(group: &WindowGroup, id: u32, fuel: nat)
    requires
        fuel >= group@.len(),
    ensures
        group.offset_within(id, fuel) == group.abs_offset(id),
{
    lemma_offset_walk(group, Set::<u32>::empty(), id, fuel, group@.len());
}

} // verus!
