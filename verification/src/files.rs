//! The ordered list of input files: the trajectories, and the NDX files of a
//! leaflet assignment. The order of the trajectories is the order in which
//! their frames are read.

use vstd::prelude::*;
use crate::text::{all_filled, spec_all_filled, views};

verus! {

/// The list with the entries at two places exchanged.
pub open spec fn spec_swapped(list: Seq<Seq<char>>, i: int, j: int) -> Seq<Seq<char>> {
    list.update(i, list[j]).update(j, list[i])
}

/// The list that the editor shows: a list without entries is shown as one
/// empty entry.
pub open spec fn spec_shown(list: Seq<Seq<char>>) -> Seq<Seq<char>> {
    if list.len() == 0 {
        seq![Seq::<char>::empty()]
    } else {
        list
    }
}

/// Makes sure that the list has an entry to edit: a list without entries gets
/// one empty entry.
pub fn ensure_entry(target: &mut Vec<String>)
    ensures
        views(final(target)@) == spec_shown(views(old(target)@)),
        final(target)@.len() >= 1,
{
    if target.len() == 0 {
        target.push(String::new());
        assert(views(target@) =~= seq![Seq::<char>::empty()]);
    }
}

/// Whether another file may be added: no entry so far is empty.
pub fn can_add_file(target: &Vec<String>) -> (r: bool)
    ensures
        r == spec_all_filled(views(target@)),
{
    all_filled(target)
}

/// Adds an empty entry at the end.
pub fn add_file(target: &mut Vec<String>)
    ensures
        views(final(target)@) == views(old(target)@).push(Seq::<char>::empty()),
{
    target.push(String::new());
    assert(views(target@) =~= views(old(target)@).push(Seq::<char>::empty()));
}

/// Takes the entry at a place out; the entries behind it move up.
pub fn remove_file(target: &mut Vec<String>, index: usize)
    requires
        index < old(target)@.len(),
    ensures
        views(final(target)@) == views(old(target)@).remove(index as int),
{
    let _ = target.remove(index);
    assert(views(target@) =~= views(old(target)@).remove(index as int));
}

/// Exchanges the entry at a place with the one before it.
pub fn move_up(target: &mut Vec<String>, index: usize)
    requires
        0 < index < old(target)@.len(),
    ensures
        views(final(target)@) == spec_swapped(views(old(target)@), index as int, index - 1),
        views(final(target)@).to_multiset() == views(old(target)@).to_multiset(),
{
    let entry = target.remove(index);
    target.insert(index - 1, entry);
    assert(views(target@) =~= spec_swapped(views(old(target)@), index as int, index - 1));
    proof {
        lemma_swapped(views(old(target)@), index as int, index - 1);
    }
}

/// Exchanges the entry at a place with the one behind it.
pub fn move_down(target: &mut Vec<String>, index: usize)
    requires
        index + 1 < old(target)@.len(),
    ensures
        views(final(target)@) == spec_swapped(views(old(target)@), index as int, index + 1),
        views(final(target)@).to_multiset() == views(old(target)@).to_multiset(),
{
    let len: usize = target.len();
    assert(index + 1 < len);
    let entry = target.remove(index);
    target.insert(index + 1, entry);
    assert(views(target@) =~= spec_swapped(views(old(target)@), index as int, index + 1));
    proof {
        lemma_swapped(views(old(target)@), index as int, index + 1);
    }
}

/// Puts the picked files in the place of all entries, in the order in which
/// they were picked.
pub fn replace_files(target: &mut Vec<String>, picked: Vec<String>)
    ensures
        views(final(target)@) == views(picked@),
{
    *target = picked;
}

/// Exchanging two entries changes neither the number of entries nor which
/// entries there are, and doing it twice gives the list back.
pub proof fn lemma_swapped(list: Seq<Seq<char>>, i: int, j: int)
    requires
        0 <= i < list.len(),
        0 <= j < list.len(),
    ensures
        spec_swapped(list, i, j).len() == list.len(),
        spec_swapped(list, i, j).to_multiset() == list.to_multiset(),
        spec_swapped(spec_swapped(list, i, j), i, j) == list,
{
    assert(spec_swapped(spec_swapped(list, i, j), i, j) =~= list);
    broadcast use {vstd::multiset::group_multiset_axioms, vstd::seq_lib::to_multiset_contains};
    let a = list.update(i, list[j]);
    assert(list.contains(list[i]));
    assert(list.contains(list[j]));
    assert(a[j] == list[j]);
    vstd::seq_lib::to_multiset_update(list, i, list[j]);
    vstd::seq_lib::to_multiset_update(a, j, list[i]);
    assert(spec_swapped(list, i, j).to_multiset() =~= list.to_multiset());
}

} // verus!
