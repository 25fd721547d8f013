//! The list of conflict sets that a resolver is handed.

use crate::item::{ConflictItem, ConflictItemRef, ItemView};
use crate::kind::ConflictKindRef;
use crate::names::package_name_text;
use crate::set::{lemma_lookup_borrowed_or_owned, ConflictSet};
use uv_normalize::PackageName;
use vstd::prelude::*;
use vstd::std_specs::cmp::PartialEqSpecImpl;
use crate::error::ConflictError;
use crate::wire::{
    conflicts_from_wire, conflicts_to_wire, lemma_convert_each_accepts,
    lemma_convert_each_rejects, set_from_wire, set_to_wire, ConflictItemWire, WireView,
};
use vstd::std_specs::slice::into_iter_elts;

verus! {

/// Whether any of the given sets holds the given item.
pub open spec fn any_set_holds(sets: Seq<Seq<ItemView>>, item: ItemView) -> bool {
    exists|i: int| 0 <= i < sets.len() && #[trigger] sets[i].contains(item)
}

/// A list of sets of extras and groups that conflict with one another, in the
/// order in which the sets were added. The empty list stands for no
/// constraints.
#[derive(Debug, Eq)]
pub struct Conflicts(Vec<ConflictSet>);

impl View for Conflicts {
    type V = Seq<Seq<ItemView>>;

    open spec fn view(&self) -> Seq<Seq<ItemView>> {
        self.sets().map_values(|set: ConflictSet| set@)
    }
}

impl Conflicts {
    /// The sets of this list, in order.
    pub closed spec fn sets(&self) -> Seq<ConflictSet> {
        self.0@
    }

    /// No conflicts at all.
    pub fn empty() -> (r: Conflicts)
        ensures
            r.sets() == Seq::<ConflictSet>::empty(),
            r@ == Seq::<Seq<ItemView>>::empty(),
    {
        let r = Conflicts(Vec::new());
        assert(r@ =~= Seq::<Seq<ItemView>>::empty());
        r
    }

    /// Adds a set at the end of this list.
    pub fn push(&mut self, set: ConflictSet)
        ensures
            final(self).sets() == old(self).sets().push(set),
            final(self)@ == old(self)@.push(set@),
    {
        self.0.push(set);
        assert(self@ =~= old(self)@.push(set@));
    }

    /// An iterator over the sets of this list, in order.
    pub fn iter(&self) -> (r: core::slice::Iter<'_, ConflictSet>)
        ensures
            into_iter_elts(r) == self.sets(),
    {
        self.0.iter()
    }

    /// Whether any set of this list holds an item with the given package and
    /// kind.
    pub fn contains<'a>(&self, package: &PackageName, kind: ConflictKindRef<'a>) -> (found: bool)
        ensures
            found == any_set_holds(
                self@,
                ItemView { package: package_name_text(*package), kind: kind@ },
            ),
    {
        let ghost wanted = ItemView { package: package_name_text(*package), kind: kind@ };
        let mut i: usize = 0;
        while i < self.0.len()
            invariant
                i <= self.0@.len(),
                wanted == (ItemView { package: package_name_text(*package), kind: kind@ }),
                forall|j: int| 0 <= j < i ==> !(#[trigger] self@[j]).contains(wanted),
            decreases self.0@.len() - i,
        {
            if self.0[i].contains(package, kind) {
                assert(self@[i as int].contains(wanted));
                return true;
            }
            i += 1;
        }
        false
    }

    /// Whether this list holds no set.
    pub fn is_empty(&self) -> (r: bool)
        ensures
            r == (self@.len() == 0),
    {
        self.0.is_empty()
    }

    /// Moves every set of `other` to the end of this list, in order, and
    /// leaves `other` empty.
    pub fn append(&mut self, other: &mut Conflicts)
        ensures
            final(self).sets() == old(self).sets() + old(other).sets(),
            final(other).sets() == Seq::<ConflictSet>::empty(),
            final(self)@ == old(self)@ + old(other)@,
            final(other)@ == Seq::<Seq<ItemView>>::empty(),
    {
        self.0.append(&mut other.0);
        assert(self@ =~= old(self)@ + old(other)@);
        assert(other@ =~= Seq::<Seq<ItemView>>::empty());
    }
}

impl Conflicts {
    /// Reads a list of sets out of its records, set by set. The first set
    /// that cannot be read ends the reading with its error.
    pub fn from_wire(sets: Vec<Vec<ConflictItemWire>>) -> (r: Result<Conflicts, ConflictError>)
        ensures
            match r {
                Ok(conflicts) => conflicts_from_wire(sets.deep_view()) == Ok::<
                    Seq<Seq<ItemView>>,
                    ConflictError,
                >(conflicts@),
                Err(error) => conflicts_from_wire(sets.deep_view()) == Err::<
                    Seq<Seq<ItemView>>,
                    ConflictError,
                >(error),
            },
    {
        let ghost records = sets.deep_view();
        let mut read: Vec<ConflictSet> = Vec::new();
        for wires in iter: sets
            invariant
                records == sets.deep_view(),
                iter.seq().len() == records.len(),
                forall|i: int| 0 <= i < records.len() ==> iter.seq()[i].deep_view() == records[i],
                read@.len() == iter.index(),
                forall|i: int|
                    0 <= i < iter.index() ==> set_from_wire(records[i]) == Ok::<
                        Seq<ItemView>,
                        ConflictError,
                    >(read@[i]@),
        {
            match ConflictSet::from_wire(wires) {
                Ok(set) => {
                    read.push(set);
                },
                Err(error) => {
                    proof {
                        lemma_convert_each_rejects(
                            records,
                            |wires: Seq<WireView>| set_from_wire(wires),
                            iter.index(),
                            error,
                        );
                    }
                    return Err(error);
                },
            }
        }
        let conflicts = Conflicts(read);
        proof {
            lemma_convert_each_accepts(
                records,
                |wires: Seq<WireView>| set_from_wire(wires),
                conflicts@,
            );
        }
        Ok(conflicts)
    }

    /// Writes this list down: the records of each set, in order.
    pub fn to_wire(&self) -> (sets: Vec<Vec<ConflictItemWire>>)
        ensures
            sets.deep_view() == conflicts_to_wire(self@),
    {
        let mut sets: Vec<Vec<ConflictItemWire>> = Vec::new();
        let mut i: usize = 0;
        while i < self.0.len()
            invariant
                i <= self.0@.len(),
                sets@.len() == i,
                forall|j: int| 0 <= j < i ==> sets@[j].deep_view() == set_to_wire(self.0@[j]@),
            decreases self.0@.len() - i,
        {
            sets.push(self.0[i].to_wire());
            i += 1;
        }
        assert(sets.deep_view() =~= conflicts_to_wire(self@));
        sets
    }
}

/// Looking an item up in a list by borrowed names or by owned names gives the
/// same answer, and an owned item of one of the sets is found by a borrowed
/// item that stands for the same package and kind.
pub proof fn lemma_list_lookup_borrowed_or_owned(
    conflicts: Conflicts,
    borrowed: ConflictItemRef<'_>,
    owned: ConflictItem,
)
    requires
        borrowed@ == owned@,
    ensures
        any_set_holds(conflicts@, borrowed@) == any_set_holds(conflicts@, owned@),
        (exists|i: int|
            0 <= i < conflicts.sets().len() && (#[trigger] conflicts.sets()[i]).items().contains(
                owned,
            )) ==> any_set_holds(conflicts@, borrowed@),
{
    if exists|i: int|
        0 <= i < conflicts.sets().len() && (#[trigger] conflicts.sets()[i]).items().contains(
            owned,
        ) {
        let i = choose|i: int|
            0 <= i < conflicts.sets().len() && (#[trigger] conflicts.sets()[i]).items().contains(
                owned,
            );
        lemma_lookup_borrowed_or_owned(conflicts.sets()[i], borrowed, owned);
        assert(conflicts@[i].contains(borrowed@));
    }
}

/// Appending a list without sets changes nothing: merging has the empty list
/// as its neutral element, on either side.
pub proof fn lemma_append_nothing(sets: Seq<Seq<ItemView>>)
    ensures
        sets + Seq::<Seq<ItemView>>::empty() == sets,
        Seq::<Seq<ItemView>>::empty() + sets == sets,
{
    assert(sets + Seq::<Seq<ItemView>>::empty() =~= sets);
    assert(Seq::<Seq<ItemView>>::empty() + sets =~= sets);
}

/// After a merge, an item is held by the merged list exactly when one of the
/// two lists held it before.
pub proof fn lemma_append_holds(a: Seq<Seq<ItemView>>, b: Seq<Seq<ItemView>>, item: ItemView)
    ensures
        any_set_holds(a + b, item) == (any_set_holds(a, item) || any_set_holds(b, item)),
{
    let both = a + b;
    if any_set_holds(a, item) {
        let i = choose|i: int| 0 <= i < a.len() && #[trigger] a[i].contains(item);
        assert(both[i].contains(item));
    }
    if any_set_holds(b, item) {
        let i = choose|i: int| 0 <= i < b.len() && #[trigger] b[i].contains(item);
        assert(both[a.len() + i].contains(item));
    }
    if any_set_holds(both, item) {
        let i = choose|i: int| 0 <= i < both.len() && #[trigger] both[i].contains(item);
        if i < a.len() {
            assert(a[i].contains(item));
        } else {
            assert(b[i - a.len()].contains(item));
        }
    }
}

impl Default for Conflicts {
    fn default() -> (r: Conflicts)
        ensures
            r@ == Seq::<Seq<ItemView>>::empty(),
    {
        Conflicts::empty()
    }
}

impl Clone for Conflicts {
    fn clone(&self) -> (copy: Conflicts)
        ensures
            copy@ == self@,
    {
        let mut sets: Vec<ConflictSet> = Vec::new();
        let mut i: usize = 0;
        while i < self.0.len()
            invariant
                i <= self.0@.len(),
                sets@.len() == i,
                forall|j: int| 0 <= j < i ==> sets@[j]@ == self.0@[j]@,
            decreases self.0@.len() - i,
        {
            sets.push(self.0[i].clone());
            i += 1;
        }
        let copy = Conflicts(sets);
        assert(copy@ =~= self@);
        copy
    }
}

impl PartialEq for Conflicts {
    fn eq(&self, other: &Conflicts) -> (same: bool) {
        if self.0.len() != other.0.len() {
            assert(self@.len() != other@.len());
            return false;
        }
        let mut i: usize = 0;
        while i < self.0.len()
            invariant
                i <= self.0@.len(),
                self.0@.len() == other.0@.len(),
                forall|j: int| 0 <= j < i ==> self@[j] == other@[j],
            decreases self.0@.len() - i,
        {
            if self.0[i] != other.0[i] {
                assert(self@[i as int] != other@[i as int]);
                return false;
            }
            i += 1;
        }
        assert(self@ =~= other@);
        true
    }
}

impl PartialEqSpecImpl for Conflicts {
    open spec fn obeys_eq_spec() -> bool {
        true
    }

    open spec fn eq_spec(&self, other: &Conflicts) -> bool {
        self@ == other@
    }
}

} // verus!
