//! A set of items that conflict with one another.

use crate::error::ConflictError;
use crate::item::{ConflictItem, ConflictItemRef, ItemView};
use crate::kind::ConflictKindRef;
use crate::names::package_name_text;
use crate::wire::{
    item_from_wire, item_to_wire, lemma_convert_each_accepts, lemma_convert_each_rejects,
    set_from_wire, set_to_wire, ConflictItemWire, WireView,
};
use uv_normalize::PackageName;
use vstd::prelude::*;
use vstd::std_specs::cmp::PartialEqSpecImpl;
use vstd::std_specs::convert::TryFromSpecImpl;
use vstd::std_specs::slice::into_iter_elts;

verus! {

/// The outcome of checking how many entries a set was declared with: the
/// error for none and for one, nothing for two or more.
pub open spec fn length_error(len: nat) -> Option<ConflictError> {
    if len == 0 {
        Some(ConflictError::ZeroItems)
    } else if len == 1 {
        Some(ConflictError::OneItem)
    } else {
        None
    }
}

/// A set of package-extra and package-group pairs that conflict with one
/// another. It always holds at least two items, in the order in which they
/// were given.
#[derive(Debug, Eq)]
pub struct ConflictSet(Vec<ConflictItem>);

impl View for ConflictSet {
    type V = Seq<ItemView>;

    open spec fn view(&self) -> Seq<ItemView> {
        self.items().map_values(|item: ConflictItem| item@)
    }
}

impl ConflictSet {
    #[verifier::type_invariant]
    spec fn has_two_items(&self) -> bool {
        self.0@.len() >= 2
    }

    /// The items of this set, in order.
    pub closed spec fn items(&self) -> Seq<ConflictItem> {
        self.0@
    }

    /// A set of exactly the two given items.
    pub fn pair(item1: ConflictItem, item2: ConflictItem) -> (set: ConflictSet)
        ensures
            set.items() == seq![item1, item2],
            set@ == seq![item1@, item2@],
    {
        let mut items: Vec<ConflictItem> = Vec::new();
        items.push(item1);
        items.push(item2);
        assert(items@ == seq![item1, item2]);
        let set = ConflictSet(items);
        assert(set@ =~= seq![item1@, item2@]);
        set
    }

    /// Adds an item at the end of this set.
    pub fn push(&mut self, item: ConflictItem)
        ensures
            final(self).items() == old(self).items().push(item),
            final(self)@ == old(self)@.push(item@),
    {
        proof {
            use_type_invariant(&*self);
        }
        // A set holds two items at every step, so the items leave through a
        // spare vector, take the new one, and come back.
        let mut spare: Vec<ConflictItem> = Vec::new();
        spare.push(item.clone());
        spare.push(item.clone());
        core::mem::swap(&mut self.0, &mut spare);
        spare.push(item);
        core::mem::swap(&mut self.0, &mut spare);
        assert(self@ =~= old(self)@.push(item@));
    }

    /// An iterator over the items of this set, in order. There are at least
    /// two of them.
    pub fn iter(&self) -> (r: core::slice::Iter<'_, ConflictItem>)
        ensures
            into_iter_elts(r) == self.items(),
            self@.len() >= 2,
    {
        proof {
            use_type_invariant(self);
        }
        self.0.iter()
    }

    /// Whether this set holds an item with the given package and kind.
    pub fn contains<'a>(&self, package: &PackageName, kind: ConflictKindRef<'a>) -> (found: bool)
        ensures
            found == self@.contains(ItemView { package: package_name_text(*package), kind: kind@ }),
    {
        let ghost wanted = ItemView { package: package_name_text(*package), kind: kind@ };
        let mut i: usize = 0;
        while i < self.0.len()
            invariant
                i <= self.0@.len(),
                wanted == (ItemView { package: package_name_text(*package), kind: kind@ }),
                forall|j: int| 0 <= j < i ==> self@[j] != wanted,
            decreases self.0@.len() - i,
        {
            let item = &self.0[i];
            if *item.package() == *package && *item.kind() == kind {
                assert(self@[i as int] == wanted);
                return true;
            }
            i += 1;
        }
        false
    }
}

impl ConflictSet {
    /// Reads a set out of its records, one after the other. The first record
    /// that declares no item ends the reading with its error; after that,
    /// fewer than two items are an error.
    pub fn from_wire(wires: Vec<ConflictItemWire>) -> (r: Result<ConflictSet, ConflictError>)
        ensures
            match r {
                Ok(set) => set_from_wire(wires.deep_view()) == Ok::<Seq<ItemView>, ConflictError>(
                    set@,
                ),
                Err(error) => set_from_wire(wires.deep_view()) == Err::<
                    Seq<ItemView>,
                    ConflictError,
                >(error),
            },
    {
        let ghost records = wires.deep_view();
        let mut items: Vec<ConflictItem> = Vec::new();
        for wire in iter: wires
            invariant
                records == wires.deep_view(),
                iter.seq().len() == records.len(),
                forall|i: int| 0 <= i < records.len() ==> iter.seq()[i]@ == records[i],
                items@.len() == iter.index(),
                forall|i: int|
                    0 <= i < iter.index() ==> item_from_wire(records[i]) == Ok::<
                        ItemView,
                        ConflictError,
                    >(items@[i]@),
        {
            match ConflictItem::try_from(wire) {
                Ok(item) => {
                    items.push(item);
                },
                Err(error) => {
                    proof {
                        lemma_convert_each_rejects(
                            records,
                            |wire: WireView| item_from_wire(wire),
                            iter.index(),
                            error,
                        );
                    }
                    return Err(error);
                },
            }
        }
        let ghost read_items = items@.map_values(|item: ConflictItem| item@);
        proof {
            lemma_convert_each_accepts(
                records,
                |wire: WireView| item_from_wire(wire),
                read_items,
            );
        }
        ConflictSet::try_from(items)
    }

    /// Writes this set down: the record of each item, in order.
    pub fn to_wire(&self) -> (wires: Vec<ConflictItemWire>)
        ensures
            wires.deep_view() == set_to_wire(self@),
    {
        let mut wires: Vec<ConflictItemWire> = Vec::new();
        let mut i: usize = 0;
        while i < self.0.len()
            invariant
                i <= self.0@.len(),
                wires@.len() == i,
                forall|j: int| 0 <= j < i ==> wires@[j]@ == item_to_wire(self.0@[j]@),
            decreases self.0@.len() - i,
        {
            wires.push(ConflictItemWire::from(self.0[i].clone()));
            i += 1;
        }
        assert(wires.deep_view() =~= set_to_wire(self@));
        wires
    }
}

/// Looking an item up by borrowed names or by owned names gives the same
/// answer. A borrowed item that stands for the same package and kind as an
/// owned one is held by exactly the sets that hold the owned one, and it is
/// found in every set of which the owned one is an item.
pub proof fn lemma_lookup_borrowed_or_owned(
    set: ConflictSet,
    borrowed: ConflictItemRef<'_>,
    owned: ConflictItem,
)
    requires
        borrowed@ == owned@,
    ensures
        set@.contains(borrowed@) == set@.contains(owned@),
        set.items().contains(owned) ==> set@.contains(borrowed@),
{
    if set.items().contains(owned) {
        let i = choose|i: int| 0 <= i < set.items().len() && set.items()[i] == owned;
        assert(set@[i] == borrowed@);
    }
}

impl TryFrom<Vec<ConflictItem>> for ConflictSet {
    type Error = ConflictError;

    /// Accepts two or more items and keeps them as they are; rejects none
    /// and one.
    fn try_from(items: Vec<ConflictItem>) -> (r: Result<ConflictSet, ConflictError>)
        ensures
            match r {
                Ok(set) => length_error(items@.len()) is None && set.items() == items@,
                Err(error) => length_error(items@.len()) == Some(error),
            },
            r is Ok ==> r->Ok_0@.len() >= 2,
    {
        match items.len() {
            0 => return Err(ConflictError::ZeroItems),
            1 => return Err(ConflictError::OneItem),
            _ => {},
        }
        Ok(ConflictSet(items))
    }
}

impl TryFromSpecImpl<Vec<ConflictItem>> for ConflictSet {
    open spec fn obeys_try_from_spec() -> bool {
        true
    }

    closed spec fn try_from_spec(items: Vec<ConflictItem>) -> Result<ConflictSet, ConflictError> {
        match length_error(items@.len()) {
            Some(error) => Err(error),
            None => Ok(ConflictSet(items)),
        }
    }
}

impl Clone for ConflictSet {
    fn clone(&self) -> (copy: ConflictSet)
        ensures
            copy@ == self@,
    {
        proof {
            use_type_invariant(self);
        }
        let mut items: Vec<ConflictItem> = Vec::new();
        let mut i: usize = 0;
        while i < self.0.len()
            invariant
                i <= self.0@.len(),
                items@.len() == i,
                forall|j: int| 0 <= j < i ==> items@[j]@ == self.0@[j]@,
            decreases self.0@.len() - i,
        {
            items.push(self.0[i].clone());
            i += 1;
        }
        let copy = ConflictSet(items);
        assert(copy@ =~= self@);
        copy
    }
}

impl PartialEq for ConflictSet {
    fn eq(&self, other: &ConflictSet) -> (same: bool) {
        if self.0.len() != other.0.len() {
            assert(self@.len() != other@.len());
            return false;
        }
        let mut i: usize = 0;
        while i < self.0.len()
            invariant
                i <= self.0@.len(),
                self.0@.len() == other.0@.len(),
                forall|j: int| 0 <= j < i ==> self@[j] == other@[j],
            decreases self.0@.len() - i,
        {
            if self.0[i] != other.0[i] {
                assert(self@[i as int] != other@[i as int]);
                return false;
            }
            i += 1;
        }
        assert(self@ =~= other@);
        true
    }
}

impl PartialEqSpecImpl for ConflictSet {
    open spec fn obeys_eq_spec() -> bool {
        true
    }

    open spec fn eq_spec(&self, other: &ConflictSet) -> bool {
        self@ == other@
    }
}

} // verus!
