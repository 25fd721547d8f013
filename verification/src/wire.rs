//! The flat record in which a conflict item is stored, and the rules that a
//! record has to meet before it counts as an item.
//!
//! The record itself is unconstrained: any combination of its three optional
//! fields can be written down. The rules live in the conversions out of it.

use crate::error::ConflictError;
use crate::item::ItemView;
use crate::kind::KindView;
use crate::names::{extra_name_text, group_name_text, package_name_text};
use crate::set::length_error;
use uv_normalize::{ExtraName, GroupName, PackageName};
use vstd::prelude::*;

verus! {

/// What a wire record stands for in contracts: the text of each field that is
/// present.
pub struct WireView {
    pub package: Option<Seq<char>>,
    pub extra: Option<Seq<char>>,
    pub group: Option<Seq<char>>,
}

/// The stored shape of one conflict item. Every field is optional here.
#[derive(Debug)]
pub struct ConflictItemWire {
    pub package: Option<PackageName>,
    pub extra: Option<ExtraName>,
    pub group: Option<GroupName>,
}

impl View for ConflictItemWire {
    type V = WireView;

    open spec fn view(&self) -> WireView {
        WireView {
            package: match self.package {
                Some(package) => Some(package_name_text(package)),
                None => None,
            },
            extra: match self.extra {
                Some(extra) => Some(extra_name_text(extra)),
                None => None,
            },
            group: match self.group {
                Some(group) => Some(group_name_text(group)),
                None => None,
            },
        }
    }
}

impl DeepView for ConflictItemWire {
    type V = WireView;

    open spec fn deep_view(&self) -> WireView {
        self@
    }
}

/// The kind that a record declares. Exactly one of `extra` and `group` must be
/// present.
pub open spec fn kind_from_wire(wire: WireView) -> Result<KindView, ConflictError> {
    match (wire.extra, wire.group) {
        (None, None) => Err(ConflictError::MissingExtraAndGroup),
        (Some(_), Some(_)) => Err(ConflictError::FoundExtraAndGroup),
        (Some(extra), None) => Ok(KindView::Extra(extra)),
        (None, Some(group)) => Ok(KindView::Group(group)),
    }
}

/// The item that a record declares. The package must be present; only then is
/// the kind looked at.
pub open spec fn item_from_wire(wire: WireView) -> Result<ItemView, ConflictError> {
    match wire.package {
        None => Err(ConflictError::MissingPackage),
        Some(package) => match kind_from_wire(wire) {
            Ok(kind) => Ok(ItemView { package, kind }),
            Err(error) => Err(error),
        },
    }
}

/// The record of a kind under the given package field: the kind fills its own
/// field and leaves the other one out.
pub open spec fn kind_to_wire(package: Option<Seq<char>>, kind: KindView) -> WireView {
    match kind {
        KindView::Extra(extra) => WireView { package, extra: Some(extra), group: None },
        KindView::Group(group) => WireView { package, extra: None, group: Some(group) },
    }
}

/// The record of an item.
pub open spec fn item_to_wire(item: ItemView) -> WireView {
    kind_to_wire(Some(item.package), item.kind)
}

/// Converts the entries one by one, in order, and gives up at the first one
/// that is rejected, with its error.
pub open spec fn convert_each<A, B>(
    entries: Seq<A>,
    convert: spec_fn(A) -> Result<B, ConflictError>,
) -> Result<Seq<B>, ConflictError>
    decreases entries.len(),
{
    if entries.len() == 0 {
        Ok(Seq::empty())
    } else {
        match convert_each(entries.drop_last(), convert) {
            Err(error) => Err(error),
            Ok(done) => match convert(entries.last()) {
                Err(error) => Err(error),
                Ok(converted) => Ok(done.push(converted)),
            },
        }
    }
}

/// Where every entry is accepted, the conversion gives the converted entries
/// in the same order.
pub proof fn lemma_convert_each_accepts<A, B>(
    entries: Seq<A>,
    convert: spec_fn(A) -> Result<B, ConflictError>,
    converted: Seq<B>,
)
    requires
        converted.len() == entries.len(),
        forall|i: int|
            0 <= i < entries.len() ==> convert(entries[i]) == Ok::<B, ConflictError>(
                converted[i],
            ),
    ensures
        convert_each(entries, convert) == Ok::<Seq<B>, ConflictError>(converted),
    decreases entries.len(),
{
    if entries.len() == 0 {
        assert(converted =~= Seq::<B>::empty());
    } else {
        lemma_convert_each_accepts(entries.drop_last(), convert, converted.drop_last());
        assert(converted =~= converted.drop_last().push(converted.last()));
    }
}

/// Where an entry is rejected and all entries before it are accepted, the
/// conversion fails with the error of that entry.
pub proof fn lemma_convert_each_rejects<A, B>(
    entries: Seq<A>,
    convert: spec_fn(A) -> Result<B, ConflictError>,
    first: int,
    error: ConflictError,
)
    requires
        0 <= first < entries.len(),
        convert(entries[first]) == Err::<B, ConflictError>(error),
        forall|i: int| 0 <= i < first ==> convert(entries[i]) is Ok,
    ensures
        convert_each(entries, convert) == Err::<Seq<B>, ConflictError>(error),
    decreases entries.len(),
{
    let before = entries.drop_last();
    if first == entries.len() - 1 {
        let converted = Seq::new(before.len(), |i: int| convert(before[i]).unwrap());
        lemma_convert_each_accepts(before, convert, converted);
    } else {
        lemma_convert_each_rejects(before, convert, first, error);
    }
}

/// The items that a sequence of records declares as one set: every record
/// must declare an item, and there must be at least two of them.
pub open spec fn set_from_wire(wires: Seq<WireView>) -> Result<Seq<ItemView>, ConflictError> {
    match convert_each(wires, |wire: WireView| item_from_wire(wire)) {
        Err(error) => Err(error),
        Ok(items) => match length_error(items.len()) {
            Some(error) => Err(error),
            None => Ok(items),
        },
    }
}

/// The sets that a sequence of sequences of records declares, each converted
/// in turn.
pub open spec fn conflicts_from_wire(sets: Seq<Seq<WireView>>) -> Result<
    Seq<Seq<ItemView>>,
    ConflictError,
> {
    convert_each(sets, |wires: Seq<WireView>| set_from_wire(wires))
}

/// The records of the items of a set, in order.
pub open spec fn set_to_wire(items: Seq<ItemView>) -> Seq<WireView> {
    items.map_values(|item: ItemView| item_to_wire(item))
}

/// The records of the sets of a list, in order.
pub open spec fn conflicts_to_wire(sets: Seq<Seq<ItemView>>) -> Seq<Seq<WireView>> {
    sets.map_values(|items: Seq<ItemView>| set_to_wire(items))
}

/// A record that names its package and holds both an extra and a group
/// declares no item, because it holds both.
pub proof fn lemma_both_kinds_rejected(wire: WireView)
    requires
        wire.package is Some,
        wire.extra is Some,
        wire.group is Some,
    ensures
        item_from_wire(wire) == Err::<ItemView, ConflictError>(ConflictError::FoundExtraAndGroup),
{
}

/// A record that names its package and holds neither an extra nor a group
/// declares no item, because it holds neither.
pub proof fn lemma_no_kind_rejected(wire: WireView)
    requires
        wire.package is Some,
        wire.extra is None,
        wire.group is None,
    ensures
        item_from_wire(wire) == Err::<ItemView, ConflictError>(
            ConflictError::MissingExtraAndGroup,
        ),
{
}

/// A record without a package declares no item, whatever its other fields
/// hold.
pub proof fn lemma_missing_package_rejected(wire: WireView)
    requires
        wire.package is None,
    ensures
        item_from_wire(wire) == Err::<ItemView, ConflictError>(ConflictError::MissingPackage),
{
}

/// Writing an item down and reading the record back gives the same item.
pub proof fn lemma_item_round_trip(item: ItemView)
    ensures
        item_from_wire(item_to_wire(item)) == Ok::<ItemView, ConflictError>(item),
{
}

/// Writing a set of two or more items down and reading the records back gives
/// the same items in the same order.
pub proof fn lemma_set_round_trip(items: Seq<ItemView>)
    requires
        items.len() >= 2,
    ensures
        set_from_wire(set_to_wire(items)) == Ok::<Seq<ItemView>, ConflictError>(items),
{
    let wires = set_to_wire(items);
    let read = |wire: WireView| item_from_wire(wire);
    assert forall|i: int| 0 <= i < wires.len() implies read(wires[i]) == Ok::<
        ItemView,
        ConflictError,
    >(items[i]) by {
        lemma_item_round_trip(items[i]);
    }
    lemma_convert_each_accepts(wires, read, items);
}

/// Writing a list of sets down and reading it back gives the same list, as
/// long as every set holds two or more items.
pub proof fn lemma_conflicts_round_trip(sets: Seq<Seq<ItemView>>)
    requires
        forall|i: int| 0 <= i < sets.len() ==> (#[trigger] sets[i]).len() >= 2,
    ensures
        conflicts_from_wire(conflicts_to_wire(sets)) == Ok::<Seq<Seq<ItemView>>, ConflictError>(
            sets,
        ),
{
    let wires = conflicts_to_wire(sets);
    let read = |set: Seq<WireView>| set_from_wire(set);
    assert forall|i: int| 0 <= i < wires.len() implies read(wires[i]) == Ok::<
        Seq<ItemView>,
        ConflictError,
    >(sets[i]) by {
        lemma_set_round_trip(sets[i]);
    }
    lemma_convert_each_accepts(wires, read, sets);
}

} // verus!
