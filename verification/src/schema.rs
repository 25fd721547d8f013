//! The declaration of conflicts as a user writes it, where an item may leave
//! its package out.
//!
//! A schema item without a package belongs to the package in whose
//! configuration it stands. Resolution fills that package in and gives the
//! fully named form.

use crate::conflicts::Conflicts;
use crate::error::ConflictError;
use crate::item::{ConflictItem, ItemView};
use crate::kind::{
    kind_order, lemma_kind_order_chains, lemma_kind_order_equal, lemma_kind_order_turns,
    ConflictKind, KindView,
};
use crate::names::{
    compare_package_names, lemma_text_order_chains, lemma_text_order_equal,
    lemma_text_order_turns, package_name_text, text_order,
};
use core::cmp::Ordering;
use crate::set::{length_error, ConflictSet};
use crate::wire::{
    convert_each, item_from_wire, kind_from_wire, kind_to_wire, lemma_convert_each_accepts,
    lemma_convert_each_rejects, ConflictItemWire, WireView,
};
use uv_normalize::PackageName;
use vstd::prelude::*;
use vstd::std_specs::cmp::{PartialEqSpecImpl, PartialOrdSpecImpl};
use vstd::std_specs::convert::{FromSpecImpl, TryFromSpecImpl};

verus! {

/// What a schema item stands for in contracts: the text of its package name,
/// if it names one, and its kind.
pub struct SchemaItemView {
    pub package: Option<Seq<char>>,
    pub kind: KindView,
}

/// The schema item that a record declares. The package is taken as it is,
/// present or not.
pub open spec fn schema_item_from_wire(wire: WireView) -> Result<SchemaItemView, ConflictError> {
    match kind_from_wire(wire) {
        Ok(kind) => Ok(SchemaItemView { package: wire.package, kind }),
        Err(error) => Err(error),
    }
}

/// The record of a schema item.
pub open spec fn schema_item_to_wire(item: SchemaItemView) -> WireView {
    kind_to_wire(item.package, item.kind)
}

/// The schema items that a sequence of records declares as one set: every
/// record must declare a schema item, and there must be at least two of them.
pub open spec fn schema_set_from_wire(wires: Seq<WireView>) -> Result<
    Seq<SchemaItemView>,
    ConflictError,
> {
    match convert_each(wires, |wire: WireView| schema_item_from_wire(wire)) {
        Err(error) => Err(error),
        Ok(items) => match length_error(items.len()) {
            Some(error) => Err(error),
            None => Ok(items),
        },
    }
}

/// The schema sets that a sequence of sequences of records declares, each
/// converted in turn.
pub open spec fn schema_conflicts_from_wire(sets: Seq<Seq<WireView>>) -> Result<
    Seq<Seq<SchemaItemView>>,
    ConflictError,
> {
    convert_each(sets, |wires: Seq<WireView>| schema_set_from_wire(wires))
}

/// The records of the items of a schema set, in order.
pub open spec fn schema_set_to_wire(items: Seq<SchemaItemView>) -> Seq<WireView> {
    items.map_values(|item: SchemaItemView| schema_item_to_wire(item))
}

/// The records of the sets of a schema list, in order.
pub open spec fn schema_conflicts_to_wire(sets: Seq<Seq<SchemaItemView>>) -> Seq<Seq<WireView>> {
    sets.map_values(|items: Seq<SchemaItemView>| schema_set_to_wire(items))
}

/// The item that a schema item stands for inside the package `default`: its
/// own package where it names one, `default` where it does not.
pub open spec fn resolve_item(item: SchemaItemView, default: Seq<char>) -> ItemView {
    ItemView {
        package: match item.package {
            Some(package) => package,
            None => default,
        },
        kind: item.kind,
    }
}

/// The items of a schema set, each resolved inside the package `default`.
pub open spec fn resolve_set(items: Seq<SchemaItemView>, default: Seq<char>) -> Seq<ItemView> {
    items.map_values(|item: SchemaItemView| resolve_item(item, default))
}

/// The sets of a schema list, each resolved inside the package `default`.
pub open spec fn resolve_conflicts(sets: Seq<Seq<SchemaItemView>>, default: Seq<char>) -> Seq<
    Seq<ItemView>,
> {
    sets.map_values(|items: Seq<SchemaItemView>| resolve_set(items, default))
}

/// A record with both an extra and a group declares no schema item, whatever
/// its package field holds.
pub proof fn lemma_schema_both_kinds_rejected(wire: WireView)
    requires
        wire.extra is Some,
        wire.group is Some,
    ensures
        schema_item_from_wire(wire) == Err::<SchemaItemView, ConflictError>(
            ConflictError::FoundExtraAndGroup,
        ),
{
}

/// A record with neither an extra nor a group declares no schema item,
/// whatever its package field holds.
pub proof fn lemma_schema_no_kind_rejected(wire: WireView)
    requires
        wire.extra is None,
        wire.group is None,
    ensures
        schema_item_from_wire(wire) == Err::<SchemaItemView, ConflictError>(
            ConflictError::MissingExtraAndGroup,
        ),
{
}

/// A record that names its package reads alike in both forms: it is rejected
/// with the same error, or it declares a schema item that resolves to the
/// item it declares, whatever the default is.
pub proof fn lemma_named_record_reads_alike(wire: WireView, default: Seq<char>)
    requires
        wire.package is Some,
    ensures
        match schema_item_from_wire(wire) {
            Ok(declared) => item_from_wire(wire) == Ok::<ItemView, ConflictError>(
                resolve_item(declared, default),
            ),
            Err(error) => item_from_wire(wire) == Err::<ItemView, ConflictError>(error),
        },
{
}

/// Writing a schema item down and reading the record back gives the same
/// schema item.
pub proof fn lemma_schema_item_round_trip(item: SchemaItemView)
    ensures
        schema_item_from_wire(schema_item_to_wire(item)) == Ok::<SchemaItemView, ConflictError>(
            item,
        ),
{
}

/// Writing a schema set of two or more items down and reading the records
/// back gives the same items in the same order.
pub proof fn lemma_schema_set_round_trip(items: Seq<SchemaItemView>)
    requires
        items.len() >= 2,
    ensures
        schema_set_from_wire(schema_set_to_wire(items)) == Ok::<
            Seq<SchemaItemView>,
            ConflictError,
        >(items),
{
    let wires = schema_set_to_wire(items);
    let read = |wire: WireView| schema_item_from_wire(wire);
    assert forall|i: int| 0 <= i < wires.len() implies read(wires[i]) == Ok::<
        SchemaItemView,
        ConflictError,
    >(items[i]) by {
        lemma_schema_item_round_trip(items[i]);
    }
    lemma_convert_each_accepts(wires, read, items);
}

/// Writing a schema list down and reading it back gives the same list, as
/// long as every set holds two or more items.
pub proof fn lemma_schema_conflicts_round_trip(sets: Seq<Seq<SchemaItemView>>)
    requires
        forall|i: int| 0 <= i < sets.len() ==> (#[trigger] sets[i]).len() >= 2,
    ensures
        schema_conflicts_from_wire(schema_conflicts_to_wire(sets)) == Ok::<
            Seq<Seq<SchemaItemView>>,
            ConflictError,
        >(sets),
{
    let wires = schema_conflicts_to_wire(sets);
    let read = |set: Seq<WireView>| schema_set_from_wire(set);
    assert forall|i: int| 0 <= i < wires.len() implies read(wires[i]) == Ok::<
        Seq<SchemaItemView>,
        ConflictError,
    >(sets[i]) by {
        lemma_schema_set_round_trip(sets[i]);
    }
    lemma_convert_each_accepts(wires, read, sets);
}

/// A schema item that names its package keeps it under resolution, whatever
/// the default is.
pub proof fn lemma_resolution_keeps_package(item: SchemaItemView, default: Seq<char>)
    requires
        item.package is Some,
    ensures
        resolve_item(item, default).package == item.package->0,
        resolve_item(item, default).kind == item.kind,
{
}

/// A schema item that names no package gets exactly the default under
/// resolution.
pub proof fn lemma_resolution_fills_package(item: SchemaItemView, default: Seq<char>)
    requires
        item.package is None,
    ensures
        resolve_item(item, default).package == default,
        resolve_item(item, default).kind == item.kind,
{
}

/// Resolution keeps the number of sets, the number of items in each set and
/// their order: the item at a place of the resolved list is the resolved item
/// of that place.
pub proof fn lemma_resolution_keeps_places(
    sets: Seq<Seq<SchemaItemView>>,
    default: Seq<char>,
    set: int,
    item: int,
)
    requires
        0 <= set < sets.len(),
        0 <= item < sets[set].len(),
    ensures
        resolve_conflicts(sets, default).len() == sets.len(),
        resolve_conflicts(sets, default)[set].len() == sets[set].len(),
        resolve_conflicts(sets, default)[set][item] == resolve_item(sets[set][item], default),
{
}

/// The order of two package fields: a missing package comes before every
/// package that is named, and two named packages are ordered by their names.
pub open spec fn package_field_order(a: Option<Seq<char>>, b: Option<Seq<char>>) -> Ordering {
    match (a, b) {
        (None, None) => Ordering::Equal,
        (None, Some(_)) => Ordering::Less,
        (Some(_), None) => Ordering::Greater,
        (Some(x), Some(y)) => text_order(x, y),
    }
}

/// The order of two schema items: by package field first, and by kind where
/// the package fields are the same.
pub open spec fn schema_item_order(a: SchemaItemView, b: SchemaItemView) -> Ordering {
    match package_field_order(a.package, b.package) {
        Ordering::Equal => kind_order(a.kind, b.kind),
        order => order,
    }
}

/// Two schema items are in equal order exactly when they are the same schema
/// item.
pub proof fn lemma_schema_item_order_equal(a: SchemaItemView, b: SchemaItemView)
    ensures
        (schema_item_order(a, b) == Ordering::Equal) == (a == b),
{
    match (a.package, b.package) {
        (Some(x), Some(y)) => lemma_text_order_equal(x, y),
        _ => {},
    }
    lemma_kind_order_equal(a.kind, b.kind);
}

/// Turning two schema items round turns their order round.
pub proof fn lemma_schema_item_order_turns(a: SchemaItemView, b: SchemaItemView)
    ensures
        (schema_item_order(a, b) == Ordering::Less) == (schema_item_order(b, a)
            == Ordering::Greater),
{
    match (a.package, b.package) {
        (Some(x), Some(y)) => {
            lemma_text_order_turns(x, y);
            lemma_text_order_turns(y, x);
            lemma_text_order_equal(x, y);
            lemma_text_order_equal(y, x);
        },
        _ => {},
    }
    lemma_kind_order_turns(a.kind, b.kind);
}

/// The order of schema items chains: what comes before a schema item comes
/// before everything that the schema item comes before.
pub proof fn lemma_schema_item_order_chains(
    a: SchemaItemView,
    b: SchemaItemView,
    c: SchemaItemView,
)
    requires
        schema_item_order(a, b) == Ordering::Less,
        schema_item_order(b, c) == Ordering::Less,
    ensures
        schema_item_order(a, c) == Ordering::Less,
{
    match (a.package, b.package, c.package) {
        (Some(x), Some(y), Some(z)) => {
            lemma_text_order_equal(x, y);
            lemma_text_order_equal(y, z);
            lemma_text_order_equal(x, z);
            lemma_text_order_turns(x, y);
            lemma_text_order_turns(y, z);
            lemma_text_order_turns(z, x);
            lemma_text_order_turns(x, z);
            if text_order(x, y) == Ordering::Less && text_order(y, z) == Ordering::Less {
                lemma_text_order_chains(x, y, z);
            }
        },
        _ => {},
    }
    if a.package == b.package && b.package == c.package {
        lemma_kind_order_chains(a.kind, b.kind, c.kind);
    }
}

/// Like [`ConflictItem`], but the package may be left out.
#[derive(Debug, Eq, Hash, Ord)]
pub struct SchemaConflictItem {
    package: Option<PackageName>,
    kind: ConflictKind,
}

impl View for SchemaConflictItem {
    type V = SchemaItemView;

    closed spec fn view(&self) -> SchemaItemView {
        SchemaItemView {
            package: match self.package {
                Some(package) => Some(package_name_text(package)),
                None => None,
            },
            kind: self.kind@,
        }
    }
}

impl SchemaConflictItem {
    /// The fully named item that this schema item stands for inside the
    /// package `default`.
    fn resolve(&self, default: &PackageName) -> (item: ConflictItem)
        ensures
            item@ == resolve_item(self@, package_name_text(*default)),
    {
        let package = match &self.package {
            Some(package) => package.clone(),
            None => default.clone(),
        };
        ConflictItem::new(package, self.kind.clone())
    }
}

impl Clone for SchemaConflictItem {
    fn clone(&self) -> (copy: SchemaConflictItem)
        ensures
            copy@ == self@,
    {
        let package = match &self.package {
            Some(package) => Some(package.clone()),
            None => None,
        };
        SchemaConflictItem { package, kind: self.kind.clone() }
    }
}

impl PartialEq for SchemaConflictItem {
    fn eq(&self, other: &SchemaConflictItem) -> (same: bool) {
        let same_package = match (&self.package, &other.package) {
            (Some(a), Some(b)) => *a == *b,
            (None, None) => true,
            _ => false,
        };
        same_package && self.kind == other.kind
    }
}

impl PartialEqSpecImpl for SchemaConflictItem {
    open spec fn obeys_eq_spec() -> bool {
        true
    }

    open spec fn eq_spec(&self, other: &SchemaConflictItem) -> bool {
        self@ == other@
    }
}

impl PartialOrd for SchemaConflictItem {
    fn partial_cmp(&self, other: &SchemaConflictItem) -> (order: Option<Ordering>) {
        let by_package = match (&self.package, &other.package) {
            (None, None) => Ordering::Equal,
            (None, Some(_)) => Ordering::Less,
            (Some(_), None) => Ordering::Greater,
            (Some(a), Some(b)) => compare_package_names(a, b),
        };
        match by_package {
            Ordering::Equal => self.kind.partial_cmp(&other.kind),
            order => Some(order),
        }
    }
}

impl PartialOrdSpecImpl for SchemaConflictItem {
    open spec fn obeys_partial_cmp_spec() -> bool {
        true
    }

    open spec fn partial_cmp_spec(&self, other: &SchemaConflictItem) -> Option<Ordering> {
        Some(schema_item_order(self@, other@))
    }
}

impl TryFrom<ConflictItemWire> for SchemaConflictItem {
    type Error = ConflictError;

    /// Reads a schema item out of its record. The record must name exactly
    /// one of an extra and a group; its package is kept as it is.
    fn try_from(wire: ConflictItemWire) -> (r: Result<SchemaConflictItem, ConflictError>)
        ensures
            match r {
                Ok(item) => schema_item_from_wire(wire@) == Ok::<SchemaItemView, ConflictError>(
                    item@,
                ),
                Err(error) => schema_item_from_wire(wire@) == Err::<
                    SchemaItemView,
                    ConflictError,
                >(error),
            },
    {
        let ConflictItemWire { package, extra, group } = wire;
        match (extra, group) {
            (None, None) => Err(ConflictError::MissingExtraAndGroup),
            (Some(_), Some(_)) => Err(ConflictError::FoundExtraAndGroup),
            (Some(extra), None) => Ok(
                SchemaConflictItem { package, kind: ConflictKind::Extra(extra) },
            ),
            (None, Some(group)) => Ok(
                SchemaConflictItem { package, kind: ConflictKind::Group(group) },
            ),
        }
    }
}

impl TryFromSpecImpl<ConflictItemWire> for SchemaConflictItem {
    open spec fn obeys_try_from_spec() -> bool {
        true
    }

    closed spec fn try_from_spec(wire: ConflictItemWire) -> Result<
        SchemaConflictItem,
        ConflictError,
    > {
        match (wire.extra, wire.group) {
            (None, None) => Err(ConflictError::MissingExtraAndGroup),
            (Some(_), Some(_)) => Err(ConflictError::FoundExtraAndGroup),
            (Some(extra), None) => Ok(
                SchemaConflictItem { package: wire.package, kind: ConflictKind::Extra(extra) },
            ),
            (None, Some(group)) => Ok(
                SchemaConflictItem { package: wire.package, kind: ConflictKind::Group(group) },
            ),
        }
    }
}

impl From<SchemaConflictItem> for ConflictItemWire {
    /// Writes a schema item down as a record: the package if it names one,
    /// and the extra or the group, whichever the item holds.
    fn from(item: SchemaConflictItem) -> (wire: ConflictItemWire)
        ensures
            wire@ == schema_item_to_wire(item@),
    {
        match item.kind {
            ConflictKind::Extra(extra) => ConflictItemWire {
                package: item.package,
                extra: Some(extra),
                group: None,
            },
            ConflictKind::Group(group) => ConflictItemWire {
                package: item.package,
                extra: None,
                group: Some(group),
            },
        }
    }
}

impl FromSpecImpl<SchemaConflictItem> for ConflictItemWire {
    open spec fn obeys_from_spec() -> bool {
        true
    }

    closed spec fn from_spec(item: SchemaConflictItem) -> ConflictItemWire {
        match item.kind {
            ConflictKind::Extra(extra) => ConflictItemWire {
                package: item.package,
                extra: Some(extra),
                group: None,
            },
            ConflictKind::Group(group) => ConflictItemWire {
                package: item.package,
                extra: None,
                group: Some(group),
            },
        }
    }
}

/// Like [`ConflictSet`], but of schema items. It always holds at least two
/// items, in the order in which they were given.
#[derive(Debug, Eq)]
pub struct SchemaConflictSet(Vec<SchemaConflictItem>);

impl View for SchemaConflictSet {
    type V = Seq<SchemaItemView>;

    open spec fn view(&self) -> Seq<SchemaItemView> {
        self.items().map_values(|item: SchemaConflictItem| item@)
    }
}

impl SchemaConflictSet {
    #[verifier::type_invariant]
    spec fn has_two_items(&self) -> bool {
        self.0@.len() >= 2
    }

    /// The items of this set, in order.
    pub closed spec fn items(&self) -> Seq<SchemaConflictItem> {
        self.0@
    }

    /// Reads a schema set out of its records, one after the other. The first
    /// record that declares no schema item ends the reading with its error;
    /// after that, fewer than two items are an error.
    pub fn from_wire(wires: Vec<ConflictItemWire>) -> (r: Result<SchemaConflictSet, ConflictError>)
        ensures
            match r {
                Ok(set) => schema_set_from_wire(wires.deep_view()) == Ok::<
                    Seq<SchemaItemView>,
                    ConflictError,
                >(set@),
                Err(error) => schema_set_from_wire(wires.deep_view()) == Err::<
                    Seq<SchemaItemView>,
                    ConflictError,
                >(error),
            },
    {
        let ghost records = wires.deep_view();
        let mut items: Vec<SchemaConflictItem> = Vec::new();
        for wire in iter: wires
            invariant
                records == wires.deep_view(),
                iter.seq().len() == records.len(),
                forall|i: int| 0 <= i < records.len() ==> iter.seq()[i]@ == records[i],
                items@.len() == iter.index(),
                forall|i: int|
                    0 <= i < iter.index() ==> schema_item_from_wire(records[i]) == Ok::<
                        SchemaItemView,
                        ConflictError,
                    >(items@[i]@),
        {
            match SchemaConflictItem::try_from(wire) {
                Ok(item) => {
                    items.push(item);
                },
                Err(error) => {
                    proof {
                        lemma_convert_each_rejects(
                            records,
                            |wire: WireView| schema_item_from_wire(wire),
                            iter.index(),
                            error,
                        );
                    }
                    return Err(error);
                },
            }
        }
        let ghost read_items = items@.map_values(|item: SchemaConflictItem| item@);
        proof {
            lemma_convert_each_accepts(
                records,
                |wire: WireView| schema_item_from_wire(wire),
                read_items,
            );
        }
        SchemaConflictSet::try_from(items)
    }

    /// Writes this set down: the record of each item, in order.
    pub fn to_wire(&self) -> (wires: Vec<ConflictItemWire>)
        ensures
            wires.deep_view() == schema_set_to_wire(self@),
    {
        let mut wires: Vec<ConflictItemWire> = Vec::new();
        let mut i: usize = 0;
        while i < self.0.len()
            invariant
                i <= self.0@.len(),
                wires@.len() == i,
                forall|j: int| 0 <= j < i ==> wires@[j]@ == schema_item_to_wire(self.0@[j]@),
            decreases self.0@.len() - i,
        {
            wires.push(ConflictItemWire::from(self.0[i].clone()));
            i += 1;
        }
        assert(wires.deep_view() =~= schema_set_to_wire(self@));
        wires
    }

    /// The fully named set that this schema set stands for inside the
    /// package `default`.
    fn resolve(&self, default: &PackageName) -> (set: ConflictSet)
        ensures
            set@ == resolve_set(self@, package_name_text(*default)),
    {
        proof {
            use_type_invariant(self);
        }
        let mut items: Vec<ConflictItem> = Vec::new();
        let mut i: usize = 0;
        while i < self.0.len()
            invariant
                i <= self.0@.len(),
                items@.len() == i,
                forall|j: int|
                    0 <= j < i ==> items@[j]@ == resolve_item(
                        self.0@[j]@,
                        package_name_text(*default),
                    ),
            decreases self.0@.len() - i,
        {
            items.push(self.0[i].resolve(default));
            i += 1;
        }
        // Resolution keeps the number of items, so the set is never rejected.
        let set = ConflictSet::try_from(items).unwrap();
        assert(set@ =~= resolve_set(self@, package_name_text(*default)));
        set
    }
}

impl TryFrom<Vec<SchemaConflictItem>> for SchemaConflictSet {
    type Error = ConflictError;

    /// Accepts two or more items and keeps them as they are; rejects none
    /// and one.
    fn try_from(items: Vec<SchemaConflictItem>) -> (r: Result<SchemaConflictSet, ConflictError>)
        ensures
            match r {
                Ok(set) => length_error(items@.len()) is None && set.items() == items@,
                Err(error) => length_error(items@.len()) == Some(error),
            },
    {
        match items.len() {
            0 => return Err(ConflictError::ZeroItems),
            1 => return Err(ConflictError::OneItem),
            _ => {},
        }
        Ok(SchemaConflictSet(items))
    }
}

impl TryFromSpecImpl<Vec<SchemaConflictItem>> for SchemaConflictSet {
    open spec fn obeys_try_from_spec() -> bool {
        true
    }

    closed spec fn try_from_spec(items: Vec<SchemaConflictItem>) -> Result<
        SchemaConflictSet,
        ConflictError,
    > {
        match length_error(items@.len()) {
            Some(error) => Err(error),
            None => Ok(SchemaConflictSet(items)),
        }
    }
}

impl Clone for SchemaConflictSet {
    fn clone(&self) -> (copy: SchemaConflictSet)
        ensures
            copy@ == self@,
    {
        proof {
            use_type_invariant(self);
        }
        let mut items: Vec<SchemaConflictItem> = Vec::new();
        let mut i: usize = 0;
        while i < self.0.len()
            invariant
                i <= self.0@.len(),
                items@.len() == i,
                forall|j: int| 0 <= j < i ==> items@[j]@ == self.0@[j]@,
            decreases self.0@.len() - i,
        {
            items.push(self.0[i].clone());
            i += 1;
        }
        let copy = SchemaConflictSet(items);
        assert(copy@ =~= self@);
        copy
    }
}

impl PartialEq for SchemaConflictSet {
    fn eq(&self, other: &SchemaConflictSet) -> (same: bool) {
        if self.0.len() != other.0.len() {
            assert(self@.len() != other@.len());
            return false;
        }
        let mut i: usize = 0;
        while i < self.0.len()
            invariant
                i <= self.0@.len(),
                self.0@.len() == other.0@.len(),
                forall|j: int| 0 <= j < i ==> self@[j] == other@[j],
            decreases self.0@.len() - i,
        {
            if self.0[i] != other.0[i] {
                assert(self@[i as int] != other@[i as int]);
                return false;
            }
            i += 1;
        }
        assert(self@ =~= other@);
        true
    }
}

impl PartialEqSpecImpl for SchemaConflictSet {
    open spec fn obeys_eq_spec() -> bool {
        true
    }

    open spec fn eq_spec(&self, other: &SchemaConflictSet) -> bool {
        self@ == other@
    }
}

/// Like [`Conflicts`], but as a user declares it: a list of schema sets.
#[derive(Debug, Eq)]
pub struct SchemaConflicts(Vec<SchemaConflictSet>);

impl View for SchemaConflicts {
    type V = Seq<Seq<SchemaItemView>>;

    open spec fn view(&self) -> Seq<Seq<SchemaItemView>> {
        self.sets().map_values(|set: SchemaConflictSet| set@)
    }
}

impl SchemaConflicts {
    /// The sets of this list, in order.
    pub closed spec fn sets(&self) -> Seq<SchemaConflictSet> {
        self.0@
    }

    /// Reads a schema list out of its records, set by set. The first set that
    /// cannot be read ends the reading with its error.
    pub fn from_wire(sets: Vec<Vec<ConflictItemWire>>) -> (r: Result<
        SchemaConflicts,
        ConflictError,
    >)
        ensures
            match r {
                Ok(conflicts) => schema_conflicts_from_wire(sets.deep_view()) == Ok::<
                    Seq<Seq<SchemaItemView>>,
                    ConflictError,
                >(conflicts@),
                Err(error) => schema_conflicts_from_wire(sets.deep_view()) == Err::<
                    Seq<Seq<SchemaItemView>>,
                    ConflictError,
                >(error),
            },
    {
        let ghost records = sets.deep_view();
        let mut read: Vec<SchemaConflictSet> = Vec::new();
        for wires in iter: sets
            invariant
                records == sets.deep_view(),
                iter.seq().len() == records.len(),
                forall|i: int| 0 <= i < records.len() ==> iter.seq()[i].deep_view() == records[i],
                read@.len() == iter.index(),
                forall|i: int|
                    0 <= i < iter.index() ==> schema_set_from_wire(records[i]) == Ok::<
                        Seq<SchemaItemView>,
                        ConflictError,
                    >(read@[i]@),
        {
            match SchemaConflictSet::from_wire(wires) {
                Ok(set) => {
                    read.push(set);
                },
                Err(error) => {
                    proof {
                        lemma_convert_each_rejects(
                            records,
                            |wires: Seq<WireView>| schema_set_from_wire(wires),
                            iter.index(),
                            error,
                        );
                    }
                    return Err(error);
                },
            }
        }
        let conflicts = SchemaConflicts(read);
        proof {
            lemma_convert_each_accepts(
                records,
                |wires: Seq<WireView>| schema_set_from_wire(wires),
                conflicts@,
            );
        }
        Ok(conflicts)
    }

    /// Writes this list down: the records of each set, in order.
    pub fn to_wire(&self) -> (sets: Vec<Vec<ConflictItemWire>>)
        ensures
            sets.deep_view() == schema_conflicts_to_wire(self@),
    {
        let mut sets: Vec<Vec<ConflictItemWire>> = Vec::new();
        let mut i: usize = 0;
        while i < self.0.len()
            invariant
                i <= self.0@.len(),
                sets@.len() == i,
                forall|j: int|
                    0 <= j < i ==> sets@[j].deep_view() == schema_set_to_wire(self.0@[j]@),
            decreases self.0@.len() - i,
        {
            sets.push(self.0[i].to_wire());
            i += 1;
        }
        assert(sets.deep_view() =~= schema_conflicts_to_wire(self@));
        sets
    }

    /// The fully named conflicts that this declaration stands for inside the
    /// given package. An item that names its own package keeps it; every
    /// other item gets `package`. Sets and items keep their order.
    pub fn to_conflicts_with_package_name(&self, package: &PackageName) -> (conflicts: Conflicts)
        ensures
            conflicts@ == resolve_conflicts(self@, package_name_text(*package)),
    {
        let mut conflicting = Conflicts::empty();
        let mut i: usize = 0;
        while i < self.0.len()
            invariant
                i <= self.0@.len(),
                conflicting@.len() == i,
                forall|j: int|
                    0 <= j < i ==> conflicting@[j] == resolve_set(
                        self.0@[j]@,
                        package_name_text(*package),
                    ),
            decreases self.0@.len() - i,
        {
            conflicting.push(self.0[i].resolve(package));
            i += 1;
        }
        assert(conflicting@ =~= resolve_conflicts(self@, package_name_text(*package)));
        conflicting
    }
}

impl Default for SchemaConflicts {
    fn default() -> (r: SchemaConflicts)
        ensures
            r@ == Seq::<Seq<SchemaItemView>>::empty(),
    {
        let r = SchemaConflicts(Vec::new());
        assert(r@ =~= Seq::<Seq<SchemaItemView>>::empty());
        r
    }
}

impl Clone for SchemaConflicts {
    fn clone(&self) -> (copy: SchemaConflicts)
        ensures
            copy@ == self@,
    {
        let mut sets: Vec<SchemaConflictSet> = Vec::new();
        let mut i: usize = 0;
        while i < self.0.len()
            invariant
                i <= self.0@.len(),
                sets@.len() == i,
                forall|j: int| 0 <= j < i ==> sets@[j]@ == self.0@[j]@,
            decreases self.0@.len() - i,
        {
            sets.push(self.0[i].clone());
            i += 1;
        }
        let copy = SchemaConflicts(sets);
        assert(copy@ =~= self@);
        copy
    }
}

impl PartialEq for SchemaConflicts {
    fn eq(&self, other: &SchemaConflicts) -> (same: bool) {
        if self.0.len() != other.0.len() {
            assert(self@.len() != other@.len());
            return false;
        }
        let mut i: usize = 0;
        while i < self.0.len()
            invariant
                i <= self.0@.len(),
                self.0@.len() == other.0@.len(),
                forall|j: int| 0 <= j < i ==> self@[j] == other@[j],
            decreases self.0@.len() - i,
        {
            if self.0[i] != other.0[i] {
                assert(self@[i as int] != other@[i as int]);
                return false;
            }
            i += 1;
        }
        assert(self@ =~= other@);
        true
    }
}

impl PartialEqSpecImpl for SchemaConflicts {
    open spec fn obeys_eq_spec() -> bool {
        true
    }

    open spec fn eq_spec(&self, other: &SchemaConflicts) -> bool {
        self@ == other@
    }
}

} // verus!
