//! One entry of a conflict set: a package together with one of its extras or
//! groups.

use crate::error::ConflictError;
use crate::kind::{
    kind_order, lemma_kind_order_chains, lemma_kind_order_equal, lemma_kind_order_turns,
    ConflictKind, ConflictKindRef, KindView,
};
use crate::names::{
    compare_package_names, extra_name_text, group_name_text, lemma_text_order_chains,
    lemma_text_order_equal, lemma_text_order_turns, package_name_text, text_order,
};
use crate::wire::{item_from_wire, item_to_wire, ConflictItemWire};
use core::cmp::Ordering;
use uv_normalize::{ExtraName, GroupName, PackageName};
use vstd::prelude::*;
use vstd::std_specs::cmp::{PartialEqSpecImpl, PartialOrdSpecImpl};
use vstd::std_specs::convert::{FromSpecImpl, TryFromSpecImpl};

verus! {

/// What a conflict item stands for in contracts: the text of its package name
/// and its kind.
pub struct ItemView {
    pub package: Seq<char>,
    pub kind: KindView,
}

/// The order of two items: by package first, and by kind where the packages
/// are the same.
pub open spec fn item_order(a: ItemView, b: ItemView) -> Ordering {
    match text_order(a.package, b.package) {
        Ordering::Equal => kind_order(a.kind, b.kind),
        order => order,
    }
}

/// Two items are in equal order exactly when they are the same item.
pub proof fn lemma_item_order_equal(a: ItemView, b: ItemView)
    ensures
        (item_order(a, b) == Ordering::Equal) == (a == b),
{
    lemma_text_order_equal(a.package, b.package);
    lemma_kind_order_equal(a.kind, b.kind);
}

/// Turning two items round turns their order round.
pub proof fn lemma_item_order_turns(a: ItemView, b: ItemView)
    ensures
        (item_order(a, b) == Ordering::Less) == (item_order(b, a) == Ordering::Greater),
{
    lemma_text_order_turns(a.package, b.package);
    lemma_text_order_turns(b.package, a.package);
    lemma_text_order_equal(a.package, b.package);
    lemma_text_order_equal(b.package, a.package);
    lemma_kind_order_turns(a.kind, b.kind);
}

/// The order of items chains: what comes before an item comes before
/// everything that the item comes before.
pub proof fn lemma_item_order_chains(a: ItemView, b: ItemView, c: ItemView)
    requires
        item_order(a, b) == Ordering::Less,
        item_order(b, c) == Ordering::Less,
    ensures
        item_order(a, c) == Ordering::Less,
{
    lemma_text_order_equal(a.package, b.package);
    lemma_text_order_equal(b.package, c.package);
    lemma_text_order_equal(a.package, c.package);
    lemma_text_order_turns(a.package, b.package);
    lemma_text_order_turns(b.package, c.package);
    lemma_text_order_turns(c.package, a.package);
    lemma_text_order_turns(a.package, c.package);
    if text_order(a.package, b.package) == Ordering::Less && text_order(b.package, c.package)
        == Ordering::Less {
        lemma_text_order_chains(a.package, b.package, c.package);
    }
    if a.package == b.package && b.package == c.package {
        lemma_kind_order_chains(a.kind, b.kind, c.kind);
    }
}

/// A single item in a conflict set: a package and an extra or group of it.
#[derive(Debug, Eq, Hash, Ord)]
pub struct ConflictItem {
    package: PackageName,
    kind: ConflictKind,
}

/// A single item in a conflict set, with its names borrowed.
#[derive(Debug, Clone, Copy, Eq, Hash, Ord)]
pub struct ConflictItemRef<'a> {
    package: &'a PackageName,
    kind: ConflictKindRef<'a>,
}

impl View for ConflictItem {
    type V = ItemView;

    closed spec fn view(&self) -> ItemView {
        ItemView { package: package_name_text(self.package), kind: self.kind@ }
    }
}

impl<'a> View for ConflictItemRef<'a> {
    type V = ItemView;

    closed spec fn view(&self) -> ItemView {
        ItemView { package: package_name_text(*self.package), kind: self.kind@ }
    }
}

impl ConflictItem {
    /// An item made of the given package and kind.
    pub(crate) fn new(package: PackageName, kind: ConflictKind) -> (item: ConflictItem)
        ensures
            item@ == (ItemView { package: package_name_text(package), kind: kind@ }),
    {
        ConflictItem { package, kind }
    }

    /// The package of this item.
    pub fn package(&self) -> (r: &PackageName)
        ensures
            package_name_text(*r) == self@.package,
    {
        &self.package
    }

    /// The extra or group of this item.
    pub fn kind(&self) -> (r: &ConflictKind)
        ensures
            r@ == self@.kind,
    {
        &self.kind
    }

    /// The extra name of this item, if its kind is an extra.
    pub fn extra(&self) -> (r: Option<&ExtraName>)
        ensures
            match self@.kind {
                KindView::Extra(text) => r is Some && extra_name_text(*r.unwrap()) == text,
                KindView::Group(_) => r is None,
            },
    {
        self.kind.extra()
    }

    /// The group name of this item, if its kind is a group.
    pub fn group(&self) -> (r: Option<&GroupName>)
        ensures
            match self@.kind {
                KindView::Group(text) => r is Some && group_name_text(*r.unwrap()) == text,
                KindView::Extra(_) => r is None,
            },
    {
        self.kind.group()
    }

    /// The same item with its names borrowed.
    pub fn as_ref(&self) -> (r: ConflictItemRef<'_>)
        ensures
            r@ == self@,
    {
        ConflictItemRef { package: self.package(), kind: self.kind.as_ref() }
    }
}

impl Clone for ConflictItem {
    fn clone(&self) -> (copy: ConflictItem)
        ensures
            copy@ == self@,
    {
        ConflictItem { package: self.package.clone(), kind: self.kind.clone() }
    }
}

impl PartialEq for ConflictItem {
    fn eq(&self, other: &ConflictItem) -> (same: bool) {
        self.package == other.package && self.kind == other.kind
    }
}

impl PartialEqSpecImpl for ConflictItem {
    open spec fn obeys_eq_spec() -> bool {
        true
    }

    open spec fn eq_spec(&self, other: &ConflictItem) -> bool {
        self@ == other@
    }
}

impl PartialOrd for ConflictItem {
    fn partial_cmp(&self, other: &ConflictItem) -> (order: Option<Ordering>) {
        match compare_package_names(&self.package, &other.package) {
            Ordering::Equal => self.kind.partial_cmp(&other.kind),
            order => Some(order),
        }
    }
}

impl PartialOrdSpecImpl for ConflictItem {
    open spec fn obeys_partial_cmp_spec() -> bool {
        true
    }

    open spec fn partial_cmp_spec(&self, other: &ConflictItem) -> Option<Ordering> {
        Some(item_order(self@, other@))
    }
}

impl From<(PackageName, ExtraName)> for ConflictItem {
    fn from(pair: (PackageName, ExtraName)) -> (item: ConflictItem)
        ensures
            item@ == (ItemView {
                package: package_name_text(pair.0),
                kind: KindView::Extra(extra_name_text(pair.1)),
            }),
    {
        let (package, extra) = pair;
        let kind = ConflictKind::Extra(extra);
        ConflictItem { package, kind }
    }
}

impl FromSpecImpl<(PackageName, ExtraName)> for ConflictItem {
    open spec fn obeys_from_spec() -> bool {
        true
    }

    closed spec fn from_spec(pair: (PackageName, ExtraName)) -> ConflictItem {
        ConflictItem { package: pair.0, kind: ConflictKind::Extra(pair.1) }
    }
}

impl From<(PackageName, GroupName)> for ConflictItem {
    fn from(pair: (PackageName, GroupName)) -> (item: ConflictItem)
        ensures
            item@ == (ItemView {
                package: package_name_text(pair.0),
                kind: KindView::Group(group_name_text(pair.1)),
            }),
    {
        let (package, group) = pair;
        let kind = ConflictKind::Group(group);
        ConflictItem { package, kind }
    }
}

impl FromSpecImpl<(PackageName, GroupName)> for ConflictItem {
    open spec fn obeys_from_spec() -> bool {
        true
    }

    closed spec fn from_spec(pair: (PackageName, GroupName)) -> ConflictItem {
        ConflictItem { package: pair.0, kind: ConflictKind::Group(pair.1) }
    }
}

impl TryFrom<ConflictItemWire> for ConflictItem {
    type Error = ConflictError;

    /// Reads an item out of its record. The record must name its package and
    /// exactly one of an extra and a group.
    fn try_from(wire: ConflictItemWire) -> (r: Result<ConflictItem, ConflictError>)
        ensures
            match r {
                Ok(item) => item_from_wire(wire@) == Ok::<ItemView, ConflictError>(item@),
                Err(error) => item_from_wire(wire@) == Err::<ItemView, ConflictError>(error),
            },
    {
        let ConflictItemWire { package, extra, group } = wire;
        let package = match package {
            Some(package) => package,
            None => {
                return Err(ConflictError::MissingPackage);
            },
        };
        match (extra, group) {
            (None, None) => Err(ConflictError::MissingExtraAndGroup),
            (Some(_), Some(_)) => Err(ConflictError::FoundExtraAndGroup),
            (Some(extra), None) => Ok(ConflictItem::from((package, extra))),
            (None, Some(group)) => Ok(ConflictItem::from((package, group))),
        }
    }
}

impl TryFromSpecImpl<ConflictItemWire> for ConflictItem {
    open spec fn obeys_try_from_spec() -> bool {
        true
    }

    closed spec fn try_from_spec(wire: ConflictItemWire) -> Result<ConflictItem, ConflictError> {
        match (wire.package, wire.extra, wire.group) {
            (None, _, _) => Err(ConflictError::MissingPackage),
            (Some(_), None, None) => Err(ConflictError::MissingExtraAndGroup),
            (Some(_), Some(_), Some(_)) => Err(ConflictError::FoundExtraAndGroup),
            (Some(package), Some(extra), None) => Ok(
                ConflictItem { package, kind: ConflictKind::Extra(extra) },
            ),
            (Some(package), None, Some(group)) => Ok(
                ConflictItem { package, kind: ConflictKind::Group(group) },
            ),
        }
    }
}

impl From<ConflictItem> for ConflictItemWire {
    /// Writes an item down as a record: the package, and the extra or the
    /// group, whichever the item holds.
    fn from(item: ConflictItem) -> (wire: ConflictItemWire)
        ensures
            wire@ == item_to_wire(item@),
    {
        match item.kind {
            ConflictKind::Extra(extra) => ConflictItemWire {
                package: Some(item.package),
                extra: Some(extra),
                group: None,
            },
            ConflictKind::Group(group) => ConflictItemWire {
                package: Some(item.package),
                extra: None,
                group: Some(group),
            },
        }
    }
}

impl FromSpecImpl<ConflictItem> for ConflictItemWire {
    open spec fn obeys_from_spec() -> bool {
        true
    }

    closed spec fn from_spec(item: ConflictItem) -> ConflictItemWire {
        match item.kind {
            ConflictKind::Extra(extra) => ConflictItemWire {
                package: Some(item.package),
                extra: Some(extra),
                group: None,
            },
            ConflictKind::Group(group) => ConflictItemWire {
                package: Some(item.package),
                extra: None,
                group: Some(group),
            },
        }
    }
}

impl<'a> ConflictItemRef<'a> {
    /// The package of this item.
    pub fn package(&self) -> (r: &'a PackageName)
        ensures
            package_name_text(*r) == self@.package,
    {
        self.package
    }

    /// The extra or group of this item.
    pub fn kind(&self) -> (r: ConflictKindRef<'a>)
        ensures
            r@ == self@.kind,
    {
        self.kind
    }

    /// The extra name of this item, if its kind is an extra.
    pub fn extra(&self) -> (r: Option<&'a ExtraName>)
        ensures
            match self@.kind {
                KindView::Extra(text) => r is Some && extra_name_text(*r.unwrap()) == text,
                KindView::Group(_) => r is None,
            },
    {
        self.kind.extra()
    }

    /// The group name of this item, if its kind is a group.
    pub fn group(&self) -> (r: Option<&'a GroupName>)
        ensures
            match self@.kind {
                KindView::Group(text) => r is Some && group_name_text(*r.unwrap()) == text,
                KindView::Extra(_) => r is None,
            },
    {
        self.kind.group()
    }

    /// An owned item with copies of the borrowed names.
    pub fn to_owned(&self) -> (r: ConflictItem)
        ensures
            r@ == self@,
    {
        ConflictItem { package: self.package().clone(), kind: self.kind.to_owned() }
    }

    /// Whether this borrowed item stands for the same item as the owned `key`:
    /// the same package and the same kind.
    pub fn equivalent(&self, key: &ConflictItem) -> (same: bool)
        ensures
            same == (self@ == key@),
    {
        key.as_ref() == *self
    }
}

impl<'a> PartialEq for ConflictItemRef<'a> {
    fn eq(&self, other: &ConflictItemRef<'a>) -> (same: bool) {
        *self.package == *other.package && self.kind == other.kind
    }
}

impl<'a> PartialEqSpecImpl for ConflictItemRef<'a> {
    open spec fn obeys_eq_spec() -> bool {
        true
    }

    open spec fn eq_spec(&self, other: &ConflictItemRef<'a>) -> bool {
        self@ == other@
    }
}

impl<'a> PartialOrd for ConflictItemRef<'a> {
    fn partial_cmp(&self, other: &ConflictItemRef<'a>) -> (order: Option<Ordering>) {
        match compare_package_names(self.package, other.package) {
            Ordering::Equal => self.kind.partial_cmp(&other.kind),
            order => Some(order),
        }
    }
}

impl<'a> PartialOrdSpecImpl for ConflictItemRef<'a> {
    open spec fn obeys_partial_cmp_spec() -> bool {
        true
    }

    open spec fn partial_cmp_spec(&self, other: &ConflictItemRef<'a>) -> Option<Ordering> {
        Some(item_order(self@, other@))
    }
}

impl<'a> From<(&'a PackageName, &'a ExtraName)> for ConflictItemRef<'a> {
    fn from(pair: (&'a PackageName, &'a ExtraName)) -> (item: ConflictItemRef<'a>)
        ensures
            item@ == (ItemView {
                package: package_name_text(*pair.0),
                kind: KindView::Extra(extra_name_text(*pair.1)),
            }),
    {
        let (package, extra) = pair;
        let kind = ConflictKindRef::Extra(extra);
        ConflictItemRef { package, kind }
    }
}

impl<'a> FromSpecImpl<(&'a PackageName, &'a ExtraName)> for ConflictItemRef<'a> {
    open spec fn obeys_from_spec() -> bool {
        true
    }

    closed spec fn from_spec(pair: (&'a PackageName, &'a ExtraName)) -> ConflictItemRef<'a> {
        ConflictItemRef { package: pair.0, kind: ConflictKindRef::Extra(pair.1) }
    }
}

impl<'a> From<(&'a PackageName, &'a GroupName)> for ConflictItemRef<'a> {
    fn from(pair: (&'a PackageName, &'a GroupName)) -> (item: ConflictItemRef<'a>)
        ensures
            item@ == (ItemView {
                package: package_name_text(*pair.0),
                kind: KindView::Group(group_name_text(*pair.1)),
            }),
    {
        let (package, group) = pair;
        let kind = ConflictKindRef::Group(group);
        ConflictItemRef { package, kind }
    }
}

impl<'a> FromSpecImpl<(&'a PackageName, &'a GroupName)> for ConflictItemRef<'a> {
    open spec fn obeys_from_spec() -> bool {
        true
    }

    closed spec fn from_spec(pair: (&'a PackageName, &'a GroupName)) -> ConflictItemRef<'a> {
        ConflictItemRef { package: pair.0, kind: ConflictKindRef::Group(pair.1) }
    }
}

} // verus!
