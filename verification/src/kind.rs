//! The two kinds of thing that can conflict: an extra or a dependency group.

use crate::names::{
    compare_extra_names, compare_group_names, extra_name_text, group_name_text,
    lemma_text_order_chains, lemma_text_order_equal, lemma_text_order_turns, text_order,
};
use core::cmp::Ordering;
use uv_normalize::{ExtraName, GroupName};
use vstd::prelude::*;
use vstd::std_specs::cmp::{PartialEqSpecImpl, PartialOrdSpecImpl};
use vstd::std_specs::convert::FromSpecImpl;

verus! {

/// What a conflict kind stands for in contracts: which of the two it is, and
/// the text of its name.
pub enum KindView {
    Extra(Seq<char>),
    Group(Seq<char>),
}

/// The order of two kinds: every extra comes before every group, and two
/// kinds of the same sort are ordered by their names.
pub open spec fn kind_order(a: KindView, b: KindView) -> Ordering {
    match (a, b) {
        (KindView::Extra(x), KindView::Extra(y)) => text_order(x, y),
        (KindView::Extra(_), KindView::Group(_)) => Ordering::Less,
        (KindView::Group(_), KindView::Extra(_)) => Ordering::Greater,
        (KindView::Group(x), KindView::Group(y)) => text_order(x, y),
    }
}

/// Two kinds are in equal order exactly when they are the same kind.
pub proof fn lemma_kind_order_equal(a: KindView, b: KindView)
    ensures
        (kind_order(a, b) == Ordering::Equal) == (a == b),
{
    match (a, b) {
        (KindView::Extra(x), KindView::Extra(y)) => lemma_text_order_equal(x, y),
        (KindView::Group(x), KindView::Group(y)) => lemma_text_order_equal(x, y),
        _ => {},
    }
}

/// Turning two kinds round turns their order round.
pub proof fn lemma_kind_order_turns(a: KindView, b: KindView)
    ensures
        (kind_order(a, b) == Ordering::Less) == (kind_order(b, a) == Ordering::Greater),
{
    match (a, b) {
        (KindView::Extra(x), KindView::Extra(y)) => lemma_text_order_turns(x, y),
        (KindView::Group(x), KindView::Group(y)) => lemma_text_order_turns(x, y),
        _ => {},
    }
}

/// The order of kinds chains: what comes before a kind comes before
/// everything that the kind comes before.
pub proof fn lemma_kind_order_chains(a: KindView, b: KindView, c: KindView)
    requires
        kind_order(a, b) == Ordering::Less,
        kind_order(b, c) == Ordering::Less,
    ensures
        kind_order(a, c) == Ordering::Less,
{
    match (a, b, c) {
        (KindView::Extra(x), KindView::Extra(y), KindView::Extra(z)) => {
            lemma_text_order_chains(x, y, z)
        },
        (KindView::Group(x), KindView::Group(y), KindView::Group(z)) => {
            lemma_text_order_chains(x, y, z)
        },
        _ => {},
    }
}

/// The conflicting data of a package: either an extra or a group name.
#[derive(Debug, Eq, Hash, Ord)]
pub enum ConflictKind {
    Extra(ExtraName),
    Group(GroupName),
}

/// The conflicting data of a package, by reference: either a borrowed extra
/// name or a borrowed group name.
#[derive(Debug, Clone, Copy, Eq, Hash, Ord)]
pub enum ConflictKindRef<'a> {
    Extra(&'a ExtraName),
    Group(&'a GroupName),
}

impl View for ConflictKind {
    type V = KindView;

    open spec fn view(&self) -> KindView {
        match *self {
            ConflictKind::Extra(extra) => KindView::Extra(extra_name_text(extra)),
            ConflictKind::Group(group) => KindView::Group(group_name_text(group)),
        }
    }
}

impl<'a> View for ConflictKindRef<'a> {
    type V = KindView;

    open spec fn view(&self) -> KindView {
        match *self {
            ConflictKindRef::Extra(extra) => KindView::Extra(extra_name_text(*extra)),
            ConflictKindRef::Group(group) => KindView::Group(group_name_text(*group)),
        }
    }
}

impl ConflictKind {
    /// The extra name, if this kind is an extra.
    pub fn extra(&self) -> (r: Option<&ExtraName>)
        ensures
            match *self {
                ConflictKind::Extra(extra) => r == Some(&extra),
                ConflictKind::Group(_) => r is None,
            },
    {
        match *self {
            ConflictKind::Extra(ref extra) => Some(extra),
            ConflictKind::Group(_) => None,
        }
    }

    /// The group name, if this kind is a group.
    pub fn group(&self) -> (r: Option<&GroupName>)
        ensures
            match *self {
                ConflictKind::Group(group) => r == Some(&group),
                ConflictKind::Extra(_) => r is None,
            },
    {
        match *self {
            ConflictKind::Group(ref group) => Some(group),
            ConflictKind::Extra(_) => None,
        }
    }

    /// The same kind with its name borrowed.
    pub fn as_ref(&self) -> (r: ConflictKindRef<'_>)
        ensures
            r@ == self@,
            match *self {
                ConflictKind::Extra(extra) => r == ConflictKindRef::Extra(&extra),
                ConflictKind::Group(group) => r == ConflictKindRef::Group(&group),
            },
    {
        match *self {
            ConflictKind::Extra(ref extra) => ConflictKindRef::Extra(extra),
            ConflictKind::Group(ref group) => ConflictKindRef::Group(group),
        }
    }
}

impl Clone for ConflictKind {
    fn clone(&self) -> (copy: ConflictKind)
        ensures
            copy@ == self@,
    {
        match *self {
            ConflictKind::Extra(ref extra) => ConflictKind::Extra(extra.clone()),
            ConflictKind::Group(ref group) => ConflictKind::Group(group.clone()),
        }
    }
}

impl PartialEq for ConflictKind {
    fn eq(&self, other: &ConflictKind) -> (same: bool) {
        match (self, other) {
            (ConflictKind::Extra(a), ConflictKind::Extra(b)) => *a == *b,
            (ConflictKind::Group(a), ConflictKind::Group(b)) => *a == *b,
            _ => false,
        }
    }
}

impl PartialEqSpecImpl for ConflictKind {
    open spec fn obeys_eq_spec() -> bool {
        true
    }

    open spec fn eq_spec(&self, other: &ConflictKind) -> bool {
        self@ == other@
    }
}

impl PartialOrd for ConflictKind {
    fn partial_cmp(&self, other: &ConflictKind) -> (order: Option<Ordering>) {
        Some(
            match (self, other) {
                (ConflictKind::Extra(a), ConflictKind::Extra(b)) => compare_extra_names(a, b),
                (ConflictKind::Extra(_), ConflictKind::Group(_)) => Ordering::Less,
                (ConflictKind::Group(_), ConflictKind::Extra(_)) => Ordering::Greater,
                (ConflictKind::Group(a), ConflictKind::Group(b)) => compare_group_names(a, b),
            },
        )
    }
}

impl PartialOrdSpecImpl for ConflictKind {
    open spec fn obeys_partial_cmp_spec() -> bool {
        true
    }

    open spec fn partial_cmp_spec(&self, other: &ConflictKind) -> Option<Ordering> {
        Some(kind_order(self@, other@))
    }
}

impl<'a> ConflictKindRef<'a> {
    /// The extra name, if this kind is an extra.
    pub fn extra(&self) -> (r: Option<&'a ExtraName>)
        ensures
            match *self {
                ConflictKindRef::Extra(extra) => r == Some(extra),
                ConflictKindRef::Group(_) => r is None,
            },
    {
        match *self {
            ConflictKindRef::Extra(extra) => Some(extra),
            ConflictKindRef::Group(_) => None,
        }
    }

    /// The group name, if this kind is a group.
    pub fn group(&self) -> (r: Option<&'a GroupName>)
        ensures
            match *self {
                ConflictKindRef::Group(group) => r == Some(group),
                ConflictKindRef::Extra(_) => r is None,
            },
    {
        match *self {
            ConflictKindRef::Group(group) => Some(group),
            ConflictKindRef::Extra(_) => None,
        }
    }

    /// An owned kind with a copy of the borrowed name.
    pub fn to_owned(&self) -> (r: ConflictKind)
        ensures
            r@ == self@,
    {
        match *self {
            ConflictKindRef::Extra(extra) => ConflictKind::Extra(extra.clone()),
            ConflictKindRef::Group(group) => ConflictKind::Group(group.clone()),
        }
    }

    /// Whether this borrowed kind stands for the same kind as the owned `key`.
    pub fn equivalent(&self, key: &ConflictKind) -> (same: bool)
        ensures
            same == (self@ == key@),
    {
        key.as_ref() == *self
    }
}

impl<'a> PartialEq for ConflictKindRef<'a> {
    fn eq(&self, other: &ConflictKindRef<'a>) -> (same: bool) {
        match (*self, *other) {
            (ConflictKindRef::Extra(a), ConflictKindRef::Extra(b)) => *a == *b,
            (ConflictKindRef::Group(a), ConflictKindRef::Group(b)) => *a == *b,
            _ => false,
        }
    }
}

impl<'a> PartialEqSpecImpl for ConflictKindRef<'a> {
    open spec fn obeys_eq_spec() -> bool {
        true
    }

    open spec fn eq_spec(&self, other: &ConflictKindRef<'a>) -> bool {
        self@ == other@
    }
}

impl<'a> PartialOrd for ConflictKindRef<'a> {
    fn partial_cmp(&self, other: &ConflictKindRef<'a>) -> (order: Option<Ordering>) {
        Some(
            match (*self, *other) {
                (ConflictKindRef::Extra(a), ConflictKindRef::Extra(b)) => compare_extra_names(a, b),
                (ConflictKindRef::Extra(_), ConflictKindRef::Group(_)) => Ordering::Less,
                (ConflictKindRef::Group(_), ConflictKindRef::Extra(_)) => Ordering::Greater,
                (ConflictKindRef::Group(a), ConflictKindRef::Group(b)) => compare_group_names(a, b),
            },
        )
    }
}

impl<'a> PartialOrdSpecImpl for ConflictKindRef<'a> {
    open spec fn obeys_partial_cmp_spec() -> bool {
        true
    }

    open spec fn partial_cmp_spec(&self, other: &ConflictKindRef<'a>) -> Option<Ordering> {
        Some(kind_order(self@, other@))
    }
}

impl<'a> PartialEq<ConflictKind> for ConflictKindRef<'a> {
    fn eq(&self, other: &ConflictKind) -> (same: bool) {
        other.as_ref() == *self
    }
}

impl<'a> PartialEqSpecImpl<ConflictKind> for ConflictKindRef<'a> {
    open spec fn obeys_eq_spec() -> bool {
        true
    }

    open spec fn eq_spec(&self, other: &ConflictKind) -> bool {
        self@ == other@
    }
}

impl<'a> PartialEq<ConflictKindRef<'a>> for ConflictKind {
    fn eq(&self, other: &ConflictKindRef<'a>) -> (same: bool) {
        self.as_ref() == *other
    }
}

impl<'a> PartialEqSpecImpl<ConflictKindRef<'a>> for ConflictKind {
    open spec fn obeys_eq_spec() -> bool {
        true
    }

    open spec fn eq_spec(&self, other: &ConflictKindRef<'a>) -> bool {
        self@ == other@
    }
}

impl<'a> From<&'a ExtraName> for ConflictKindRef<'a> {
    fn from(extra: &'a ExtraName) -> (r: ConflictKindRef<'a>) {
        ConflictKindRef::Extra(extra)
    }
}

impl<'a> FromSpecImpl<&'a ExtraName> for ConflictKindRef<'a> {
    open spec fn obeys_from_spec() -> bool {
        true
    }

    open spec fn from_spec(extra: &'a ExtraName) -> ConflictKindRef<'a> {
        ConflictKindRef::Extra(extra)
    }
}

impl<'a> From<&'a GroupName> for ConflictKindRef<'a> {
    fn from(group: &'a GroupName) -> (r: ConflictKindRef<'a>) {
        ConflictKindRef::Group(group)
    }
}

impl<'a> FromSpecImpl<&'a GroupName> for ConflictKindRef<'a> {
    open spec fn obeys_from_spec() -> bool {
        true
    }

    open spec fn from_spec(group: &'a GroupName) -> ConflictKindRef<'a> {
        ConflictKindRef::Group(group)
    }
}

} // verus!
