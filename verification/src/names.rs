//! The identifier types of `uv_normalize`, as far as this crate relies on them.
//!
//! A name is an opaque value here. What the contracts of this crate say about
//! a name, they say about its text: the normalized string that the name
//! holds. Each of the three name types wraps one string and derives `Clone`,
//! `PartialEq` and `Ord` from it, so copies, equality and order all go by
//! that string.
//!
//! Apart from [`text_order`] and the lemmas about it, nothing in this file is
//! proved: each contract states what the source of `uv_normalize` shows, and
//! the rest of the crate relies on it.

use core::cmp::Ordering;
use uv_normalize::{ExtraName, GroupName, PackageName};
use vstd::prelude::*;

verus! {

/// `uv_normalize::PackageName`, carried through as an opaque value.
#[verifier::external_type_specification]
#[verifier::external_body]
pub struct ExPackageName(PackageName);

/// `uv_normalize::ExtraName`, carried through as an opaque value.
#[verifier::external_type_specification]
#[verifier::external_body]
pub struct ExExtraName(ExtraName);

/// `uv_normalize::GroupName`, carried through as an opaque value.
#[verifier::external_type_specification]
#[verifier::external_body]
pub struct ExGroupName(GroupName);

/// The text of a package name: the string that it holds, which
/// `PackageName::as_str` returns.
pub uninterp spec fn package_name_text(name: PackageName) -> Seq<char>;

/// The text of an extra name: the string that it holds, which
/// `ExtraName::as_str` returns.
pub uninterp spec fn extra_name_text(name: ExtraName) -> Seq<char>;

/// The text of a group name: the string that it holds, which
/// `GroupName::as_str` returns.
pub uninterp spec fn group_name_text(name: GroupName) -> Seq<char>;

/// `PackageName::clone`, derived from the clone of the string inside: the
/// copy holds the same text.
pub assume_specification[ <PackageName as Clone>::clone ](name: &PackageName) -> (copy:
    PackageName)
    ensures
        package_name_text(copy) == package_name_text(*name),
;

/// `ExtraName::clone`, derived from the clone of the string inside: the copy
/// holds the same text.
pub assume_specification[ <ExtraName as Clone>::clone ](name: &ExtraName) -> (copy: ExtraName)
    ensures
        extra_name_text(copy) == extra_name_text(*name),
;

/// `GroupName::clone`, derived from the clone of the string inside: the copy
/// holds the same text.
pub assume_specification[ <GroupName as Clone>::clone ](name: &GroupName) -> (copy: GroupName)
    ensures
        group_name_text(copy) == group_name_text(*name),
;

/// `PackageName::eq`, derived from the equality of the strings inside: two
/// names are equal exactly when their texts are.
pub assume_specification[ <PackageName as PartialEq>::eq ](
    a: &PackageName,
    b: &PackageName,
) -> (same: bool)
    ensures
        same == (package_name_text(*a) == package_name_text(*b)),
;

/// `ExtraName::eq`, derived from the equality of the strings inside: two
/// names are equal exactly when their texts are.
pub assume_specification[ <ExtraName as PartialEq>::eq ](a: &ExtraName, b: &ExtraName) -> (same:
    bool)
    ensures
        same == (extra_name_text(*a) == extra_name_text(*b)),
;

/// `GroupName::eq`, derived from the equality of the strings inside: two
/// names are equal exactly when their texts are.
pub assume_specification[ <GroupName as PartialEq>::eq ](a: &GroupName, b: &GroupName) -> (same:
    bool)
    ensures
        same == (group_name_text(*a) == group_name_text(*b)),
;

/// The order of two texts: character by character, by code point; where one
/// text is the beginning of the other, the shorter one comes first.
pub open spec fn text_order(a: Seq<char>, b: Seq<char>) -> Ordering
    decreases a.len(),
{
    if a.len() == 0 {
        if b.len() == 0 {
            Ordering::Equal
        } else {
            Ordering::Less
        }
    } else if b.len() == 0 {
        Ordering::Greater
    } else if a[0] < b[0] {
        Ordering::Less
    } else if a[0] > b[0] {
        Ordering::Greater
    } else {
        text_order(a.drop_first(), b.drop_first())
    }
}

/// Two texts are in equal order exactly when they are the same text.
pub proof fn lemma_text_order_equal(a: Seq<char>, b: Seq<char>)
    ensures
        (text_order(a, b) == Ordering::Equal) == (a == b),
    decreases a.len(),
{
    if a.len() == 0 || b.len() == 0 {
        if a.len() == 0 && b.len() == 0 {
            assert(a =~= b);
        }
    } else {
        lemma_text_order_equal(a.drop_first(), b.drop_first());
        if a[0] == b[0] && a.drop_first() == b.drop_first() {
            assert(a =~= seq![a[0]] + a.drop_first());
            assert(b =~= seq![b[0]] + b.drop_first());
        }
    }
}

/// Turning two texts round turns their order round.
pub proof fn lemma_text_order_turns(a: Seq<char>, b: Seq<char>)
    ensures
        (text_order(a, b) == Ordering::Less) == (text_order(b, a) == Ordering::Greater),
    decreases a.len(),
{
    if a.len() > 0 && b.len() > 0 {
        lemma_text_order_turns(a.drop_first(), b.drop_first());
    }
}

/// The order of texts chains: what comes before a text comes before
/// everything that the text comes before.
pub proof fn lemma_text_order_chains(a: Seq<char>, b: Seq<char>, c: Seq<char>)
    requires
        text_order(a, b) == Ordering::Less,
        text_order(b, c) == Ordering::Less,
    ensures
        text_order(a, c) == Ordering::Less,
    decreases a.len(),
{
    if a.len() > 0 && b.len() > 0 && c.len() > 0 {
        if a[0] == b[0] && b[0] == c[0] {
            lemma_text_order_chains(a.drop_first(), b.drop_first(), c.drop_first());
        }
    }
}

/// `PackageName::cmp`, derived from the order of the strings inside: names
/// are ordered as `str` orders their texts, which is by code point.
#[verifier::external_body]
pub(crate) fn compare_package_names(a: &PackageName, b: &PackageName) -> (order: Ordering)
    ensures
        order == text_order(package_name_text(*a), package_name_text(*b)),
{
    a.cmp(b)
}

/// `ExtraName::cmp`, derived from the order of the strings inside: names are
/// ordered as `str` orders their texts, which is by code point.
#[verifier::external_body]
pub(crate) fn compare_extra_names(a: &ExtraName, b: &ExtraName) -> (order: Ordering)
    ensures
        order == text_order(extra_name_text(*a), extra_name_text(*b)),
{
    a.cmp(b)
}

/// `GroupName::cmp`, derived from the order of the strings inside: names are
/// ordered as `str` orders their texts, which is by code point.
#[verifier::external_body]
pub(crate) fn compare_group_names(a: &GroupName, b: &GroupName) -> (order: Ordering)
    ensures
        order == text_order(group_name_text(*a), group_name_text(*b)),
{
    a.cmp(b)
}

} // verus!
