use std::str::FromStr;

use uv_conflicts::{
    ConflictError, ConflictItem, ConflictItemRef, ConflictKind, ConflictKindRef, ConflictSet,
    Conflicts,
};
use uv_normalize::{ExtraName, GroupName, PackageName};

fn package(name: &str) -> PackageName {
    PackageName::from_str(name).unwrap()
}

fn extra(name: &str) -> ExtraName {
    ExtraName::from_str(name).unwrap()
}

fn group(name: &str) -> GroupName {
    GroupName::from_str(name).unwrap()
}

fn extra_item(package_name: &str, extra_name: &str) -> ConflictItem {
    ConflictItem::from((package(package_name), extra(extra_name)))
}

fn group_item(package_name: &str, group_name: &str) -> ConflictItem {
    ConflictItem::from((package(package_name), group(group_name)))
}

#[test]
fn kind_extra_answers_only_to_extra() {
    let kind = ConflictKind::Extra(extra("cpu"));
    assert_eq!(kind.extra(), Some(&extra("cpu")));
    assert_eq!(kind.group(), None);
}

#[test]
fn kind_group_answers_only_to_group() {
    let kind = ConflictKind::Group(group("dev"));
    assert_eq!(kind.group(), Some(&group("dev")));
    assert_eq!(kind.extra(), None);
}

#[test]
fn kind_ref_answers_like_the_owned_kind() {
    let cpu = extra("cpu");
    let dev = group("dev");
    let by_extra = ConflictKindRef::Extra(&cpu);
    let by_group = ConflictKindRef::Group(&dev);
    assert_eq!(by_extra.extra(), Some(&cpu));
    assert_eq!(by_extra.group(), None);
    assert_eq!(by_group.group(), Some(&dev));
    assert_eq!(by_group.extra(), None);
}

#[test]
fn kind_borrows_and_comes_back_equal() {
    let owned = ConflictKind::Extra(extra("cpu"));
    let borrowed = owned.as_ref();
    assert_eq!(borrowed, ConflictKindRef::Extra(&extra("cpu")));
    assert_eq!(borrowed.to_owned(), owned);

    let owned = ConflictKind::Group(group("dev"));
    assert_eq!(owned.as_ref().to_owned(), owned);
}

#[test]
fn kind_ref_is_made_from_a_borrowed_name() {
    let cpu = extra("cpu");
    let dev = group("dev");
    assert_eq!(ConflictKindRef::from(&cpu), ConflictKindRef::Extra(&cpu));
    assert_eq!(ConflictKindRef::from(&dev), ConflictKindRef::Group(&dev));
}

#[test]
fn kind_equality_looks_at_variant_and_name() {
    let cpu = ConflictKind::Extra(extra("cpu"));
    assert_eq!(cpu, ConflictKind::Extra(extra("cpu")));
    assert_ne!(cpu, ConflictKind::Extra(extra("gpu")));
    assert_ne!(cpu, ConflictKind::Group(group("cpu")));
    assert_eq!(cpu.clone(), cpu);
}

#[test]
fn kind_compares_across_owned_and_borrowed() {
    let cpu = extra("cpu");
    let gpu = extra("gpu");
    let same_name = group("cpu");
    let owned = ConflictKind::Extra(extra("cpu"));
    assert!(owned == ConflictKindRef::Extra(&cpu));
    assert!(ConflictKindRef::Extra(&cpu) == owned);
    assert!(owned != ConflictKindRef::Extra(&gpu));
    assert!(ConflictKindRef::Group(&same_name) != owned);
    assert!(ConflictKindRef::Extra(&cpu).equivalent(&owned));
    assert!(!ConflictKindRef::Extra(&gpu).equivalent(&owned));
    assert!(!ConflictKindRef::Group(&same_name).equivalent(&owned));
}

#[test]
fn kinds_order_extras_before_groups() {
    let last_extra = ConflictKind::Extra(extra("zzz"));
    let first_group = ConflictKind::Group(group("aaa"));
    assert!(last_extra < first_group);
    assert!(ConflictKind::Extra(extra("a")) < ConflictKind::Extra(extra("b")));
    assert!(ConflictKind::Group(group("a")) < ConflictKind::Group(group("b")));
}

#[test]
fn items_order_by_package_then_kind() {
    assert!(extra_item("a", "zzz") < extra_item("b", "aaa"));
    assert!(group_item("a", "zzz") < extra_item("b", "aaa"));
    assert!(extra_item("a", "x") < extra_item("a", "y"));
    assert!(extra_item("a", "zzz") < group_item("a", "aaa"));
    let mut items = vec![group_item("b", "dev"), extra_item("b", "cpu"), extra_item("a", "gpu")];
    items.sort();
    assert_eq!(
        items,
        vec![extra_item("a", "gpu"), extra_item("b", "cpu"), group_item("b", "dev")]
    );
}

#[test]
fn item_from_package_and_extra() {
    let item = ConflictItem::from((package("torch"), extra("cpu")));
    assert_eq!(item.package(), &package("torch"));
    assert_eq!(item.kind(), &ConflictKind::Extra(extra("cpu")));
    assert_eq!(item.extra(), Some(&extra("cpu")));
    assert_eq!(item.group(), None);
}

#[test]
fn item_from_package_and_group() {
    let item = ConflictItem::from((package("torch"), group("dev")));
    assert_eq!(item.package(), &package("torch"));
    assert_eq!(item.kind(), &ConflictKind::Group(group("dev")));
    assert_eq!(item.group(), Some(&group("dev")));
    assert_eq!(item.extra(), None);
}

#[test]
fn item_names_are_normalized_by_their_types() {
    let item = ConflictItem::from((package("My_Package"), extra("Some.Extra")));
    assert_eq!(item.package().as_str(), "my-package");
    assert_eq!(item.extra().unwrap().as_str(), "some-extra");
}

#[test]
fn item_equality_looks_at_package_and_kind() {
    let item = extra_item("torch", "cpu");
    assert_eq!(item, extra_item("torch", "cpu"));
    assert_ne!(item, extra_item("torch", "gpu"));
    assert_ne!(item, extra_item("jax", "cpu"));
    assert_ne!(item, group_item("torch", "cpu"));
    assert_eq!(item.clone(), item);
}

#[test]
fn item_borrows_and_comes_back_equal() {
    let item = group_item("torch", "dev");
    let borrowed = item.as_ref();
    assert_eq!(borrowed.package(), &package("torch"));
    assert_eq!(borrowed.kind(), ConflictKindRef::Group(&group("dev")));
    assert_eq!(borrowed.group(), Some(&group("dev")));
    assert_eq!(borrowed.extra(), None);
    assert_eq!(borrowed.to_owned(), item);
}

#[test]
fn item_ref_is_made_from_borrowed_names() {
    let torch = package("torch");
    let cpu = extra("cpu");
    let dev = group("dev");
    let by_extra = ConflictItemRef::from((&torch, &cpu));
    assert_eq!(by_extra.package(), &torch);
    assert_eq!(by_extra.extra(), Some(&cpu));
    assert_eq!(by_extra.group(), None);
    assert_eq!(by_extra.to_owned(), extra_item("torch", "cpu"));
    let by_group = ConflictItemRef::from((&torch, &dev));
    assert_eq!(by_group.kind(), ConflictKindRef::Group(&dev));
    assert_eq!(by_group.to_owned(), group_item("torch", "dev"));
    assert_ne!(by_extra, by_group);
}

#[test]
fn item_ref_is_equivalent_to_the_item_it_stands_for() {
    let torch = package("torch");
    let jax = package("jax");
    let cpu = extra("cpu");
    let same_name = group("cpu");
    let owned = extra_item("torch", "cpu");
    assert!(ConflictItemRef::from((&torch, &cpu)).equivalent(&owned));
    assert!(owned.as_ref().equivalent(&owned));
    assert!(!ConflictItemRef::from((&jax, &cpu)).equivalent(&owned));
    assert!(!ConflictItemRef::from((&torch, &same_name)).equivalent(&owned));
}

#[test]
fn set_of_no_items_is_rejected() {
    let built = ConflictSet::try_from(Vec::new());
    assert_eq!(built.unwrap_err(), ConflictError::ZeroItems);
}

#[test]
fn set_of_one_item_is_rejected() {
    let built = ConflictSet::try_from(vec![extra_item("torch", "cpu")]);
    assert_eq!(built.unwrap_err(), ConflictError::OneItem);
}

#[test]
fn set_of_two_items_is_accepted() {
    let items = vec![extra_item("torch", "cpu"), extra_item("torch", "gpu")];
    let set = ConflictSet::try_from(items.clone()).unwrap();
    assert_eq!(set.iter().cloned().collect::<Vec<_>>(), items);
}

#[test]
fn set_of_many_items_keeps_order_and_duplicates() {
    let items = vec![
        group_item("torch", "dev"),
        extra_item("torch", "cpu"),
        extra_item("torch", "cpu"),
        extra_item("jax", "tpu"),
    ];
    let set = ConflictSet::try_from(items.clone()).unwrap();
    assert_eq!(set.iter().cloned().collect::<Vec<_>>(), items);
}

#[test]
fn set_pair_holds_both_items_in_order() {
    let set = ConflictSet::pair(extra_item("torch", "cpu"), group_item("torch", "dev"));
    let items: Vec<_> = set.iter().cloned().collect();
    assert_eq!(items, vec![extra_item("torch", "cpu"), group_item("torch", "dev")]);
}

#[test]
fn set_push_adds_at_the_end() {
    let mut set = ConflictSet::pair(extra_item("torch", "cpu"), extra_item("torch", "gpu"));
    set.push(group_item("torch", "dev"));
    let items: Vec<_> = set.iter().cloned().collect();
    assert_eq!(
        items,
        vec![extra_item("torch", "cpu"), extra_item("torch", "gpu"), group_item("torch", "dev")]
    );
    set.push(extra_item("torch", "cpu"));
    assert_eq!(set.iter().count(), 4);
    assert_eq!(set.iter().last(), Some(&extra_item("torch", "cpu")));
}

#[test]
fn set_contains_matches_package_and_kind() {
    let set = ConflictSet::pair(extra_item("torch", "cpu"), group_item("torch", "dev"));
    let cpu = extra("cpu");
    let dev = group("dev");
    assert!(set.contains(&package("torch"), ConflictKindRef::Extra(&cpu)));
    assert!(set.contains(&package("torch"), ConflictKindRef::from(&dev)));
    assert!(!set.contains(&package("jax"), ConflictKindRef::Extra(&cpu)));
    assert!(!set.contains(&package("torch"), ConflictKindRef::Extra(&extra("gpu"))));
    assert!(!set.contains(&package("torch"), ConflictKindRef::Group(&group("cpu"))));
    assert!(!set.contains(&package("torch"), ConflictKindRef::Extra(&extra("dev"))));
}

#[test]
fn set_lookup_agrees_for_borrowed_and_owned_items() {
    let set = ConflictSet::try_from(vec![
        extra_item("torch", "cpu"),
        extra_item("torch", "gpu"),
        group_item("jax", "dev"),
    ])
    .unwrap();
    let candidates = vec![
        extra_item("torch", "cpu"),
        group_item("jax", "dev"),
        extra_item("jax", "cpu"),
        group_item("torch", "gpu"),
    ];
    for owned in &candidates {
        let torch_or_jax = owned.package().clone();
        let borrowed = match owned.kind() {
            ConflictKind::Extra(name) => ConflictItemRef::from((&torch_or_jax, name)),
            ConflictKind::Group(name) => ConflictItemRef::from((&torch_or_jax, name)),
        };
        assert!(borrowed.equivalent(owned));
        let by_owned = set.contains(owned.package(), owned.kind().as_ref());
        let by_borrowed = set.contains(borrowed.package(), borrowed.kind());
        assert_eq!(by_owned, by_borrowed);
        assert_eq!(by_owned, set.iter().any(|item| item == owned));
    }
}

#[test]
fn set_equality_and_clone() {
    let set = ConflictSet::pair(extra_item("torch", "cpu"), extra_item("torch", "gpu"));
    assert_eq!(set.clone(), set);
    assert_ne!(set, ConflictSet::pair(extra_item("torch", "gpu"), extra_item("torch", "cpu")));
    let mut longer = set.clone();
    longer.push(extra_item("torch", "tpu"));
    assert_ne!(longer, set);
}

#[test]
fn conflicts_start_empty() {
    assert!(Conflicts::empty().is_empty());
    assert!(Conflicts::default().is_empty());
    assert_eq!(Conflicts::empty().iter().count(), 0);
    assert_eq!(Conflicts::empty(), Conflicts::default());
    assert!(!Conflicts::empty().contains(&package("torch"), ConflictKindRef::Extra(&extra("cpu"))));
}

#[test]
fn conflicts_push_keeps_insertion_order() {
    let first = ConflictSet::pair(extra_item("torch", "cpu"), extra_item("torch", "gpu"));
    let second = ConflictSet::pair(group_item("jax", "dev"), group_item("jax", "test"));
    let mut conflicts = Conflicts::empty();
    conflicts.push(first.clone());
    assert!(!conflicts.is_empty());
    conflicts.push(second.clone());
    let sets: Vec<_> = conflicts.iter().cloned().collect();
    assert_eq!(sets, vec![first, second]);
}

#[test]
fn conflicts_contain_what_any_set_contains() {
    let mut conflicts = Conflicts::empty();
    conflicts.push(ConflictSet::pair(extra_item("torch", "cpu"), extra_item("torch", "gpu")));
    conflicts.push(ConflictSet::pair(group_item("jax", "dev"), group_item("jax", "test")));
    assert!(conflicts.contains(&package("torch"), ConflictKindRef::Extra(&extra("gpu"))));
    assert!(conflicts.contains(&package("jax"), ConflictKindRef::Group(&group("dev"))));
    assert!(!conflicts.contains(&package("jax"), ConflictKindRef::Extra(&extra("gpu"))));
    assert!(!conflicts.contains(&package("torch"), ConflictKindRef::Group(&group("dev"))));
}

#[test]
fn conflicts_lookup_agrees_for_borrowed_and_owned_items() {
    let mut conflicts = Conflicts::empty();
    conflicts.push(ConflictSet::pair(extra_item("torch", "cpu"), extra_item("torch", "gpu")));
    let owned = extra_item("torch", "gpu");
    let torch = package("torch");
    let gpu = extra("gpu");
    let borrowed = ConflictItemRef::from((&torch, &gpu));
    assert!(borrowed.equivalent(&owned));
    assert!(conflicts.contains(owned.package(), owned.kind().as_ref()));
    assert!(conflicts.contains(borrowed.package(), borrowed.kind()));
}

#[test]
fn conflicts_append_moves_every_set() {
    let a1 = ConflictSet::pair(extra_item("a", "x"), extra_item("a", "y"));
    let a2 = ConflictSet::pair(group_item("a", "x"), group_item("a", "y"));
    let b1 = ConflictSet::pair(extra_item("b", "x"), extra_item("b", "y"));
    let b2 = ConflictSet::pair(group_item("b", "x"), group_item("b", "y"));
    let mut a = Conflicts::empty();
    a.push(a1.clone());
    a.push(a2.clone());
    let mut b = Conflicts::empty();
    b.push(b1.clone());
    b.push(b2.clone());
    a.append(&mut b);
    assert_eq!(a.iter().cloned().collect::<Vec<_>>(), vec![a1, a2, b1, b2]);
    assert!(b.is_empty());
    assert_eq!(b, Conflicts::empty());
}

#[test]
fn conflicts_append_of_nothing_changes_nothing() {
    let mut conflicts = Conflicts::empty();
    conflicts.push(ConflictSet::pair(extra_item("a", "x"), extra_item("a", "y")));
    let before = conflicts.clone();
    let mut nothing = Conflicts::empty();
    conflicts.append(&mut nothing);
    assert_eq!(conflicts, before);
    assert!(nothing.is_empty());

    let mut empty = Conflicts::empty();
    let mut other = before.clone();
    empty.append(&mut other);
    assert_eq!(empty, before);
    assert!(other.is_empty());
}

#[test]
fn conflicts_equality_looks_at_sets_in_order() {
    let first = ConflictSet::pair(extra_item("a", "x"), extra_item("a", "y"));
    let second = ConflictSet::pair(extra_item("b", "x"), extra_item("b", "y"));
    let mut one = Conflicts::empty();
    one.push(first.clone());
    one.push(second.clone());
    let mut other = Conflicts::empty();
    other.push(second);
    other.push(first);
    assert_ne!(one, other);
    assert_eq!(one.clone(), one);
    assert_ne!(one, Conflicts::empty());
}

#[test]
fn error_messages() {
    assert_eq!(
        ConflictError::ZeroItems.message(),
        "Each set of conflicts must have at least two entries, but found none"
    );
    assert_eq!(
        ConflictError::OneItem.message(),
        "Each set of conflicts must have at least two entries, but found only one"
    );
    assert_eq!(
        ConflictError::MissingPackage.message(),
        "Expected `package` field in conflicting entry"
    );
    assert_eq!(
        ConflictError::MissingExtraAndGroup.message(),
        "Expected `extra` or `group` field in conflicting entry"
    );
    assert_eq!(
        ConflictError::FoundExtraAndGroup.message(),
        "Expected one of `extra` or `group` in conflicting entry, but found both"
    );
}

#[test]
fn total_order_agrees_with_comparison() {
    let items = vec![
        extra_item("a", "x"),
        extra_item("a", "y"),
        group_item("a", "x"),
        extra_item("ab", "x"),
        group_item("b", "a"),
        extra_item("b", "a"),
    ];
    for left in &items {
        for right in &items {
            assert_eq!(left.partial_cmp(right), Some(left.cmp(right)));
            assert_eq!(left.as_ref().partial_cmp(&right.as_ref()), Some(left.cmp(right)));
            assert_eq!(left.as_ref().cmp(&right.as_ref()), left.cmp(right));
            assert_eq!(left.kind().partial_cmp(right.kind()), Some(left.kind().cmp(right.kind())));
            assert_eq!(
                left.kind().as_ref().partial_cmp(&right.kind().as_ref()),
                Some(left.kind().cmp(right.kind()))
            );
            assert_eq!(left == right, left.cmp(right) == std::cmp::Ordering::Equal);
        }
    }
}

#[test]
fn names_order_by_their_text() {
    assert!(extra_item("a", "x") < extra_item("ab", "x"));
    assert!(extra_item("ab", "x") < extra_item("b", "x"));
    assert!(extra_item("a-b", "x") < extra_item("ab", "x"));
    assert!(extra_item("a1", "x") < extra_item("aa", "x"));
    assert!(extra_item("a", "x1") < extra_item("a", "x2"));
}
