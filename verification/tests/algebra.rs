//! Tests for the verdict merge algebra and the fold over rule lists.

use sapio::actions::ConditionalCompileType;
use sapio::actions::fold_verdicts;

fn fail_of(reasons: &[&str]) -> ConditionalCompileType {
    ConditionalCompileType::Fail(reasons.iter().map(|s| s.to_string()).collect())
}

#[test]
fn it_works() {
    assert_eq!(2 + 2, 4);
}

#[test]
fn no_constraint_is_identity() {
    let xs = [
        ConditionalCompileType::Skippable,
        ConditionalCompileType::Nullable,
        ConditionalCompileType::Required,
        ConditionalCompileType::Never,
        ConditionalCompileType::NoConstraint,
        fail_of(&["a"]),
    ];
    for x in xs {
        let left = ConditionalCompileType::NoConstraint.merge(clone_verdict(&x));
        let right = clone_verdict(&x).merge(ConditionalCompileType::NoConstraint);
        assert_eq!(left, x);
        assert_eq!(right, x);
    }
}

fn clone_verdict(v: &ConditionalCompileType) -> ConditionalCompileType {
    match v {
        ConditionalCompileType::Skippable => ConditionalCompileType::Skippable,
        ConditionalCompileType::Nullable => ConditionalCompileType::Nullable,
        ConditionalCompileType::Required => ConditionalCompileType::Required,
        ConditionalCompileType::Never => ConditionalCompileType::Never,
        ConditionalCompileType::NoConstraint => ConditionalCompileType::NoConstraint,
        ConditionalCompileType::Fail(v) => ConditionalCompileType::Fail(v.clone()),
    }
}

#[test]
fn merge_is_commutative_on_non_fail_pairs() {
    let xs = [
        ConditionalCompileType::Skippable,
        ConditionalCompileType::Nullable,
        ConditionalCompileType::Required,
        ConditionalCompileType::Never,
        ConditionalCompileType::NoConstraint,
    ];
    for a in &xs {
        for b in &xs {
            assert_eq!(
                clone_verdict(a).merge(clone_verdict(b)),
                clone_verdict(b).merge(clone_verdict(a))
            );
        }
    }
}

#[test]
fn merge_is_idempotent_on_plain_verdicts() {
    let xs = [
        ConditionalCompileType::Never,
        ConditionalCompileType::Required,
        ConditionalCompileType::Skippable,
        ConditionalCompileType::Nullable,
    ];
    for x in xs {
        assert_eq!(clone_verdict(&x).merge(clone_verdict(&x)), x);
    }
}

#[test]
fn required_never_conflict_in_both_orders() {
    let expected = fail_of(&["Never and Required incompatible"]);
    assert_eq!(
        ConditionalCompileType::Required.merge(ConditionalCompileType::Never),
        expected
    );
    assert_eq!(
        ConditionalCompileType::Never.merge(ConditionalCompileType::Required),
        expected
    );
}

#[test]
fn fail_merge_concatenates_reasons_in_argument_order() {
    assert_eq!(fail_of(&["a"]).merge(fail_of(&["b"])), fail_of(&["a", "b"]));
    assert_eq!(fail_of(&["b"]).merge(fail_of(&["a"])), fail_of(&["b", "a"]));
}

#[test]
fn fail_beats_non_fail_unchanged() {
    let xs = [
        ConditionalCompileType::Skippable,
        ConditionalCompileType::Nullable,
        ConditionalCompileType::Required,
        ConditionalCompileType::Never,
    ];
    for x in &xs {
        assert_eq!(fail_of(&["a"]).merge(clone_verdict(x)), fail_of(&["a"]));
        assert_eq!(clone_verdict(x).merge(fail_of(&["a"])), fail_of(&["a"]));
    }
}

#[test]
fn precedence_table() {
    assert_eq!(
        ConditionalCompileType::Never.merge(ConditionalCompileType::Skippable),
        ConditionalCompileType::Never
    );
    assert_eq!(
        ConditionalCompileType::Skippable.merge(ConditionalCompileType::Never),
        ConditionalCompileType::Never
    );
    assert_eq!(
        ConditionalCompileType::Never.merge(ConditionalCompileType::Nullable),
        ConditionalCompileType::Never
    );
    assert_eq!(
        ConditionalCompileType::Required.merge(ConditionalCompileType::Skippable),
        ConditionalCompileType::Required
    );
    assert_eq!(
        ConditionalCompileType::Nullable.merge(ConditionalCompileType::Required),
        ConditionalCompileType::Required
    );
    assert_eq!(
        ConditionalCompileType::Skippable.merge(ConditionalCompileType::Nullable),
        ConditionalCompileType::Skippable
    );
    assert_eq!(
        ConditionalCompileType::Nullable.merge(ConditionalCompileType::Skippable),
        ConditionalCompileType::Skippable
    );
    assert_eq!(
        ConditionalCompileType::Nullable.merge(ConditionalCompileType::Nullable),
        ConditionalCompileType::Nullable
    );
}

#[test]
fn fold_of_empty_list_is_no_constraint() {
    assert_eq!(fold_verdicts(Vec::new()), ConditionalCompileType::NoConstraint);
}

#[test]
fn fold_follows_list_order() {
    let folded = fold_verdicts(vec![
        ConditionalCompileType::Required,
        ConditionalCompileType::Never,
        fail_of(&["late"]),
    ]);
    assert_eq!(
        folded,
        fail_of(&["Never and Required incompatible", "late"])
    );
    assert_eq!(
        fold_verdicts(vec![
            ConditionalCompileType::Skippable,
            ConditionalCompileType::Nullable,
        ]),
        ConditionalCompileType::Skippable
    );
}
