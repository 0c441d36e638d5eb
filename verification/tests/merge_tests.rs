//! Behaviour of the runtime half: the `Merge` trait implementations, the
//! ready-made strategies, and the `__apply` shim, exercised through
//! hand-written implementations shaped exactly like the generated ones.

use merge_it::Merge;
use merge_it::merge_options;
use merge_it::overwrite_always;
use merge_it::overwrite_if_false;
use merge_it::overwrite_if_none;
use merge_it::overwrite_if_not_default;
use merge_it::overwrite_if_true;

#[derive(Default)]
struct Test {
    vec: Vec<i32>,
    boolean: bool,
    with_closure: String,
}

impl ::merge_it::Merge for Test {
    fn merge(&mut self, other: Self) {
        <Vec<i32> as ::merge_it::Merge>::merge(&mut self.vec, other.vec);
        overwrite_if_true(&mut self.boolean, other.boolean);
        ::merge_it::__apply(&mut self.with_closure, other.with_closure, |left, right| {
            *left = right
        });
    }
}

#[test]
fn basic_test() {
    let mut initial = Test::default();

    let other = Test {
        vec: vec![1, 2, 3],
        boolean: true,
        with_closure: "abc".into(),
    };

    initial.merge(other);

    assert!(initial.boolean);
    assert_eq!(initial.vec, &[1, 2, 3]);
    assert_eq!(initial.with_closure, "abc");
}

fn merge_double(left: &mut Vec<i32>, right: Vec<i32>) {
    left.extend(right.into_iter().map(|n| n * 2));
}

#[derive(Debug, Clone, PartialEq)]
enum TestEnum {
    Path(Vec<i32>),
    Closure(Option<i32>),
}

impl ::merge_it::Merge for TestEnum {
    #[allow(unreachable_patterns)]
    fn merge(&mut self, other: Self) {
        match self {
            Self::Path(left) => {
                if let Self::Path(right) = other {
                    merge_double(left, right);
                }
            }
            Self::Closure(left) => {
                if let Self::Closure(right) = other {
                    ::merge_it::__apply(left, right, |left, right: Option<i32>| {
                        *left = Some(right.unwrap_or_default() * 2)
                    });
                }
            }
            _ => {}
        }
    }
}

#[test]
fn enum_test() {
    let mut test_enum = TestEnum::Path(vec![1]);

    test_enum.merge(test_enum.clone());
    assert_eq!(test_enum, TestEnum::Path(vec![1, 2]));

    test_enum = TestEnum::Closure(None);
    test_enum.merge(TestEnum::Closure(Some(1)));
    assert_eq!(test_enum, TestEnum::Closure(Some(2)));
}

#[test]
fn different_variants_leave_left_unchanged() {
    let mut test_enum = TestEnum::Path(vec![1]);
    test_enum.merge(TestEnum::Closure(Some(7)));
    assert_eq!(test_enum, TestEnum::Path(vec![1]));

    let mut closed = TestEnum::Closure(Some(3));
    closed.merge(TestEnum::Path(vec![9]));
    assert_eq!(closed, TestEnum::Closure(Some(3)));
}

// The record scenario: an appendable sequence field merged by its trait
// default beside a flag merged by a keep-true-wins override.
struct Flagged {
    seq: Vec<i64>,
    flag: bool,
}

impl ::merge_it::Merge for Flagged {
    fn merge(&mut self, other: Self) {
        <Vec<i64> as ::merge_it::Merge>::merge(&mut self.seq, other.seq);
        overwrite_if_true(&mut self.flag, other.flag);
    }
}

#[test]
fn record_scenario_appends_and_keeps_true() {
    let mut left = Flagged { seq: vec![1, 2], flag: false };
    let right = Flagged { seq: vec![3], flag: true };
    left.merge(right);
    assert_eq!(left.seq, vec![1, 2, 3]);
    assert!(left.flag);
}

// A record with a skipped field: the generated body holds no statement for
// it, so merging cannot touch it.
struct PartlySkipped {
    kept: Vec<i32>,
    skipped: Vec<i32>,
}

impl ::merge_it::Merge for PartlySkipped {
    fn merge(&mut self, other: Self) {
        <Vec<i32> as ::merge_it::Merge>::merge(&mut self.kept, other.kept);
    }
}

#[test]
fn skipped_field_unchanged() {
    let mut left = PartlySkipped { kept: vec![1], skipped: vec![1] };
    let right = PartlySkipped { kept: vec![2], skipped: vec![99] };
    left.merge(right);
    assert_eq!(left.kept, vec![1, 2]);
    assert_eq!(left.skipped, vec![1]);
}

#[test]
fn option_merge_overwrites_only_if_some() {
    let mut left: Option<i32> = Some(1);
    left.merge(None);
    assert_eq!(left, Some(1));
    left.merge(Some(5));
    assert_eq!(left, Some(5));

    let mut empty: Option<i32> = None;
    empty.merge(Some(3));
    assert_eq!(empty, Some(3));
}

#[test]
fn vec_merge_appends() {
    let mut left = vec![1, 2];
    left.merge(vec![3, 4]);
    assert_eq!(left, vec![1, 2, 3, 4]);
}

#[test]
fn merge_options_merges_inner_values() {
    let mut left: Option<Vec<i32>> = Some(vec![1]);
    merge_options(&mut left, Some(vec![2]));
    assert_eq!(left, Some(vec![1, 2]));

    let mut none_left: Option<Vec<i32>> = None;
    merge_options(&mut none_left, Some(vec![7]));
    assert_eq!(none_left, Some(vec![7]));

    let mut kept: Option<Vec<i32>> = Some(vec![4]);
    merge_options(&mut kept, None);
    assert_eq!(kept, Some(vec![4]));
}

#[test]
fn overwrite_if_false_keeps_only_if_both_true() {
    let mut b = true;
    overwrite_if_false(&mut b, true);
    assert!(b);
    overwrite_if_false(&mut b, false);
    assert!(!b);
    overwrite_if_false(&mut b, true);
    assert!(!b);
}

#[test]
fn overwrite_if_true_keeps_any_true() {
    let mut b = false;
    overwrite_if_true(&mut b, false);
    assert!(!b);
    overwrite_if_true(&mut b, true);
    assert!(b);
    overwrite_if_true(&mut b, false);
    assert!(b);
}

#[test]
fn overwrite_always_takes_right() {
    let mut x = 1;
    overwrite_always(&mut x, 2);
    assert_eq!(x, 2);
}

#[test]
fn overwrite_if_not_default_ignores_default_values() {
    let mut x: u32 = 5;
    overwrite_if_not_default(&mut x, 0);
    assert_eq!(x, 5);
    overwrite_if_not_default(&mut x, 9);
    assert_eq!(x, 9);
}

#[test]
fn overwrite_if_none_clears_on_none() {
    let mut left: Option<i32> = Some(1);
    overwrite_if_none(&mut left, Some(9));
    assert_eq!(left, Some(1));
    overwrite_if_none(&mut left, None);
    assert_eq!(left, None);
}

#[test]
fn apply_invokes_the_expression() {
    let mut target = vec![1];
    let result = ::merge_it::__apply(&mut target, vec![2, 3], |left: &mut Vec<i32>, right| {
        left.extend(right);
        left.len()
    });
    assert_eq!(target, vec![1, 2, 3]);
    assert_eq!(result, 3);
}

#[test]
fn btree_maps_merge_deeply() {
    let mut left: std::collections::BTreeMap<u32, Vec<i32>> = std::collections::BTreeMap::new();
    left.insert(1, vec![1]);
    left.insert(2, vec![2]);
    let mut right: std::collections::BTreeMap<u32, Vec<i32>> = std::collections::BTreeMap::new();
    right.insert(2, vec![3]);
    right.insert(3, vec![4]);
    merge_it::merge_btree_maps(&mut left, right);
    assert_eq!(left.len(), 3);
    assert_eq!(left[&1], vec![1]);
    assert_eq!(left[&2], vec![2, 3]);
    assert_eq!(left[&3], vec![4]);
}

#[test]
fn btree_maps_merge_empty_right() {
    let mut left: std::collections::BTreeMap<u32, Vec<i32>> = std::collections::BTreeMap::new();
    left.insert(1, vec![1]);
    merge_it::merge_btree_maps(&mut left, std::collections::BTreeMap::new());
    assert_eq!(left.len(), 1);
    assert_eq!(left[&1], vec![1]);
}

#[test]
fn btree_set_merge_unions() {
    let mut left: std::collections::BTreeSet<u32> = [1, 2].into_iter().collect();
    let right: std::collections::BTreeSet<u32> = [2, 3].into_iter().collect();
    left.merge(right);
    let expected: std::collections::BTreeSet<u32> = [1, 2, 3].into_iter().collect();
    assert_eq!(left, expected);
}

#[test]
fn btree_map_merge_right_wins() {
    let mut left: std::collections::BTreeMap<u32, i32> = std::collections::BTreeMap::new();
    left.insert(1, 10);
    left.insert(2, 20);
    let mut right: std::collections::BTreeMap<u32, i32> = std::collections::BTreeMap::new();
    right.insert(2, 99);
    right.insert(3, 30);
    left.merge(right);
    assert_eq!(left.len(), 3);
    assert_eq!(left[&1], 10);
    assert_eq!(left[&2], 99);
    assert_eq!(left[&3], 30);
}

#[test]
fn box_merge_merges_contents() {
    let mut left: Box<Vec<i32>> = Box::new(vec![1]);
    left.merge(Box::new(vec![2]));
    assert_eq!(*left, vec![1, 2]);
}

// A record with a type-level override: every field without its own
// directive uses the type-level function, and a field-level override wins.
#[derive(Clone)]
struct WithDefault {
    uses_default: Vec<i32>,
    with_override: Vec<i32>,
}

impl ::merge_it::Merge for WithDefault {
    fn merge(&mut self, other: Self) {
        merge_double(&mut self.uses_default, other.uses_default);
        ::merge_it::__apply(&mut self.with_override, other.with_override, |left, right: Vec<i32>| {
            left.push(right[0] * 5)
        });
    }
}

#[test]
fn type_level_default_with_field_override() {
    let mut example = WithDefault { uses_default: vec![1], with_override: vec![1] };
    example.merge(example.clone());
    assert_eq!(example.uses_default, [1, 2]);
    assert_eq!(example.with_override, [1, 5]);
}
