//! The runtime half of the crate: the [`Merge`] trait that generated code
//! implements, ready-made merging strategies meant to be named in `with`
//! directives, and the [`__apply`] shim through which generated code invokes
//! inline-expression strategies.

use vstd::prelude::*;
use vstd::std_specs::cmp::PartialEqSpec;

verus! {

/// A trait for merging values: `left.merge(right)` folds `right` into `left`.
///
/// Every implementation documents what it computes through `merge_rel`, a
/// relation between the value before the call, the merged-in value, and the
/// value after the call.
pub trait Merge: Sized {
    /// What this type's `merge` computes: `post` is the result of folding
    /// `other` into `pre`. Implementations that state nothing stronger leave
    /// it at the trivial relation.
    open spec fn merge_rel(pre: Self, other: Self, post: Self) -> bool {
        true
    }

    fn merge(&mut self, other: Self)
        ensures
            Self::merge_rel(*old(self), other, *final(self)),
    ;
}

/// Merging an [`Option`] overwrites the previous value only if the new value
/// is `Some`.
impl<T> Merge for Option<T> {
    open spec fn merge_rel(pre: Self, other: Self, post: Self) -> bool {
        match other {
            Some(_) => post == other,
            None => post == pre,
        }
    }

    fn merge(&mut self, other: Self) {
        if other.is_some() {
            *self = other;
        }
    }
}

/// Merging a [`Box`] merges the two boxed values.
impl<T: Merge> Merge for Box<T> {
    open spec fn merge_rel(pre: Self, other: Self, post: Self) -> bool {
        T::merge_rel(*pre, *other, *post)
    }

    fn merge(&mut self, other: Self) {
        T::merge(&mut *self, *other);
    }
}

/// Merging a [`Vec`] appends the new elements after the previous ones.
impl<T> Merge for Vec<T> {
    open spec fn merge_rel(pre: Self, other: Self, post: Self) -> bool {
        post@ == pre@ + other@
    }

    fn merge(&mut self, other: Self) {
        let mut rest = other;
        self.append(&mut rest);
    }
}

/// Merges two [`Option`]s of values that implement [`Merge`] themselves:
/// a `Some` on the left is merged element-wise with a `Some` on the right,
/// while a lone `Some` on either side wins.
pub fn merge_options<T: Merge>(left: &mut Option<T>, right: Option<T>)
    ensures
        match right {
            None => *final(left) == *old(left),
            Some(r) => match *old(left) {
                None => *final(left) == Some(r),
                Some(l) => match *final(left) {
                    Some(m) => T::merge_rel(l, r, m),
                    None => false,
                },
            },
        },
{
    if let Some(r) = right {
        match left {
            Some(l) => l.merge(r),
            None => *left = Some(r),
        }
    }
}

/// When merging, it overwrites the previous value only if the new value is
/// `false`.
pub fn overwrite_if_false(left: &mut bool, right: bool)
    ensures
        *final(left) == (*old(left) && right),
{
    *left = *left && right;
}

/// When merging, it overwrites the previous value only if the new value is
/// `true`.
pub fn overwrite_if_true(left: &mut bool, right: bool)
    ensures
        *final(left) == (*old(left) || right),
{
    *left = *left || right;
}

/// When merging, it always overwrites the previous value.
pub fn overwrite_always<T>(left: &mut T, right: T)
    ensures
        *final(left) == right,
{
    *left = right;
}

/// When merging, overwrite the previous value only if the new value is NOT
/// the default.
///
/// For a type whose `==` obeys its specification, the new value is compared
/// against some value that `T::default` may return; when they differ the
/// previous value is overwritten.
pub fn overwrite_if_not_default<T: Default + PartialEq>(left: &mut T, right: T)
    ensures
        T::obeys_eq_spec() ==> exists|d: T|
            #[trigger] call_ensures(T::default, (), d) && (if right.eq_spec(&d) {
                *final(left) == *old(left)
            } else {
                *final(left) == right
            }),
{
    let d = T::default();
    if right != d {
        *left = right;
    }
}

/// When merging [`Option`]s, overwrite the previous value only if the new
/// value is `None`.
///
/// This overrides the default merging behaviour for [`Option`], which is to
/// overwrite only if the new value is `Some`.
pub fn overwrite_if_none<T>(left: &mut Option<T>, right: Option<T>)
    ensures
        *final(left) == (if right is None { None::<T> } else { *old(left) }),
{
    if right.is_none() {
        *left = None;
    }
}

/// Invokes `f` as a two-argument merging function.
///
/// Generated code routes inline-expression strategies through this shim so
/// that an expression which cannot be named by a stable path (for example a
/// closure) is called with the same signature as a named function.
pub fn __apply<I, Other, O, F: FnOnce(&mut I, Other) -> O>(input: &mut I, other: Other, f: F) -> (r: O)
    requires
        forall|m: &mut I| *m == *input ==> #[trigger] call_requires(f, (m, other)),
    ensures
        exists|m: &mut I|
            *m == *old(input) && *final(m) == *final(input) && #[trigger] call_ensures(
                f,
                (m, other),
                r,
            ),
{
    f(input, other)
}

} // verus!
