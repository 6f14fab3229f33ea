//! Convenience traits to help clarify a common pattern in Rust code:
//! wrapping a value in an `Option` depending on a boolean predicate.
//!
//! The traits are separated as `use existent::Existent` doesn't really
//! convey what is being imported, and by importing only a single method
//! at a time, the potential for clashes is reduced.

use vstd::prelude::*;

verus! {

/// What conditional wrapping returns: `Some(v)` exactly when the
/// predicate holds, `None` otherwise.
pub open spec fn when_spec<T>(v: T, pred: bool) -> Option<T> {
    if pred {
        Some(v)
    } else {
        None
    }
}

/// What wrapping on the negated predicate returns: `Some(v)` exactly
/// when the predicate does not hold.
pub open spec fn unless_spec<T>(v: T, pred: bool) -> Option<T> {
    when_spec(v, !pred)
}

/// Holds when `r` is a result that lazily wrapping the thunk `f` may
/// produce: on a true predicate, a present value that one invocation of
/// `f` can return; on a false predicate, `None`.
pub open spec fn do_when_post<F, O>(f: F, pred: bool, r: Option<O>) -> bool where
    F: FnOnce() -> O,
{
    if pred {
        r is Some && call_ensures(f, (), r->0)
    } else {
        r is None
    }
}

/// Holds when `r` is a result that lazily wrapping the thunk `f` on the
/// negated predicate may produce.
pub open spec fn do_unless_post<F, O>(f: F, pred: bool, r: Option<O>) -> bool where
    F: FnOnce() -> O,
{
    do_when_post(f, !pred, r)
}

pub trait When where Self: Sized {
    /// Returns `Some(self)` if the predicate is `true`, otherwise `None`.
    #[inline]
    fn when(self, pred: bool) -> (r: Option<Self>)
        ensures
            r == when_spec(self, pred),
    {
        if pred {
            Some(self)
        } else {
            None
        }
    }

    /// Returns `Some(closure_result)` if the predicate is `true`, otherwise `None`.
    ///
    /// Invokes the closure iff the predicate is `true`.
    #[inline]
    fn do_when<O>(self, pred: bool) -> (r: Option<O>) where Self: FnOnce() -> O
        requires
            pred ==> call_requires(self, ()),
        ensures
            do_when_post(self, pred, r),
    {
        if pred {
            Some(self())
        } else {
            None
        }
    }
}

pub trait Unless: When {
    /// Returns `None` if the predicate is `true`, otherwise `Some(self)`.
    #[inline]
    fn unless(self, pred: bool) -> (r: Option<Self>)
        ensures
            r == unless_spec(self, pred),
    {
        self.when(!pred)
    }

    /// Returns `None` if the predicate is `true`, otherwise `Some(closure_result)`.
    ///
    /// Invokes the closure iff the predicate is `false`.
    #[inline]
    fn do_unless<O>(self, pred: bool) -> (r: Option<O>) where Self: FnOnce() -> O
        requires
            !pred ==> call_requires(self, ()),
        ensures
            do_unless_post(self, pred, r),
    {
        self.do_when(!pred)
    }
}

impl<T> When for T {}

impl<T> Unless for T {}

/// Wrapping is present exactly on a true predicate: it yields `Some(v)`
/// when `pred` holds and `None` when it does not.
pub proof fn lemma_when_cases<T>(v: T, pred: bool)
    ensures
        pred ==> when_spec(v, pred) == Some(v),
        !pred ==> when_spec(v, pred) == None::<T>,
{
}

/// Wrapping on the negated predicate agrees with plain wrapping applied
/// to the negation: `unless` is `when` with the predicate flipped.
pub proof fn lemma_unless_is_negated_when<T>(v: T, pred: bool)
    ensures
        unless_spec(v, pred) == when_spec(v, !pred),
{
}

/// On a true predicate the lazy wrapper holds a value the thunk can
/// return from one invocation; on a false predicate it is absent.
pub proof fn lemma_do_when_cases<F, O>(f: F, r: Option<O>) where
    F: FnOnce() -> O,

    ensures
        do_when_post(f, true, r) == (r is Some && call_ensures(f, (), r->0)),
        do_when_post(f, false, r) == (r is None),
{
}

/// Lazy wrapping on the negated predicate agrees with plain lazy
/// wrapping applied to the negation: `do_unless` is `do_when` with the
/// predicate flipped.
pub proof fn lemma_do_unless_is_negated_do_when<F, O>(f: F, pred: bool, r: Option<O>) where
    F: FnOnce() -> O,

    ensures
        do_unless_post(f, pred, r) == do_when_post(f, !pred, r),
{
}

} // verus!
