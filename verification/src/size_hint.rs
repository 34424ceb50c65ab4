//! Bounds on the length of a collection.

use core::ops::{Add, AddAssign};
use vstd::prelude::*;
use vstd::std_specs::ops::AddSpecImpl;

verus! {

/// The bounds on the length of a collection.
#[derive(Debug, Clone, Copy, Default, PartialEq, Eq, PartialOrd, Ord, Hash, Structural)]
pub struct SizeHint {
    /// The lower limit.
    pub min: usize,
    /// The upper limit.
    ///
    /// A [`None`] here means that either there is no known upper bound,
    /// or the upper bound is larger than [`usize`].
    pub max: Option<usize>,
}

/// `a + b` computed in `usize` with saturation at `usize::MAX`.
pub open spec fn saturating_sum(a: usize, b: usize) -> usize {
    if a + b > usize::MAX {
        usize::MAX
    } else {
        (a + b) as usize
    }
}

/// `a + b` if it fits in a `usize`, `None` otherwise.
pub open spec fn checked_sum(a: usize, b: usize) -> Option<usize> {
    if a + b > usize::MAX {
        None
    } else {
        Some((a + b) as usize)
    }
}

/// `bounds` is what [`Iterator::size_hint`] may return for `iter`: the lower
/// and upper bounds that the iterator reports on its remaining length.
pub closed spec fn reports_bounds<I: Iterator>(iter: &I, bounds: (usize, Option<usize>)) -> bool {
    call_ensures(iterator_size_hint::<I>, (iter,), bounds)
}

impl SizeHint {
    /// The hint of the concatenation of two collections: lower bounds add up
    /// (saturating at `usize::MAX`), upper bounds add up when both are known
    /// and their sum fits in a `usize`.
    pub open spec fn sum(self, rhs: SizeHint) -> SizeHint {
        SizeHint {
            min: saturating_sum(self.min, rhs.min),
            max: match (self.max, rhs.max) {
                (Some(x), Some(y)) => checked_sum(x, y),
                _ => None,
            },
        }
    }

    /// Whether a collection of length `len` is compatible with this hint.
    pub open spec fn admits(self, len: int) -> bool {
        &&& self.min <= len
        &&& match self.max {
            Some(m) => len <= m,
            None => true,
        }
    }

    /// The lower limit.
    #[must_use]
    pub fn min(self) -> (m: usize)
        ensures
            m == self.min,
    {
        self.min
    }

    /// The upper limit.
    #[must_use]
    pub fn max(self) -> (m: Option<usize>)
        ensures
            m == self.max,
    {
        self.max
    }

    /// The size hint of a slice: exactly its length.
    #[must_use]
    pub fn of<T>(slice: &[T]) -> (hint: Self)
        ensures
            hint.min == slice@.len(),
            hint.max == Some(slice@.len() as usize),
    {
        SizeHint::exact(slice.len())
    }

    /// The size hint reported by an [`Iterator`]: the bounds that its
    /// [`Iterator::size_hint`] gives, as [`SizeHint::from_bounds`] turns them
    /// into a hint.
    #[must_use]
    pub fn of_iter<I: Iterator>(iter: &I) -> (hint: Self)
        ensures
            reports_bounds(iter, (hint.min, hint.max)),
    {
        let size_hint = iterator_size_hint::<I>;
        let bounds = size_hint(iter);
        SizeHint::from_bounds(bounds)
    }

    /// The hint with the lower and upper bounds that
    /// [`Iterator::size_hint`] reports.
    #[must_use]
    pub fn from_bounds(bounds: (usize, Option<usize>)) -> (hint: Self)
        ensures
            hint.min == bounds.0,
            hint.max == bounds.1,
    {
        let (lower, upper) = bounds;
        SizeHint { min: lower, max: upper }
    }

    /// A size hint that indicates an exact `length`.
    #[must_use]
    pub fn exact(length: usize) -> (hint: Self)
        ensures
            hint.min == length,
            hint.max == Some(length),
    {
        Self { min: length, max: Some(length) }
    }

    /// A size hint that indicates a minimum length of `count`.
    #[must_use]
    pub fn at_least(count: usize) -> (hint: Self)
        ensures
            hint.min == count,
            hint.max.is_none(),
    {
        Self { min: count, max: None }
    }

    /// A size hint that indicates a maximum length of `count`.
    #[must_use]
    pub fn at_most(count: usize) -> (hint: Self)
        ensures
            hint.min == 0,
            hint.max == Some(count),
    {
        Self { min: 0, max: Some(count) }
    }
}

/// Calls [`Iterator::size_hint`].
///
/// The standard library documents the returned bounds as a hint that an
/// iterator implementation is free to get wrong, so nothing is stated of the
/// result.
#[verifier::external_body]
fn iterator_size_hint<I: Iterator>(iter: &I) -> (bounds: (usize, Option<usize>)) {
    iter.size_hint()
}

impl Add for SizeHint {
    type Output = SizeHint;

    fn add(self, rhs: Self) -> (out: Self::Output) {
        SizeHint {
            min: self.min.saturating_add(rhs.min),
            max: match (self.max, rhs.max) {
                (Some(x), Some(y)) => x.checked_add(y),
                _ => None,
            },
        }
    }
}

impl AddSpecImpl for SizeHint {
    open spec fn obeys_add_spec() -> bool {
        true
    }

    open spec fn add_req(self, rhs: SizeHint) -> bool {
        true
    }

    open spec fn add_spec(self, rhs: SizeHint) -> SizeHint {
        self.sum(rhs)
    }
}

impl AddAssign for SizeHint {
    fn add_assign(&mut self, rhs: Self)
        ensures
            *final(self) == old(self).sum(rhs),
    {
        *self = *self + rhs;
    }
}

/// Adding hints is commutative.
pub proof fn lemma_sum_commutative(a: SizeHint, b: SizeHint)
    ensures
        a.sum(b) == b.sum(a),
{
}

/// Adding hints is associative.
pub proof fn lemma_sum_associative(a: SizeHint, b: SizeHint, c: SizeHint)
    ensures
        a.sum(b).sum(c) == a.sum(b.sum(c)),
{
}

/// The hint of an empty collection is neutral for the addition.
pub proof fn lemma_sum_exact_zero(a: SizeHint)
    ensures
        a.sum(SizeHint { min: 0, max: Some(0) }) == a,
{
}

/// Two exact hints add up to the exact hint of the total length, as long as
/// the total fits in a `usize`.
pub proof fn lemma_sum_exact(x: usize, y: usize)
    requires
        x + y <= usize::MAX,
    ensures
        (SizeHint { min: x, max: Some(x) }).sum(SizeHint { min: y, max: Some(y) })
            == (SizeHint { min: (x + y) as usize, max: Some((x + y) as usize) }),
{
}

/// A hint without upper bound keeps the sum without upper bound.
pub proof fn lemma_sum_unbounded(a: SizeHint, b: SizeHint)
    requires
        a.max.is_none() || b.max.is_none(),
    ensures
        a.sum(b).max.is_none(),
{
}

/// The sum of two hints is sound: if the first admits a collection of
/// length `x` and the second one of length `y`, the sum admits their
/// concatenation of length `x + y`.
pub proof fn lemma_sum_sound(a: SizeHint, b: SizeHint, x: int, y: int)
    requires
        a.admits(x),
        b.admits(y),
    ensures
        a.sum(b).admits(x + y),
{
}

/// Adding two hints adds their lower bounds, saturating at `usize::MAX`.
pub proof fn lemma_sum_min(a: SizeHint, b: SizeHint)
    ensures
        a.min + b.min <= usize::MAX ==> a.sum(b).min == a.min + b.min,
        a.min + b.min > usize::MAX ==> a.sum(b).min == usize::MAX,
{
}

/// Adding two hints whose upper bounds are both known adds the upper bounds
/// when their sum fits in a `usize`, and gives no upper bound otherwise.
pub proof fn lemma_sum_bounded(a: SizeHint, b: SizeHint, x: usize, y: usize)
    requires
        a.max == Some(x),
        b.max == Some(y),
    ensures
        x + y <= usize::MAX ==> a.sum(b).max == Some((x + y) as usize),
        x + y > usize::MAX ==> a.sum(b).max.is_none(),
{
}

/// The hint of a slice admits exactly the slice's length.
pub proof fn lemma_exact_admits(length: usize, len: int)
    ensures
        (SizeHint { min: length, max: Some(length) }).admits(len) <==> len == length,
{
}

} // verus!
