//! Collecting items.

use core::marker::PhantomData;
use vstd::prelude::*;

verus! {

/// An abstraction for element that can collect item of type `T`.
pub trait Collect<T> {
    /// The items kept so far.
    spec fn collected(&self) -> Seq<T>;

    /// Whether the collected items are kept.
    spec fn keeps_items() -> bool;

    /// Reserves capacity for at least `additional` more elements to be collected.
    fn reserve(&mut self, additional: usize)
        ensures
            final(self).collected() == old(self).collected(),
    ;

    /// Collect one item.
    fn collect(&mut self, item: T)
        ensures
            Self::keeps_items() ==> final(self).collected() == old(self).collected().push(item),
            !Self::keeps_items() ==> final(self).collected() == old(self).collected(),
    ;
}

/// An implementation of [`Collect<T>`] that do nothing.
#[derive(Debug, PartialEq, Eq, PartialOrd, Ord, Hash)]
pub struct NoCollect<T>(PhantomData<T>);

impl<T> Clone for NoCollect<T> {
    fn clone(&self) -> (c: Self)
        ensures
            c == *self,
    {
        NoCollect(PhantomData)
    }
}

impl<T> Copy for NoCollect<T> {
}

impl<T> Default for NoCollect<T> {
    fn default() -> (c: Self)
        ensures
            c.collected() == Seq::<T>::empty(),
    {
        Self(PhantomData)
    }
}

impl<T> Collect<T> for NoCollect<T> {
    open spec fn collected(&self) -> Seq<T> {
        Seq::empty()
    }

    open spec fn keeps_items() -> bool {
        false
    }

    fn reserve(&mut self, additional: usize) {
    }

    fn collect(&mut self, item: T) {
    }
}

impl<T> Collect<T> for Vec<T> {
    open spec fn collected(&self) -> Seq<T> {
        self@
    }

    open spec fn keeps_items() -> bool {
        true
    }

    fn reserve(&mut self, additional: usize) {
        Vec::reserve(self, additional);
    }

    fn collect(&mut self, item: T) {
        self.push(item);
    }
}

/// A push-only vec.
pub struct Collector<T>(Vec<T>);

impl<T> View for Collector<T> {
    type V = Seq<T>;

    closed spec fn view(&self) -> Seq<T> {
        self.0@
    }
}

impl<T> Collector<T> {
    /// An empty collector.
    pub fn new() -> (c: Self)
        ensures
            c@ == Seq::<T>::empty(),
    {
        Self(Vec::new())
    }

    /// The items collected, in the order they were pushed.
    pub fn into_vec(self) -> (v: Vec<T>)
        ensures
            v@ == self@,
    {
        self.0
    }

    /// Appends an item.
    pub fn push(&mut self, value: T)
        ensures
            final(self)@ == old(self)@.push(value),
    {
        self.0.push(value);
    }

    /// Runs `f` on this collector and returns the items that `f` pushed,
    /// with what `f` returned.
    ///
    /// `f` may only add items: a closure that can leave the collector
    /// shorter than it found it (one that assigns a fresh collector through
    /// its `&mut` argument, say) is refused, as reporting its new items
    /// would make no sense.
    pub fn watch<R, F: FnOnce(&mut Collector<T>) -> R>(&mut self, f: F) -> (res: (&[T], R))
        requires
            forall|c: &mut Collector<T>| call_requires(f, (c,)),
            forall|c: &mut Collector<T>, r: R|
                call_ensures(f, (c,), r) ==> (*c)@.len() <= final(c)@.len(),
        ensures
            old(self)@.len() <= final(self)@.len(),
            res.0@ == final(self)@.subrange(old(self)@.len() as int, final(self)@.len() as int),
            exists|c: &mut Collector<T>|
                #![auto]
                *c == *old(self) && *final(c) == *final(self) && call_ensures(f, (c,), res.1),
    {
        let start = self.0.len();
        let inner = f(self);
        let end = self.0.len();
        let new_items = vstd::slice::slice_subrange(self.0.as_slice(), start, end);
        (new_items, inner)
    }
}

/// What [`Collector::watch`] reports is exactly what the closure appended
/// to the items it found: nothing when the closure appends nothing (as on a
/// fresh collector and a closure that does nothing).
pub proof fn lemma_watch_reports_appended<T>(before: Seq<T>, appended: Seq<T>, reported: Seq<T>)
    requires
        reported == (before + appended).subrange(
            before.len() as int,
            (before + appended).len() as int,
        ),
    ensures
        reported == appended,
        appended.len() == 0 ==> reported.len() == 0,
{
    assert(reported =~= appended);
}

} // verus!
