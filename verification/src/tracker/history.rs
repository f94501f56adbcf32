//! A stack that holds no more than a bound: what is pushed onto a full stack
//! pushes the oldest item out.

use std::collections::VecDeque;
use vstd::prelude::*;

verus! {

/// The items `s` with `item` on top, cut down to `bound` items from the top.
pub open spec fn pushed<T>(s: Seq<T>, item: T, bound: usize) -> Seq<T> {
    cut(seq![item] + s, bound)
}

/// The first `bound` items of `s`, or all of them where there are fewer.
pub open spec fn cut<T>(s: Seq<T>, bound: usize) -> Seq<T> {
    if s.len() <= bound {
        s
    } else {
        s.take(bound as int)
    }
}

/// A stack of at most `bound` items. Its view lists them from the top.
#[derive(Debug, PartialEq, Eq)]
pub struct BoundedStack<T> {
    stack: VecDeque<T>,
    bound: usize,
}

impl<T> View for BoundedStack<T> {
    type V = Seq<T>;

    /// The items, the one pushed last first.
    closed spec fn view(&self) -> Seq<T> {
        self.stack@
    }
}

impl<T: Clone> Clone for BoundedStack<T> {
    fn clone(&self) -> (r: Self)
        ensures
            r.bound() == self.bound(),
            r@.len() == self@.len(),
            forall|i: int| 0 <= i < self@.len() ==> cloned::<T>(#[trigger] self@[i], r@[i]),
    {
        Self { stack: self.stack.clone(), bound: self.bound }
    }
}

impl<T> BoundedStack<T> {
    /// The most items that the stack holds.
    pub closed spec fn bound(self) -> usize {
        self.bound
    }

    /// The stack holds no more items than its bound.
    pub open spec fn wf(self) -> bool {
        self@.len() <= self.bound()
    }

    /// An empty stack of at most `bound` items.
    pub fn new(bound: usize) -> (r: Self)
        ensures
            r@ == Seq::<T>::empty(),
            r.bound() == bound,
            r.wf(),
    {
        Self { stack: VecDeque::new(), bound }
    }

    /// Puts `elem` on top. Where the stack then holds more than its bound,
    /// the oldest item leaves.
    pub fn push(&mut self, elem: T)
        ensures
            final(self)@ == pushed(old(self)@, elem, old(self).bound()),
            final(self).bound() == old(self).bound(),
            final(self).wf(),
    {
        self.stack.push_front(elem);
        self.stack.truncate(self.bound);
    }

    /// Takes the item on top, if there is one.
    pub fn pop(&mut self) -> (r: Option<T>)
        ensures
            final(self).bound() == old(self).bound(),
            match r {
                Some(item) => {
                    &&& old(self)@.len() > 0
                    &&& item == old(self)@[0]
                    &&& final(self)@ == old(self)@.drop_first()
                },
                None => {
                    &&& old(self)@.len() == 0
                    &&& final(self)@ == old(self)@
                },
            },
            old(self).wf() ==> final(self).wf(),
    {
        self.stack.pop_front()
    }

    /// Sets the bound, and drops the oldest items beyond it.
    pub fn set_bound(&mut self, bound: usize)
        ensures
            final(self)@ == cut(old(self)@, bound),
            final(self).bound() == bound,
            final(self).wf(),
    {
        self.bound = bound;
        self.stack.truncate(bound);
    }

    /// The number of items.
    pub fn len(&self) -> (r: usize)
        ensures
            r == self@.len(),
    {
        self.stack.len()
    }

    /// The item `i` places below the top.
    pub fn get(&self, i: usize) -> (r: &T)
        requires
            i < self@.len(),
        ensures
            *r == self@[i as int],
    {
        &self.stack[i]
    }

    /// The bound.
    pub fn get_bound(&self) -> (r: usize)
        ensures
            r == self.bound(),
    {
        self.bound
    }
}

} // verus!
