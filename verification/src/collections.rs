//! A vector with a fixed capacity chosen at compile time.
//!
//! Animations keep small per-entity collections (such as the raindrops of
//! one column) whose size is bounded by the panel geometry; the capacity
//! bound is part of the type and pushing past it is ruled out by contract.

use vstd::prelude::*;

verus! {

/// A growable vector holding at most `LEN` elements.
pub struct InlineVec<const LEN: usize, T> {
    data: Vec<T>,
}

impl<const LEN: usize, T> View for InlineVec<LEN, T> {
    type V = Seq<T>;

    closed spec fn view(&self) -> Seq<T> {
        self.data@
    }
}

impl<const LEN: usize, T> InlineVec<LEN, T> {
    /// The capacity bound holds.
    pub open spec fn wf(&self) -> bool {
        self@.len() <= LEN
    }

    pub fn new() -> (v: InlineVec<LEN, T>)
        ensures
            v@ == Seq::<T>::empty(),
            v.wf(),
    {
        InlineVec { data: Vec::new() }
    }

    /// Append a value; the caller must know the vector is not full.
    pub fn push(&mut self, value: T)
        requires
            old(self).wf(),
            old(self)@.len() < LEN,
        ensures
            final(self).wf(),
            final(self)@ == old(self)@.push(value),
    {
        self.data.push(value);
    }

    /// Drop every element.
    pub fn clear(&mut self)
        ensures
            final(self).wf(),
            final(self)@ == Seq::<T>::empty(),
    {
        self.data.clear();
    }

    pub fn is_empty(&self) -> (empty: bool)
        ensures
            empty == (self@.len() == 0),
    {
        self.data.len() == 0
    }

    pub fn len(&self) -> (n: usize)
        ensures
            n == self@.len(),
    {
        self.data.len()
    }

    /// Remove and return the last element; the caller must know the vector
    /// is not empty.
    pub fn pop(&mut self) -> (value: T)
        requires
            old(self).wf(),
            old(self)@.len() > 0,
        ensures
            final(self).wf(),
            final(self)@ == old(self)@.drop_last(),
            value == old(self)@.last(),
    {
        self.data.pop().unwrap()
    }

    /// Read the element at `index`.
    pub fn get(&self, index: usize) -> (value: &T)
        requires
            index < self@.len(),
        ensures
            *value == self@[index as int],
    {
        &self.data[index]
    }

    /// Replace the element at `index`.
    pub fn set(&mut self, index: usize, value: T)
        requires
            index < old(self)@.len(),
        ensures
            final(self)@ == old(self)@.update(index as int, value),
            final(self).wf() == old(self).wf(),
    {
        self.data[index] = value;
    }
}

impl<const LEN: usize, T> Default for InlineVec<LEN, T> {
    fn default() -> (v: InlineVec<LEN, T>)
        ensures
            v@ == Seq::<T>::empty(),
            v.wf(),
    {
        InlineVec::new()
    }
}

} // verus!
