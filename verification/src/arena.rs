//! Arenas: collections that only grow, and the handles that find their items
//! again.

use core::marker::PhantomData;
use vstd::prelude::*;

verus! {

/// A reference to one item of an [`Arena`]: the position, counted from zero,
/// at which the item was appended. Only appending gives out handles.
#[derive(Debug, PartialEq, Eq, Hash)]
pub struct Handle<T> {
    index: usize,
    marker: PhantomData<T>,
}

impl<T> Clone for Handle<T> {
    fn clone(&self) -> (copy: Self)
        ensures
            copy == *self,
    {
        Handle { index: self.index, marker: PhantomData }
    }
}

impl<T> Copy for Handle<T> {

}

impl<T> View for Handle<T> {
    type V = nat;

    closed spec fn view(&self) -> nat {
        self.index as nat
    }
}

impl<T> Handle<T> {
    /// The position of the item in its arena.
    pub fn index(self) -> (index: usize)
        ensures
            index == self@,
    {
        self.index
    }
}

/// An append-only collection whose items are found again by the handles that
/// appending gave out. Items keep the order in which they came, so that a
/// handle stays good for as long as the arena lives.
#[derive(Debug)]
pub struct Arena<T> {
    data: Vec<T>,
}

impl<T> View for Arena<T> {
    type V = Seq<T>;

    closed spec fn view(&self) -> Seq<T> {
        self.data@
    }
}

impl<T> Arena<T> {
    /// An arena without items.
    pub fn new() -> (arena: Self)
        ensures
            arena@ == Seq::<T>::empty(),
    {
        Arena { data: Vec::new() }
    }

    /// The number of items.
    pub fn len(&self) -> (len: usize)
        ensures
            len == self@.len(),
    {
        self.data.len()
    }

    /// Adds `value` behind the items that are there and returns its handle.
    pub fn append(&mut self, value: T) -> (handle: Handle<T>)
        ensures
            final(self)@ == old(self)@.push(value),
            handle@ == old(self)@.len(),
    {
        let index = self.data.len();
        self.data.push(value);
        Handle { index, marker: PhantomData }
    }

    /// The item that `handle` refers to.
    pub fn get(&self, handle: Handle<T>) -> (item: &T)
        requires
            handle@ < self@.len(),
        ensures
            *item == self@[handle@ as int],
    {
        &self.data[handle.index]
    }

    /// The item that `handle` refers to, or `None` where the arena has no
    /// item at that position.
    pub fn try_get(&self, handle: Handle<T>) -> (item: Option<&T>)
        ensures
            handle@ < self@.len() <==> item is Some,
            item matches Some(found) ==> *found == self@[handle@ as int],
    {
        if handle.index < self.data.len() {
            Some(&self.data[handle.index])
        } else {
            None
        }
    }

    /// The items in the order of their handles.
    pub fn as_slice(&self) -> (items: &[T])
        ensures
            items@ == self@,
    {
        self.data.as_slice()
    }
}

} // verus!
