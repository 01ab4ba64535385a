//! A container traversed through an explicit cursor, without exposing the
//! container's representation. The cursor borrows the container, walks it
//! in insertion order, can be asked what it stands on, and can be reset.

use vstd::prelude::*;

verus! {

/// An ordered container of items.
pub struct Container<T> {
    data: Vec<T>,
}

impl<T> View for Container<T> {
    type V = Seq<T>;

    closed spec fn view(&self) -> Seq<T> {
        self.data@
    }
}

impl<T> Container<T> {
    /// An empty container.
    pub fn new() -> (c: Container<T>)
        ensures
            c@ == Seq::<T>::empty(),
    {
        Container { data: Vec::new() }
    }

    /// Appends an item at the end.
    pub fn add_item(&mut self, item: T)
        ensures
            final(self)@ == old(self)@.push(item),
    {
        self.data.push(item);
    }

    /// A cursor over this container, standing on the first item.
    pub fn iter(&self) -> (it: ConcreteIterator<'_, T>)
        ensures
            it.spec_items() == self@,
            it.spec_idx() == 0,
    {
        ConcreteIterator::new(self)
    }
}

/// A cursor into a borrowed container: the position it stands on, and the
/// items it walks. Every step moves the position forward, also past the
/// end; positions at or beyond the end all stand on nothing.
pub struct ConcreteIterator<'a, T> {
    idx: usize,
    container: &'a Container<T>,
}

impl<'a, T> ConcreteIterator<'a, T> {
    /// The items the cursor walks, in order.
    pub closed spec fn spec_items(&self) -> Seq<T> {
        (*self.container)@
    }

    /// The position the cursor stands on.
    pub closed spec fn spec_idx(&self) -> int {
        self.idx as int
    }

    /// A cursor standing on the first item of `container`.
    pub fn new(container: &'a Container<T>) -> (it: ConcreteIterator<'a, T>)
        ensures
            it.spec_items() == container@,
            it.spec_idx() == 0,
    {
        ConcreteIterator { idx: 0, container }
    }

    /// The item the cursor stands on — `None` at or beyond the end — and
    /// one step forward, unconditionally. The machine limit on the
    /// position is the one input ruled out.
    pub fn next(&mut self) -> (item: Option<&'a T>)
        requires
            old(self).spec_idx() < usize::MAX,
        ensures
            final(self).spec_items() == old(self).spec_items(),
            final(self).spec_idx() == old(self).spec_idx() + 1,
            old(self).spec_idx() < old(self).spec_items().len() ==> (item matches Some(v) && *v
                == old(self).spec_items()[old(self).spec_idx()]),
            old(self).spec_idx() >= old(self).spec_items().len() ==> item is None,
    {
        let item = if self.idx < self.container.data.len() {
            Some(&self.container.data[self.idx])
        } else {
            None
        };
        self.idx = self.idx + 1;
        item
    }

    /// The item the cursor stands on, without moving; `None` at or beyond
    /// the end.
    pub fn current(&self) -> (item: Option<&'a T>)
        ensures
            self.spec_idx() < self.spec_items().len() ==> (item matches Some(v) && *v
                == self.spec_items()[self.spec_idx()]),
            self.spec_idx() >= self.spec_items().len() ==> item is None,
    {
        if self.idx < self.container.data.len() {
            Some(&self.container.data[self.idx])
        } else {
            None
        }
    }

    /// Whether an item remains at or ahead of the cursor.
    pub fn has_next(&self) -> (more: bool)
        ensures
            more == (self.spec_idx() < self.spec_items().len()),
    {
        self.container.data.len() > self.idx
    }

    /// Puts the cursor back on the first item.
    pub fn reset(&mut self)
        ensures
            final(self).spec_items() == old(self).spec_items(),
            final(self).spec_idx() == 0,
    {
        self.idx = 0;
    }
}

} // verus!
