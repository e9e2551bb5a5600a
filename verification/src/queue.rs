use vstd::prelude::*;

verus! {

/// The single error kind of this container: an index-based removal
/// targeted a position outside the valid range.
#[derive(Debug, Clone, Copy, PartialEq, Eq, Structural)]
pub enum QueueError {
    IndexOutOfBounds,
}

/// An ordered, resizable collection of elements of type `T`.
/// Insertion order is significant and duplicates are permitted.
pub struct Queue<T> {
    pub queue: Vec<T>,
}

/// The mutation API of a sequential container: append at the end, bulk
/// append at the end, removal at the end, at the front, at an index, and
/// removal of everything.
pub trait QueueActions<T>: Sized {
    /// The contents of the container as a mathematical sequence,
    /// front element first.
    spec fn items(&self) -> Seq<T>;

    /// Appends `item` as the new last element. Always succeeds; the
    /// length grows by exactly one.
    fn enqueue(&mut self, item: T)
        ensures
            final(self).items() == old(self).items().push(item),
            final(self).items().len() == old(self).items().len() + 1,
            final(self).items().last() == item,
    ;

    /// Appends every element of `items` at the end, keeping their
    /// relative order. Always succeeds; an empty `items` changes nothing.
    fn enqueue_many(&mut self, items: Vec<T>)
        ensures
            final(self).items() == old(self).items() + items@,
            final(self).items().len() == old(self).items().len() + items@.len(),
            final(self).items().subrange(
                old(self).items().len() as int,
                final(self).items().len() as int,
            ) == items@,
            items@.len() == 0 ==> final(self).items() == old(self).items(),
    ;

    /// Removes the last element (tail removal). On an empty container it
    /// is a no-op and does not fail.
    fn dequeue(&mut self)
        ensures
            old(self).items().len() == 0 ==> final(self).items() == old(self).items(),
            old(self).items().len() > 0 ==> final(self).items()
                == old(self).items().subrange(0, old(self).items().len() - 1),
            old(self).items().len() > 0 ==> final(self).items().len()
                == old(self).items().len() - 1,
    ;

    /// Removes the element at position 0 (head removal), shifting every
    /// later element down by one. On an empty container it fails with
    /// `QueueError::IndexOutOfBounds` and changes nothing.
    fn remove_first(&mut self) -> (r: Result<(), QueueError>)
        ensures
            match r {
                Ok(()) => old(self).items().len() > 0
                    && final(self).items() == old(self).items().remove(0)
                    && final(self).items().len() == old(self).items().len() - 1,
                Err(e) => old(self).items().len() == 0
                    && e == QueueError::IndexOutOfBounds
                    && final(self).items() == old(self).items(),
            },
    ;

    /// Removes the element at position `idx` (0-based), shifting every
    /// later element down by one. Every index at or past the current
    /// length is rejected with `QueueError::IndexOutOfBounds`, the edge
    /// `idx == length` included, and the container is left unchanged.
    fn remove_at(&mut self, idx: usize) -> (r: Result<(), QueueError>)
        ensures
            match r {
                Ok(()) => idx < old(self).items().len()
                    && final(self).items() == old(self).items().remove(idx as int)
                    && final(self).items().len() == old(self).items().len() - 1,
                Err(e) => idx >= old(self).items().len()
                    && e == QueueError::IndexOutOfBounds
                    && final(self).items() == old(self).items(),
            },
    ;

    /// Removes every element; the length becomes 0. Always succeeds,
    /// also on a container that is already empty, so repeating it
    /// changes nothing further.
    fn destroy(&mut self)
        ensures
            final(self).items() == Seq::<T>::empty(),
            final(self).items().len() == 0,
    ;
}

impl<T> QueueActions<T> for Queue<T> {
    open spec fn items(&self) -> Seq<T> {
        self.queue@
    }

    fn enqueue(&mut self, item: T) {
        self.queue.push(item);
    }

    fn enqueue_many(&mut self, items: Vec<T>) {
        let ghost pre = self.queue@;
        let ghost more = items@;
        let mut items = items;
        self.queue.append(&mut items);
        proof {
            if more.len() == 0 {
                assert(self.queue@ =~= pre);
            }
            assert(self.queue@.subrange(pre.len() as int, self.queue@.len() as int) =~= more);
        }
    }

    fn dequeue(&mut self) {
        self.queue.pop();
    }

    fn remove_first(&mut self) -> (r: Result<(), QueueError>) {
        if self.queue.len() == 0 {
            Err(QueueError::IndexOutOfBounds)
        } else {
            self.queue.remove(0);
            Ok(())
        }
    }

    fn remove_at(&mut self, idx: usize) -> (r: Result<(), QueueError>) {
        if idx < self.queue.len() {
            self.queue.remove(idx);
            Ok(())
        } else {
            Err(QueueError::IndexOutOfBounds)
        }
    }

    fn destroy(&mut self) {
        self.queue.clear();
    }
}

/// Creates a container whose contents equal `items`, in the same order.
/// Accepts an empty sequence.
pub fn create_queue<T>(items: Vec<T>) -> (q: Queue<T>)
    ensures
        q.items() == items@,
{
    Queue { queue: items }
}

/// Creates a container with zero elements.
pub fn create_empty<T>() -> (q: Queue<T>)
    ensures
        q.items() == Seq::<T>::empty(),
        q.items().len() == 0,
{
    Queue { queue: Vec::new() }
}

} // verus!
