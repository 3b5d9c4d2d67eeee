//! The buffer itself: the backing store and the region bookkeeping.
use vstd::prelude::*;
use crate::error::{lemma_from_keeps_kind, Error, ErrorKind};
use crate::regions::{least, Regions};

verus! {

/// A bipartite circular buffer over a fixed number of slots of `T`.
#[derive(Debug)]
pub struct BipBuffer<T> {
    /// Backing store.
    buffer: Vec<T>,
    /// Start of the primary committed region.
    a_start: usize,
    /// End of the primary committed region.
    a_end: usize,
    /// Start of the secondary committed region.
    b_start: usize,
    /// End of the secondary committed region.
    b_end: usize,
    /// Start of the outstanding reservation.
    reserve_start: usize,
    /// End of the outstanding reservation.
    reserve_end: usize,
}

impl<T> View for BipBuffer<T> {
    type V = Regions<T>;

    closed spec fn view(&self) -> Regions<T> {
        Regions {
            store: self.buffer@,
            a_start: self.a_start as int,
            a_end: self.a_end as int,
            b_start: self.b_start as int,
            b_end: self.b_end as int,
            reserve_start: self.reserve_start as int,
            reserve_end: self.reserve_end as int,
        }
    }
}

/// `Vec`'s indexing by a range, `&mut store[start..end]`: the slots from
/// `start` up to `end`, borrowed in place. The slice that comes back holds
/// those slots, it keeps its length for as long as it is borrowed, and
/// whatever is written through it ends up in those slots of `store`, the other
/// slots being left as they were. The call panics unless
/// `start <= end <= store.len()`.
#[verifier::external_body]
fn slots_mut<T>(store: &mut Vec<T>, start: usize, end: usize) -> (slots: &mut [T])
    requires
        start <= end <= old(store)@.len(),
    ensures
        slots@ == old(store)@.subrange(start as int, end as int),
        final(slots)@.len() == slots@.len(),
        final(store)@ == old(store)@.subrange(0, start as int) + final(slots)@ + old(
            store,
        )@.subrange(end as int, old(store)@.len() as int),
{
    &mut store[start..end]
}

impl<T: Default> BipBuffer<T> {
    /// A buffer of `length` slots, each holding the default value of `T`,
    /// with nothing committed or reserved.
    pub fn new(length: usize) -> (r: BipBuffer<T>)
        ensures
            r@ == Regions::empty(r@.store),
            r@.wf(),
            r@.capacity() == length,
            forall|i: int|
                0 <= i < length ==> call_ensures(T::default, (), #[trigger] r@.store[i]),
    {
        let mut buffer: Vec<T> = Vec::with_capacity(length);
        let mut i: usize = 0;
        while i < length
            invariant
                i <= length,
                buffer@.len() == i,
                forall|j: int| 0 <= j < i ==> call_ensures(T::default, (), #[trigger] buffer@[j]),
            decreases length - i,
        {
            buffer.push(T::default());
            i += 1;
        }
        BipBuffer {
            buffer,
            a_start: 0,
            a_end: 0,
            b_start: 0,
            b_end: 0,
            reserve_start: 0,
            reserve_end: 0,
        }
    }
}

impl<T> BipBuffer<T> {
    /// Drops every region and the reservation. The slots keep what they hold.
    pub fn clear(&mut self)
        ensures
            final(self)@ == old(self)@.clear(),
            final(self)@.wf(),
    {
        self.a_start = 0;
        self.a_end = 0;
        self.b_start = 0;
        self.b_end = 0;
        self.reserve_start = 0;
        self.reserve_end = 0;
    }

    /// Reserves up to `length` slots of the largest free block for writing
    /// and hands them out in place.
    ///
    /// Fails with `NoSpace`, and changes nothing, exactly when the free block
    /// is empty. Otherwise the slice holds `least(free_len, length)` slots
    /// starting at `free_start`: fewer than asked for is no failure. An
    /// earlier reservation is replaced. What the caller writes through the
    /// slice is what the reserved slots hold afterwards.
    pub fn reserve(&mut self, length: usize) -> (res: Result<&mut [T], Error>)
        requires
            old(self)@.wf(),
        ensures
            match res {
                Ok(slots) => {
                    &&& old(self)@.free_len() > 0
                    &&& slots@ == old(self)@.reserve(length as int).reserved()
                    &&& slots@.len() == least(old(self)@.free_len(), length as int)
                    &&& final(slots)@.len() == slots@.len()
                    &&& final(self)@ == old(self)@.reserve(length as int).write(final(slots)@)
                    &&& final(self)@.capacity() == old(self)@.capacity()
                    &&& final(self)@.wf()
                },
                Err(e) => {
                    &&& old(self)@.free_len() == 0
                    &&& e.kind() == ErrorKind::NoSpace
                    &&& final(self)@ == old(self)@
                },
            },
    {
        let reserve_start: usize;
        let free_space: usize;
        if self.b_end - self.b_start > 0 {
            reserve_start = self.b_end;
            free_space = self.a_start - self.b_end;
        } else {
            let space_after_a: usize = self.len() - self.a_end;
            if space_after_a >= self.a_start {
                reserve_start = self.a_end;
                free_space = space_after_a;
            } else {
                reserve_start = 0;
                free_space = self.a_start;
            }
        }
        if free_space == 0 {
            proof {
                lemma_from_keeps_kind(ErrorKind::NoSpace);
            }
            return Err(Error::from(ErrorKind::NoSpace));
        }
        let reserve_length: usize = if free_space < length {
            free_space
        } else {
            length
        };
        self.reserve_start = reserve_start;
        self.reserve_end = reserve_start + reserve_length;
        Ok(slots_mut(&mut self.buffer, self.reserve_start, self.reserve_end))
    }

    /// Commits the first `length` reserved slots, or all of them if there are
    /// fewer, so that they can be read, and drops the reservation. With
    /// `length` 0 the reservation is dropped and nothing else changes.
    pub fn commit(&mut self, length: usize)
        requires
            old(self)@.wf(),
        ensures
            final(self)@ == old(self)@.commit(length as int),
            final(self)@.wf(),
    {
        if length == 0 {
            self.reserve_start = 0;
            self.reserve_end = 0;
            return ;
        }
        let reserved: usize = self.reserve_end - self.reserve_start;
        let to_commit: usize = if length < reserved {
            length
        } else {
            reserved
        };
        if self.a_end - self.a_start == 0 && self.b_end - self.b_start == 0 {
            self.a_start = self.reserve_start;
            self.a_end = self.reserve_start + to_commit;
        } else if self.reserve_start == self.a_end {
            self.a_end += to_commit;
        } else {
            self.b_end += to_commit;
        }
        self.reserve_start = 0;
        self.reserve_end = 0;
    }

    /// Hands out the elements of region A in place, or `None` exactly when
    /// region A is empty. Region B is never handed out. The regions stay as
    /// they are; what the caller writes through the slice is what the slots
    /// of region A hold afterwards.
    pub fn read(&mut self) -> (res: Option<&mut [T]>)
        requires
            old(self)@.wf(),
        ensures
            match res {
                Some(block) => {
                    &&& old(self)@.a_len() > 0
                    &&& block@ == old(self)@.readable()
                    &&& final(block)@.len() == block@.len()
                    &&& final(self)@ == old(self)@.rewrite(final(block)@)
                    &&& final(self)@.capacity() == old(self)@.capacity()
                    &&& final(self)@.wf()
                },
                None => old(self)@.a_len() == 0 && final(self)@ == old(self)@,
            },
    {
        if self.a_end - self.a_start == 0 {
            None
        } else {
            Some(slots_mut(&mut self.buffer, self.a_start, self.a_end))
        }
    }

    /// Releases the first `length` elements of region A. Where `length` is
    /// the size of region A or more, region A is released whole, region B
    /// takes its place, and what `length` exceeds it by is dropped.
    pub fn decommit(&mut self, length: usize)
        requires
            old(self)@.wf(),
        ensures
            final(self)@ == old(self)@.decommit(length as int),
            final(self)@.wf(),
    {
        if length >= self.a_end - self.a_start {
            self.a_start = self.b_start;
            self.a_end = self.b_end;
            self.b_start = 0;
            self.b_end = 0;
        } else {
            self.a_start += length;
        }
    }

    /// The number of committed elements, over both regions.
    pub fn committed_len(&self) -> (n: usize)
        requires
            self@.wf(),
        ensures
            n == self@.committed_len(),
            n + self@.reserved_len() <= self@.capacity(),
    {
        self.a_end - self.a_start + self.b_end - self.b_start
    }

    /// The number of reserved slots.
    pub fn reserved_len(&self) -> (n: usize)
        requires
            self@.wf(),
        ensures
            n == self@.reserved_len(),
    {
        self.reserve_end - self.reserve_start
    }

    /// The number of slots of the store.
    pub fn len(&self) -> (n: usize)
        ensures
            n == self@.capacity(),
    {
        self.buffer.len()
    }

    /// Whether nothing is reserved and nothing is committed.
    pub fn is_empty(&self) -> (b: bool)
        requires
            self@.wf(),
        ensures
            b == (self@.reserved_len() == 0 && self@.committed_len() == 0),
    {
        self.reserved_len() == 0 && self.committed_len() == 0
    }
}

} // verus!
