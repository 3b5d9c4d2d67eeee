//! The mathematical model of the buffer: the slots of the store and the three
//! index ranges that are laid over them, with the transitions between states.
use vstd::prelude::*;

verus! {

/// The state of a buffer as plain values.
///
/// `store` holds the slots. Region A, `[a_start, a_end)`, is the primary
/// committed region and the one that is read. Region B, `[b_start, b_end)`, is
/// the secondary committed region at the front of the store. The reservation,
/// `[reserve_start, reserve_end)`, is the space granted to the writer.
pub struct Regions<T> {
    pub store: Seq<T>,
    pub a_start: int,
    pub a_end: int,
    pub b_start: int,
    pub b_end: int,
    pub reserve_start: int,
    pub reserve_end: int,
}

/// The smaller of two integers.
pub open spec fn least(x: int, y: int) -> int {
    if x <= y {
        x
    } else {
        y
    }
}

impl<T> Regions<T> {
    /// The state over `store` in which nothing is committed or reserved.
    pub open spec fn empty(store: Seq<T>) -> Self {
        Regions {
            store,
            a_start: 0,
            a_end: 0,
            b_start: 0,
            b_end: 0,
            reserve_start: 0,
            reserve_end: 0,
        }
    }

    /// The number of slots.
    pub open spec fn capacity(self) -> int {
        self.store.len() as int
    }

    /// The number of elements in region A.
    pub open spec fn a_len(self) -> int {
        self.a_end - self.a_start
    }

    /// The number of elements in region B.
    pub open spec fn b_len(self) -> int {
        self.b_end - self.b_start
    }

    /// The number of committed elements, over both regions.
    pub open spec fn committed_len(self) -> int {
        self.a_len() + self.b_len()
    }

    /// The number of reserved slots.
    pub open spec fn reserved_len(self) -> int {
        self.reserve_end - self.reserve_start
    }

    /// Every range lies inside the store.
    pub open spec fn in_bounds(self) -> bool {
        &&& 0 <= self.a_start <= self.a_end <= self.capacity()
        &&& 0 <= self.b_start <= self.b_end <= self.capacity()
        &&& 0 <= self.reserve_start <= self.reserve_end <= self.capacity()
    }

    /// Region B starts at the front of the store, ends no later than region A
    /// starts, and holds elements only while region A does.
    pub open spec fn b_before_a(self) -> bool {
        &&& self.b_start == 0
        &&& self.b_end <= self.a_start
        &&& self.b_len() > 0 ==> self.a_len() > 0
    }

    /// The reservation follows region A while region B is empty: directly,
    /// unless nothing is committed at all.
    pub open spec fn reservation_after_a(self) -> bool {
        &&& self.b_len() == 0
        &&& self.a_end <= self.reserve_start
        &&& (self.reserve_start == self.a_end || self.a_len() == 0)
    }

    /// The reservation fills the gap between region B and region A from the
    /// end of region B on.
    pub open spec fn reservation_in_gap(self) -> bool {
        &&& self.reserve_start == self.b_end
        &&& self.reserve_end <= self.a_start
    }

    /// An outstanding reservation lies in free space, where a commit can fold
    /// it into one of the two regions.
    pub open spec fn reservation_placed(self) -> bool {
        self.reserved_len() == 0 || self.reservation_after_a() || self.reservation_in_gap()
    }

    /// The invariant of the buffer.
    pub open spec fn wf(self) -> bool {
        &&& self.in_bounds()
        &&& self.b_before_a()
        &&& self.reservation_placed()
    }

    /// Where the largest free block that can be reserved starts: behind
    /// region B if it holds elements; else behind region A, if there is at
    /// least as much room there as before it; else at the front.
    pub open spec fn free_start(self) -> int {
        if self.b_len() > 0 {
            self.b_end
        } else if self.capacity() - self.a_end >= self.a_start {
            self.a_end
        } else {
            0
        }
    }

    /// The length of the free block that starts at `free_start`.
    pub open spec fn free_len(self) -> int {
        if self.b_len() > 0 {
            self.a_start - self.b_end
        } else if self.capacity() - self.a_end >= self.a_start {
            self.capacity() - self.a_end
        } else {
            self.a_start
        }
    }

    /// The state after a request for `length` slots: unchanged if no slot is
    /// free; else the reservation is replaced by the first
    /// `least(free_len, length)` slots of the free block.
    pub open spec fn reserve(self, length: int) -> Self {
        if self.free_len() == 0 {
            self
        } else {
            Regions {
                reserve_start: self.free_start(),
                reserve_end: self.free_start() + least(self.free_len(), length),
                ..self
            }
        }
    }

    /// The state with the reservation dropped.
    pub open spec fn unreserved(self) -> Self {
        Regions { reserve_start: 0, reserve_end: 0, ..self }
    }

    /// The state after the first `least(length, reserved_len)` reserved slots
    /// are committed and the reservation is dropped. With nothing committed
    /// they become region A; where they follow region A they extend it; else
    /// they extend region B.
    pub open spec fn commit(self, length: int) -> Self {
        let n = least(length, self.reserved_len());
        if length == 0 {
            self.unreserved()
        } else if self.a_len() == 0 && self.b_len() == 0 {
            Regions {
                a_start: self.reserve_start,
                a_end: self.reserve_start + n,
                ..self.unreserved()
            }
        } else if self.reserve_start == self.a_end {
            Regions { a_end: self.a_end + n, ..self.unreserved() }
        } else {
            Regions { b_end: self.b_end + n, ..self.unreserved() }
        }
    }

    /// The state after the first `length` elements of region A are released.
    /// Where that is all of region A, or more, region B takes its place and
    /// is itself left empty.
    pub open spec fn decommit(self, length: int) -> Self {
        if length >= self.a_len() {
            Regions { a_start: self.b_start, a_end: self.b_end, b_start: 0, b_end: 0, ..self }
        } else {
            Regions { a_start: self.a_start + length, ..self }
        }
    }

    /// The state with nothing committed or reserved, over the same slots.
    pub open spec fn clear(self) -> Self {
        Self::empty(self.store)
    }

    /// The state with the slots from `start` on replaced by `data`.
    pub open spec fn patch(self, start: int, data: Seq<T>) -> Self {
        Regions {
            store: self.store.subrange(0, start) + data + self.store.subrange(
                start + data.len(),
                self.capacity(),
            ),
            ..self
        }
    }

    /// The state with the reserved slots replaced by `data`.
    pub open spec fn write(self, data: Seq<T>) -> Self {
        self.patch(self.reserve_start, data)
    }

    /// The state with the slots of region A replaced by `data`.
    pub open spec fn rewrite(self, data: Seq<T>) -> Self {
        self.patch(self.a_start, data)
    }

    /// The elements of region A: what a read hands out.
    pub open spec fn readable(self) -> Seq<T> {
        self.store.subrange(self.a_start, self.a_end)
    }

    /// The elements of region B.
    pub open spec fn pending(self) -> Seq<T> {
        self.store.subrange(self.b_start, self.b_end)
    }

    /// The reserved slots.
    pub open spec fn reserved(self) -> Seq<T> {
        self.store.subrange(self.reserve_start, self.reserve_end)
    }

    /// All committed elements in the order in which they are read: those of
    /// region A, then those of region B.
    pub open spec fn queue(self) -> Seq<T> {
        self.readable() + self.pending()
    }
}

} // verus!
