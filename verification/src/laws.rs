//! What holds of the model in every valid state and across its transitions.
use vstd::prelude::*;
use crate::regions::{least, Regions};

verus! {

impl<T> Regions<T> {
    /// Whether slot `i` belongs to region A.
    pub open spec fn in_a(self, i: int) -> bool {
        self.a_start <= i < self.a_end
    }

    /// Whether slot `i` belongs to region B.
    pub open spec fn in_b(self, i: int) -> bool {
        self.b_start <= i < self.b_end
    }

    /// Whether slot `i` is reserved.
    pub open spec fn in_reservation(self, i: int) -> bool {
        self.reserve_start <= i < self.reserve_end
    }
}

/// In a valid state every range lies inside the store, region B holds
/// elements only while region A does, no slot belongs to both regions, and no
/// reserved slot belongs to either.
pub proof fn lemma_regions_apart<T>(v: Regions<T>)
    requires
        v.wf(),
    ensures
        0 <= v.a_start <= v.a_end <= v.capacity(),
        0 <= v.b_start <= v.b_end <= v.capacity(),
        0 <= v.reserve_start <= v.reserve_end <= v.capacity(),
        v.b_len() > 0 ==> v.a_len() > 0,
        forall|i: int| !(#[trigger] v.in_a(i) && v.in_b(i)),
        forall|i: int| #[trigger] v.in_reservation(i) ==> !v.in_a(i) && !v.in_b(i),
{
}

/// In a valid state the committed elements and the reserved slots together
/// never exceed the capacity, and neither do the committed elements and the
/// free block.
pub proof fn lemma_occupancy_bounded<T>(v: Regions<T>)
    requires
        v.wf(),
    ensures
        0 <= v.committed_len(),
        0 <= v.reserved_len(),
        0 <= v.free_len(),
        v.committed_len() + v.reserved_len() <= v.capacity(),
        v.committed_len() + v.free_len() <= v.capacity(),
{
}

/// The state with nothing committed or reserved is valid over any slots, and
/// so is a cleared state; neither has anything to read.
pub proof fn lemma_empty_is_valid<T>(v: Regions<T>)
    ensures
        Regions::empty(v.store).wf(),
        Regions::empty(v.store).a_len() == 0,
        Regions::empty(v.store).committed_len() == 0,
        Regions::empty(v.store).reserved_len() == 0,
        v.clear().wf(),
        v.clear().a_len() == 0,
        v.clear().capacity() == v.capacity(),
{
}

/// A reservation keeps the state valid and leaves the store and the
/// committed regions as they were. It grants no more than was asked for and
/// no more than the free block holds, and it fails only if that block is
/// empty.
pub proof fn lemma_reserve_keeps_valid<T>(v: Regions<T>, length: int)
    requires
        v.wf(),
        0 <= length,
    ensures
        v.reserve(length).wf(),
        v.reserve(length).store == v.store,
        v.reserve(length).queue() == v.queue(),
        v.reserve(length).readable() == v.readable(),
        v.free_len() > 0 ==> v.reserve(length).reserved_len() <= length,
        v.free_len() > 0 ==> v.reserve(length).reserved_len() <= v.free_len(),
        v.free_len() > 0 ==> v.reserve(length).reserve_start == v.free_start(),
        v.free_len() > 0 && length > 0 ==> v.reserve(length).reserved_len() > 0,
{
}

/// A commit keeps the state valid, leaves the store as it was and nothing
/// reserved, and adds to the committed elements the smaller of its length and
/// the number of reserved slots.
pub proof fn lemma_commit_keeps_valid<T>(v: Regions<T>, length: int)
    requires
        v.wf(),
        0 <= length,
    ensures
        v.commit(length).wf(),
        v.commit(length).store == v.store,
        v.commit(length).reserved_len() == 0,
        v.commit(length).committed_len() == v.committed_len() + least(length, v.reserved_len()),
{
}

/// A commit of length 0 drops the reservation and leaves both regions, and
/// with them the number of committed elements, as they were; a second one
/// changes nothing more.
pub proof fn lemma_commit_nothing<T>(v: Regions<T>)
    ensures
        v.commit(0) == v.unreserved(),
        v.commit(0).reserved_len() == 0,
        v.commit(0).committed_len() == v.committed_len(),
        v.commit(0).queue() == v.queue(),
        v.commit(0).commit(0) == v.commit(0),
{
}

/// A release keeps the state valid and leaves the store and the reservation
/// as they were. It removes from the front of the committed elements the
/// smaller of its length and the size of region A, and what is read next is
/// what was left of region A or, if nothing was, the elements of region B.
pub proof fn lemma_decommit_releases_front<T>(v: Regions<T>, length: int)
    requires
        v.wf(),
        0 <= length,
    ensures
        v.decommit(length).wf(),
        v.decommit(length).store == v.store,
        v.decommit(length).reserved() == v.reserved(),
        v.decommit(length).queue() == v.queue().skip(least(length, v.a_len())),
        length < v.a_len() ==> v.decommit(length).readable() == v.readable().skip(length),
        length >= v.a_len() ==> v.decommit(length).readable() == v.pending(),
{
    let d = v.decommit(length);
    assert(d.queue() =~= v.queue().skip(least(length, v.a_len())));
    if length < v.a_len() {
        assert(d.readable() =~= v.readable().skip(length));
    }
}

/// Writing into the reserved slots keeps the state valid and every committed
/// element as it was; the reserved slots then hold what was written.
pub proof fn lemma_write_keeps_committed<T>(v: Regions<T>, data: Seq<T>)
    requires
        v.wf(),
        data.len() == v.reserved_len(),
    ensures
        v.write(data).wf(),
        v.write(data).capacity() == v.capacity(),
        v.write(data).reserved() == data,
        v.write(data).readable() == v.readable(),
        v.write(data).pending() == v.pending(),
        v.write(data).queue() == v.queue(),
{
    let w = v.write(data);
    assert(w.reserved() =~= data);
    assert(w.readable() =~= v.readable());
    assert(w.pending() =~= v.pending());
}

/// Writing into the slots of region A keeps the state valid and the elements
/// of region B as they were; region A then holds what was written.
pub proof fn lemma_rewrite_keeps_pending<T>(v: Regions<T>, data: Seq<T>)
    requires
        v.wf(),
        data.len() == v.a_len(),
    ensures
        v.rewrite(data).wf(),
        v.rewrite(data).capacity() == v.capacity(),
        v.rewrite(data).readable() == data,
        v.rewrite(data).pending() == v.pending(),
{
    let w = v.rewrite(data);
    assert(w.readable() =~= data);
    assert(w.pending() =~= v.pending());
}

/// What is written into a reservation and then committed joins the committed
/// elements at their end, unchanged and in the order in which it was written:
/// after `reserve(length)`, a write of `data` and `commit(n)` with `n > 0`,
/// the committed elements are those from before followed by the first
/// `least(n, data.len())` elements of `data`. With nothing committed before,
/// these are what is read next; where the reservation followed region A,
/// region A followed by these; and where it lay before region A, region A
/// alone.
pub proof fn lemma_committed_data_is_read<T>(v: Regions<T>, length: int, data: Seq<T>, n: int)
    requires
        v.wf(),
        0 <= length,
        0 < n,
        v.free_len() > 0,
        data.len() == v.reserve(length).reserved_len(),
    ensures
        v.reserve(length).write(data).commit(n).wf(),
        v.reserve(length).write(data).commit(n).queue() == v.queue() + data.take(
            least(n, data.len() as int),
        ),
        v.committed_len() == 0 ==> v.reserve(length).write(data).commit(n).readable()
            == data.take(least(n, data.len() as int)),
        v.b_len() == 0 && v.capacity() - v.a_end >= v.a_start ==> v.reserve(length).write(
            data,
        ).commit(n).readable() == v.readable() + data.take(least(n, data.len() as int)),
        v.a_len() > 0 && (v.b_len() > 0 || v.capacity() - v.a_end < v.a_start) ==> v.reserve(
            length,
        ).write(data).commit(n).readable() == v.readable(),
{
    let g = v.reserve(length);
    let w = g.write(data);
    let c = w.commit(n);
    let k = least(n, data.len() as int);
    lemma_write_keeps_committed(g, data);
    assert(w.reserved() == data);
    assert(w.readable() == v.readable());
    assert(w.pending() == v.pending());
    if w.a_len() == 0 && w.b_len() == 0 {
        assert(c.readable() =~= data.take(k));
        assert(c.pending() =~= Seq::<T>::empty());
        assert(v.readable() =~= Seq::<T>::empty());
        assert(v.pending() =~= Seq::<T>::empty());
        assert(c.queue() =~= v.queue() + data.take(k));
    } else if w.reserve_start == w.a_end {
        assert(c.readable() =~= v.readable() + data.take(k));
        assert(c.pending() =~= v.pending());
    } else {
        assert(c.readable() =~= v.readable());
        assert(c.pending() =~= v.pending() + data.take(k));
        assert(c.queue() =~= v.queue() + data.take(k));
    }
}

/// Wrapping around: with region A reaching the end of the store and a free
/// block before it, a reservation starts at the end of region B (the front of
/// the store while region B is empty); what is written there and committed is
/// not read while region A holds elements; and once region A is released
/// whole, the next read hands out region B: the elements it held before,
/// followed by what was committed, as one block from the front of the store.
pub proof fn lemma_wrapped_data_is_promoted<T>(
    v: Regions<T>,
    length: int,
    data: Seq<T>,
    n: int,
    seen: int,
)
    requires
        v.wf(),
        0 <= length,
        0 < n,
        v.a_len() > 0,
        v.a_end == v.capacity(),
        v.free_len() > 0,
        data.len() == v.reserve(length).reserved_len(),
        seen >= v.a_len(),
    ensures
        v.reserve(length).reserve_start == v.b_end,
        v.b_len() == 0 ==> v.reserve(length).reserve_start == 0,
        v.reserve(length).write(data).commit(n).readable() == v.readable(),
        v.reserve(length).write(data).commit(n).decommit(seen).wf(),
        v.reserve(length).write(data).commit(n).decommit(seen).a_start == 0,
        v.reserve(length).write(data).commit(n).decommit(seen).b_len() == 0,
        v.reserve(length).write(data).commit(n).decommit(seen).readable() == v.pending()
            + data.take(least(n, data.len() as int)),
{
    let g = v.reserve(length);
    let w = g.write(data);
    let c = w.commit(n);
    let k = least(n, data.len() as int);
    lemma_write_keeps_committed(g, data);
    assert(c.readable() =~= v.readable());
    assert(c.pending() =~= v.pending() + data.take(k));
    lemma_decommit_releases_front(c, seen);
}

/// A buffer whose committed elements fill the store has no free block, so a
/// reservation fails and changes nothing.
pub proof fn lemma_full_has_no_space<T>(v: Regions<T>, length: int)
    requires
        v.wf(),
        v.committed_len() == v.capacity(),
    ensures
        v.free_len() == 0,
        v.reserve(length) == v,
{
}

} // verus!
