//! The fixed pool of buffers behind the encoder's output port.
//!
//! A buffer is known by its index. At any moment it is in one of two places:
//! waiting in the pool's queue, or in flight, held by the port. Handing a
//! buffer out moves it from the queue to the port; releasing it moves it
//! back. Nothing else moves a buffer, so none is ever lost or held twice.

use std::collections::VecDeque;
use vstd::prelude::*;
use vstd::set_lib::{lemma_int_range, lemma_set_disjoint_lens, set_int_range};

verus! {

/// What a pool holds, as mathematics.
pub struct PoolView {
    /// Number of buffers the pool was made with.
    pub capacity: nat,
    /// Bytes in each buffer.
    pub buffer_size: u32,
    /// The buffers that wait in the pool, the next to be handed out first.
    pub queue: Seq<int>,
    /// The buffers that the port holds.
    pub in_flight: Set<int>,
}

impl PoolView {
    /// Every buffer of the pool is in exactly one place: the queue names
    /// each waiting buffer once, and a buffer is in flight if and only if
    /// the queue does not name it.
    pub open spec fn wf(self) -> bool {
        &&& self.queue.no_duplicates()
        &&& forall|i: int|
            0 <= i < self.queue.len() ==> 0 <= #[trigger] self.queue[i] < self.capacity
        &&& forall|id: int| #[trigger] self.in_flight.contains(id) ==> 0 <= id < self.capacity
        &&& forall|id: int|
            0 <= id < self.capacity ==> (#[trigger] self.in_flight.contains(id)
                <==> !self.queue.contains(id))
    }

    /// A new pool of `capacity` buffers: all of them wait, in index order.
    pub open spec fn fresh(capacity: nat, buffer_size: u32) -> PoolView {
        PoolView {
            capacity,
            buffer_size,
            queue: Seq::new(capacity, |i: int| i),
            in_flight: Set::empty(),
        }
    }

    /// The pool after its first waiting buffer went to the port.
    pub open spec fn acquire(self) -> PoolView {
        PoolView {
            queue: self.queue.drop_first(),
            in_flight: self.in_flight.insert(self.queue[0]),
            ..self
        }
    }

    /// The pool after buffer `id` came back from the port. A buffer that is
    /// not in flight cannot come back: the pool stays as it is.
    pub open spec fn release(self, id: int) -> PoolView {
        if self.in_flight.contains(id) {
            PoolView {
                queue: self.queue.push(id),
                in_flight: self.in_flight.remove(id),
                ..self
            }
        } else {
            self
        }
    }
}

/// A new pool is well-formed and has nothing in flight.
pub proof fn lemma_fresh_pool(capacity: nat, buffer_size: u32)
    ensures
        PoolView::fresh(capacity, buffer_size).wf(),
        PoolView::fresh(capacity, buffer_size).queue.len() == capacity,
        PoolView::fresh(capacity, buffer_size).in_flight.len() == 0,
{
    let p = PoolView::fresh(capacity, buffer_size);
    assert forall|id: int| 0 <= id < p.capacity implies (#[trigger] p.in_flight.contains(id)
        <==> !p.queue.contains(id)) by {
        assert(p.queue[id] == id);
    }
}

/// Handing a buffer out keeps the pool well-formed. The buffer handed out
/// is one that waited: a buffer that the port holds is never handed out
/// again before it has come back.
pub proof fn lemma_acquire_keeps_wf(p: PoolView)
    requires
        p.wf(),
        p.queue.len() > 0,
    ensures
        p.acquire().wf(),
        p.acquire().capacity == p.capacity,
        p.acquire().queue.len() == p.queue.len() - 1,
        !p.in_flight.contains(p.queue[0]),
        p.acquire().in_flight.contains(p.queue[0]),
        !p.acquire().queue.contains(p.queue[0]),
{
    let q = p.acquire();
    let first = p.queue[0];
    assert forall|i: int| 0 <= i < q.queue.len() implies 0 <= #[trigger] q.queue[i]
        < q.capacity by {
        assert(q.queue[i] == p.queue[i + 1]);
    }
    assert forall|i: int, j: int|
        0 <= i < q.queue.len() && 0 <= j < q.queue.len() && i != j implies q.queue[i]
        != q.queue[j] by {
        assert(q.queue[i] == p.queue[i + 1]);
        assert(q.queue[j] == p.queue[j + 1]);
    }
    assert forall|id: int| 0 <= id < q.capacity implies (#[trigger] q.in_flight.contains(id)
        <==> !q.queue.contains(id)) by {
        if q.queue.contains(id) {
            let i = choose|i: int| 0 <= i < q.queue.len() && q.queue[i] == id;
            assert(p.queue[i + 1] == id);
            assert(p.queue.contains(id));
            assert(id != first);
        } else if id != first {
            if p.queue.contains(id) {
                let i = choose|i: int| 0 <= i < p.queue.len() && p.queue[i] == id;
                assert(q.queue[i - 1] == id);
            }
        }
    }
    assert(p.queue.contains(first));
    assert(0 <= first < p.capacity);
}

/// Taking a buffer back keeps the pool well-formed.
pub proof fn lemma_release_keeps_wf(p: PoolView, id: int)
    requires
        p.wf(),
    ensures
        p.release(id).wf(),
        p.release(id).capacity == p.capacity,
{
    if p.in_flight.contains(id) {
        let q = p.release(id);
        let n = p.queue.len() as int;
        assert(!p.queue.contains(id));
        assert forall|i: int, j: int|
            0 <= i < q.queue.len() && 0 <= j < q.queue.len() && i != j implies q.queue[i]
            != q.queue[j] by {
            if i < n {
                assert(p.queue.contains(q.queue[i]));
            }
            if j < n {
                assert(p.queue.contains(q.queue[j]));
            }
        }
        assert forall|other: int| 0 <= other < q.capacity implies (
        #[trigger] q.in_flight.contains(other) <==> !q.queue.contains(other)) by {
            if other == id {
                assert(q.queue[n] == id);
            } else if q.queue.contains(other) {
                let i = choose|i: int| 0 <= i < q.queue.len() && q.queue[i] == other;
                assert(p.queue[i] == other);
                assert(p.queue.contains(other));
            } else if p.queue.contains(other) {
                let i = choose|i: int| 0 <= i < p.queue.len() && p.queue[i] == other;
                assert(q.queue[i] == other);
            }
        }
    }
}

/// The buffers in flight and the buffers waiting add up to the capacity, in
/// every well-formed pool.
pub proof fn lemma_pool_accounts_for_every_buffer(p: PoolView)
    requires
        p.wf(),
    ensures
        p.in_flight.finite(),
        p.in_flight.len() + p.queue.len() == p.capacity,
{
    let waiting = p.queue.to_set();
    let all = set_int_range(0, p.capacity as int);
    lemma_int_range(0, p.capacity as int);
    p.queue.unique_seq_to_set();
    assert(waiting.finite()) by {
        broadcast use vstd::seq_lib::seq_to_set_is_finite;

    }
    assert(p.in_flight.subset_of(all));
    vstd::set_lib::lemma_len_subset(p.in_flight, all);
    assert(p.in_flight.disjoint(waiting)) by {
        assert forall|id: int| !(p.in_flight.contains(id) && waiting.contains(id)) by {
            if p.in_flight.contains(id) {
                assert(!p.queue.contains(id));
            }
        }
    }
    assert(p.in_flight + waiting =~= all) by {
        assert forall|id: int| (p.in_flight + waiting).contains(id) <==> all.contains(
            id,
        ) by {
            if waiting.contains(id) {
                let i = choose|i: int| 0 <= i < p.queue.len() && p.queue[i] == id;
                assert(0 <= p.queue[i] < p.capacity);
            }
            if all.contains(id) && !p.in_flight.contains(id) {
                assert(p.queue.contains(id));
            }
        }
    }
    lemma_set_disjoint_lens(p.in_flight, waiting);
}

/// A pool of buffers of one size, made for one port.
#[derive(Debug)]
pub struct BufferPool {
    buffer_size: u32,
    queue: VecDeque<usize>,
    held: Vec<bool>,
}

impl View for BufferPool {
    type V = PoolView;

    closed spec fn view(&self) -> PoolView {
        PoolView {
            capacity: self.held@.len(),
            buffer_size: self.buffer_size,
            queue: self.queue@.map_values(|id: usize| id as int),
            in_flight: Set::new(|id: int| 0 <= id < self.held@.len() && self.held@[id]),
        }
    }
}

impl BufferPool {
    /// The pool's invariant: see [`PoolView::wf`].
    pub open spec fn wf(&self) -> bool {
        self@.wf()
    }

    /// Makes a pool of `buffer_num` buffers of `buffer_size` bytes. All of
    /// them wait in the pool.
    pub fn new(buffer_num: u32, buffer_size: u32) -> (pool: BufferPool)
        ensures
            pool.wf(),
            pool@ == PoolView::fresh(buffer_num as nat, buffer_size),
    {
        let mut queue: VecDeque<usize> = VecDeque::new();
        let mut held: Vec<bool> = Vec::new();
        let mut next: u32 = 0;
        while next < buffer_num
            invariant
                next <= buffer_num,
                queue@.len() == next,
                held@.len() == next,
                forall|i: int| 0 <= i < next ==> queue@[i] == i,
                forall|i: int| 0 <= i < next ==> !held@[i],
            decreases buffer_num - next,
        {
            queue.push_back(next as usize);
            held.push(false);
            next = next + 1;
        }
        let pool = BufferPool { buffer_size, queue, held };
        proof {
            let fresh = PoolView::fresh(buffer_num as nat, buffer_size);
            assert(pool@.queue =~= fresh.queue);
            assert(pool@.in_flight =~= fresh.in_flight);
            lemma_fresh_pool(buffer_num as nat, buffer_size);
        }
        pool
    }

    /// Number of buffers the pool was made with.
    pub fn capacity(&self) -> (n: usize)
        ensures
            n == self@.capacity,
    {
        self.held.len()
    }

    /// Bytes in each buffer.
    pub fn buffer_size(&self) -> (bytes: u32)
        ensures
            bytes == self@.buffer_size,
    {
        self.buffer_size
    }

    /// Number of buffers that wait in the pool.
    pub fn buffers_in_pool(&self) -> (n: usize)
        ensures
            n == self@.queue.len(),
    {
        self.queue.len()
    }

    /// Number of buffers that the port holds. Together with those that wait
    /// they make up the capacity.
    pub fn buffers_in_flight(&self) -> (n: usize)
        requires
            self.wf(),
        ensures
            n == self@.in_flight.len(),
            n + self@.queue.len() == self@.capacity,
    {
        proof {
            lemma_pool_accounts_for_every_buffer(self@);
        }
        self.held.len() - self.queue.len()
    }

    /// Whether the port holds buffer `id`.
    pub fn is_in_flight(&self, id: usize) -> (held: bool)
        ensures
            held == self@.in_flight.contains(id as int),
    {
        id < self.held.len() && self.held[id]
    }

    /// Hands out the buffer that has waited longest; it is in flight from
    /// now on. With no buffer waiting there is nothing to hand out.
    pub fn acquire(&mut self) -> (id: Option<usize>)
        requires
            old(self).wf(),
        ensures
            final(self).wf(),
            match id {
                Some(i) => {
                    &&& old(self)@.queue.len() > 0
                    &&& i == old(self)@.queue[0]
                    &&& final(self)@ == old(self)@.acquire()
                },
                None => old(self)@.queue.len() == 0 && final(self)@ == old(self)@,
            },
    {
        let front = self.queue.pop_front();
        match front {
            Some(i) => {
                assert(old(self)@.queue[0] == i as int);
                self.held.set(i, true);
                proof {
                    let before = old(self)@;
                    assert(self@.queue =~= before.acquire().queue);
                    assert(self@.in_flight =~= before.acquire().in_flight);
                    lemma_acquire_keeps_wf(before);
                }
                Some(i)
            },
            None => {
                proof {
                    assert(self@.queue =~= old(self)@.queue);
                    assert(self@.in_flight =~= old(self)@.in_flight);
                }
                None
            },
        }
    }

    /// Takes buffer `id` back from the port and queues it behind the
    /// buffers that already wait. A buffer that is not in flight is refused
    /// and the pool stays as it is: no buffer is ever released twice.
    pub fn release(&mut self, id: usize) -> (released: bool)
        requires
            old(self).wf(),
        ensures
            final(self).wf(),
            released == old(self)@.in_flight.contains(id as int),
            final(self)@ == old(self)@.release(id as int),
    {
        if id < self.held.len() && self.held[id] {
            self.held.set(id, false);
            self.queue.push_back(id);
            proof {
                let before = old(self)@;
                assert(self@.queue =~= before.release(id as int).queue);
                assert(self@.in_flight =~= before.release(id as int).in_flight);
                lemma_release_keeps_wf(before, id as int);
            }
            true
        } else {
            false
        }
    }
}

} // verus!
