//! A single-buffer ring of elements with a read index and a write index.
//!
//! The elements between the read index and the write index (going forward
//! around the ring) are the pending elements. Writing never checks for
//! room: writing onto the read index makes the ring look empty again.
use vstd::prelude::*;

verus! {

/// The forward distance from `from` to `to` on a ring of `len` positions.
pub open spec fn ring_dist(from: int, to: int, len: int) -> int {
    if to >= from {
        to - from
    } else {
        len - from + to
    }
}

/// A ring buffer of `T` over a fixed buffer.
pub struct RingBuffer<T: Copy> {
    read_idx: usize,
    write_idx: usize,
    buffer: Vec<T>,
}

impl<T: Copy> RingBuffer<T> {
    /// Both indices lie in the buffer, or the buffer is empty and both are
    /// zero.
    pub open spec fn wf(&self) -> bool {
        ||| (self.capacity() == 0 && self.spec_read_idx() == 0 && self.spec_write_idx() == 0)
        ||| (self.spec_read_idx() < self.capacity() && self.spec_write_idx() < self.capacity())
    }

    /// The read index.
    pub closed spec fn spec_read_idx(&self) -> usize {
        self.read_idx
    }

    /// The write index.
    pub closed spec fn spec_write_idx(&self) -> usize {
        self.write_idx
    }

    /// The whole underlying buffer.
    pub closed spec fn contents(&self) -> Seq<T> {
        self.buffer@
    }

    /// The number of positions of the ring.
    pub open spec fn capacity(&self) -> nat {
        self.contents().len()
    }

    /// The number of pending elements.
    pub open spec fn pending_len(&self) -> int {
        ring_dist(self.spec_read_idx() as int, self.spec_write_idx() as int, self.capacity() as int)
    }

    /// The pending elements, oldest first.
    pub open spec fn pending(&self) -> Seq<T> {
        Seq::new(
            self.pending_len() as nat,
            |k: int|
                self.contents()[(self.spec_read_idx() + k) % (self.capacity() as int)],
        )
    }

    /// A ring over `buffer`, with both indices at the start: nothing is
    /// pending.
    pub fn new(buffer: Vec<T>) -> (r: RingBuffer<T>)
        ensures
            r.wf(),
            r.contents() == buffer@,
            r.spec_read_idx() == 0,
            r.spec_write_idx() == 0,
            r.pending() == Seq::<T>::empty(),
    {
        let r = RingBuffer { read_idx: 0, write_idx: 0, buffer };
        assert(r.pending() =~= Seq::<T>::empty());
        r
    }

    /// The read index.
    pub fn read_idx(&self) -> (r: usize)
        ensures
            r == self.spec_read_idx(),
    {
        self.read_idx
    }

    /// The write index.
    pub fn write_idx(&self) -> (r: usize)
        ensures
            r == self.spec_write_idx(),
    {
        self.write_idx
    }

    /// Moves the read index by `steps` positions (backwards when negative).
    /// A position past the end wraps to the start; a negative position is
    /// counted back from the end.
    ///
    /// The caller keeps the new position in the ring: it must not be zero
    /// (that would put the index one past the last position) nor before the
    /// start of the buffer counted back from the end.
    pub fn advance_read(&mut self, steps: isize)
        requires
            old(self).wf(),
            old(self).capacity() <= isize::MAX,
            isize::MIN <= old(self).spec_read_idx() + steps <= isize::MAX,
            old(self).spec_read_idx() + steps != 0,
            old(self).spec_read_idx() + steps < 0 ==> old(self).capacity() + old(self).spec_read_idx() + steps >= 0,
            old(self).spec_read_idx() + steps > 0 ==> old(self).capacity() > 0,
        ensures
            final(self).wf(),
            final(self).contents() == old(self).contents(),
            final(self).spec_write_idx() == old(self).spec_write_idx(),
            ({
                let new = old(self).spec_read_idx() + steps;
                final(self).spec_read_idx() == if new > 0 {
                    new % (old(self).capacity() as int)
                } else {
                    old(self).capacity() + new
                }
            }),
    {
        let new = self.read_idx as isize + steps;
        if new > 0 {
            self.read_idx = new as usize % self.buffer.len();
        } else {
            self.read_idx = (self.buffer.len() as isize + new) as usize;
        }
    }

    /// Moves the write index by `steps` positions, as `advance_read` moves
    /// the read index.
    pub fn advance_write(&mut self, steps: isize)
        requires
            old(self).wf(),
            old(self).capacity() <= isize::MAX,
            isize::MIN <= old(self).spec_write_idx() + steps <= isize::MAX,
            old(self).spec_write_idx() + steps != 0,
            old(self).spec_write_idx() + steps < 0 ==> old(self).capacity() + old(self).spec_write_idx() + steps >= 0,
            old(self).spec_write_idx() + steps > 0 ==> old(self).capacity() > 0,
        ensures
            final(self).wf(),
            final(self).contents() == old(self).contents(),
            final(self).spec_read_idx() == old(self).spec_read_idx(),
            ({
                let new = old(self).spec_write_idx() + steps;
                final(self).spec_write_idx() == if new > 0 {
                    new % (old(self).capacity() as int)
                } else {
                    old(self).capacity() + new
                }
            }),
    {
        let new = self.write_idx as isize + steps;
        if new > 0 {
            self.write_idx = new as usize % self.buffer.len();
        } else {
            self.write_idx = (self.buffer.len() as isize + new) as usize;
        }
    }

    /// Advances `idx` forward by `steps` on a ring of `len` positions, but
    /// never past `limit`: when `limit` is `steps` or fewer positions ahead,
    /// the result is `limit`.
    fn ring_advance_clamped(idx: usize, steps: usize, limit: usize, len: usize) -> (r: usize)
        requires
            len != 0,
            idx < len,
            limit < len,
        ensures
            r == (idx + vstd::math::min(steps as int, ring_dist(idx as int, limit as int, len as int)))
                % (len as int),
            r < len,
    {
        let distance = Self::ring_distance(idx, limit, len);
        proof {
            lemma_dist_step(idx as int, limit as int, len as int);
        }
        if steps >= distance {
            return limit;
        }
        proof {
            lemma_ring_wrap(idx as int, steps as int, len as int);
        }
        if steps < len - idx {
            idx + steps
        } else {
            steps - (len - idx)
        }
    }

    /// The forward distance from `from` to `to` on a ring of `len` positions.
    fn ring_distance(from: usize, to: usize, len: usize) -> (r: usize)
        requires
            from < len,
            to < len,
        ensures
            r == ring_dist(from as int, to as int, len as int),
            r < len,
    {
        if to >= from {
            to - from
        } else {
            len - from + to
        }
    }

    /// Stores `value` at the write index and moves the write index one
    /// position forward.
    pub fn write(&mut self, value: T)
        requires
            old(self).wf(),
            old(self).capacity() > 0,
        ensures
            final(self).wf(),
            final(self).contents() == old(self).contents().update(
                old(self).spec_write_idx() as int,
                value,
            ),
            final(self).spec_write_idx() == (old(self).spec_write_idx() + 1) % (old(self).capacity() as int),
            final(self).spec_read_idx() == old(self).spec_read_idx(),
            old(self).pending_len() < old(self).capacity() - 1 ==> final(self).pending() == old(
                self,
            ).pending().push(value),
            old(self).pending_len() == old(self).capacity() - 1 ==> final(self).pending()
                == Seq::<T>::empty(),
    {
        let w = self.write_idx;
        assert(w < self.buffer@.len());
        self.buffer.set(w, value);
        assert(w < self.buffer.len());
        self.write_idx = (w + 1) % self.buffer.len();
        proof {
            let o = old(self);
            let c = o.capacity() as int;
            let rd = o.spec_read_idx() as int;
            let wr = o.spec_write_idx() as int;
            lemma_dist_step(rd, wr, c);
            if o.pending_len() < c - 1 {
                assert forall|k: int| 0 <= k < self.pending_len() implies #[trigger] self.pending()[k]
                    == o.pending().push(value)[k] by {
                    lemma_ring_position(rd, k, c);
                    if k < o.pending_len() {
                        lemma_ring_position_before(rd, wr, k, c);
                    }
                }
                assert(self.pending() =~= o.pending().push(value));
            } else {
                assert(self.pending() =~= Seq::<T>::empty());
            }
        }
    }

    /// The element at the read index, moving the read index one position
    /// forward; `None` when nothing is pending.
    pub fn read(&mut self) -> (r: Option<T>)
        requires
            old(self).wf(),
        ensures
            final(self).wf(),
            final(self).contents() == old(self).contents(),
            final(self).spec_write_idx() == old(self).spec_write_idx(),
            old(self).spec_write_idx() == old(self).spec_read_idx() ==> r is None && final(self).spec_read_idx() == old(self).spec_read_idx(),
            old(self).spec_write_idx() != old(self).spec_read_idx() ==> r == Some(
                old(self).contents()[old(self).spec_read_idx() as int],
            ) && final(self).spec_read_idx() == (old(self).spec_read_idx() + 1) % (old(self).capacity() as int),
            old(self).pending().len() == 0 ==> r is None && final(self).pending() == old(self).pending(),
            old(self).pending().len() > 0 ==> r == Some(old(self).pending()[0]) && final(self).pending()
                == old(self).pending().drop_first(),
    {
        if self.write_idx == self.read_idx {
            assert(old(self).pending() =~= Seq::<T>::empty());
            return None;
        }
        assert(self.read_idx < self.buffer.len());
        proof {
            vstd::arithmetic::div_mod::lemma_small_mod(self.read_idx as nat, self.buffer@.len() as nat);
            assert(old(self).pending()[0] == old(self).contents()[old(self).spec_read_idx() as int]);
        }
        let val = self.buffer[self.read_idx];
        self.read_idx = (self.read_idx + 1) % self.buffer.len();
        proof {
            let o = old(self);
            let c = o.capacity() as int;
            let rd = o.spec_read_idx() as int;
            lemma_dist_after_advance(rd, o.spec_write_idx() as int, c, 1);
            vstd::arithmetic::div_mod::lemma_small_mod(rd as nat, c as nat);
            assert forall|k: int| 0 <= k < self.pending_len() implies #[trigger] self.pending()[k]
                == o.pending().drop_first()[k] by {
                lemma_mod_add(rd, 1, k, c);
            }
            assert(self.pending() =~= o.pending().drop_first());
        }
        Some(val)
    }

    /// The number of pending elements: the forward distance from the read
    /// index to the write index.
    pub fn steps_between(&self) -> (r: usize)
        requires
            self.wf(),
        ensures
            r == self.pending_len(),
            r == self.pending().len(),
    {
        if self.buffer.len() == 0 {
            0
        } else {
            Self::ring_distance(self.read_idx, self.write_idx, self.buffer.len())
        }
    }

    /// Copies the oldest pending elements into `buffer`, as many as fit and
    /// are pending, and consumes them. Returns how many were copied.
    pub fn read_bulk(&mut self, buffer: &mut [T]) -> (r: usize)
        requires
            old(self).wf(),
            old(self).capacity() <= isize::MAX,
        ensures
            final(self).wf(),
            r == vstd::math::min(old(buffer)@.len() as int, old(self).pending_len()),
            final(buffer)@.len() == old(buffer)@.len(),
            final(buffer)@.subrange(0, r as int) == old(self).pending().subrange(0, r as int),
            final(buffer)@.subrange(r as int, final(buffer)@.len() as int) == old(buffer)@.subrange(r as int, old(buffer)@.len() as int),
            final(self).pending() == old(self).pending().subrange(r as int, old(self).pending_len()),
            final(self).contents() == old(self).contents(),
            final(self).spec_write_idx() == old(self).spec_write_idx(),
    {
        let steps = self.read_bulk_no_advance(buffer);
        self.forward_advance_read(steps);
        proof {
            let old_self = old(self);
            if old_self.capacity() > 0 {
                let c = old_self.capacity() as int;
                let rd = old_self.spec_read_idx() as int;
                lemma_dist_after_advance(rd, old_self.spec_write_idx() as int, c, steps as int);
                assert forall|k: int| 0 <= k < self.pending_len() implies #[trigger] self.pending()[k]
                    == old_self.pending()[steps + k] by {
                    lemma_mod_add(rd, steps as int, k, c);
                }
            }
            assert(self.pending() =~= old_self.pending().subrange(
                steps as int,
                old_self.pending_len(),
            ));
        }
        steps
    }

    /// Copies the oldest pending elements into `buffer`, as many as fit and
    /// are pending, without consuming them. Returns how many were copied.
    pub fn read_bulk_no_advance(&self, buffer: &mut [T]) -> (r: usize)
        requires
            self.wf(),
        ensures
            r == vstd::math::min(old(buffer)@.len() as int, self.pending_len()),
            final(buffer)@.len() == old(buffer)@.len(),
            final(buffer)@.subrange(0, r as int) == self.pending().subrange(0, r as int),
            final(buffer)@.subrange(r as int, final(buffer)@.len() as int) == old(buffer)@.subrange(r as int, old(buffer)@.len() as int),
    {
        let pending = self.steps_between();
        let steps = if buffer.len() < pending {
            buffer.len()
        } else {
            pending
        };
        if steps == 0 {
            assert(buffer@.subrange(0, 0) =~= self.pending().subrange(0, 0));
            assert(buffer@.subrange(0, buffer@.len() as int) =~= old(buffer)@.subrange(
                0,
                old(buffer)@.len() as int,
            ));
            return 0;
        }
        let len = self.buffer.len();
        let first_chunk = len - self.read_idx;
        if steps < first_chunk {
            // The pending run does not wrap around the end of the buffer.
            let mut i: usize = 0;
            while i < steps
                invariant
                    i <= steps,
                    steps <= buffer@.len(),
                    steps <= self.pending_len(),
                    self.read_idx + steps < len,
                    len == self.capacity(),
                    len > 0,
                    buffer@.len() == old(buffer)@.len(),
                    forall|k: int| 0 <= k < i ==> buffer@[k] == self.pending()[k],
                    forall|k: int| i <= k < buffer@.len() ==> buffer@[k] == old(buffer)@[k],
                decreases steps - i,
            {
                buffer[i] = self.buffer[self.read_idx + i];
                proof {
                    assert((self.read_idx + i) % (len as int) == self.read_idx + i) by {
                        vstd::arithmetic::div_mod::lemma_small_mod(
                            (self.read_idx + i) as nat,
                            len as nat,
                        );
                    }
                }
                i = i + 1;
            }
        } else {
            // The pending run wraps: copy up to the end, then from the start.
            let mut i: usize = 0;
            while i < steps
                invariant
                    i <= steps,
                    steps <= buffer@.len(),
                    steps <= self.pending_len(),
                    steps < len,
                    first_chunk == len - self.read_idx,
                    self.read_idx < len,
                    self.read_idx + steps >= len,
                    len == self.capacity(),
                    buffer@.len() == old(buffer)@.len(),
                    forall|k: int| 0 <= k < i ==> buffer@[k] == self.pending()[k],
                    forall|k: int| i <= k < buffer@.len() ==> buffer@[k] == old(buffer)@[k],
                decreases steps - i,
            {
                if i < first_chunk {
                    buffer[i] = self.buffer[self.read_idx + i];
                    proof {
                        vstd::arithmetic::div_mod::lemma_small_mod(
                            (self.read_idx + i) as nat,
                            len as nat,
                        );
                    }
                } else {
                    buffer[i] = self.buffer[i - first_chunk];
                    proof {
                        vstd::arithmetic::div_mod::lemma_mod_sub_multiples_vanish(
                            (self.read_idx + i) as int,
                            len as int,
                        );
                        vstd::arithmetic::div_mod::lemma_small_mod(
                            (i - first_chunk) as nat,
                            len as nat,
                        );
                    }
                }
                i = i + 1;
            }
        }
        assert(buffer@.subrange(0, steps as int) =~= self.pending().subrange(0, steps as int));
        assert(buffer@.subrange(steps as int, buffer@.len() as int) =~= old(buffer)@.subrange(
            steps as int,
            old(buffer)@.len() as int,
        ));
        steps
    }

    /// Moves the read index forward by `steps`, but never past the write
    /// index: the first `steps` pending elements, or all of them when fewer
    /// are pending, are consumed.
    pub fn forward_advance_read(&mut self, steps: usize)
        requires
            old(self).wf(),
        ensures
            final(self).wf(),
            final(self).contents() == old(self).contents(),
            final(self).spec_write_idx() == old(self).spec_write_idx(),
            old(self).capacity() == 0 ==> final(self).spec_read_idx() == 0,
            old(self).capacity() > 0 ==> final(self).spec_read_idx() == (old(self).spec_read_idx()
                + vstd::math::min(steps as int, old(self).pending_len())) % (old(self).capacity() as int),
            final(self).pending() == old(self).pending().skip(
                vstd::math::min(steps as int, old(self).pending_len()),
            ),
    {
        if self.buffer.len() == 0 {
            assert(old(self).pending() =~= Seq::<T>::empty());
            assert(self.pending() =~= Seq::<T>::empty());
            return;
        }
        let r = Self::ring_advance_clamped(self.read_idx, steps, self.write_idx, self.buffer.len());
        self.read_idx = r;
        proof {
            let o = old(self);
            let c = o.capacity() as int;
            let rd = o.spec_read_idx() as int;
            let m = vstd::math::min(steps as int, o.pending_len());
            lemma_dist_after_advance(rd, o.spec_write_idx() as int, c, m);
            assert forall|k: int| 0 <= k < self.pending_len() implies #[trigger] self.pending()[k]
                == o.pending().skip(m)[k] by {
                lemma_mod_add(rd, m, k, c);
            }
            assert(self.pending() =~= o.pending().skip(m));
        }
    }

    /// Consumes every pending element.
    pub fn advance_to_write(&mut self)
        requires
            old(self).wf(),
        ensures
            final(self).wf(),
            final(self).contents() == old(self).contents(),
            final(self).spec_write_idx() == old(self).spec_write_idx(),
            final(self).spec_read_idx() == old(self).spec_write_idx(),
            final(self).pending() == Seq::<T>::empty(),
    {
        self.read_idx = self.write_idx;
        assert(self.pending() =~= Seq::<T>::empty());
    }
}

/// A step of fewer than the positions left before the end of the ring
/// stays in the ring; a longer one, of fewer than the ring has, wraps around
/// once.
proof fn lemma_ring_wrap(idx: int, steps: int, len: int)
    requires
        0 <= idx < len,
        0 <= steps < len,
    ensures
        idx + steps < len ==> (idx + steps) % len == idx + steps,
        idx + steps >= len ==> (idx + steps) % len == idx + steps - len,
{
    if idx + steps < len {
        vstd::arithmetic::div_mod::lemma_small_mod((idx + steps) as nat, len as nat);
    } else {
        vstd::arithmetic::div_mod::lemma_mod_sub_multiples_vanish(idx + steps, len);
        vstd::arithmetic::div_mod::lemma_small_mod((idx + steps - len) as nat, len as nat);
    }
}

/// Moving `s` positions forward, with `s` at most the distance to `to`,
/// shortens the distance to `to` by `s`.
proof fn lemma_dist_after_advance(from: int, to: int, c: int, s: int)
    requires
        0 <= from < c,
        0 <= to < c,
        0 <= s <= ring_dist(from, to, c),
    ensures
        0 <= (from + s) % c < c,
        ring_dist((from + s) % c, to, c) == ring_dist(from, to, c) - s,
{
    if from + s < c {
        vstd::arithmetic::div_mod::lemma_small_mod((from + s) as nat, c as nat);
    } else {
        vstd::arithmetic::div_mod::lemma_mod_sub_multiples_vanish(from + s, c);
        vstd::arithmetic::div_mod::lemma_small_mod((from + s - c) as nat, c as nat);
    }
}

/// One write step: the distance from the read index to the write index
/// grows by one, or wraps to zero when the ring was one short of full.
proof fn lemma_dist_step(rd: int, wr: int, c: int)
    requires
        0 <= rd < c,
        0 <= wr < c,
    ensures
        0 <= (wr + 1) % c < c,
        ring_dist(rd, wr, c) < c - 1 ==> ring_dist(rd, (wr + 1) % c, c) == ring_dist(rd, wr, c)
            + 1,
        ring_dist(rd, wr, c) == c - 1 ==> ring_dist(rd, (wr + 1) % c, c) == 0,
        ring_dist(rd, wr, c) < c,
        (rd + ring_dist(rd, wr, c)) % c == wr,
{
    if wr + 1 < c {
        vstd::arithmetic::div_mod::lemma_small_mod((wr + 1) as nat, c as nat);
    } else {
        vstd::arithmetic::div_mod::lemma_mod_self_0(c);
    }
    if wr >= rd {
        vstd::arithmetic::div_mod::lemma_small_mod(wr as nat, c as nat);
    } else {
        vstd::arithmetic::div_mod::lemma_mod_sub_multiples_vanish(wr + c, c);
        vstd::arithmetic::div_mod::lemma_small_mod(wr as nat, c as nat);
    }
}

/// Positions on the ring are taken modulo its size.
proof fn lemma_ring_position(rd: int, k: int, c: int)
    requires
        0 <= rd < c,
        0 <= k,
    ensures
        0 <= (rd + k) % c < c,
{
    vstd::arithmetic::div_mod::lemma_mod_bound(rd + k, c);
}

/// A pending position lies strictly before the write index on the ring, so
/// a write does not touch it.
proof fn lemma_ring_position_before(rd: int, wr: int, k: int, c: int)
    requires
        0 <= rd < c,
        0 <= wr < c,
        0 <= k < ring_dist(rd, wr, c),
    ensures
        (rd + k) % c != wr,
{
    if rd + k < c {
        vstd::arithmetic::div_mod::lemma_small_mod((rd + k) as nat, c as nat);
    } else {
        vstd::arithmetic::div_mod::lemma_mod_sub_multiples_vanish(rd + k, c);
        vstd::arithmetic::div_mod::lemma_small_mod((rd + k - c) as nat, c as nat);
    }
}

/// `(a + b + k) % c == ((a + b) % c + k) % c`.
proof fn lemma_mod_add(a: int, b: int, k: int, c: int)
    requires
        c > 0,
    ensures
        ((a + b) % c + k) % c == (a + (b + k)) % c,
{
    vstd::arithmetic::div_mod::lemma_add_mod_noop(a + b, k, c);
    vstd::arithmetic::div_mod::lemma_mod_twice(a + b, c);
    vstd::arithmetic::div_mod::lemma_add_mod_noop((a + b) % c, k, c);
    assert(a + (b + k) == (a + b) + k);
}

} // verus!
