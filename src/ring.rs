use vstd::prelude::*;

verus! {

/// Flag set on a slot whose buffer index was exchanged by user space.
pub const NS_BUF_CHANGED: u16 = 1;

/// Position `i` of a ring of `n` slots, for `0 <= i < 2 * n`.
pub open spec fn wrap(n: int, i: int) -> int {
    if i >= n {
        i - n
    } else {
        i
    }
}

/// Number of steps from position `a` forward to position `b` on a ring of `n` slots.
pub open spec fn dist(n: int, a: int, b: int) -> int {
    if a <= b {
        b - a
    } else {
        b + n - a
    }
}

/// One ring entry: the index of the packet buffer it refers to, the valid length
/// and the flags. The buffer bytes themselves live in the mapped region.
#[derive(Clone, Copy, Debug, PartialEq, Eq, Structural)]
pub struct Slot {
    pub buf_idx: u32,
    pub len: u16,
    pub flags: u16,
}

/// A circular array of slots shared with the kernel. User space owns the slots
/// from `cur` up to `tail`: on a receive ring they hold arrived frames, on a
/// transmit ring they are free for new frames.
pub struct Ring {
    pub slots: Vec<Slot>,
    pub head: usize,
    pub cur: usize,
    pub tail: usize,
}

/// The window from `a` to `b`, moved one slot forward at its start, loses its first slot.
pub proof fn lemma_window_drop_first(r: Ring, a: int, b: int)
    requires
        0 < r.n(),
        0 <= a < r.n(),
        0 <= b < r.n(),
        a != b,
    ensures
        r.window(r.next_spec(a), b) == r.window(a, b).drop_first(),
{
    assert(r.window(r.next_spec(a), b) =~= r.window(a, b).drop_first());
}

/// Changing slots outside the window from `a` to `b` leaves the window as it was.
pub proof fn lemma_window_frame(r1: Ring, r2: Ring, a: int, b: int)
    requires
        0 < r1.n(),
        r1.n() == r2.n(),
        0 <= a < r1.n(),
        0 <= b < r1.n(),
        forall|p: int|
            0 <= p < r1.n() && dist(r1.n(), a, p) < dist(r1.n(), a, b) ==> r1.slots@[p]
                == r2.slots@[p],
    ensures
        r1.window(a, b) == r2.window(a, b),
{
    let n = r1.n();
    assert forall|k: int| 0 <= k < dist(n, a, b) implies #[trigger] r1.slots@[wrap(n, a + k)]
        == r2.slots@[wrap(n, a + k)] by {
        let p = wrap(n, a + k);
        assert(dist(n, a, p) == k);
    }
    assert(r1.window(a, b) =~= r2.window(a, b));
}

impl Ring {
    pub open spec fn n(&self) -> int {
        self.slots@.len() as int
    }

    /// Well formed for buffers of `cap` bytes.
    pub open spec fn wf(&self, cap: nat) -> bool {
        &&& 0 < self.n()
        &&& self.head == self.cur
        &&& self.cur < self.n()
        &&& self.tail < self.n()
        &&& forall|i: int| 0 <= i < self.n() ==> #[trigger] self.slots@[i].len <= cap
    }

    /// The slots from position `a` forward to position `b`.
    pub open spec fn window(&self, a: int, b: int) -> Seq<Slot> {
        Seq::new(dist(self.n(), a, b) as nat, |k: int| self.slots@[wrap(self.n(), a + k)])
    }

    /// Number of slots that user space owns (nm_ring_space).
    pub open spec fn space(&self) -> int {
        dist(self.n(), self.cur as int, self.tail as int)
    }

    /// On a receive ring: the arrived slots not consumed yet, oldest first.
    pub open spec fn received(&self) -> Seq<Slot> {
        self.window(self.cur as int, self.tail as int)
    }

    pub open spec fn next_spec(&self, i: int) -> int {
        if i + 1 == self.n() {
            0
        } else {
            i + 1
        }
    }

    /// This ring is `o` with the slot at `o.cur` possibly rewritten and `head` and
    /// `cur` moved to the next slot; the other slots and `tail` are unchanged.
    pub open spec fn stepped_from(&self, o: &Ring) -> bool {
        let c = o.cur as int;
        &&& self.n() == o.n()
        &&& self.slots@ == o.slots@.update(c, self.slots@[c])
        &&& self.cur == o.next_spec(c)
        &&& self.head == self.cur
        &&& self.tail == o.tail
    }

    /// This ring is `o` after a frame of `len` bytes was written into the buffer of
    /// the slot at `o.cur`: that slot keeps its buffer index and flags.
    pub open spec fn filled_at(&self, o: &Ring, len: u16) -> bool {
        let c = o.cur as int;
        &&& self.stepped_from(o)
        &&& self.slots@[c] == (Slot { len, ..o.slots@[c] })
    }

    /// This ring is `o` after the slot at `o.cur` exchanged buffers with `src`
    /// (which became `src1`): the indices changed hands, the length moved with the
    /// buffer, and both slots are marked changed.
    pub open spec fn exchanged_at(&self, o: &Ring, src: Slot, src1: Slot) -> bool {
        let c = o.cur as int;
        &&& self.stepped_from(o)
        &&& self.slots@[c] == (Slot { buf_idx: src.buf_idx, len: src.len, flags: NS_BUF_CHANGED })
        &&& src1 == (Slot { buf_idx: o.slots@[c].buf_idx, len: src.len, flags: NS_BUF_CHANGED })
    }

    /// Whether the ring is well formed for buffers of `cap` bytes.
    pub fn check(&self, cap: u16) -> (r: bool)
        ensures
            r == self.wf(cap as nat),
    {
        let n = self.slots.len();
        if n == 0 || self.head != self.cur || self.cur >= n || self.tail >= n {
            return false;
        }
        let mut i: usize = 0;
        while i < n
            invariant
                n == self.slots@.len(),
                i <= n,
                forall|j: int| 0 <= j < i ==> #[trigger] self.slots@[j].len <= cap,
            decreases n - i,
        {
            if self.slots[i].len > cap {
                return false;
            }
            i = i + 1;
        }
        true
    }

    /// Consumes the oldest arrived slot of a receive ring and hands it out.
    pub fn take(&mut self, cap: u16) -> (r: Slot)
        requires
            old(self).wf(cap as nat),
            old(self).cur != old(self).tail,
        ensures
            final(self).wf(cap as nat),
            final(self).stepped_from(old(self)),
            final(self).slots@ == old(self).slots@,
            r == old(self).received()[0],
            r.len <= cap,
            final(self).received() == old(self).received().drop_first(),
    {
        let c = self.cur;
        let r = self.slots[c];
        let nx = self.next(c);
        self.head = nx;
        self.cur = nx;
        proof {
            lemma_window_drop_first(*old(self), c as int, self.tail as int);
            assert(self.slots@ == old(self).slots@);
            assert(self.slots@ =~= old(self).slots@.update(c as int, self.slots@[c as int]));
        }
        r
    }

    /// Records a frame of `len` bytes in the first free slot of a transmit ring and
    /// commits it; returns the index of the buffer that is to hold the bytes.
    pub fn fill(&mut self, len: u16, cap: u16) -> (r: u32)
        requires
            old(self).wf(cap as nat),
            old(self).cur != old(self).tail,
            len <= cap,
        ensures
            final(self).wf(cap as nat),
            final(self).filled_at(old(self), len),
            final(self).space() == old(self).space() - 1,
            r == old(self).slots@[old(self).cur as int].buf_idx,
    {
        let c = self.cur;
        let old_slot = self.slots[c];
        self.slots.set(c, Slot { len, ..old_slot });
        let nx = self.next(c);
        self.head = nx;
        self.cur = nx;
        proof {
            assert forall|i: int| 0 <= i < self.n() implies #[trigger] self.slots@[i].len <= cap by {
                if i != c {
                    assert(self.slots@[i] == old(self).slots@[i]);
                }
            }
        }
        old_slot.buf_idx
    }

    /// Commits the frame that `src` refers to in the first free slot of a transmit
    /// ring by exchanging buffer indices, without touching a buffer byte.
    pub fn exchange(&mut self, src: &mut Slot, cap: u16)
        requires
            old(self).wf(cap as nat),
            old(self).cur != old(self).tail,
            old(src).len <= cap,
        ensures
            final(self).wf(cap as nat),
            final(self).exchanged_at(old(self), *old(src), *final(src)),
            final(self).space() == old(self).space() - 1,
            final(src).len <= cap,
    {
        let c = self.cur;
        let dst = self.slots[c];
        self.slots.set(c, Slot { buf_idx: src.buf_idx, len: src.len, flags: NS_BUF_CHANGED });
        src.buf_idx = dst.buf_idx;
        src.flags = NS_BUF_CHANGED;
        let nx = self.next(c);
        self.head = nx;
        self.cur = nx;
        proof {
            assert forall|i: int| 0 <= i < self.n() implies #[trigger] self.slots@[i].len <= cap by {
                if i != c {
                    assert(self.slots@[i] == old(self).slots@[i]);
                }
            }
        }
    }

    /// Whether user space owns no slot (nm_ring_empty).
    pub fn is_empty(&self) -> (r: bool)
        ensures
            r == (self.cur == self.tail),
    {
        self.cur == self.tail
    }

    /// The slot after `i` (nm_ring_next).
    pub fn next(&self, i: usize) -> (r: usize)
        requires
            i < self.n(),
        ensures
            r == self.next_spec(i as int),
    {
        let n: usize = self.slots.len();
        if i + 1 == n {
            0
        } else {
            i + 1
        }
    }
}

} // verus!
