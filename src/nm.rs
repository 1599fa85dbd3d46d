use vstd::prelude::*;
use vstd::string::StringSliceAdditionalSpecFns;

use crate::ifreq::{ifreq_for, padded_name, IfReq, IF_NAMESIZE};
use crate::request::{ring_range, ring_range_spec, NmReq};
use crate::ring::{dist, lemma_window_frame, Ring, Slot};

verus! {

/// Outcome of a ring operation that did not go through.
#[derive(Clone, Copy, Debug, PartialEq, Eq, Structural)]
pub enum NetError {
    /// Nothing is available now; a later call may succeed.
    WouldBlock,
    /// Every ring in range is full (or empty) after a compensating synchronization.
    Exhausted,
    /// A forward was asked for with no retained receive slot.
    Illegal,
    /// The peer could not be reached.
    Unaddressable,
}

/// Why a ring session could not be attached.
#[derive(Clone, Copy, Debug, PartialEq, Eq, Structural)]
pub enum AttachError {
    /// The registration record selects no ring, or rings without slots.
    InvalidRequest,
    /// The ring state handed over does not match the record or is not well formed.
    InvalidState,
    /// The parent interface name does not fit the name record.
    NameTooLong,
}

/// What a receive asks of its caller.
#[derive(Debug)]
pub enum RecvStep {
    /// The slot of the next arrived frame; its bytes are the first `len` bytes of
    /// buffer `buf_idx`, valid until the next receive.
    Frame(Slot),
    /// Nothing arrived; issue a receive synchronization to the kernel, hand the
    /// rings back (`set_rings`) and call `recv_after_sync`.
    NeedsRxSync,
    /// Nothing arrived; wait for readiness before receiving again.
    WouldBlock,
}

/// What a transmit-side call asks of its caller.
#[derive(Debug, PartialEq, Eq, Structural)]
pub enum TxStep {
    /// The frame was committed in a slot whose buffer is `buf_idx`; `flush` tells
    /// whether a transmit synchronization is owed now.
    Done { buf_idx: u32, flush: bool },
    /// No transmit ring has a free slot; issue a transmit synchronization, hand the
    /// rings back (`set_rings`) and call the matching `_after_sync` method.
    NeedsTxSync,
}

/// Why a session cannot be attached with `req` and a parent interface named by `parent`.
pub open spec fn attach_error(req: NmReq, parent: Seq<u8>) -> Option<AttachError> {
    if ring_range_spec(req) is None || req.nr_tx_slots == 0 || req.nr_rx_slots == 0
        || ring_range_spec(req)->0.last_tx_ring > req.nr_tx_rings
        || ring_range_spec(req)->0.last_rx_ring > req.nr_rx_rings {
        Some(AttachError::InvalidRequest)
    } else if parent.len() > IF_NAMESIZE {
        Some(AttachError::NameTooLong)
    } else {
        None
    }
}

/// `count` well-formed rings of `slots` slots each, for buffers of `cap` bytes.
pub open spec fn rings_valid(rings: Seq<Ring>, count: int, slots: int, cap: nat) -> bool {
    &&& rings.len() == count
    &&& forall|i: int| 0 <= i < count ==> (#[trigger] rings[i]).wf(cap) && rings[i].n() == slots
}

/// Checks `rings_valid`.
fn check_rings(rings: &Vec<Ring>, count: usize, slots: u32, cap: u16) -> (r: bool)
    ensures
        r == rings_valid(rings@, count as int, slots as int, cap as nat),
{
    if rings.len() != count {
        return false;
    }
    let mut i: usize = 0;
    while i < count
        invariant
            rings@.len() == count,
            i <= count,
            forall|j: int| 0 <= j < i ==> (#[trigger] rings@[j]).wf(cap as nat) && rings@[j].n() == slots,
        decreases count - i,
    {
        if !rings[i].check(cap) || rings[i].slots.len() != slots as usize {
            return false;
        }
        i = i + 1;
    }
    true
}

/// A ring session: the transmit and receive rings of a mapped region, the bound
/// ring ranges, and the slot retained for a zero-copy forward.
pub struct NetmapDesc {
    pub fd: i32,
    pub req: NmReq,
    pub tx_rings: Vec<Ring>,
    pub rx_rings: Vec<Ring>,
    pub first_tx_ring: usize,
    pub last_tx_ring: usize,
    pub first_rx_ring: usize,
    pub last_rx_ring: usize,
    pub cur_rx_ring: usize,
    /// Receive ring and slot of the last received frame, until it is forwarded.
    pub zc_rx_slot: Option<(usize, usize)>,
    pub buf_size: u16,
    pub ifreq: IfReq,
    pub uses_wait: bool,
}

impl NetmapDesc {
    /// The slot retained in receive rings `rx` is the one just before its ring's `cur`.
    pub open spec fn retained_ok(zc: Option<(usize, usize)>, rx: Seq<Ring>, first: int, last: int) -> bool {
        match zc {
            Some((r, s)) => first <= r <= last && s < rx[r as int].n() && rx[r as int].next_spec(
                s as int,
            ) == rx[r as int].cur,
            None => true,
        }
    }

    pub open spec fn wf(&self) -> bool {
        &&& self.first_tx_ring <= self.last_tx_ring < self.tx_rings@.len()
        &&& self.first_rx_ring <= self.cur_rx_ring <= self.last_rx_ring < self.rx_rings@.len()
        &&& rings_valid(self.tx_rings@, self.req.nr_tx_rings + 1, self.req.nr_tx_slots as int, self.buf_size as nat)
        &&& rings_valid(self.rx_rings@, self.req.nr_rx_rings + 1, self.req.nr_rx_slots as int, self.buf_size as nat)
        &&& Self::retained_ok(self.zc_rx_slot, self.rx_rings@, self.first_rx_ring as int, self.last_rx_ring as int)
    }

    /// Number of receive rings in range.
    pub open spec fn rx_count(&self) -> int {
        self.last_rx_ring - self.first_rx_ring + 1
    }

    /// The receive ring visited `k` steps into a scan that starts at the current ring
    /// and wraps from the last ring in range to the first.
    pub open spec fn scan_pos(&self, k: int) -> int {
        if self.cur_rx_ring + k <= self.last_rx_ring {
            self.cur_rx_ring + k
        } else {
            self.cur_rx_ring + k - self.rx_count()
        }
    }

    pub open spec fn rx_ready(&self, k: int) -> bool {
        self.rx_rings@[self.scan_pos(k)].cur != self.rx_rings@[self.scan_pos(k)].tail
    }

    /// The `k`-th ring of the scan is the first one that holds a frame.
    pub open spec fn first_rx_ready(&self, k: int) -> bool {
        &&& 0 <= k < self.rx_count()
        &&& self.rx_ready(k)
        &&& forall|j: int| 0 <= j < k ==> !#[trigger] self.rx_ready(j)
    }

    pub open spec fn any_rx_ready(&self) -> bool {
        exists|k: int| 0 <= k < self.rx_count() && #[trigger] self.rx_ready(k)
    }

    pub open spec fn tx_ready(&self, i: int) -> bool {
        self.tx_rings@[i].cur != self.tx_rings@[i].tail
    }

    /// The transmit ring `i` is the first one in range with a free slot.
    pub open spec fn first_tx_ready(&self, i: int) -> bool {
        &&& self.first_tx_ring <= i <= self.last_tx_ring
        &&& self.tx_ready(i)
        &&& forall|j: int| self.first_tx_ring <= j < i ==> !#[trigger] self.tx_ready(j)
    }

    pub open spec fn any_tx_ready(&self) -> bool {
        exists|i: int| self.first_tx_ring <= i <= self.last_tx_ring && #[trigger] self.tx_ready(i)
    }

    /// Everything but the receive side is as in `o`.
    pub open spec fn same_tx_side(&self, o: &NetmapDesc) -> bool {
        &&& self.fd == o.fd
        &&& self.req == o.req
        &&& self.tx_rings@ == o.tx_rings@
        &&& self.first_tx_ring == o.first_tx_ring
        &&& self.last_tx_ring == o.last_tx_ring
        &&& self.first_rx_ring == o.first_rx_ring
        &&& self.last_rx_ring == o.last_rx_ring
        &&& self.buf_size == o.buf_size
        &&& self.ifreq.ifr_name@ == o.ifreq.ifr_name@
        &&& self.ifreq.ifr_data == o.ifreq.ifr_data
        &&& self.uses_wait == o.uses_wait
    }

    /// Everything but the transmit rings is as in `o`.
    pub open spec fn same_rx_side(&self, o: &NetmapDesc) -> bool {
        &&& self.fd == o.fd
        &&& self.req == o.req
        &&& self.rx_rings@ == o.rx_rings@
        &&& self.tx_rings@.len() == o.tx_rings@.len()
        &&& self.first_tx_ring == o.first_tx_ring
        &&& self.last_tx_ring == o.last_tx_ring
        &&& self.first_rx_ring == o.first_rx_ring
        &&& self.last_rx_ring == o.last_rx_ring
        &&& self.cur_rx_ring == o.cur_rx_ring
        &&& self.buf_size == o.buf_size
        &&& self.ifreq.ifr_name@ == o.ifreq.ifr_name@
        &&& self.ifreq.ifr_data == o.ifreq.ifr_data
        &&& self.uses_wait == o.uses_wait
        &&& self.zc_rx_slot == o.zc_rx_slot
    }

    /// The session after the oldest slot of the `k`-th ring of the scan was consumed.
    pub open spec fn received_from(&self, k: int, o: &NetmapDesc) -> bool {
        let p = o.scan_pos(k);
        &&& self.same_tx_side(o)
        &&& self.rx_rings@.len() == o.rx_rings@.len()
        &&& forall|j: int| 0 <= j < o.rx_rings@.len() && j != p ==> #[trigger] self.rx_rings@[j] == o.rx_rings@[j]
        &&& self.rx_rings@[p].stepped_from(&o.rx_rings@[p])
        &&& self.rx_rings@[p].slots@ == o.rx_rings@[p].slots@
        &&& self.cur_rx_ring == p
        &&& self.zc_rx_slot == Some((p as usize, o.rx_rings@[p].cur))
    }

    /// The transmit ring `i` recorded a frame of `len` bytes in its first free slot;
    /// the other transmit rings are unchanged.
    pub open spec fn committed(&self, i: int, len: u16, o: &NetmapDesc) -> bool {
        &&& self.tx_rings@.len() == o.tx_rings@.len()
        &&& self.tx_rings@[i].filled_at(&o.tx_rings@[i], len)
        &&& self.tx_rings@[i].space() == o.tx_rings@[i].space() - 1
        &&& forall|j: int| 0 <= j < self.tx_rings@.len() && j != i ==> #[trigger] self.tx_rings@[j] == o.tx_rings@[j]
    }

    /// Whether a transmit synchronization is owed after a commit: unless the session
    /// is wait-based and a transmit ring still has a free slot.
    pub open spec fn flush_owed(&self) -> bool {
        !self.uses_wait || !self.any_tx_ready()
    }

    /// The slot that the last receive retained.
    pub open spec fn retained_slot(&self) -> Slot {
        let (r, s) = self.zc_rx_slot->0;
        self.rx_rings@[r as int].slots@[s as int]
    }

    /// The state of this session and of `from` after a successful forward from
    /// `from0` into `dst0`: the first transmit ring with a free slot exchanged buffer
    /// indices with the retained receive slot; nothing else changed but the retained
    /// slot, which is cleared.
    pub open spec fn forwarded(&self, from: &NetmapDesc, dst0: &NetmapDesc, from0: &NetmapDesc) -> bool {
        let (r, s) = from0.zc_rx_slot->0;
        let src0 = from0.rx_rings@[r as int];
        let src1 = from.rx_rings@[r as int];
        &&& from0.zc_rx_slot is Some
        &&& self.tx_rings@.len() == dst0.tx_rings@.len()
        &&& exists|i: int|
            #[trigger] dst0.first_tx_ready(i) && self.tx_rings@[i].exchanged_at(
                &dst0.tx_rings@[i],
                src0.slots@[s as int],
                src1.slots@[s as int],
            ) && self.tx_rings@[i].space() == dst0.tx_rings@[i].space() - 1 && (forall|j: int|
                0 <= j < self.tx_rings@.len() && j != i ==> #[trigger] self.tx_rings@[j]
                    == dst0.tx_rings@[j])
        &&& from.zc_rx_slot is None
        &&& from.same_tx_side(from0)
        &&& from.cur_rx_ring == from0.cur_rx_ring
        &&& from.rx_rings@.len() == from0.rx_rings@.len()
        &&& forall|j: int|
            0 <= j < from0.rx_rings@.len() && j != r ==> #[trigger] from.rx_rings@[j]
                == from0.rx_rings@[j]
        &&& src1.slots@ == src0.slots@.update(s as int, src1.slots@[s as int])
        &&& src1.head == src0.head && src1.cur == src0.cur && src1.tail == src0.tail
        &&& src1.received() == src0.received()
    }

    /// What a forward from `from` into `self` returns.
    pub open spec fn forward_outcome(&self, from: &NetmapDesc) -> Result<(), NetError> {
        if from.zc_rx_slot is None {
            Err(NetError::Illegal)
        } else if !self.any_tx_ready() {
            Err(NetError::Exhausted)
        } else {
            Ok(())
        }
    }

    /// Whether `tx` and `rx`, as read from the mapped region, are a valid state for a
    /// session registered with `req` whose buffers hold `buf_size` bytes.
    pub open spec fn state_ok(req: NmReq, buf_size: u16, tx: Seq<Ring>, rx: Seq<Ring>) -> bool {
        &&& rings_valid(tx, req.nr_tx_rings + 1, req.nr_tx_slots as int, buf_size as nat)
        &&& rings_valid(rx, req.nr_rx_rings + 1, req.nr_rx_slots as int, buf_size as nat)
    }

    /// Takes over a ring session whose descriptor `fd` was opened and registered
    /// elsewhere with `req`, with the ring state `tx_rings` and `rx_rings` read from
    /// its mapped region; the bound rings follow from the selector of `req`. `parent`
    /// names the interface whose MTU applies.
    pub fn new_from_shared_fd(
        fd: i32,
        req: NmReq,
        parent: &str,
        uses_wait: bool,
        buf_size: u16,
        tx_rings: Vec<Ring>,
        rx_rings: Vec<Ring>,
    ) -> (r: Result<NetmapDesc, AttachError>)
        ensures
            r is Ok <==> attach_error(req, parent.spec_bytes()) is None && Self::state_ok(req, buf_size, tx_rings@, rx_rings@),
            match r {
                Ok(d) => {
                    &&& d.wf()
                    &&& d.first_tx_ring == ring_range_spec(req)->0.first_tx_ring
                    &&& d.last_tx_ring == ring_range_spec(req)->0.last_tx_ring
                    &&& d.first_rx_ring == ring_range_spec(req)->0.first_rx_ring
                    &&& d.last_rx_ring == ring_range_spec(req)->0.last_rx_ring
                    &&& d.cur_rx_ring == d.first_rx_ring
                    &&& d.tx_rings@ == tx_rings@ && d.rx_rings@ == rx_rings@
                    &&& d.fd == fd && d.req == req && d.buf_size == buf_size
                    &&& d.uses_wait == uses_wait
                    &&& d.zc_rx_slot is None
                    &&& d.ifreq.ifr_name@ == padded_name(parent.spec_bytes())
                },
                Err(e) => e == (if attach_error(req, parent.spec_bytes()) is Some {
                    attach_error(req, parent.spec_bytes())->0
                } else {
                    AttachError::InvalidState
                }),
            },
    {
        let range = match ring_range(&req) {
            Some(g) => g,
            None => return Err(AttachError::InvalidRequest),
        };
        if req.nr_tx_slots == 0 || req.nr_rx_slots == 0 || range.last_tx_ring > req.nr_tx_rings
            || range.last_rx_ring > req.nr_rx_rings {
            return Err(AttachError::InvalidRequest);
        }
        if parent.as_bytes().len() > IF_NAMESIZE {
            return Err(AttachError::NameTooLong);
        }
        if !check_rings(&tx_rings, req.nr_tx_rings as usize + 1, req.nr_tx_slots, buf_size)
            || !check_rings(&rx_rings, req.nr_rx_rings as usize + 1, req.nr_rx_slots, buf_size) {
            return Err(AttachError::InvalidState);
        }
        Ok(NetmapDesc {
            fd,
            req,
            tx_rings,
            rx_rings,
            first_tx_ring: range.first_tx_ring as usize,
            last_tx_ring: range.last_tx_ring as usize,
            first_rx_ring: range.first_rx_ring as usize,
            last_rx_ring: range.last_rx_ring as usize,
            cur_rx_ring: range.first_rx_ring as usize,
            zc_rx_slot: None,
            buf_size,
            ifreq: ifreq_for(parent),
            uses_wait,
        })
    }

    /// Replaces the ring state with `tx_rings` and `rx_rings`, as read back from the
    /// mapped region after a kernel synchronization. Refused, changing nothing, where
    /// the state is not valid for the session or no longer holds the retained slot
    /// just before its ring's `cur`.
    pub fn set_rings(&mut self, tx_rings: Vec<Ring>, rx_rings: Vec<Ring>) -> (r: bool)
        requires
            old(self).wf(),
        ensures
            final(self).wf(),
            r == (Self::state_ok(old(self).req, old(self).buf_size, tx_rings@, rx_rings@)
                && Self::retained_ok(old(self).zc_rx_slot, rx_rings@, old(self).first_rx_ring as int, old(self).last_rx_ring as int)),
            r ==> *final(self) == (NetmapDesc { tx_rings, rx_rings, ..*old(self) }),
            !r ==> *final(self) == *old(self),
    {
        if !check_rings(&tx_rings, self.req.nr_tx_rings as usize + 1, self.req.nr_tx_slots, self.buf_size)
            || !check_rings(&rx_rings, self.req.nr_rx_rings as usize + 1, self.req.nr_rx_slots, self.buf_size) {
            return false;
        }
        match self.zc_rx_slot {
            Some((zr, zs)) => {
                assert(rx_rings@[zr as int].wf(self.buf_size as nat));
                if zs >= rx_rings[zr].slots.len() || rx_rings[zr].next(zs) != rx_rings[zr].cur {
                    return false;
                }
            },
            None => {},
        }
        self.tx_rings = tx_rings;
        self.rx_rings = rx_rings;
        true
    }

    /// Scans the receive rings once, from the current one, and takes the first frame found.
    fn find_nextpkt(&mut self) -> (r: Option<Slot>)
        requires
            old(self).wf(),
        ensures
            final(self).wf(),
            match r {
                Some(f) => exists|k: int|
                    #[trigger] old(self).first_rx_ready(k) && f == old(self).rx_rings@[old(
                        self,
                    ).scan_pos(k)].received()[0] && final(self).received_from(k, old(self)),
                None => !old(self).any_rx_ready() && *final(self) == *old(self),
            },
    {
        let start = self.cur_rx_ring;
        let first = self.first_rx_ring;
        let last = self.last_rx_ring;
        let _nrings = self.rx_rings.len();
        let cnt = last - first + 1;
        let mut k: usize = 0;
        while k < cnt
            invariant
                *self == *old(self),
                self.wf(),
                start == self.cur_rx_ring,
                first == self.first_rx_ring,
                last == self.last_rx_ring,
                cnt == self.rx_count(),
                k <= cnt,
                forall|j: int| 0 <= j < k ==> !#[trigger] self.rx_ready(j),
            decreases cnt - k,
        {
            let ri = if k <= last - start {
                start + k
            } else {
                k - (last - start + 1) + first
            };
            assert(ri == self.scan_pos(k as int));
            if !self.rx_rings[ri].is_empty() {
                let c = self.rx_rings[ri].cur;
                let bs = self.buf_size;
                let ghost cap = bs as nat;
                assert(self.rx_rings@[ri as int].wf(cap));
                let f = self.rx_rings[ri].take(bs);
                self.cur_rx_ring = ri;
                self.zc_rx_slot = Some((ri, c));
                proof {
                    assert(old(self).first_rx_ready(k as int));
                    assert forall|i: int| 0 <= i < self.rx_rings@.len() implies (#[trigger] self.rx_rings@[i]).wf(cap) && self.rx_rings@[i].n() == self.req.nr_rx_slots by {
                        if i != ri {
                            assert(self.rx_rings@[i] == old(self).rx_rings@[i]);
                            assert(old(self).rx_rings@[i].wf(cap));
                        }
                    }
                    assert forall|j: int| 0 <= j < old(self).rx_rings@.len() && j != ri implies #[trigger] self.rx_rings@[j] == old(self).rx_rings@[j] by {}
                    assert(first <= ri <= last);
                    assert(self.rx_rings@[ri as int].next_spec(c as int) == self.rx_rings@[ri as int].cur);
                    assert(self.wf());
                }
                return Some(f);
            }
            k = k + 1;
        }
        proof {
            assert forall|j: int| 0 <= j < self.rx_count() implies !#[trigger] self.rx_ready(j) by {}
        }
        None
    }

    /// Takes the next arrived frame. On a miss, a poll-based session asks for one
    /// receive synchronization (after which `recv_after_sync` scans once more); a
    /// wait-based session asks for none.
    pub fn recv(&mut self) -> (r: RecvStep)
        requires
            old(self).wf(),
        ensures
            final(self).wf(),
            r is Frame <==> old(self).any_rx_ready(),
            match r {
                RecvStep::Frame(f) => exists|k: int|
                    #[trigger] old(self).first_rx_ready(k) && f == old(self).rx_rings@[old(
                        self,
                    ).scan_pos(k)].received()[0] && final(self).received_from(k, old(self)),
                RecvStep::NeedsRxSync => !old(self).uses_wait && *final(self) == *old(self),
                RecvStep::WouldBlock => old(self).uses_wait && *final(self) == *old(self),
            },
    {
        match self.find_nextpkt() {
            Some(f) => RecvStep::Frame(f),
            None => {
                if self.uses_wait {
                    RecvStep::WouldBlock
                } else {
                    RecvStep::NeedsRxSync
                }
            },
        }
    }

    /// The scan after a receive synchronization: the next arrived frame, or
    /// `WouldBlock`; no further synchronization is asked for.
    pub fn recv_after_sync(&mut self) -> (r: Result<Slot, NetError>)
        requires
            old(self).wf(),
        ensures
            final(self).wf(),
            r is Ok <==> old(self).any_rx_ready(),
            match r {
                Ok(f) => exists|k: int|
                    #[trigger] old(self).first_rx_ready(k) && f == old(self).rx_rings@[old(
                        self,
                    ).scan_pos(k)].received()[0] && final(self).received_from(k, old(self)),
                Err(e) => e == NetError::WouldBlock && *final(self) == *old(self),
            },
    {
        match self.find_nextpkt() {
            Some(f) => Ok(f),
            None => Err(NetError::WouldBlock),
        }
    }

    /// The slot that the last receive retained, if any.
    pub fn retained(&self) -> (r: Option<Slot>)
        requires
            self.wf(),
        ensures
            r is Some <==> self.zc_rx_slot is Some,
            r is Some ==> r->0 == self.retained_slot(),
    {
        match self.zc_rx_slot {
            Some((ri, si)) => Some(self.rx_rings[ri].slots[si]),
            None => None,
        }
    }

    /// The first transmit ring in range with a free slot.
    fn find_tx(&self) -> (r: Option<usize>)
        requires
            self.wf(),
        ensures
            match r {
                Some(i) => self.first_tx_ready(i as int),
                None => !self.any_tx_ready(),
            },
    {
        let first = self.first_tx_ring;
        let last = self.last_tx_ring;
        let _nrings = self.tx_rings.len();
        let mut i: usize = first;
        while i <= last
            invariant
                self.wf(),
                first == self.first_tx_ring,
                last == self.last_tx_ring,
                first <= i <= last + 1,
                _nrings == self.tx_rings@.len(),
                forall|j: int| first <= j < i ==> !#[trigger] self.tx_ready(j),
            decreases last + 1 - i,
        {
            if !self.tx_rings[i].is_empty() {
                return Some(i);
            }
            i = i + 1;
        }
        None
    }

    /// Whether some transmit ring in range has a free slot.
    pub fn send_ready(&self) -> (r: Result<(), NetError>)
        requires
            self.wf(),
        ensures
            r is Ok <==> self.any_tx_ready(),
            r is Err ==> r == Err::<(), NetError>(NetError::WouldBlock),
    {
        match self.find_tx() {
            Some(_) => Ok(()),
            None => Err(NetError::WouldBlock),
        }
    }

    /// Records a frame of `len` bytes in the first transmit slot in range that is
    /// free, if any, and commits it: the buffer index of the slot, and whether a
    /// transmit synchronization is owed.
    fn commit(&mut self, len: u16) -> (r: Option<(u32, bool)>)
        requires
            old(self).wf(),
            len <= old(self).buf_size,
        ensures
            final(self).wf(),
            final(self).same_rx_side(old(self)),
            r is Some <==> old(self).any_tx_ready(),
            match r {
                Some((b, flush)) => flush == final(self).flush_owed() && exists|i: int|
                    #[trigger] old(self).first_tx_ready(i) && final(self).committed(i, len, old(self))
                        && b == old(self).tx_rings@[i].slots@[old(self).tx_rings@[i].cur as int].buf_idx,
                None => *final(self) == *old(self),
            },
    {
        match self.find_tx() {
            Some(i) => {
                let bs = self.buf_size;
                let ghost cap = bs as nat;
                assert(self.tx_rings@[i as int].wf(cap));
                let b = self.tx_rings[i].fill(len, bs);
                proof {
                    assert forall|j: int| 0 <= j < self.tx_rings@.len() implies (#[trigger] self.tx_rings@[j]).wf(cap) && self.tx_rings@[j].n() == self.req.nr_tx_slots by {
                        if j != i {
                            assert(self.tx_rings@[j] == old(self).tx_rings@[j]);
                            assert(old(self).tx_rings@[j].wf(cap));
                        }
                    }
                    assert forall|j: int| 0 <= j < self.tx_rings@.len() && j != i implies #[trigger] self.tx_rings@[j] == old(self).tx_rings@[j] by {}
                    assert(old(self).first_tx_ready(i as int));
                    assert(self.committed(i as int, len, old(self)));
                    assert(self.wf());
                }
                let flush = !self.uses_wait || self.send_ready().is_err();
                Some((b, flush))
            },
            None => None,
        }
    }

    /// Records a frame of `len` bytes in the first free transmit slot in range and
    /// commits it; the caller writes the bytes into the returned buffer. Where no
    /// ring has a free slot nothing changes and a transmit synchronization is asked
    /// for first (then `send_after_sync`).
    pub fn send(&mut self, len: u16) -> (r: TxStep)
        requires
            old(self).wf(),
            len <= old(self).buf_size,
        ensures
            final(self).wf(),
            final(self).same_rx_side(old(self)),
            r is NeedsTxSync <==> !old(self).any_tx_ready(),
            match r {
                TxStep::Done { buf_idx, flush } => flush == final(self).flush_owed() && exists|i: int|
                    #[trigger] old(self).first_tx_ready(i) && final(self).committed(i, len, old(self))
                        && buf_idx == old(self).tx_rings@[i].slots@[old(self).tx_rings@[i].cur as int].buf_idx,
                TxStep::NeedsTxSync => *final(self) == *old(self),
            },
    {
        match self.commit(len) {
            Some((buf_idx, flush)) => TxStep::Done { buf_idx, flush },
            None => TxStep::NeedsTxSync,
        }
    }

    /// The send after a transmit synchronization: commits as `send` does, or fails
    /// with `Exhausted` and changes nothing where every ring is still full.
    pub fn send_after_sync(&mut self, len: u16) -> (r: Result<(u32, bool), NetError>)
        requires
            old(self).wf(),
            len <= old(self).buf_size,
        ensures
            final(self).wf(),
            final(self).same_rx_side(old(self)),
            r is Ok <==> old(self).any_tx_ready(),
            match r {
                Ok((b, flush)) => flush == final(self).flush_owed() && exists|i: int|
                    #[trigger] old(self).first_tx_ready(i) && final(self).committed(i, len, old(self))
                        && b == old(self).tx_rings@[i].slots@[old(self).tx_rings@[i].cur as int].buf_idx,
                Err(e) => e == NetError::Exhausted && *final(self) == *old(self),
            },
    {
        match self.commit(len) {
            Some(p) => Ok(p),
            None => Err(NetError::Exhausted),
        }
    }

    /// Exchanges buffer indices between the slot retained by `from` and the first free
    /// transmit slot of this session, if any, and clears the retained slot.
    fn forward_into(&mut self, from: &mut NetmapDesc) -> (r: Option<bool>)
        requires
            old(self).wf(),
            old(from).wf(),
            old(from).buf_size == old(self).buf_size,
            old(from).zc_rx_slot is Some,
        ensures
            final(self).wf(),
            final(from).wf(),
            final(self).same_rx_side(old(self)),
            r is Some <==> old(self).any_tx_ready(),
            match r {
                Some(flush) => flush == final(self).flush_owed() && final(self).forwarded(final(from), old(self), old(from)),
                None => *final(self) == *old(self) && *final(from) == *old(from),
            },
    {
        let (r, s) = match from.zc_rx_slot {
            Some(p) => p,
            None => return None,
        };
        match self.find_tx() {
            Some(i) => {
                let bs = self.buf_size;
                let ghost cap = bs as nat;
                let ghost src_ring = from.rx_rings@[r as int];
                assert(self.tx_rings@[i as int].wf(cap));
                assert(src_ring.wf(cap));
                assert(src_ring.slots@[s as int].len <= cap);
                self.tx_rings[i].exchange(&mut from.rx_rings[r].slots[s], bs);
                from.zc_rx_slot = None;
                proof {
                    let nr = from.rx_rings@[r as int];
                    assert(nr.slots@ == src_ring.slots@.update(s as int, nr.slots@[s as int]));
                    assert(nr.head == src_ring.head && nr.cur == src_ring.cur && nr.tail == src_ring.tail);
                    assert forall|p: int| 0 <= p < nr.n() implies #[trigger] nr.slots@[p].len <= cap by {
                        if p != s {
                            assert(nr.slots@[p] == src_ring.slots@[p]);
                        }
                    }
                    assert(nr.wf(cap));
                    assert forall|p: int| 0 <= p < src_ring.n() && dist(src_ring.n(), src_ring.cur as int, p) < dist(src_ring.n(), src_ring.cur as int, src_ring.tail as int) implies src_ring.slots@[p] == nr.slots@[p] by {
                        assert(p != s);
                    }
                    lemma_window_frame(src_ring, nr, src_ring.cur as int, src_ring.tail as int);
                    assert forall|j: int| 0 <= j < from.rx_rings@.len() implies (#[trigger] from.rx_rings@[j]).wf(cap) && from.rx_rings@[j].n() == from.req.nr_rx_slots by {
                        if j != r {
                            assert(from.rx_rings@[j] == old(from).rx_rings@[j]);
                            assert(old(from).rx_rings@[j].wf(cap));
                        } else {
                            assert(from.rx_rings@[j] == nr);
                        }
                    }
                    assert forall|j: int| 0 <= j < old(from).rx_rings@.len() && j != r implies #[trigger] from.rx_rings@[j] == old(from).rx_rings@[j] by {}
                    assert forall|j: int| 0 <= j < self.tx_rings@.len() implies (#[trigger] self.tx_rings@[j]).wf(cap) && self.tx_rings@[j].n() == self.req.nr_tx_slots by {
                        if j != i {
                            assert(self.tx_rings@[j] == old(self).tx_rings@[j]);
                            assert(old(self).tx_rings@[j].wf(cap));
                        }
                    }
                    assert forall|j: int| 0 <= j < self.tx_rings@.len() && j != i implies #[trigger] self.tx_rings@[j] == old(self).tx_rings@[j] by {}
                    assert(old(self).first_tx_ready(i as int));
                    assert(from.wf());
                    assert(self.wf());
                }
                let flush = !self.uses_wait || self.send_ready().is_err();
                Some(flush)
            },
            None => None,
        }
    }

    /// Moves the frame that the last receive on `from` retained into the first free
    /// transmit slot of this session by exchanging buffer indices, and clears the
    /// retained slot. Fails with `Illegal`, touching nothing, when `from` retains no
    /// slot; where no transmit ring has a free slot nothing changes and a transmit
    /// synchronization is asked for first (then `zc_forward_after_sync`).
    pub fn zc_forward(&mut self, from: &mut NetmapDesc) -> (r: Result<TxStep, NetError>)
        requires
            old(self).wf(),
            old(from).wf(),
            old(from).buf_size == old(self).buf_size,
        ensures
            final(self).wf(),
            final(from).wf(),
            final(self).same_rx_side(old(self)),
            r is Err <==> old(from).zc_rx_slot is None,
            match r {
                Err(e) => e == NetError::Illegal && *final(self) == *old(self) && *final(from)
                    == *old(from),
                Ok(TxStep::NeedsTxSync) => !old(self).any_tx_ready() && *final(self) == *old(self)
                    && *final(from) == *old(from),
                Ok(TxStep::Done { buf_idx, flush }) => old(self).any_tx_ready() && flush
                    == final(self).flush_owed() && buf_idx == old(from).retained_slot().buf_idx
                    && final(self).forwarded(final(from), old(self), old(from)),
            },
    {
        let src = match from.retained() {
            Some(sl) => sl,
            None => return Err(NetError::Illegal),
        };
        match self.forward_into(from) {
            Some(flush) => Ok(TxStep::Done { buf_idx: src.buf_idx, flush }),
            None => Ok(TxStep::NeedsTxSync),
        }
    }

    /// The forward after a transmit synchronization: returns `forward_outcome`, with
    /// whether a transmit synchronization is owed on success; a failure changes nothing.
    pub fn zc_forward_after_sync(&mut self, from: &mut NetmapDesc) -> (r: Result<bool, NetError>)
        requires
            old(self).wf(),
            old(from).wf(),
            old(from).buf_size == old(self).buf_size,
        ensures
            final(self).wf(),
            final(from).wf(),
            final(self).same_rx_side(old(self)),
            r is Ok <==> old(self).forward_outcome(old(from)) is Ok,
            match r {
                Ok(flush) => flush == final(self).flush_owed() && final(self).forwarded(final(from), old(self), old(from)),
                Err(e) => Err::<(), NetError>(e) == old(self).forward_outcome(old(from))
                    && *final(self) == *old(self) && *final(from) == *old(from),
            },
    {
        if from.zc_rx_slot.is_none() {
            return Err(NetError::Illegal);
        }
        match self.forward_into(from) {
            Some(flush) => Ok(flush),
            None => Err(NetError::Exhausted),
        }
    }

    pub fn set_uses_wait(&mut self, uses_wait: bool)
        ensures
            *final(self) == (NetmapDesc { uses_wait, ..*old(self) }),
    {
        self.uses_wait = uses_wait;
    }

    pub fn get_uses_wait(&self) -> (r: bool)
        ensures
            r == self.uses_wait,
    {
        self.uses_wait
    }

    pub fn get_nmreq(&self) -> (r: NmReq)
        ensures
            r == self.req,
    {
        self.req
    }
}

} // verus!
