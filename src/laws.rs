use vstd::prelude::*;

use crate::nm::{NetError, NetmapDesc};
use crate::ring::{dist, wrap, Ring, Slot};

verus! {

/// One send on a session whose transmit range is a single ring, as `NetmapDesc::send`
/// states it: a frame of `len` bytes was committed in the first free slot.
pub open spec fn send_step(d0: NetmapDesc, d1: NetmapDesc, len: u16) -> bool {
    &&& d0.wf()
    &&& d0.first_tx_ring == d0.last_tx_ring
    &&& d1.first_tx_ring == d0.first_tx_ring
    &&& exists|i: int| #[trigger] d0.first_tx_ready(i) && d1.committed(i, len, &d0)
}

/// One successful receive on a session whose receive range is a single ring, as
/// `NetmapDesc::recv` states it.
pub open spec fn recv_step(d0: NetmapDesc, d1: NetmapDesc, frame: Slot) -> bool {
    &&& d0.wf()
    &&& d0.first_rx_ring == d0.last_rx_ring
    &&& exists|k: int|
        #[trigger] d0.first_rx_ready(k) && frame == d0.rx_rings@[d0.scan_pos(k)].received()[0]
            && d1.received_from(k, &d0)
}

/// The frames arrived on the single receive ring of a session, oldest first.
pub open spec fn rx_queue(d: NetmapDesc) -> Seq<Slot> {
    d.rx_rings@[d.first_rx_ring as int].received()
}

/// A send on a single-ring session records its frame in the slot at the ring's
/// `cur` and moves `cur` one slot on, so successive sends fill successive slots.
pub proof fn law_send_fills_next_slot(d0: NetmapDesc, d1: NetmapDesc, len: u16)
    requires
        send_step(d0, d1, len),
    ensures
        d1.tx_rings@[d0.first_tx_ring as int].filled_at(&d0.tx_rings@[d0.first_tx_ring as int], len),
{
    let i = choose|i: int| #[trigger] d0.first_tx_ready(i) && d1.committed(i, len, &d0);
    assert(i == d0.first_tx_ring);
}

/// A receive on a single-ring session hands out the oldest arrived frame and
/// removes it from the receive queue.
pub proof fn law_recv_takes_oldest(d0: NetmapDesc, d1: NetmapDesc, frame: Slot)
    requires
        recv_step(d0, d1, frame),
    ensures
        rx_queue(d0).len() > 0,
        frame == rx_queue(d0)[0],
        rx_queue(d1) == rx_queue(d0).drop_first(),
        d1.first_rx_ring == d0.first_rx_ring,
        d1.last_rx_ring == d0.last_rx_ring,
{
    let k = choose|k: int|
        #[trigger] d0.first_rx_ready(k) && frame == d0.rx_rings@[d0.scan_pos(k)].received()[0]
            && d1.received_from(k, &d0);
    assert(k == 0);
    assert(d0.scan_pos(0) == d0.first_rx_ring);
    assert(d0.rx_ready(0));
    let r = d0.rx_rings@[d0.first_rx_ring as int];
    assert(r.wf(d0.buf_size as nat));
    assert(r.cur != r.tail);
    assert(r.slots@.len() == r.slots.len());
    crate::ring::lemma_window_drop_first(r, r.cur as int, r.tail as int);
    let r1 = d1.rx_rings@[d0.first_rx_ring as int];
    assert(r1.slots@ == r.slots@);
    assert(r1.received() =~= r.window(r.next_spec(r.cur as int), r.tail as int));
}

/// First in, first out on the receive side: receives in sequence on a single-ring
/// session hand out the arrived frames in the order they stand in the ring, each
/// once, and the ring loses them from its front.
pub proof fn law_receives_in_order(states: Seq<NetmapDesc>, frames: Seq<Slot>)
    requires
        states.len() == frames.len() + 1,
        forall|i: int| 0 <= i < frames.len() ==> #[trigger] recv_step(states[i], states[i + 1], frames[i]),
    ensures
        frames.len() <= rx_queue(states[0]).len(),
        frames == rx_queue(states[0]).take(frames.len() as int),
        rx_queue(states.last()) == rx_queue(states[0]).skip(frames.len() as int),
    decreases frames.len(),
{
    if frames.len() == 0 {
        assert(rx_queue(states[0]).skip(0) =~= rx_queue(states[0]));
        assert(frames =~= rx_queue(states[0]).take(0));
    } else {
        let n = frames.len() - 1;
        let s = states.take(n + 1);
        let f = frames.take(n);
        assert forall|i: int| 0 <= i < f.len() implies #[trigger] recv_step(s[i], s[i + 1], f[i]) by {
            assert(recv_step(states[i], states[i + 1], frames[i]));
        }
        law_receives_in_order(s, f);
        assert(recv_step(states[n], states[n + 1], frames[n]));
        law_recv_takes_oldest(states[n], states[n + 1], frames[n]);
        let q = rx_queue(states[0]);
        assert(s[0] == states[0]);
        assert(s.last() == states[n]);
        assert(f == q.take(n));
        assert(rx_queue(states[n]) == q.skip(n));
        assert(n <= q.len());
        assert(q.skip(n).len() == q.len() - n);
        assert(n < q.len());
        assert(frames[n] == q.skip(n)[0]);
        assert(frames[n] == q[n]);
        assert forall|i: int| 0 <= i < n implies frames[i] == q[i] by {
            assert(f[i] == frames[i]);
        }
        assert(q.skip(n).len() > 0);
        assert(frames =~= q.take(n + 1));
        assert(rx_queue(states[n + 1]) =~= q.skip(n + 1));
    }
}

/// The single transmit ring of a session.
pub open spec fn tx_ring(d: NetmapDesc) -> Ring {
    d.tx_rings@[d.first_tx_ring as int]
}

/// What `m` sends of the lengths `lens` leave in the ring `r0`: the `k`-th send's
/// length in the `k`-th slot from `r0.cur`, each slot keeping its buffer and flags.
pub open spec fn sent_slots(r0: Ring, lens: Seq<u16>, m: int) -> Seq<Slot> {
    Seq::new(m as nat, |k: int| Slot { len: lens[k], ..r0.slots@[wrap(r0.n(), r0.cur + k)] })
}

/// Sends in sequence on a single-ring session fill its free slots in order, from
/// where `cur` stood: the slots from the old to the new `cur` hold the sent frames
/// in the order they were sent, and no other slot changed.
pub proof fn law_sends_in_order(states: Seq<NetmapDesc>, lens: Seq<u16>)
    requires
        states.len() == lens.len() + 1,
        states[0].wf(),
        forall|i: int| 0 <= i < lens.len() ==> #[trigger] send_step(states[i], states[i + 1], lens[i]),
    ensures
        lens.len() <= tx_ring(states[0]).space(),
        tx_ring(states.last()).n() == tx_ring(states[0]).n(),
        tx_ring(states.last()).tail == tx_ring(states[0]).tail,
        tx_ring(states.last()).cur == wrap(tx_ring(states[0]).n(), tx_ring(states[0]).cur + lens.len()),
        tx_ring(states.last()).window(tx_ring(states[0]).cur as int, tx_ring(states.last()).cur as int)
            == sent_slots(tx_ring(states[0]), lens, lens.len() as int),
        forall|p: int|
            0 <= p < tx_ring(states[0]).n() && dist(tx_ring(states[0]).n(), tx_ring(states[0]).cur as int, p) >= lens.len()
                ==> #[trigger] tx_ring(states.last()).slots@[p] == tx_ring(states[0]).slots@[p],
    decreases lens.len(),
{
    let r0 = tx_ring(states[0]);
    let n = r0.n();
    let c0 = r0.cur as int;
    assert(states[0].wf());
    if lens.len() == 0 {
        assert(states.last() == states[0]);
        assert(r0.wf(states[0].buf_size as nat) && r0.n() == states[0].req.nr_tx_slots);
        assert(r0.window(c0, c0) =~= sent_slots(r0, lens, 0));
    } else {
        let m = lens.len() - 1;
        let st = states.take(m + 1);
        let ls = lens.take(m);
        assert forall|i: int| 0 <= i < ls.len() implies #[trigger] send_step(st[i], st[i + 1], ls[i]) by {
            assert(send_step(states[i], states[i + 1], lens[i]));
        }
        law_sends_in_order(st, ls);
        assert(st[0] == states[0]);
        assert(st.last() == states[m]);
        assert(send_step(states[m], states[m + 1], lens[m]));
        law_send_fills_next_slot(states[m], states[m + 1], lens[m]);
        let rm = tx_ring(states[m]);
        let rn = tx_ring(states[m + 1]);
        assert(states[m + 1].first_tx_ring == states[m].first_tx_ring);
        let i = choose|i: int| #[trigger] states[m].first_tx_ready(i) && states[m + 1].committed(i, lens[m], &states[m]);
        assert(i == states[m].first_tx_ring);
        assert(states[m].tx_ready(i));
        assert(rm.cur != rm.tail);
        assert(states[m].wf());
        assert(rm.wf(states[m].buf_size as nat));
        let cm = rm.cur as int;
        assert(dist(n, c0, cm) == m);
        assert(m < r0.space());
        assert(rn.cur == wrap(n, c0 + m + 1));
        assert(sent_slots(r0, ls, m) =~= sent_slots(r0, lens, m + 1).take(m));
        assert forall|k: int| 0 <= k < m + 1 implies #[trigger] rn.window(c0, rn.cur as int)[k] == sent_slots(r0, lens, m + 1)[k] by {
            let p = wrap(n, c0 + k);
            if k < m {
                assert(p != cm);
                assert(rn.slots@[p] == rm.slots@[p]);
                assert(rm.window(c0, cm)[k] == sent_slots(r0, ls, m)[k]);
            } else {
                assert(p == cm);
                assert(rm.slots@[cm] == r0.slots@[cm]);
            }
        }
        assert(rn.window(c0, rn.cur as int) =~= sent_slots(r0, lens, m + 1));
        assert forall|p: int| 0 <= p < n && dist(n, c0, p) >= m + 1 implies #[trigger] rn.slots@[p] == r0.slots@[p] by {
            assert(p != cm);
            assert(rm.slots@[p] == r0.slots@[p]);
        }
    }
}

/// First in, first out: frames sent in sequence on a single-ring session, which the
/// kernel hands as they stand in the transmit ring to the single receive ring of a
/// peer session (a pipe), are received there in the order they were sent.
pub proof fn law_fifo(tx: Seq<NetmapDesc>, lens: Seq<u16>, rx: Seq<NetmapDesc>, got: Seq<Slot>)
    requires
        tx.len() == lens.len() + 1,
        tx[0].wf(),
        forall|i: int| 0 <= i < lens.len() ==> #[trigger] send_step(tx[i], tx[i + 1], lens[i]),
        rx_queue(rx[0]) == tx_ring(tx.last()).window(tx_ring(tx[0]).cur as int, tx_ring(tx.last()).cur as int),
        rx.len() == got.len() + 1,
        forall|i: int| 0 <= i < got.len() ==> #[trigger] recv_step(rx[i], rx[i + 1], got[i]),
    ensures
        got.len() <= lens.len(),
        got == sent_slots(tx_ring(tx[0]), lens, lens.len() as int).take(got.len() as int),
        forall|k: int| 0 <= k < got.len() ==> #[trigger] got[k].len == lens[k],
{
    law_sends_in_order(tx, lens);
    law_receives_in_order(rx, got);
}

/// A forward from a session that retains no received slot is refused as illegal.
pub proof fn law_forward_needs_receive(dst: NetmapDesc, from: NetmapDesc)
    requires
        from.zc_rx_slot is None,
    ensures
        dst.forward_outcome(&from) == Err::<(), NetError>(NetError::Illegal),
{
}

/// After a successful forward the source retains no slot, so a second forward
/// without a receive in between, into any session, is refused as illegal.
pub proof fn law_forward_once(
    dst0: NetmapDesc,
    from0: NetmapDesc,
    dst1: NetmapDesc,
    from1: NetmapDesc,
    dst2: NetmapDesc,
)
    requires
        dst0.forward_outcome(&from0) is Ok,
        dst1.forwarded(&from1, &dst0, &from0),
    ensures
        dst2.forward_outcome(&from1) == Err::<(), NetError>(NetError::Illegal),
{
}

} // verus!
