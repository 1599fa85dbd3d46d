use netmap_phy::{
    ifreq_for, ring_range, AttachError, NetError, Netmap, NetmapDesc, NmReq, Received, RecvStep,
    Ring, RingRange, Slot, TxStep,
};

fn req(flags: u32, ringid: u16, tx_rings: u16, rx_rings: u16, slots: u32) -> NmReq {
    NmReq {
        nr_version: 11,
        nr_offset: 0,
        nr_memsize: 0,
        nr_tx_slots: slots,
        nr_rx_slots: slots,
        nr_tx_rings: tx_rings,
        nr_rx_rings: rx_rings,
        nr_ringid: ringid,
        nr_cmd: 0,
        nr_arg1: 0,
        nr_arg2: 0,
        nr_arg3: 0,
        nr_flags: flags,
    }
}

/// A ring of `n` slots whose buffers are `base..base + n`.
fn ring(n: u32, base: u32, cur: usize, tail: usize) -> Ring {
    let slots = (0..n).map(|i| Slot { buf_idx: base + i, len: 0, flags: 0 }).collect();
    Ring { slots, head: cur, cur, tail }
}

/// Two transmit and two receive rings of four slots: transmit rings with three
/// free slots, receive rings empty.
fn rings(base: u32) -> (Vec<Ring>, Vec<Ring>) {
    (
        vec![ring(4, base, 0, 3), ring(4, base + 4, 0, 3)],
        vec![ring(4, base + 8, 0, 0), ring(4, base + 12, 0, 0)],
    )
}

fn pipe_at(uses_wait: bool, base: u32) -> NetmapDesc {
    let (tx, rx) = rings(base);
    NetmapDesc::new_from_shared_fd(3, req(5, 0, 1, 1, 4), "eth0", uses_wait, 64, tx, rx).unwrap()
}

fn pipe(uses_wait: bool) -> NetmapDesc {
    pipe_at(uses_wait, 0)
}

/// Kernel side: frames of the given lengths arrive on receive ring `r`.
fn arrive(d: &mut NetmapDesc, r: usize, lens: &[u16]) {
    for len in lens {
        let ring = &mut d.rx_rings[r];
        let t = ring.tail;
        ring.slots[t].len = *len;
        ring.tail = (t + 1) % ring.slots.len();
    }
}

/// Kernel side: `k` committed slots of transmit ring `r` are sent and handed back.
fn reclaim(d: &mut NetmapDesc, r: usize, k: usize) {
    let ring = &mut d.tx_rings[r];
    ring.tail = (ring.tail + k) % ring.slots.len();
}

fn frame(step: RecvStep) -> Slot {
    match step {
        RecvStep::Frame(f) => f,
        _ => panic!("no frame"),
    }
}

fn done(step: TxStep) -> (u32, bool) {
    match step {
        TxStep::Done { buf_idx, flush } => (buf_idx, flush),
        TxStep::NeedsTxSync => panic!("no free slot"),
    }
}

#[test]
fn ring_range_host_stack() {
    let r = ring_range(&req(2, 0, 4, 2, 8)).unwrap();
    assert_eq!(
        r,
        RingRange { first_tx_ring: 4, last_tx_ring: 4, first_rx_ring: 2, last_rx_ring: 2 }
    );
}

#[test]
fn ring_range_all_nic() {
    let r = ring_range(&req(1, 0, 4, 2, 8)).unwrap();
    assert_eq!(
        r,
        RingRange { first_tx_ring: 0, last_tx_ring: 3, first_rx_ring: 0, last_rx_ring: 1 }
    );
    assert_eq!(ring_range(&req(1, 0, 0, 2, 8)), None);
}

#[test]
fn ring_range_nic_and_host() {
    let r = ring_range(&req(3, 0, 4, 2, 8)).unwrap();
    assert_eq!(
        r,
        RingRange { first_tx_ring: 0, last_tx_ring: 4, first_rx_ring: 0, last_rx_ring: 2 }
    );
}

#[test]
fn ring_range_one_nic_masks_ring_id() {
    let r = ring_range(&req(4 | 0x100, 0x2003, 4, 4, 8)).unwrap();
    assert_eq!(
        r,
        RingRange { first_tx_ring: 3, last_tx_ring: 3, first_rx_ring: 3, last_rx_ring: 3 }
    );
}

#[test]
fn ring_range_pipe() {
    let r = ring_range(&req(6, 0, 1, 1, 8)).unwrap();
    assert_eq!(
        r,
        RingRange { first_tx_ring: 0, last_tx_ring: 0, first_rx_ring: 0, last_rx_ring: 0 }
    );
}

#[test]
fn ifreq_pads_name() {
    let r = ifreq_for("eth0");
    assert_eq!(r.ifr_name, vec![b'e', b't', b'h', b'0', 0, 0, 0, 0, 0, 0, 0, 0, 0, 0, 0, 0]);
    assert_eq!(r.ifr_data, 0);
}


#[test]
fn attach_errors() {
    let (tx, rx) = rings(0);
    let e = NetmapDesc::new_from_shared_fd(3, req(1, 0, 0, 1, 4), "eth0", false, 64, tx, rx);
    assert!(matches!(e, Err(AttachError::InvalidRequest)));
    let (tx, rx) = rings(0);
    let e = NetmapDesc::new_from_shared_fd(3, req(5, 0, 1, 1, 0), "eth0", false, 64, tx, rx);
    assert!(matches!(e, Err(AttachError::InvalidRequest)));
    let (tx, rx) = rings(0);
    let e = NetmapDesc::new_from_shared_fd(3, req(4, 7, 4, 4, 4), "eth0", false, 64, tx, rx);
    assert!(matches!(e, Err(AttachError::InvalidRequest)));
    let (tx, rx) = rings(0);
    let e = NetmapDesc::new_from_shared_fd(3, req(5, 0, 1, 1, 4), "a-very-long-interface", false, 64, tx, rx);
    assert!(matches!(e, Err(AttachError::NameTooLong)));
}

#[test]
fn attach_checks_ring_state() {
    // one receive ring too few
    let (tx, _) = rings(0);
    let e = NetmapDesc::new_from_shared_fd(3, req(5, 0, 1, 1, 4), "eth0", false, 64, tx, vec![ring(4, 8, 0, 0)]);
    assert!(matches!(e, Err(AttachError::InvalidState)));
    // a slot length over the buffer size
    let (mut tx, rx) = rings(0);
    tx[1].slots[2].len = 65;
    let e = NetmapDesc::new_from_shared_fd(3, req(5, 0, 1, 1, 4), "eth0", false, 64, tx, rx);
    assert!(matches!(e, Err(AttachError::InvalidState)));
    // head apart from cur
    let (tx, mut rx) = rings(0);
    rx[0].head = 1;
    let e = NetmapDesc::new_from_shared_fd(3, req(5, 0, 1, 1, 4), "eth0", false, 64, tx, rx);
    assert!(matches!(e, Err(AttachError::InvalidState)));
    // rings of another slot count than the record gives
    let (tx, rx) = rings(0);
    let e = NetmapDesc::new_from_shared_fd(3, req(5, 0, 1, 1, 8), "eth0", false, 64, tx, rx);
    assert!(matches!(e, Err(AttachError::InvalidState)));
}

#[test]
fn attach_takes_the_state_handed_over() {
    let (tx, mut rx) = rings(0);
    rx[0].tail = 2;
    rx[0].slots[0].len = 10;
    rx[0].slots[1].len = 20;
    let mut d = NetmapDesc::new_from_shared_fd(9, req(5, 0, 1, 1, 4), "eth1", true, 64, tx, rx).unwrap();
    assert_eq!(d.fd, 9);
    assert_eq!(d.tx_rings.len(), 2);
    assert_eq!(d.first_tx_ring, 0);
    assert_eq!(d.last_tx_ring, 0);
    assert!(d.zc_rx_slot.is_none());
    assert!(d.get_uses_wait());
    assert_eq!(d.get_nmreq(), req(5, 0, 1, 1, 4));
    assert_eq!(frame(d.recv()), Slot { buf_idx: 8, len: 10, flags: 0 });
    assert_eq!(frame(d.recv()), Slot { buf_idx: 9, len: 20, flags: 0 });
    assert!(matches!(d.recv(), RecvStep::WouldBlock));
}

#[test]
fn ring_check_and_wrap() {
    let r = ring(4, 0, 3, 1);
    assert!(r.check(64));
    assert_eq!(r.next(2), 3);
    assert_eq!(r.next(3), 0);
    assert!(!r.is_empty());
    assert!(ring(4, 0, 2, 2).is_empty());
    assert!(!ring(4, 0, 4, 1).check(64));
    assert!(!ring(0, 0, 0, 0).check(64));
}

#[test]
fn receives_come_out_in_arrival_order() {
    let mut d = pipe(false);
    arrive(&mut d, 0, &[3, 1, 2]);
    assert_eq!(frame(d.recv()), Slot { buf_idx: 8, len: 3, flags: 0 });
    assert_eq!(frame(d.recv()), Slot { buf_idx: 9, len: 1, flags: 0 });
    assert_eq!(frame(d.recv()), Slot { buf_idx: 10, len: 2, flags: 0 });
    assert!(matches!(d.recv(), RecvStep::NeedsRxSync));
    assert_eq!(d.recv_after_sync(), Err(NetError::WouldBlock));
}

#[test]
fn sends_fill_successive_slots() {
    let mut d = pipe(true);
    assert_eq!(done(d.send(3)), (0, false));
    assert_eq!(done(d.send(1)), (1, false));
    assert_eq!(done(d.send(2)), (2, true));
    let lens: Vec<u16> = d.tx_rings[0].slots.iter().map(|s| s.len).collect();
    assert_eq!(lens, vec![3, 1, 2, 0]);
    assert_eq!(d.tx_rings[0].cur, 3);
    assert_eq!(d.tx_rings[0].head, 3);
    assert_eq!(d.tx_rings[1].cur, 0);
}

#[test]
fn send_asks_for_sync_when_full() {
    let mut d = pipe(true);
    for _ in 0..3 {
        done(d.send(1));
    }
    assert_eq!(d.send_ready(), Err(NetError::WouldBlock));
    assert!(matches!(d.send(5), TxStep::NeedsTxSync));
    assert_eq!(d.tx_rings[0].cur, 3);
    assert_eq!(d.send_after_sync(5), Err(NetError::Exhausted));
    // the synchronization handed two slots back
    reclaim(&mut d, 0, 2);
    assert_eq!(d.send_after_sync(5), Ok((3, false)));
    assert_eq!(d.tx_rings[0].slots[3].len, 5);
}

#[test]
fn commit_asks_for_flush_unless_waiting_with_space() {
    let mut p = pipe(false);
    assert_eq!(done(p.send(1)), (0, true));
    let mut w = pipe(true);
    assert_eq!(done(w.send(1)), (0, false));
}

#[test]
fn send_of_full_buffer_size() {
    let mut d = pipe(false);
    done(d.send(64));
    assert_eq!(d.tx_rings[0].slots[0].len, 64);
}

#[test]
fn forward_without_receive_is_illegal() {
    let mut a = pipe(false);
    let mut b = pipe_at(false, 100);
    arrive(&mut b, 0, &[2]);
    assert!(matches!(a.zc_forward(&mut b), Err(NetError::Illegal)));
    assert_eq!((a.tx_rings[0].cur, a.tx_rings[0].slots[0]), (0, Slot { buf_idx: 0, len: 0, flags: 0 }));
    assert_eq!((b.rx_rings[0].cur, b.rx_rings[0].tail), (0, 1));
    let mut c = pipe(true);
    assert!(matches!(c.recv(), RecvStep::WouldBlock));
    assert!(matches!(a.zc_forward(&mut c), Err(NetError::Illegal)));
    for _ in 0..3 {
        done(a.send(1));
    }
    assert!(matches!(a.zc_forward(&mut b), Err(NetError::Illegal)));
    assert_eq!(a.zc_forward_after_sync(&mut b), Err(NetError::Illegal));
}

#[test]
fn second_forward_is_illegal() {
    let mut src = pipe_at(false, 100);
    let mut dst = pipe(false);
    arrive(&mut src, 0, &[2, 2]);
    frame(src.recv());
    assert!(matches!(dst.zc_forward(&mut src), Ok(TxStep::Done { .. })));
    assert!(src.zc_rx_slot.is_none());
    assert!(matches!(dst.zc_forward(&mut src), Err(NetError::Illegal)));
    frame(src.recv());
    assert!(matches!(dst.zc_forward(&mut src), Ok(TxStep::Done { .. })));
}

#[test]
fn forward_exchanges_buffer_indices() {
    let mut src = pipe_at(false, 100);
    let mut dst = pipe(false);
    arrive(&mut src, 0, &[3]);
    assert_eq!(frame(src.recv()), Slot { buf_idx: 108, len: 3, flags: 0 });
    assert_eq!(src.retained(), Some(Slot { buf_idx: 108, len: 3, flags: 0 }));
    assert_eq!(dst.zc_forward(&mut src), Ok(TxStep::Done { buf_idx: 108, flush: true }));
    assert_eq!(dst.tx_rings[0].slots[0], Slot { buf_idx: 108, len: 3, flags: 1 });
    assert_eq!(src.rx_rings[0].slots[0], Slot { buf_idx: 0, len: 3, flags: 1 });
    assert_eq!(dst.tx_rings[0].cur, 1);
    assert_eq!(src.retained(), None);
}

#[test]
fn forward_into_full_ring_asks_for_sync() {
    let mut src = pipe_at(false, 100);
    let mut dst = pipe(false);
    for _ in 0..3 {
        done(dst.send(1));
    }
    arrive(&mut src, 0, &[1]);
    frame(src.recv());
    assert!(matches!(dst.zc_forward(&mut src), Ok(TxStep::NeedsTxSync)));
    assert!(src.zc_rx_slot.is_some());
    assert_eq!(dst.zc_forward_after_sync(&mut src), Err(NetError::Exhausted));
    assert!(src.zc_rx_slot.is_some());
    reclaim(&mut dst, 0, 3);
    assert_eq!(dst.zc_forward_after_sync(&mut src), Ok(true));
    assert!(src.zc_rx_slot.is_none());
    assert_eq!(dst.tx_rings[0].slots[3].buf_idx, 108);
}

#[test]
fn receive_miss_syncs_only_in_poll_mode() {
    let mut w = pipe(true);
    assert!(matches!(w.recv(), RecvStep::WouldBlock));
    let mut p = pipe(false);
    assert!(matches!(p.recv(), RecvStep::NeedsRxSync));
    assert_eq!(p.recv_after_sync(), Err(NetError::WouldBlock));
    p.set_uses_wait(true);
    assert!(matches!(p.recv(), RecvStep::WouldBlock));
}

#[test]
fn receive_after_sync_sees_frames_the_sync_brought() {
    let mut p = pipe(false);
    assert!(matches!(p.recv(), RecvStep::NeedsRxSync));
    let (tx, mut rx) = rings(0);
    rx[0].slots[0].len = 7;
    rx[0].tail = 1;
    assert!(p.set_rings(tx, rx));
    assert_eq!(p.recv_after_sync(), Ok(Slot { buf_idx: 8, len: 7, flags: 0 }));
}

#[test]
fn set_rings_refuses_invalid_state() {
    let mut p = pipe(false);
    arrive(&mut p, 0, &[1]);
    frame(p.recv());
    // the retained slot must stay just before cur
    let (tx, rx) = rings(0);
    assert!(!p.set_rings(tx, rx));
    assert_eq!(p.rx_rings[0].cur, 1);
    let (tx, mut rx) = rings(0);
    rx[0].head = 1;
    rx[0].cur = 1;
    rx[0].tail = 1;
    assert!(p.set_rings(tx, rx));
    let (tx, _) = rings(0);
    assert!(!p.set_rings(tx, vec![]));
}

#[test]
fn receive_scans_rings_from_current() {
    let tx: Vec<Ring> = (0..4).map(|i| ring(4, 4 * i, 0, 3)).collect();
    let rx: Vec<Ring> = (0..4).map(|i| ring(4, 100 + 4 * i, 0, 0)).collect();
    let mut d = NetmapDesc::new_from_shared_fd(3, req(1, 0, 3, 3, 4), "eth0", true, 32, tx, rx).unwrap();
    arrive(&mut d, 2, &[2]);
    arrive(&mut d, 1, &[1]);
    assert_eq!(frame(d.recv()).buf_idx, 104);
    assert_eq!(d.cur_rx_ring, 1);
    arrive(&mut d, 0, &[5]);
    assert_eq!(frame(d.recv()).buf_idx, 108);
    assert_eq!(d.cur_rx_ring, 2);
    assert_eq!(frame(d.recv()).buf_idx, 100);
    assert_eq!(d.zc_rx_slot, Some((0, 0)));
}

fn device_at(uses_wait: bool, reduce: Option<usize>, base: u32) -> Netmap {
    let (tx, rx) = rings(base);
    Netmap::new_from_shared_fd(3, req(5, 0, 1, 1, 4), "eth0", uses_wait, reduce, 64, 1500, tx, rx).unwrap()
}

fn device(uses_wait: bool, reduce: Option<usize>) -> Netmap {
    device_at(uses_wait, reduce, 0)
}

#[test]
fn capability_is_mtu_plus_header_less_reduction() {
    let d = device(false, None);
    assert_eq!(d.capabilities(), 1514);
    assert_eq!(d.capabilities(), 1514);
    let d = device(false, Some(0));
    assert_eq!(d.capabilities(), 1514);
    let d = device(false, Some(100));
    assert_eq!(d.capabilities(), 1414);
    assert_eq!(d.capabilities(), 1414);
}

#[test]
fn device_receive_and_transmit_tokens() {
    let mut d = device(false, None);
    assert!(matches!(d.receive(), Received::NeedsRxSync));
    assert!(d.receive_after_sync().is_none());
    arrive(&mut d.lower, 0, &[3]);
    let (rx, tx) = match d.receive() {
        Received::Tokens(rx, tx) => (rx, tx),
        _ => panic!("no frame"),
    };
    assert_eq!(tx.fd, 3);
    assert!(!tx.flush_first);
    assert_eq!(rx.consume(), Slot { buf_idx: 8, len: 3, flags: 0 });
    assert_eq!(tx.consume(&mut d, 2), TxStep::Done { buf_idx: 0, flush: true });
    assert_eq!(d.lower.tx_rings[0].slots[0].len, 2);
    let mut w = device(true, None);
    assert!(matches!(w.receive(), Received::Nothing));
}

#[test]
fn device_transmit_token_asks_for_flush_when_full() {
    let mut d = device(true, None);
    for _ in 0..3 {
        let tx = d.transmit().unwrap();
        assert!(!tx.flush_first);
        done(tx.consume(&mut d, 1));
    }
    let tx = d.transmit().unwrap();
    assert!(tx.flush_first);
    assert_eq!(tx.consume(&mut d, 9), TxStep::NeedsTxSync);
    assert_eq!(d.send_after_sync(9), Err(NetError::Exhausted));
}

#[test]
fn device_mode_and_request() {
    let mut d = device(false, None);
    assert!(!d.get_uses_wait());
    d.set_uses_wait(true);
    assert!(d.get_uses_wait());
    assert_eq!(d.get_nmreq().nr_flags, 5);
}

#[test]
fn end_to_end_zero_copy_forward() {
    // the mapped buffers, shared by the sessions of one memory region
    let mut pool: Vec<Vec<u8>> = vec![vec![0u8; 64]; 32];
    let mut a = device_at(false, None, 0);
    let mut b = device_at(false, None, 16);
    // a pipe partner of A sent the frame: it arrives in A's receive ring
    pool[8][..3].copy_from_slice(&[0xAA, 0xBB, 0xCC]);
    arrive(&mut a.lower, 0, &[3]);
    let (rx, _tx) = match a.receive() {
        Received::Tokens(rx, tx) => (rx, tx),
        _ => panic!("no frame"),
    };
    let got = rx.consume();
    assert_eq!(pool[got.buf_idx as usize][..got.len as usize], [0xAA, 0xBB, 0xCC]);
    assert_eq!(b.zc_forward(&mut a), Ok(TxStep::Done { buf_idx: 8, flush: true }));
    // B's partner receives what B's transmit ring now holds
    let sent = b.lower.tx_rings[0].slots[0];
    let mut b_peer = device_at(false, None, 24);
    b_peer.lower.rx_rings[0].slots[0] = Slot { buf_idx: sent.buf_idx, len: sent.len, flags: 0 };
    b_peer.lower.rx_rings[0].tail = 1;
    let (rx, _tx) = match b_peer.receive() {
        Received::Tokens(rx, tx) => (rx, tx),
        _ => panic!("no frame"),
    };
    let got = rx.consume();
    assert_eq!(pool[got.buf_idx as usize][..got.len as usize], [0xAA, 0xBB, 0xCC]);
    assert!(matches!(b.zc_forward(&mut a), Err(NetError::Illegal)));
    pool[0][0] = 1;
}
