use vstd::prelude::*;
use vstd::string::StringSliceAdditionalSpecFns;

use crate::caps::{
    frame_mtu, max_frame, max_frame_spec, reduction_fits, SMOLTCP_ETHERNET_HEADER,
};
use crate::nm::{attach_error, AttachError, NetError, NetmapDesc, RecvStep, TxStep};
use crate::ifreq::padded_name;
use crate::request::{ring_range_spec, NmReq};
use crate::ring::{Ring, Slot};

verus! {

/// A network device over a ring session: it offers a receive token and a transmit
/// token together whenever a frame has arrived.
pub struct Netmap {
    pub lower: NetmapDesc,
    /// MTU of the parent interface with the header reservation, taken at attach time.
    pub mtu: usize,
    pub reduce_mtu_by: Option<usize>,
}

/// Refers to a received frame, in place in ring memory, until it is consumed.
pub struct RxToken {
    pub slot: Slot,
}

/// Permission to commit one frame to the device that handed it out.
pub struct TxToken {
    /// Descriptor of the session that handed the token out.
    pub fd: i32,
    /// Length that a frame committed through this token must not exceed.
    pub max_len: u16,
    /// No transmit ring had a free slot when the token was handed out: a transmit
    /// synchronization should be issued before it is used.
    pub flush_first: bool,
}

/// What a receive on the device hands back.
pub enum Received {
    /// A frame arrived: a token holding it, and a transmit token.
    Tokens(RxToken, TxToken),
    /// Nothing arrived; issue a receive synchronization and call `receive_after_sync`.
    NeedsRxSync,
    /// Nothing arrived.
    Nothing,
}

impl Netmap {
    pub open spec fn wf(&self) -> bool {
        &&& self.lower.wf()
        &&& reduction_fits(self.mtu, self.reduce_mtu_by)
    }

    /// Attaches to a ring session opened elsewhere (see `NetmapDesc::new_from_shared_fd`);
    /// `parent_mtu` is the MTU of the interface named `parent`.
    pub fn new_from_shared_fd(
        fd: i32,
        req: NmReq,
        parent: &str,
        uses_wait: bool,
        reduce_mtu_by: Option<usize>,
        buf_size: u16,
        parent_mtu: u16,
        tx_rings: Vec<Ring>,
        rx_rings: Vec<Ring>,
    ) -> (r: Result<Netmap, AttachError>)
        requires
            reduction_fits((parent_mtu + SMOLTCP_ETHERNET_HEADER) as usize, reduce_mtu_by),
        ensures
            r is Ok <==> attach_error(req, parent.spec_bytes()) is None && NetmapDesc::state_ok(req, buf_size, tx_rings@, rx_rings@),
            match r {
                Ok(d) => {
                    &&& d.wf()
                    &&& d.mtu == parent_mtu + SMOLTCP_ETHERNET_HEADER
                    &&& d.reduce_mtu_by == reduce_mtu_by
                    &&& d.lower.fd == fd && d.lower.req == req
                    &&& d.lower.uses_wait == uses_wait && d.lower.buf_size == buf_size
                    &&& d.lower.first_tx_ring == ring_range_spec(req)->0.first_tx_ring
                    &&& d.lower.last_tx_ring == ring_range_spec(req)->0.last_tx_ring
                    &&& d.lower.first_rx_ring == ring_range_spec(req)->0.first_rx_ring
                    &&& d.lower.last_rx_ring == ring_range_spec(req)->0.last_rx_ring
                    &&& d.lower.cur_rx_ring == d.lower.first_rx_ring
                    &&& d.lower.tx_rings@ == tx_rings@ && d.lower.rx_rings@ == rx_rings@
                    &&& d.lower.zc_rx_slot is None
                    &&& d.lower.ifreq.ifr_name@ == padded_name(parent.spec_bytes())
                },
                Err(e) => e == (if attach_error(req, parent.spec_bytes()) is Some {
                    attach_error(req, parent.spec_bytes())->0
                } else {
                    AttachError::InvalidState
                }),
            },
    {
        match NetmapDesc::new_from_shared_fd(fd, req, parent, uses_wait, buf_size, tx_rings, rx_rings) {
            Ok(lower) => Ok(Netmap { lower, mtu: frame_mtu(parent_mtu), reduce_mtu_by }),
            Err(e) => Err(e),
        }
    }

    /// Largest frame the device offers: parent MTU plus header reservation, less the
    /// configured reduction. Taken at attach time; a later change of the parent MTU
    /// is not seen.
    pub fn capabilities(&self) -> (r: usize)
        requires
            self.wf(),
        ensures
            r == max_frame_spec(self.mtu, self.reduce_mtu_by),
    {
        max_frame(self.mtu, self.reduce_mtu_by)
    }

    /// A transmit token of this device.
    pub open spec fn token_of(&self) -> TxToken {
        TxToken { fd: self.lower.fd, max_len: self.lower.buf_size, flush_first: !self.lower.any_tx_ready() }
    }

    /// Takes the next arrived frame and offers it with a transmit token (offered
    /// without checking for a free slot). On a miss a poll-based device asks for one
    /// receive synchronization, a wait-based one for none.
    pub fn receive(&mut self) -> (r: Received)
        requires
            old(self).wf(),
        ensures
            final(self).wf(),
            final(self).mtu == old(self).mtu,
            final(self).reduce_mtu_by == old(self).reduce_mtu_by,
            r is Tokens <==> old(self).lower.any_rx_ready(),
            match r {
                Received::Tokens(rx, tx) => {
                    &&& tx == final(self).token_of()
                    &&& exists|k: int|
                        #[trigger] old(self).lower.first_rx_ready(k) && rx.slot == old(
                            self,
                        ).lower.rx_rings@[old(self).lower.scan_pos(k)].received()[0]
                            && final(self).lower.received_from(k, &old(self).lower)
                },
                Received::NeedsRxSync => !old(self).lower.uses_wait && *final(self) == *old(self),
                Received::Nothing => old(self).lower.uses_wait && *final(self) == *old(self),
            },
    {
        match self.lower.recv() {
            RecvStep::Frame(buf) => {
                let tx = self.token();
                Received::Tokens(RxToken { slot: buf }, tx)
            },
            RecvStep::NeedsRxSync => Received::NeedsRxSync,
            RecvStep::WouldBlock => Received::Nothing,
        }
    }

    /// The receive after a receive synchronization: the next arrived frame with a
    /// transmit token, or `None`.
    pub fn receive_after_sync(&mut self) -> (r: Option<(RxToken, TxToken)>)
        requires
            old(self).wf(),
        ensures
            final(self).wf(),
            final(self).mtu == old(self).mtu,
            final(self).reduce_mtu_by == old(self).reduce_mtu_by,
            r is Some <==> old(self).lower.any_rx_ready(),
            match r {
                Some((rx, tx)) => {
                    &&& tx == final(self).token_of()
                    &&& exists|k: int|
                        #[trigger] old(self).lower.first_rx_ready(k) && rx.slot == old(
                            self,
                        ).lower.rx_rings@[old(self).lower.scan_pos(k)].received()[0]
                            && final(self).lower.received_from(k, &old(self).lower)
                },
                None => *final(self) == *old(self),
            },
    {
        match self.lower.recv_after_sync() {
            Ok(buf) => {
                let tx = self.token();
                Some((RxToken { slot: buf }, tx))
            },
            Err(_) => None,
        }
    }

    fn token(&self) -> (r: TxToken)
        requires
            self.wf(),
        ensures
            r == self.token_of(),
    {
        let ready = self.lower.send_ready();
        TxToken { fd: self.lower.fd, max_len: self.lower.buf_size, flush_first: ready.is_err() }
    }

    /// Offers a transmit token, also where no transmit ring has a free slot; the
    /// token then asks for a transmit synchronization first.
    pub fn transmit(&mut self) -> (r: Option<TxToken>)
        requires
            old(self).wf(),
        ensures
            *final(self) == *old(self),
            r == Some(old(self).token_of()),
    {
        Some(self.token())
    }

    /// Chooses wait-based (`true`) or poll-based synchronization for later receives.
    pub fn set_uses_wait(&mut self, uses_wait: bool)
        requires
            old(self).wf(),
        ensures
            final(self).wf(),
            *final(self) == (Netmap {
                lower: NetmapDesc { uses_wait, ..old(self).lower },
                ..*old(self)
            }),
    {
        self.lower.set_uses_wait(uses_wait);
    }

    pub fn get_uses_wait(&self) -> (r: bool)
        ensures
            r == self.lower.uses_wait,
    {
        self.lower.get_uses_wait()
    }

    /// The registration record of the session.
    pub fn get_nmreq(&self) -> (r: NmReq)
        ensures
            r == self.lower.req,
    {
        self.lower.get_nmreq()
    }

    /// Commits a frame of `len` bytes after a transmit synchronization (see
    /// `NetmapDesc::send_after_sync`).
    pub fn send_after_sync(&mut self, len: u16) -> (r: Result<(u32, bool), NetError>)
        requires
            old(self).wf(),
            len <= old(self).lower.buf_size,
        ensures
            final(self).wf(),
            final(self).mtu == old(self).mtu,
            final(self).reduce_mtu_by == old(self).reduce_mtu_by,
            final(self).lower.same_rx_side(&old(self).lower),
            r is Ok <==> old(self).lower.any_tx_ready(),
            match r {
                Ok((b, flush)) => flush == final(self).lower.flush_owed() && exists|i: int|
                    #[trigger] old(self).lower.first_tx_ready(i) && final(self).lower.committed(i, len, &old(self).lower)
                        && b == old(self).lower.tx_rings@[i].slots@[old(self).lower.tx_rings@[i].cur as int].buf_idx,
                Err(e) => e == NetError::Exhausted && *final(self) == *old(self),
            },
    {
        self.lower.send_after_sync(len)
    }

    /// Replaces the ring state after a kernel synchronization (see `NetmapDesc::set_rings`).
    pub fn set_rings(&mut self, tx_rings: Vec<Ring>, rx_rings: Vec<Ring>) -> (r: bool)
        requires
            old(self).wf(),
        ensures
            final(self).wf(),
            r == (NetmapDesc::state_ok(old(self).lower.req, old(self).lower.buf_size, tx_rings@, rx_rings@)
                && NetmapDesc::retained_ok(old(self).lower.zc_rx_slot, rx_rings@, old(self).lower.first_rx_ring as int, old(self).lower.last_rx_ring as int)),
            r ==> *final(self) == (Netmap { lower: NetmapDesc { tx_rings, rx_rings, ..old(self).lower }, ..*old(self) }),
            !r ==> *final(self) == *old(self),
    {
        self.lower.set_rings(tx_rings, rx_rings)
    }

    /// Moves the frame last received on `from` into this device's transmit ring
    /// without copying it (see `NetmapDesc::zc_forward`).
    pub fn zc_forward(&mut self, from: &mut Netmap) -> (r: Result<TxStep, NetError>)
        requires
            old(self).wf(),
            old(from).wf(),
            old(from).lower.buf_size == old(self).lower.buf_size,
        ensures
            final(self).wf(),
            final(from).wf(),
            final(self).mtu == old(self).mtu,
            final(self).reduce_mtu_by == old(self).reduce_mtu_by,
            final(from).mtu == old(from).mtu,
            final(from).reduce_mtu_by == old(from).reduce_mtu_by,
            r is Err <==> old(from).lower.zc_rx_slot is None,
            match r {
                Err(e) => e == NetError::Illegal && *final(self) == *old(self) && *final(from)
                    == *old(from),
                Ok(TxStep::NeedsTxSync) => !old(self).lower.any_tx_ready() && *final(self)
                    == *old(self) && *final(from) == *old(from),
                Ok(TxStep::Done { buf_idx, flush }) => old(self).lower.any_tx_ready() && flush == final(self).lower.flush_owed()
                    && buf_idx == old(from).lower.retained_slot().buf_idx && final(self).lower.forwarded(&final(from).lower, &old(self).lower, &old(from).lower),
            },
    {
        self.lower.zc_forward(&mut from.lower)
    }

    /// The forward after a transmit synchronization (see `NetmapDesc::zc_forward_after_sync`).
    pub fn zc_forward_after_sync(&mut self, from: &mut Netmap) -> (r: Result<bool, NetError>)
        requires
            old(self).wf(),
            old(from).wf(),
            old(from).lower.buf_size == old(self).lower.buf_size,
        ensures
            final(self).wf(),
            final(from).wf(),
            final(self).mtu == old(self).mtu,
            final(self).reduce_mtu_by == old(self).reduce_mtu_by,
            final(from).mtu == old(from).mtu,
            final(from).reduce_mtu_by == old(from).reduce_mtu_by,
            r is Ok <==> old(self).lower.forward_outcome(&old(from).lower) is Ok,
            match r {
                Ok(flush) => flush == final(self).lower.flush_owed() && final(self).lower.forwarded(&final(from).lower, &old(self).lower, &old(from).lower),
                Err(e) => Err::<(), NetError>(e) == old(self).lower.forward_outcome(&old(from).lower)
                    && *final(self) == *old(self) && *final(from) == *old(from),
            },
    {
        self.lower.zc_forward_after_sync(&mut from.lower)
    }
}

impl RxToken {
    /// The slot of the received frame: its bytes are the first `len` bytes of
    /// buffer `buf_idx`.
    pub fn consume(self) -> (r: Slot)
        ensures
            r == self.slot,
    {
        self.slot
    }
}

impl TxToken {
    /// Records a frame of `len` bytes on `device`, the device that handed the token
    /// out (see `NetmapDesc::send`); the caller writes the bytes into the returned buffer.
    pub fn consume(self, device: &mut Netmap, len: u16) -> (r: TxStep)
        requires
            old(device).wf(),
            self.fd == old(device).lower.fd,
            self.max_len == old(device).lower.buf_size,
            len <= self.max_len,
        ensures
            final(device).wf(),
            final(device).mtu == old(device).mtu,
            final(device).reduce_mtu_by == old(device).reduce_mtu_by,
            final(device).lower.same_rx_side(&old(device).lower),
            r is NeedsTxSync <==> !old(device).lower.any_tx_ready(),
            match r {
                TxStep::Done { buf_idx, flush } => flush == final(device).lower.flush_owed() && exists|i: int|
                    #[trigger] old(device).lower.first_tx_ready(i) && final(device).lower.committed(i, len, &old(device).lower)
                        && buf_idx == old(device).lower.tx_rings@[i].slots@[old(device).lower.tx_rings@[i].cur as int].buf_idx,
                TxStep::NeedsTxSync => *final(device) == *old(device),
            },
    {
        device.lower.send(len)
    }
}

} // verus!
