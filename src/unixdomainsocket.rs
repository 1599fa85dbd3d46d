use vstd::prelude::*;

use crate::caps::{frame_mtu, max_frame, max_frame_spec, reduction_fits, SMOLTCP_ETHERNET_HEADER};
use crate::nm::NetError;

verus! {

/// A device that exchanges whole frames over a datagram socket.
pub struct UnixDomainSocket {
    /// Descriptor that frames are read from and written to.
    pub fd: i32,
    /// MTU of the interface with the header reservation, taken at attach time.
    pub mtu: usize,
    pub reduce_mtu_by: Option<usize>,
}

/// Holds a received frame until it is consumed.
pub struct RxToken {
    pub buffer: Vec<u8>,
}

/// Permission to write one frame to the descriptor `fd`.
pub struct TxToken {
    pub fd: i32,
}

/// How a write of a frame to the descriptor ended.
#[derive(Clone, Copy, Debug, PartialEq, Eq, Structural)]
pub enum SendStatus {
    Sent(usize),
    WouldBlock,
    Failed,
}

impl UnixDomainSocket {
    pub open spec fn wf(&self) -> bool {
        reduction_fits(self.mtu, self.reduce_mtu_by)
    }

    /// The device over the descriptor `fd`, whose interface has MTU `parent_mtu`.
    pub fn from_fd(fd: i32, parent_mtu: u16, reduce_mtu_by: Option<usize>) -> (r: UnixDomainSocket)
        requires
            reduction_fits((parent_mtu + SMOLTCP_ETHERNET_HEADER) as usize, reduce_mtu_by),
        ensures
            r.wf(),
            r.fd == fd,
            r.mtu == parent_mtu + SMOLTCP_ETHERNET_HEADER,
            r.reduce_mtu_by == reduce_mtu_by,
    {
        UnixDomainSocket { fd, mtu: frame_mtu(parent_mtu), reduce_mtu_by }
    }

    /// Largest frame the device offers: MTU plus header reservation, less the reduction.
    pub fn capabilities(&self) -> (r: usize)
        requires
            self.wf(),
        ensures
            r == max_frame_spec(self.mtu, self.reduce_mtu_by),
    {
        max_frame(self.mtu, self.reduce_mtu_by)
    }

    /// Size of the buffer that one read of a frame needs.
    pub fn recv_buffer_len(&self) -> (r: usize)
        ensures
            r == self.mtu,
    {
        self.mtu
    }

    /// Offers the frame that a read into `buffer` produced, with a transmit token:
    /// `read` is the number of bytes read, or `None` when nothing was ready.
    pub fn receive(&mut self, buffer: Vec<u8>, read: Option<usize>) -> (r: Option<(RxToken, TxToken)>)
        requires
            match read {
                Some(n) => n <= buffer@.len(),
                None => true,
            },
        ensures
            *final(self) == *old(self),
            read is Some <==> r is Some,
            match r {
                Some((rx, tx)) => rx.buffer@ == buffer@.subrange(0, read->0 as int) && tx.fd
                    == old(self).fd,
                None => true,
            },
    {
        match read {
            Some(n) => {
                let mut buffer = buffer;
                buffer.truncate(n);
                Some((RxToken { buffer }, TxToken { fd: self.fd }))
            },
            None => None,
        }
    }

    /// Offers a transmit token; writes are not checked for readiness in advance.
    pub fn transmit(&mut self) -> (r: Option<TxToken>)
        ensures
            *final(self) == *old(self),
            r == Some(TxToken { fd: old(self).fd }),
    {
        Some(TxToken { fd: self.fd })
    }
}

impl RxToken {
    /// The received frame.
    pub fn consume(self) -> (r: Vec<u8>)
        ensures
            r@ == self.buffer@,
    {
        self.buffer
    }
}

impl TxToken {
    /// A zeroed buffer of `len` bytes for the frame to be written.
    pub fn buffer(&self, len: usize) -> (r: Vec<u8>)
        ensures
            r@ == Seq::new(len as nat, |i: int| 0u8),
    {
        let r = vec![0u8; len];
        assert(r@ =~= Seq::new(len as nat, |i: int| 0u8));
        r
    }

    /// What a write of the frame reports: a full socket buffer is exhaustion,
    /// any other failure means the peer cannot be reached.
    pub fn finish(self, status: SendStatus) -> (r: Result<(), NetError>)
        ensures
            r == (match status {
                SendStatus::Sent(_) => Ok(()),
                SendStatus::WouldBlock => Err(NetError::Exhausted),
                SendStatus::Failed => Err(NetError::Unaddressable),
            }),
    {
        match status {
            SendStatus::Sent(_) => Ok(()),
            SendStatus::WouldBlock => Err(NetError::Exhausted),
            SendStatus::Failed => Err(NetError::Unaddressable),
        }
    }
}

} // verus!
