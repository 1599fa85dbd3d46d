//! Packet-level network device backends over a memory-mapped ring set, a TAP
//! interface or a datagram socket.
mod caps;
mod ifreq;
pub mod laws;
mod netmap;
mod nm;
mod request;
mod ring;
mod tap_interface;
mod unixdomainsocket;

pub use caps::{max_frame, SMOLTCP_ETHERNET_HEADER};
pub use ifreq::{ifreq_for, IfReq};
pub use netmap::{Netmap, Received, RxToken as NetmapRxToken, TxToken as NetmapTxToken};
pub use nm::{AttachError, NetError, NetmapDesc, RecvStep, TxStep};
pub use request::{ring_range, NmReq, RingRange};
pub use ring::{Ring, Slot};
pub use tap_interface::{
    RxToken as TapInterfaceRxToken, TapInterface, TxToken as TapInterfaceTxToken,
};
pub use unixdomainsocket::{
    RxToken as UnixDomainSocketRxToken, SendStatus, TxToken as UnixDomainSocketTxToken,
    UnixDomainSocket,
};
