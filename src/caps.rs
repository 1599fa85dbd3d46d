use vstd::prelude::*;

verus! {

/// Bytes reserved for the Ethernet header on top of the interface MTU.
pub const SMOLTCP_ETHERNET_HEADER: usize = 14;

/// Largest frame a device offers: the interface MTU with the header reservation,
/// less the configured reduction.
pub open spec fn max_frame_spec(mtu: usize, reduce_mtu_by: Option<usize>) -> int {
    mtu - match reduce_mtu_by {
        Some(r) => r as int,
        None => 0,
    }
}

/// Whether the reduction leaves a frame size of at least zero.
pub open spec fn reduction_fits(mtu: usize, reduce_mtu_by: Option<usize>) -> bool {
    match reduce_mtu_by {
        Some(r) => r <= mtu,
        None => true,
    }
}

/// Computes the largest frame a device offers from its MTU with header reservation.
pub fn max_frame(mtu: usize, reduce_mtu_by: Option<usize>) -> (r: usize)
    requires
        reduction_fits(mtu, reduce_mtu_by),
    ensures
        r == max_frame_spec(mtu, reduce_mtu_by),
{
    match reduce_mtu_by {
        Some(v) => mtu - v,
        None => mtu,
    }
}

/// The interface MTU with the header reservation added.
pub fn frame_mtu(parent_mtu: u16) -> (r: usize)
    ensures
        r == parent_mtu + SMOLTCP_ETHERNET_HEADER,
{
    parent_mtu as usize + SMOLTCP_ETHERNET_HEADER
}

} // verus!
