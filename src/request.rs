use vstd::prelude::*;

verus! {

/// Mask of the ring-subset selector in `nr_flags`.
pub const NR_REG_MASK: u32 = 0xf;

/// Selector: all hardware rings.
pub const NR_REG_ALL_NIC: u32 = 1;

/// Selector: the host-stack ring only.
pub const NR_REG_SW: u32 = 2;

/// Selector: hardware rings and the host-stack ring.
pub const NR_REG_NIC_SW: u32 = 3;

/// Selector: one hardware ring, named by `nr_ringid`.
pub const NR_REG_ONE_NIC: u32 = 4;

/// Mask of the ring number in `nr_ringid`.
pub const NETMAP_RING_MASK: u16 = 0x0fff;

/// The ring-registration record that opened a ring session.
#[derive(Clone, Copy, Debug, PartialEq, Eq, Structural)]
pub struct NmReq {
    pub nr_version: u32,
    pub nr_offset: u32,
    pub nr_memsize: u32,
    pub nr_tx_slots: u32,
    pub nr_rx_slots: u32,
    pub nr_tx_rings: u16,
    pub nr_rx_rings: u16,
    pub nr_ringid: u16,
    pub nr_cmd: u16,
    pub nr_arg1: u16,
    pub nr_arg2: u16,
    pub nr_arg3: u32,
    pub nr_flags: u32,
}

/// The first and last ring index, for transmit and for receive, bound to one handle.
#[derive(Clone, Copy, Debug, PartialEq, Eq, Structural)]
pub struct RingRange {
    pub first_tx_ring: u16,
    pub last_tx_ring: u16,
    pub first_rx_ring: u16,
    pub last_rx_ring: u16,
}

/// The rings that the selector of `req` binds: the host-stack ring sits after the
/// hardware rings; a pipe has ring 0 alone.
pub open spec fn ring_range_spec(req: NmReq) -> Option<RingRange> {
    let sel = req.nr_flags & NR_REG_MASK;
    let t = req.nr_tx_rings;
    let r = req.nr_rx_rings;
    if sel == NR_REG_SW {
        Some(RingRange { first_tx_ring: t, last_tx_ring: t, first_rx_ring: r, last_rx_ring: r })
    } else if sel == NR_REG_ALL_NIC {
        if t == 0 || r == 0 {
            None
        } else {
            Some(
                RingRange {
                    first_tx_ring: 0,
                    last_tx_ring: (t - 1) as u16,
                    first_rx_ring: 0,
                    last_rx_ring: (r - 1) as u16,
                },
            )
        }
    } else if sel == NR_REG_NIC_SW {
        Some(RingRange { first_tx_ring: 0, last_tx_ring: t, first_rx_ring: 0, last_rx_ring: r })
    } else if sel == NR_REG_ONE_NIC {
        let i = req.nr_ringid & NETMAP_RING_MASK;
        Some(RingRange { first_tx_ring: i, last_tx_ring: i, first_rx_ring: i, last_rx_ring: i })
    } else {
        Some(RingRange { first_tx_ring: 0, last_tx_ring: 0, first_rx_ring: 0, last_rx_ring: 0 })
    }
}

/// Derives the bound ring indices from the selector of `req`; `None` where the
/// selector asks for all hardware rings and there are none.
pub fn ring_range(req: &NmReq) -> (r: Option<RingRange>)
    ensures
        r == ring_range_spec(*req),
{
    let sel = req.nr_flags & NR_REG_MASK;
    let t = req.nr_tx_rings;
    let r = req.nr_rx_rings;
    if sel == NR_REG_SW {
        Some(RingRange { first_tx_ring: t, last_tx_ring: t, first_rx_ring: r, last_rx_ring: r })
    } else if sel == NR_REG_ALL_NIC {
        if t == 0 || r == 0 {
            None
        } else {
            Some(
                RingRange {
                    first_tx_ring: 0,
                    last_tx_ring: t - 1,
                    first_rx_ring: 0,
                    last_rx_ring: r - 1,
                },
            )
        }
    } else if sel == NR_REG_NIC_SW {
        Some(RingRange { first_tx_ring: 0, last_tx_ring: t, first_rx_ring: 0, last_rx_ring: r })
    } else if sel == NR_REG_ONE_NIC {
        let i = req.nr_ringid & NETMAP_RING_MASK;
        Some(RingRange { first_tx_ring: i, last_tx_ring: i, first_rx_ring: i, last_rx_ring: i })
    } else {
        Some(RingRange { first_tx_ring: 0, last_tx_ring: 0, first_rx_ring: 0, last_rx_ring: 0 })
    }
}

} // verus!
