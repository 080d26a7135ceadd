//! Transport descriptor for the LAN link.
use vstd::prelude::*;

verus! {

/// Delivery settings of the peer-to-peer link.
#[derive(Debug, Clone, Copy, PartialEq, Eq, Structural)]
pub struct TransportDescriptor {
    pub force_lan_mode: bool,
    pub enable_unordered_move_channel: bool,
    pub max_datagram_size: u16,
}

impl TransportDescriptor {
    /// The fixed LAN low-latency configuration.
    pub open spec fn is_lan_low_latency(&self) -> bool {
        &&& self.force_lan_mode
        &&& self.enable_unordered_move_channel
        &&& self.max_datagram_size == 1200
    }

    pub fn lan_low_latency() -> (r: Self)
        ensures
            r.is_lan_low_latency(),
    {
        TransportDescriptor {
            force_lan_mode: true,
            enable_unordered_move_channel: true,
            max_datagram_size: 1200,
        }
    }
}

} // verus!
