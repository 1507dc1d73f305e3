//! The owned, decoded form of one network adapter: what the parser copies
//! out of the host's raw snapshot before that snapshot is discarded.

use vstd::prelude::*;

verus! {

/// The numeric interface-type code of IEEE 802.11 (Wi-Fi) adapters.
pub const IF_TYPE_IEEE80211: u32 = 71;

/// One decoded adapter record. Every field is an owned plain value; nothing
/// refers back into the raw snapshot it was decoded from.
pub struct AdapterInfo {
    /// Numeric interface-type code; Wi-Fi is [`IF_TYPE_IEEE80211`].
    pub interface_type: u32,
    /// Human-readable adapter name, decoded from the snapshot's
    /// wide-character text; an absent text gives a sentinel.
    pub description: String,
    /// The hardware (MAC) address: as many bytes as the host reported,
    /// possibly none.
    pub physical_address: Vec<u8>,
}

/// The mathematical value of one adapter record.
pub ghost struct AdapterInfoV {
    pub interface_type: u32,
    pub description: Seq<char>,
    pub physical_address: Seq<u8>,
}

impl View for AdapterInfo {
    type V = AdapterInfoV;

    open spec fn view(&self) -> AdapterInfoV {
        AdapterInfoV {
            interface_type: self.interface_type,
            description: self.description@,
            physical_address: self.physical_address@,
        }
    }
}

/// The values of a whole record sequence.
pub open spec fn views_of(adapters: Seq<AdapterInfo>) -> Seq<AdapterInfoV> {
    adapters.map_values(|a: AdapterInfo| a@)
}

} // verus!
