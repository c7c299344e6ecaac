//! OEM-specific definitions.

use vstd::prelude::*;

pub mod vendor;

verus! {

/// Vendor ID
#[derive(Debug, Clone, Copy, PartialEq, Eq, Structural)]
pub struct VendorId(pub u16);

/// Header for generic OEM messages
#[derive(Debug, Clone, Copy, PartialEq, Eq, Structural)]
pub struct MessageHeader {
    /// Target vendor for this message
    pub vendor: VendorId,
    /// Vendor-specific value
    pub function: u16,
}

impl MessageHeader {
    /// Create new OEM message header
    pub fn new(vendor: VendorId, function: u16) -> (header: Self)
        ensures
            header == (MessageHeader { vendor, function }),
    {
        Self { vendor, function }
    }
}

} // verus!
