//! Vendor ID definitions.

use crate::oem::VendorId;
use vstd::prelude::*;

verus! {

/// Number of the Surface vendor ID
pub const SURFACE_ID: u16 = 42;

/// Surface vendor ID
pub fn surface() -> (vendor: VendorId)
    ensures
        vendor == VendorId(SURFACE_ID),
{
    VendorId(SURFACE_ID)
}

} // verus!
