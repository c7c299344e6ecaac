//! HID over I2C: the descriptor and the identifiers of devices and reports.

use vstd::prelude::*;

pub mod command;

verus! {

/// HID descriptor length
pub const DESCRIPTOR_LEN: usize = 30;

/// HID device ID
#[derive(Clone, Copy, Debug, PartialEq, Eq, Structural)]
pub struct DeviceId(pub u8);

/// HID command op codes, see the HID over I2C specification
#[derive(Clone, Copy, Debug, PartialEq, Eq, Structural)]
#[allow(missing_docs)]
pub enum CommandOp {
    Reserved,
    Reset,
    GetReport,
    SetReport,
    GetIdle,
    SetIdle,
    GetProtocol,
    SetProtocol,
    SetPower,
    Vendor,
}

/// The two bytes of a 16-bit value in little-endian order.
pub open spec fn le_bytes(value: u16) -> Seq<u8> {
    seq![(value & 0xff) as u8, (value >> 8) as u8]
}

/// Write a 16-bit value in little-endian order at `offset`
pub fn write_u16_le(buffer: &mut [u8], offset: usize, value: u16)
    requires
        offset + 2 <= old(buffer)@.len(),
    ensures
        final(buffer)@ == old(buffer)@.update(offset as int, le_bytes(value)[0]).update(
            offset + 1,
            le_bytes(value)[1],
        ),
{
    assert(value & 0xff < 0x100) by (bit_vector);
    assert(value >> 8 < 0x100) by (bit_vector);
    buffer[offset] = (value & 0xff) as u8;
    buffer[offset + 1] = (value >> 8) as u8;
}

/// HID descriptor, see the HID over I2C specification
#[derive(Clone, Copy, Debug, PartialEq, Eq, Structural)]
#[allow(missing_docs)]
pub struct Descriptor {
    pub w_hid_desc_length: u16,
    pub bcd_version: u16,
    pub w_report_desc_length: u16,
    pub w_report_desc_register: u16,
    pub w_input_register: u16,
    pub w_max_input_length: u16,
    pub w_output_register: u16,
    pub w_max_output_length: u16,
    pub w_command_register: u16,
    pub w_data_register: u16,
    pub w_vendor_id: u16,
    pub w_product_id: u16,
    pub w_version_id: u16,
}

/// HID descriptor with its reserved bytes, see the HID over I2C specification
#[derive(Clone, Copy, Debug, PartialEq, Eq)]
#[allow(missing_docs)]
pub struct HidDescriptor {
    pub w_hid_desc_length: u16,
    pub bcd_version: u16,
    pub w_report_desc_length: u16,
    pub w_report_desc_register: u16,
    pub w_input_register: u16,
    pub w_max_input_length: u16,
    pub w_output_register: u16,
    pub w_max_output_length: u16,
    pub w_command_register: u16,
    pub w_data_register: u16,
    pub w_vendor_id: u16,
    pub w_product_id: u16,
    pub w_version_id: u16,
    pub _reserved: [u8; 4],
}

impl Descriptor {
    /// The thirty bytes of the descriptor: its fields in order, each in
    /// little-endian order, and four reserved bytes that are zero.
    pub open spec fn spec_bytes(&self) -> Seq<u8> {
        le_bytes(self.w_hid_desc_length) + le_bytes(self.bcd_version) + le_bytes(
            self.w_report_desc_length,
        ) + le_bytes(self.w_report_desc_register) + le_bytes(self.w_input_register) + le_bytes(
            self.w_max_input_length,
        ) + le_bytes(self.w_output_register) + le_bytes(self.w_max_output_length) + le_bytes(
            self.w_command_register,
        ) + le_bytes(self.w_data_register) + le_bytes(self.w_vendor_id) + le_bytes(
            self.w_product_id,
        ) + le_bytes(self.w_version_id) + seq![0u8, 0u8, 0u8, 0u8]
    }

    /// The descriptor with every field zero.
    pub open spec fn spec_default() -> Self {
        Descriptor {
            w_hid_desc_length: 0,
            bcd_version: 0,
            w_report_desc_length: 0,
            w_report_desc_register: 0,
            w_input_register: 0,
            w_max_input_length: 0,
            w_output_register: 0,
            w_max_output_length: 0,
            w_command_register: 0,
            w_data_register: 0,
            w_vendor_id: 0,
            w_product_id: 0,
            w_version_id: 0,
        }
    }

    /// Writes the descriptor to a slice, returns None if the buffer is not sized correctly
    pub fn write_buffer(&self, buffer: &mut [u8]) -> (r: Option<()>)
        ensures
            r is Some <==> old(buffer)@.len() == DESCRIPTOR_LEN,
            r is Some ==> final(buffer)@ == self.spec_bytes(),
            r is None ==> final(buffer)@ == old(buffer)@,
    {
        if buffer.len() != DESCRIPTOR_LEN {
            return None;
        }
        write_u16_le(buffer, 0, self.w_hid_desc_length);
        write_u16_le(buffer, 2, self.bcd_version);
        write_u16_le(buffer, 4, self.w_report_desc_length);
        write_u16_le(buffer, 6, self.w_report_desc_register);
        write_u16_le(buffer, 8, self.w_input_register);
        write_u16_le(buffer, 10, self.w_max_input_length);
        write_u16_le(buffer, 12, self.w_output_register);
        write_u16_le(buffer, 14, self.w_max_output_length);
        write_u16_le(buffer, 16, self.w_command_register);
        write_u16_le(buffer, 18, self.w_data_register);
        write_u16_le(buffer, 20, self.w_vendor_id);
        write_u16_le(buffer, 22, self.w_product_id);
        write_u16_le(buffer, 24, self.w_version_id);
        // Last four bytes are reserved
        buffer[26] = 0;
        buffer[27] = 0;
        buffer[28] = 0;
        buffer[29] = 0;
        Some(())
    }
}

impl Default for Descriptor {
    fn default() -> (descriptor: Self)
        ensures
            descriptor == Descriptor::spec_default(),
    {
        Descriptor {
            w_hid_desc_length: 0,
            bcd_version: 0,
            w_report_desc_length: 0,
            w_report_desc_register: 0,
            w_input_register: 0,
            w_max_input_length: 0,
            w_output_register: 0,
            w_max_output_length: 0,
            w_command_register: 0,
            w_data_register: 0,
            w_vendor_id: 0,
            w_product_id: 0,
            w_version_id: 0,
        }
    }
}

} // verus!
