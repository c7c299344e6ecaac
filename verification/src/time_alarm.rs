//! ACPI time and alarm device: timer identifiers and the error taxonomy.

use vstd::prelude::*;

pub mod acpi_timestamp;

verus! {

/// Errors of the time and alarm service.
#[derive(Clone, Copy, Debug, PartialEq, Eq, Structural)]
pub enum TimeAlarmError {
    /// The command code is not known
    UnknownCommand,
    /// The service was initialized twice
    DoubleInitError,
    /// The mailbox is full
    MailboxFullError,
    /// The timer identifier is not known
    InvalidAcpiTimerId,
    /// An argument is out of range or malformed
    InvalidArgument,
    /// The clock failed
    ClockError,
}

/// Timer ID as defined in the ACPI spec.
#[derive(Debug, Clone, Copy, PartialEq, Eq, Structural)]
pub enum AcpiTimerId {
    /// Timer that runs on AC power
    AcPower,
    /// Timer that runs on DC power
    DcPower,
}

/// The 32-bit value that four bytes hold in little-endian order.
pub open spec fn u32_from_le(bytes: Seq<u8>) -> int {
    bytes[0] as int + bytes[1] as int * 0x100 + bytes[2] as int * 0x1_0000 + bytes[3] as int
        * 0x100_0000
}

/// The timer that a number stands for.
pub open spec fn timer_id_of(value: int) -> Result<AcpiTimerId, TimeAlarmError> {
    if value == 0 {
        Ok(AcpiTimerId::AcPower)
    } else if value == 1 {
        Ok(AcpiTimerId::DcPower)
    } else {
        Err(TimeAlarmError::InvalidAcpiTimerId)
    }
}

impl TryFrom<u32> for AcpiTimerId {
    type Error = TimeAlarmError;

    fn try_from(value: u32) -> (r: Result<Self, TimeAlarmError>) {
        match value {
            0 => Ok(AcpiTimerId::AcPower),
            1 => Ok(AcpiTimerId::DcPower),
            _ => Err(TimeAlarmError::InvalidAcpiTimerId),
        }
    }
}

impl vstd::std_specs::convert::TryFromSpecImpl<u32> for AcpiTimerId {
    open spec fn obeys_try_from_spec() -> bool {
        true
    }

    open spec fn try_from_spec(value: u32) -> Result<Self, TimeAlarmError> {
        timer_id_of(value as int)
    }
}

impl AcpiTimerId {
    /// Given a byte slice, attempts to parse an AcpiTimerId from the first 4 bytes.
    /// Returns the parsed AcpiTimerId and the number of bytes that were read.
    ///
    /// Fewer than four bytes are an invalid argument; four bytes that name
    /// no timer are an invalid timer identifier.
    pub fn try_from_bytes(bytes: &[u8]) -> (r: Result<(Self, usize), TimeAlarmError>)
        ensures
            r == (if bytes@.len() < 4 {
                Err::<(AcpiTimerId, usize), TimeAlarmError>(TimeAlarmError::InvalidArgument)
            } else {
                match timer_id_of(u32_from_le(bytes@)) {
                    Ok(id) => Ok((id, 4usize)),
                    Err(e) => Err(e),
                }
            }),
    {
        if bytes.len() < 4 {
            return Err(TimeAlarmError::InvalidArgument);
        }
        let id: u32 = bytes[0] as u32 + bytes[1] as u32 * 0x100 + bytes[2] as u32 * 0x1_0000
            + bytes[3] as u32 * 0x100_0000;
        match AcpiTimerId::try_from(id) {
            Ok(timer) => Ok((timer, 4)),
            Err(e) => Err(e),
        }
    }

    /// The other of the two timers
    pub fn get_other_timer_id(&self) -> (other: Self)
        ensures
            other != *self,
    {
        match self {
            AcpiTimerId::AcPower => AcpiTimerId::DcPower,
            AcpiTimerId::DcPower => AcpiTimerId::AcPower,
        }
    }
}

} // verus!
