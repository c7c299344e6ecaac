//! Data structures and code for handling HID commands.

use crate::hid::{le_bytes, write_u16_le};
use vstd::prelude::*;

verus! {

/// HID report ID
#[derive(Clone, Copy, Debug, PartialEq, Eq, Structural)]
pub struct ReportId(pub u8);

/// HID report types
#[derive(Clone, Copy, Debug, PartialEq, Eq, Structural)]
pub enum ReportType {
    /// Input report
    Input,
    /// Output report
    Output,
    /// Feature report
    Feature,
}

/// Bits of the report type in a command
pub const FEATURE_MASK: u16 = 0x30;

/// Lowest bit of the report type in a command
pub const FEATURE_SHIFT: u16 = 4;

/// The report type that a command value names.
pub open spec fn report_type_of(value: u16) -> Result<ReportType, ()> {
    let field = (value & 0x30u16) >> 4u16;
    if field == 1 {
        Ok(ReportType::Input)
    } else if field == 2 {
        Ok(ReportType::Output)
    } else if field == 3 {
        Ok(ReportType::Feature)
    } else {
        Err(())
    }
}

/// The bits that name a report type in a command.
pub open spec fn report_type_bits(report_type: ReportType) -> u16 {
    match report_type {
        ReportType::Input => 0x10,
        ReportType::Output => 0x20,
        ReportType::Feature => 0x30,
    }
}

impl TryFrom<u16> for ReportType {
    type Error = ();

    fn try_from(value: u16) -> (r: Result<Self, ()>) {
        match (value & FEATURE_MASK) >> FEATURE_SHIFT {
            0x01 => Ok(ReportType::Input),
            0x02 => Ok(ReportType::Output),
            0x03 => Ok(ReportType::Feature),
            _ => Err(()),
        }
    }
}

impl vstd::std_specs::convert::TryFromSpecImpl<u16> for ReportType {
    open spec fn obeys_try_from_spec() -> bool {
        true
    }

    open spec fn try_from_spec(value: u16) -> Result<Self, ()> {
        report_type_of(value)
    }
}

impl From<ReportType> for u16 {
    fn from(report_type: ReportType) -> (bits: Self) {
        match report_type {
            ReportType::Input => 0x10,
            ReportType::Output => 0x20,
            ReportType::Feature => 0x30,
        }
    }
}

impl vstd::std_specs::convert::FromSpecImpl<ReportType> for u16 {
    open spec fn obeys_from_spec() -> bool {
        true
    }

    open spec fn from_spec(report_type: ReportType) -> Self {
        report_type_bits(report_type)
    }
}

/// Power state
#[derive(Clone, Copy, Debug, PartialEq, Eq, Structural)]
pub enum PowerState {
    /// On
    On,
    /// Sleep
    Sleep,
}

/// Bits of the power state in a command
pub const POWER_STATE_MASK: u16 = 0x3;

/// The power state that a command value names.
pub open spec fn power_state_of(value: u16) -> Result<PowerState, ()> {
    let field = value & 0x3u16;
    if field == 0 {
        Ok(PowerState::On)
    } else if field == 1 {
        Ok(PowerState::Sleep)
    } else {
        Err(())
    }
}

/// The bits that name a power state.
pub open spec fn power_state_bits(state: PowerState) -> u16 {
    match state {
        PowerState::On => 0,
        PowerState::Sleep => 1,
    }
}

impl TryFrom<u16> for PowerState {
    type Error = ();

    fn try_from(value: u16) -> (r: Result<Self, ()>) {
        match value & POWER_STATE_MASK {
            0x0 => Ok(PowerState::On),
            0x1 => Ok(PowerState::Sleep),
            _ => Err(()),
        }
    }
}

impl vstd::std_specs::convert::TryFromSpecImpl<u16> for PowerState {
    open spec fn obeys_try_from_spec() -> bool {
        true
    }

    open spec fn try_from_spec(value: u16) -> Result<Self, ()> {
        power_state_of(value)
    }
}

impl From<PowerState> for u16 {
    fn from(state: PowerState) -> (bits: Self) {
        match state {
            PowerState::On => 0x0,
            PowerState::Sleep => 0x1,
        }
    }
}

impl vstd::std_specs::convert::FromSpecImpl<PowerState> for u16 {
    open spec fn obeys_from_spec() -> bool {
        true
    }

    open spec fn from_spec(state: PowerState) -> Self {
        power_state_bits(state)
    }
}

/// Report frequency, see the HID over I2C specification
#[derive(Clone, Copy, Debug, PartialEq, Eq, Structural)]
#[allow(missing_docs)]
pub enum ReportFreq {
    Infinite,
    Msecs(u16),
}

/// The report frequency that a value names: zero is infinite.
pub open spec fn report_freq_of(value: u16) -> ReportFreq {
    if value == 0 {
        ReportFreq::Infinite
    } else {
        ReportFreq::Msecs(value)
    }
}

/// The value that names a report frequency.
pub open spec fn report_freq_value(freq: ReportFreq) -> u16 {
    match freq {
        ReportFreq::Infinite => 0,
        ReportFreq::Msecs(value) => value,
    }
}

impl TryFrom<u16> for ReportFreq {
    type Error = ();

    fn try_from(value: u16) -> (r: Result<Self, ()>) {
        match value {
            0x0 => Ok(ReportFreq::Infinite),
            _ => Ok(ReportFreq::Msecs(value)),
        }
    }
}

impl vstd::std_specs::convert::TryFromSpecImpl<u16> for ReportFreq {
    open spec fn obeys_try_from_spec() -> bool {
        true
    }

    open spec fn try_from_spec(value: u16) -> Result<Self, ()> {
        Ok(report_freq_of(value))
    }
}

impl From<ReportFreq> for u16 {
    fn from(freq: ReportFreq) -> (value: Self) {
        match freq {
            ReportFreq::Infinite => 0x0,
            ReportFreq::Msecs(value) => value,
        }
    }
}

impl vstd::std_specs::convert::FromSpecImpl<ReportFreq> for u16 {
    open spec fn obeys_from_spec() -> bool {
        true
    }

    open spec fn from_spec(freq: ReportFreq) -> Self {
        report_freq_value(freq)
    }
}

/// HID device protocol, see the HID over I2C specification
#[derive(Clone, Copy, Debug, PartialEq, Eq, Structural)]
#[allow(missing_docs)]
pub enum Protocol {
    Boot,
    Report,
}

/// The protocol that a value names.
pub open spec fn protocol_of(value: u16) -> Result<Protocol, ()> {
    if value == 0 {
        Ok(Protocol::Boot)
    } else if value == 1 {
        Ok(Protocol::Report)
    } else {
        Err(())
    }
}

/// The value that names a protocol.
pub open spec fn protocol_value(protocol: Protocol) -> u16 {
    match protocol {
        Protocol::Boot => 0,
        Protocol::Report => 1,
    }
}

impl TryFrom<u16> for Protocol {
    type Error = ();

    fn try_from(value: u16) -> (r: Result<Self, ()>) {
        match value {
            0x0 => Ok(Protocol::Boot),
            0x1 => Ok(Protocol::Report),
            _ => Err(()),
        }
    }
}

impl vstd::std_specs::convert::TryFromSpecImpl<u16> for Protocol {
    open spec fn obeys_try_from_spec() -> bool {
        true
    }

    open spec fn try_from_spec(value: u16) -> Result<Self, ()> {
        protocol_of(value)
    }
}

impl From<Protocol> for u16 {
    fn from(protocol: Protocol) -> (value: Self) {
        match protocol {
            Protocol::Boot => 0x0,
            Protocol::Report => 0x1,
        }
    }
}

impl vstd::std_specs::convert::FromSpecImpl<Protocol> for u16 {
    open spec fn obeys_from_spec() -> bool {
        true
    }

    open spec fn from_spec(protocol: Protocol) -> Self {
        protocol_value(protocol)
    }
}

/// Command opcodes, see the HID over I2C specification
#[derive(Clone, Copy, Debug, PartialEq, Eq, Structural)]
#[allow(missing_docs)]
pub enum CommandOpcode {
    Reset,
    GetReport,
    SetReport,
    GetIdle,
    SetIdle,
    GetProtocol,
    SetProtocol,
    SetPower,
    Vendor,
}

/// Bits of the opcode in a command
pub const OPCODE_MASK: u16 = 0xf00;

/// Lowest bit of the opcode in a command
pub const OPCODE_SHIFT: u16 = 8;

/// The opcode that a command value names.
pub open spec fn opcode_of(value: u16) -> Result<CommandOpcode, ()> {
    let field = (value & 0xf00u16) >> 8u16;
    if field == 1 {
        Ok(CommandOpcode::Reset)
    } else if field == 2 {
        Ok(CommandOpcode::GetReport)
    } else if field == 3 {
        Ok(CommandOpcode::SetReport)
    } else if field == 4 {
        Ok(CommandOpcode::GetIdle)
    } else if field == 5 {
        Ok(CommandOpcode::SetIdle)
    } else if field == 6 {
        Ok(CommandOpcode::GetProtocol)
    } else if field == 7 {
        Ok(CommandOpcode::SetProtocol)
    } else if field == 8 {
        Ok(CommandOpcode::SetPower)
    } else if field == 0xe {
        Ok(CommandOpcode::Vendor)
    } else {
        Err(())
    }
}

/// The bits that name an opcode in a command.
pub open spec fn opcode_bits(opcode: CommandOpcode) -> u16 {
    match opcode {
        CommandOpcode::Reset => 0x0100,
        CommandOpcode::GetReport => 0x0200,
        CommandOpcode::SetReport => 0x0300,
        CommandOpcode::GetIdle => 0x0400,
        CommandOpcode::SetIdle => 0x0500,
        CommandOpcode::GetProtocol => 0x0600,
        CommandOpcode::SetProtocol => 0x0700,
        CommandOpcode::SetPower => 0x0800,
        CommandOpcode::Vendor => 0x0e00,
    }
}

impl TryFrom<u16> for CommandOpcode {
    type Error = ();

    fn try_from(value: u16) -> (r: Result<Self, ()>) {
        match (value & OPCODE_MASK) >> OPCODE_SHIFT {
            0x01 => Ok(CommandOpcode::Reset),
            0x02 => Ok(CommandOpcode::GetReport),
            0x03 => Ok(CommandOpcode::SetReport),
            0x04 => Ok(CommandOpcode::GetIdle),
            0x05 => Ok(CommandOpcode::SetIdle),
            0x06 => Ok(CommandOpcode::GetProtocol),
            0x07 => Ok(CommandOpcode::SetProtocol),
            0x08 => Ok(CommandOpcode::SetPower),
            0x0e => Ok(CommandOpcode::Vendor),
            _ => Err(()),
        }
    }
}

impl vstd::std_specs::convert::TryFromSpecImpl<u16> for CommandOpcode {
    open spec fn obeys_try_from_spec() -> bool {
        true
    }

    open spec fn try_from_spec(value: u16) -> Result<Self, ()> {
        opcode_of(value)
    }
}

impl From<CommandOpcode> for u16 {
    fn from(opcode: CommandOpcode) -> (bits: Self) {
        match opcode {
            CommandOpcode::Reset => 0x0100,
            CommandOpcode::GetReport => 0x0200,
            CommandOpcode::SetReport => 0x0300,
            CommandOpcode::GetIdle => 0x0400,
            CommandOpcode::SetIdle => 0x0500,
            CommandOpcode::GetProtocol => 0x0600,
            CommandOpcode::SetProtocol => 0x0700,
            CommandOpcode::SetPower => 0x0800,
            CommandOpcode::Vendor => 0x0e00,
        }
    }
}

impl vstd::std_specs::convert::FromSpecImpl<CommandOpcode> for u16 {
    open spec fn obeys_from_spec() -> bool {
        true
    }

    open spec fn from_spec(opcode: CommandOpcode) -> Self {
        opcode_bits(opcode)
    }
}

impl CommandOpcode {
    /// The command has data to read from the host.
    pub open spec fn spec_requires_host_data(&self) -> bool {
        *self == CommandOpcode::SetReport || *self == CommandOpcode::SetIdle || *self
            == CommandOpcode::Vendor
    }

    /// The command requires a report ID.
    pub open spec fn spec_requires_report_id(&self) -> bool {
        *self == CommandOpcode::GetReport || *self == CommandOpcode::SetReport || *self
            == CommandOpcode::GetIdle || *self == CommandOpcode::SetIdle
    }

    /// Return true if the command has data to read from the host
    pub fn requires_host_data(&self) -> (required: bool)
        ensures
            required == self.spec_requires_host_data(),
    {
        match self {
            CommandOpcode::SetReport | CommandOpcode::SetIdle | CommandOpcode::Vendor => true,
            _ => false,
        }
    }

    /// Return true if the command requires a report ID
    pub fn requires_report_id(&self) -> (required: bool)
        ensures
            required == self.spec_requires_report_id(),
    {
        match self {
            CommandOpcode::GetReport
            | CommandOpcode::SetReport
            | CommandOpcode::GetIdle
            | CommandOpcode::SetIdle => true,
            _ => false,
        }
    }

    /// Return true if the command has a response read from the data register
    pub fn has_response(&self) -> (response: bool)
        ensures
            response == (*self == CommandOpcode::GetReport || *self == CommandOpcode::GetIdle
                || *self == CommandOpcode::GetProtocol),
    {
        match self {
            CommandOpcode::GetReport | CommandOpcode::GetIdle | CommandOpcode::GetProtocol => true,
            _ => false,
        }
    }
}

/// Host to device commands, see the HID over I2C specification
#[derive(Clone, Debug, PartialEq, Eq)]
#[allow(missing_docs)]
pub enum Command {
    Reset,
    GetReport(ReportType, ReportId),
    SetReport(ReportType, ReportId, Vec<u8>),
    GetIdle(ReportId),
    SetIdle(ReportId, ReportFreq),
    GetProtocol,
    SetProtocol(Protocol),
    SetPower(PowerState),
    Vendor,
}

/// A host to device command as a mathematical value.
#[allow(missing_docs)]
pub enum CommandView {
    Reset,
    GetReport(ReportType, ReportId),
    SetReport(ReportType, ReportId, Seq<u8>),
    GetIdle(ReportId),
    SetIdle(ReportId, ReportFreq),
    GetProtocol,
    SetProtocol(Protocol),
    SetPower(PowerState),
    Vendor,
}

impl View for Command {
    type V = CommandView;

    open spec fn view(&self) -> CommandView {
        match *self {
            Command::Reset => CommandView::Reset,
            Command::GetReport(report_type, report_id) => CommandView::GetReport(
                report_type,
                report_id,
            ),
            Command::SetReport(report_type, report_id, data) => CommandView::SetReport(
                report_type,
                report_id,
                data@,
            ),
            Command::GetIdle(report_id) => CommandView::GetIdle(report_id),
            Command::SetIdle(report_id, freq) => CommandView::SetIdle(report_id, freq),
            Command::GetProtocol => CommandView::GetProtocol,
            Command::SetProtocol(protocol) => CommandView::SetProtocol(protocol),
            Command::SetPower(state) => CommandView::SetPower(state),
            Command::Vendor => CommandView::Vendor,
        }
    }
}

/// Device command response, GetReport uses the standard report responses
#[derive(Clone, Copy, Debug, PartialEq, Eq, Structural)]
pub enum CommandResponse {
    /// Get idle response
    GetIdle(ReportFreq),
    /// Get protocol response
    GetProtocol(Protocol),
    /// Vendor specific response
    Vendor,
}

/// Command creation errors
#[derive(Clone, Copy, Debug, PartialEq, Eq, Structural)]
pub enum CommandError {
    /// Command requires a report ID
    RequiresReportId,
    /// Command requires data
    RequiresData,
    /// Invalid data provided
    InvalidData,
    /// Invalid report type for command
    InvalidReportType,
    /// Invalid report frequency
    InvalidReportFreq,
}

/// Value for extended report ID
pub const EXTENDED_REPORT_ID: u8 = 0xf;

/// Bits of the report ID in a command
pub const REPORT_ID_MASK: u16 = 0xf;

/// The command that the parts of a command register value make up.
///
/// A missing report ID is reported first, then missing data, which a
/// vendor command may do without, then what the opcode itself asks for: a
/// report can be got as input or feature and set as output or feature, and
/// a protocol and a power state have to be known values.
pub open spec fn command_of(
    cmd: u16,
    opcode: CommandOpcode,
    report_type: Option<ReportType>,
    report_id: Option<ReportId>,
    data: Option<Seq<u8>>,
) -> Result<CommandView, CommandError> {
    if opcode.spec_requires_report_id() && report_id is None {
        Err(CommandError::RequiresReportId)
    } else if opcode.spec_requires_host_data() && data is None && opcode != CommandOpcode::Vendor {
        Err(CommandError::RequiresData)
    } else {
        match opcode {
            CommandOpcode::Reset => Ok(CommandView::Reset),
            CommandOpcode::GetReport => match report_type {
                Some(ReportType::Input) => Ok(
                    CommandView::GetReport(ReportType::Input, report_id->0),
                ),
                Some(ReportType::Feature) => Ok(
                    CommandView::GetReport(ReportType::Feature, report_id->0),
                ),
                _ => Err(CommandError::InvalidReportType),
            },
            CommandOpcode::SetReport => match report_type {
                Some(ReportType::Output) => Ok(
                    CommandView::SetReport(ReportType::Output, report_id->0, data->0),
                ),
                Some(ReportType::Feature) => Ok(
                    CommandView::SetReport(ReportType::Feature, report_id->0, data->0),
                ),
                _ => Err(CommandError::InvalidReportType),
            },
            CommandOpcode::GetIdle => Ok(CommandView::GetIdle(report_id->0)),
            CommandOpcode::SetIdle => Ok(CommandView::SetIdle(report_id->0, report_freq_of(cmd))),
            CommandOpcode::GetProtocol => Ok(CommandView::GetProtocol),
            CommandOpcode::SetProtocol => match protocol_of(cmd) {
                Ok(protocol) => Ok(CommandView::SetProtocol(protocol)),
                Err(_) => Err(CommandError::InvalidData),
            },
            CommandOpcode::SetPower => match power_state_of(cmd) {
                Ok(state) => Ok(CommandView::SetPower(state)),
                Err(_) => Err(CommandError::InvalidData),
            },
            CommandOpcode::Vendor => Ok(CommandView::Vendor),
        }
    }
}

/// The bytes that name opcode, report type and report ID: the command value
/// in little-endian order and, for the extended report ID, the ID in a third byte.
pub open spec fn report_info_bytes(
    opcode: CommandOpcode,
    report_type: Option<ReportType>,
    report_id: ReportId,
) -> Seq<u8> {
    let type_value: u16 = match report_type {
        Some(report_type) => report_type_bits(report_type),
        None => 0,
    };
    let value = report_id.0 as u16 | type_value | opcode_bits(opcode);
    if report_id.0 == EXTENDED_REPORT_ID {
        le_bytes(value) + seq![report_id.0]
    } else {
        le_bytes(value)
    }
}

/// The bytes that a command is written as. A vendor command has none.
pub open spec fn command_bytes(command: CommandView) -> Seq<u8> {
    match command {
        CommandView::Reset => le_bytes(opcode_bits(CommandOpcode::Reset)),
        CommandView::GetReport(report_type, report_id) => report_info_bytes(
            CommandOpcode::GetReport,
            Some(report_type),
            report_id,
        ),
        CommandView::SetReport(report_type, report_id, data) => report_info_bytes(
            CommandOpcode::SetReport,
            Some(report_type),
            report_id,
        ) + data,
        CommandView::GetIdle(report_id) => report_info_bytes(
            CommandOpcode::GetIdle,
            None,
            report_id,
        ),
        CommandView::SetIdle(report_id, freq) => report_info_bytes(
            CommandOpcode::SetIdle,
            None,
            report_id,
        ) + le_bytes(report_freq_value(freq)),
        CommandView::GetProtocol => le_bytes(opcode_bits(CommandOpcode::GetProtocol)),
        CommandView::SetProtocol(protocol) => le_bytes(opcode_bits(CommandOpcode::SetProtocol))
            + le_bytes(protocol_value(protocol)),
        CommandView::SetPower(state) => le_bytes(
            opcode_bits(CommandOpcode::SetPower) | power_state_bits(state),
        ),
        CommandView::Vendor => Seq::empty(),
    }
}

impl Command {
    /// Get report ID from data
    pub fn report_id(data: u16) -> (id: ReportId)
        ensures
            id.0 == data & 0xf,
    {
        assert(data & 0xf < 0x100) by (bit_vector);
        ReportId((data & REPORT_ID_MASK) as u8)
    }

    /// Check if the data has extended report ID
    pub fn has_extended_report_id(data: u16) -> (extended: bool)
        ensures
            extended == (data & 0xf == 0xf),
    {
        Self::report_id(data).0 == EXTENDED_REPORT_ID
    }

    /// Creates a new command with validation
    pub fn new(
        cmd: u16,
        opcode: CommandOpcode,
        report_type: Option<ReportType>,
        report_id: Option<ReportId>,
        data: Option<Vec<u8>>,
    ) -> (r: Result<Self, CommandError>)
        ensures
            match r {
                Ok(command) => Ok::<CommandView, CommandError>(command@),
                Err(e) => Err::<CommandView, CommandError>(e),
            } == command_of(
                cmd,
                opcode,
                report_type,
                report_id,
                match data {
                    Some(data) => Some(data@),
                    None => None,
                },
            ),
    {
        if opcode.requires_report_id() && report_id.is_none() {
            return Err(CommandError::RequiresReportId);
        }
        if opcode.requires_host_data() && data.is_none() {
            // Vendor defined commands might or might not have data with them
            match opcode {
                CommandOpcode::Vendor => {},
                _ => {
                    return Err(CommandError::RequiresData);
                },
            }
        }
        match opcode {
            CommandOpcode::Reset => Ok(Command::Reset),
            CommandOpcode::GetReport => match report_type {
                Some(ReportType::Input) => Ok(
                    Command::GetReport(ReportType::Input, report_id.unwrap()),
                ),
                Some(ReportType::Feature) => Ok(
                    Command::GetReport(ReportType::Feature, report_id.unwrap()),
                ),
                _ => Err(CommandError::InvalidReportType),
            },
            CommandOpcode::SetReport => match report_type {
                Some(ReportType::Output) => Ok(
                    Command::SetReport(ReportType::Output, report_id.unwrap(), data.unwrap()),
                ),
                Some(ReportType::Feature) => Ok(
                    Command::SetReport(ReportType::Feature, report_id.unwrap(), data.unwrap()),
                ),
                _ => Err(CommandError::InvalidReportType),
            },
            CommandOpcode::GetIdle => Ok(Command::GetIdle(report_id.unwrap())),
            CommandOpcode::SetIdle => match ReportFreq::try_from(cmd) {
                Ok(freq) => Ok(Command::SetIdle(report_id.unwrap(), freq)),
                Err(_) => Err(CommandError::InvalidReportFreq),
            },
            CommandOpcode::GetProtocol => Ok(Command::GetProtocol),
            CommandOpcode::SetProtocol => match Protocol::try_from(cmd) {
                Ok(protocol) => Ok(Command::SetProtocol(protocol)),
                Err(_) => Err(CommandError::InvalidData),
            },
            CommandOpcode::SetPower => match PowerState::try_from(cmd) {
                Ok(state) => Ok(Command::SetPower(state)),
                Err(_) => Err(CommandError::InvalidData),
            },
            CommandOpcode::Vendor => Ok(Command::Vendor),
        }
    }

    /// Writes opcode, report feature, and report ID into a buffer
    ///
    /// The buffer has to hold the two bytes of the command value, and a
    /// third for the extended report ID.
    pub fn write_report_info(
        opcode: CommandOpcode,
        report_type: Option<ReportType>,
        report_id: ReportId,
        buffer: &mut [u8],
    ) -> (written: usize)
        requires
            old(buffer)@.len() >= report_info_bytes(opcode, report_type, report_id).len(),
        ensures
            written == report_info_bytes(opcode, report_type, report_id).len(),
            2 <= written <= 3,
            final(buffer)@ == report_info_bytes(opcode, report_type, report_id) + old(buffer)@.subrange(written as int, old(buffer)@.len() as int),
    {
        let opcode_value: u16 = u16::from(opcode);
        let type_value: u16 = match report_type {
            Some(report_type) => u16::from(report_type),
            None => 0,
        };
        let value = report_id.0 as u16 | type_value | opcode_value;
        write_u16_le(buffer, 0, value);
        if report_id.0 == EXTENDED_REPORT_ID {
            buffer[2] = report_id.0;
            3
        } else {
            2
        }
    }

    /// Serialize the command to bytes
    ///
    /// Returns the number of bytes written, which varies with the command.
    /// The buffer has to hold them. A report to set is not written by this
    /// function.
    pub fn write_bytes(&self, buffer: &mut [u8]) -> (written: usize)
        requires
            !(self@ is SetReport),
            old(buffer)@.len() >= command_bytes(self@).len(),
        ensures
            written == command_bytes(self@).len(),
            final(buffer)@ == command_bytes(self@) + old(buffer)@.subrange(
                written as int,
                old(buffer)@.len() as int,
            ),
    {
        match self {
            Command::Reset => {
                let value: u16 = u16::from(CommandOpcode::Reset);
                write_u16_le(buffer, 0, value);
                2
            },
            Command::GetReport(report_type, report_id) => Self::write_report_info(
                CommandOpcode::GetReport,
                Some(*report_type),
                *report_id,
                buffer,
            ),
            Command::SetReport(_, _, _) => 0,
            Command::GetIdle(report_id) => Self::write_report_info(
                CommandOpcode::GetIdle,
                None,
                *report_id,
                buffer,
            ),
            Command::SetIdle(report_id, freq) => {
                let len = Self::write_report_info(CommandOpcode::SetIdle, None, *report_id, buffer);
                write_u16_le(buffer, len, u16::from(*freq));
                len + 2
            },
            Command::GetProtocol => {
                let value: u16 = u16::from(CommandOpcode::GetProtocol);
                write_u16_le(buffer, 0, value);
                2
            },
            Command::SetProtocol(protocol) => {
                let value: u16 = u16::from(CommandOpcode::SetProtocol);
                let protocol: u16 = u16::from(*protocol);
                write_u16_le(buffer, 0, value);
                write_u16_le(buffer, 2, protocol);
                4
            },
            Command::SetPower(state) => {
                let opcode: u16 = u16::from(CommandOpcode::SetPower);
                let state: u16 = u16::from(*state);
                let value = opcode | state;
                write_u16_le(buffer, 0, value);
                2
            },
            Command::Vendor => {
                0
            },
        }
    }
}

} // verus!
