//! Time zone and daylight saving fields of an ACPI timestamp.

use crate::time_alarm::TimeAlarmError;
use vstd::prelude::*;

verus! {

/// Daylight saving status of a timestamp.
#[derive(Copy, Clone, Debug, PartialEq, Eq, Structural)]
pub enum AcpiDaylightSavingsTimeStatus {
    /// Daylight savings time is not observed in this timezone.
    NotObserved,
    /// Daylight savings time is observed in this timezone, but the current time has not been adjusted for it.
    NotAdjusted,
    /// Daylight savings time is observed in this timezone, and the current time has been adjusted for it.
    Adjusted,
}

/// The status that a byte stands for.
pub open spec fn dst_status_of(value: u8) -> Result<AcpiDaylightSavingsTimeStatus, TimeAlarmError> {
    if value == 0 {
        Ok(AcpiDaylightSavingsTimeStatus::NotObserved)
    } else if value == 1 {
        Ok(AcpiDaylightSavingsTimeStatus::NotAdjusted)
    } else if value == 3 {
        Ok(AcpiDaylightSavingsTimeStatus::Adjusted)
    } else {
        Err(TimeAlarmError::InvalidArgument)
    }
}

/// The byte that stands for a status.
pub open spec fn dst_code_of(status: AcpiDaylightSavingsTimeStatus) -> u8 {
    match status {
        AcpiDaylightSavingsTimeStatus::NotObserved => 0,
        AcpiDaylightSavingsTimeStatus::NotAdjusted => 1,
        AcpiDaylightSavingsTimeStatus::Adjusted => 3,
    }
}

impl TryFrom<u8> for AcpiDaylightSavingsTimeStatus {
    type Error = TimeAlarmError;

    fn try_from(value: u8) -> (r: Result<Self, TimeAlarmError>) {
        match value {
            0 => Ok(Self::NotObserved),
            1 => Ok(Self::NotAdjusted),
            3 => Ok(Self::Adjusted),
            _ => Err(TimeAlarmError::InvalidArgument),
        }
    }
}

impl vstd::std_specs::convert::TryFromSpecImpl<u8> for AcpiDaylightSavingsTimeStatus {
    open spec fn obeys_try_from_spec() -> bool {
        true
    }

    open spec fn try_from_spec(value: u8) -> Result<Self, TimeAlarmError> {
        dst_status_of(value)
    }
}

impl From<AcpiDaylightSavingsTimeStatus> for u8 {
    fn from(val: AcpiDaylightSavingsTimeStatus) -> (code: Self) {
        match val {
            AcpiDaylightSavingsTimeStatus::NotObserved => 0,
            AcpiDaylightSavingsTimeStatus::NotAdjusted => 1,
            AcpiDaylightSavingsTimeStatus::Adjusted => 3,
        }
    }
}

impl vstd::std_specs::convert::FromSpecImpl<AcpiDaylightSavingsTimeStatus> for u8 {
    open spec fn obeys_from_spec() -> bool {
        true
    }

    open spec fn from_spec(val: AcpiDaylightSavingsTimeStatus) -> Self {
        dst_code_of(val)
    }
}

/// Largest offset from UTC in minutes, in either direction.
pub const MAX_OFFSET_MINUTES: i16 = 1440;

/// Value of the time zone field when the time zone is not specified.
pub const UNSPECIFIED_TIME_ZONE: i16 = 2047;

/// Offset of a time zone from UTC, at most a day in either direction.
#[derive(Copy, Clone, Debug, PartialEq, Eq)]
pub struct AcpiTimeZoneOffset {
    minutes_from_utc: i16,
}

impl AcpiTimeZoneOffset {
    /// The offset in minutes.
    pub closed spec fn spec_minutes_from_utc(&self) -> i16 {
        self.minutes_from_utc
    }

    /// The offset of the given minutes.
    pub closed spec fn spec_new(minutes_from_utc: i16) -> Self {
        AcpiTimeZoneOffset { minutes_from_utc }
    }

    /// The offset is at most a day.
    pub open spec fn wf(&self) -> bool {
        -1440 <= self.spec_minutes_from_utc() <= 1440
    }

    /// Create an offset of the given minutes; more than a day is refused
    pub fn new(minutes_from_utc: i16) -> (r: Result<Self, TimeAlarmError>)
        ensures
            -1440 <= minutes_from_utc <= 1440 <==> r is Ok,
            r matches Ok(offset) ==> offset.wf() && offset.spec_minutes_from_utc()
                == minutes_from_utc && offset == Self::spec_new(minutes_from_utc),
            r matches Err(e) ==> e == TimeAlarmError::InvalidArgument,
    {
        if minutes_from_utc < -MAX_OFFSET_MINUTES || minutes_from_utc > MAX_OFFSET_MINUTES {
            return Err(TimeAlarmError::InvalidArgument);
        }
        Ok(Self { minutes_from_utc })
    }

    /// The offset in minutes
    pub fn minutes_from_utc(&self) -> (minutes: i16)
        ensures
            minutes == self.spec_minutes_from_utc(),
    {
        self.minutes_from_utc
    }
}

/// Time zone of a timestamp.
#[derive(Copy, Clone, Debug, PartialEq, Eq)]
pub enum AcpiTimeZone {
    /// The time zone is not specified and no relation to UTC can be inferred.
    Unknown,
    /// The time zone is this many minutes from UTC.
    MinutesFromUtc(AcpiTimeZoneOffset),
}

/// The time zone that a value of the time zone field stands for.
pub open spec fn time_zone_of(value: i16) -> Result<AcpiTimeZone, TimeAlarmError> {
    if value == 2047 {
        Ok(AcpiTimeZone::Unknown)
    } else if -1440 <= value <= 1440 {
        Ok(AcpiTimeZone::MinutesFromUtc(AcpiTimeZoneOffset::spec_new(value)))
    } else {
        Err(TimeAlarmError::InvalidArgument)
    }
}

impl TryFrom<i16> for AcpiTimeZone {
    type Error = TimeAlarmError;

    fn try_from(value: i16) -> (r: Result<Self, TimeAlarmError>) {
        AcpiTimeZone::from_field(value)
    }
}

impl vstd::std_specs::convert::TryFromSpecImpl<i16> for AcpiTimeZone {
    open spec fn obeys_try_from_spec() -> bool {
        true
    }

    open spec fn try_from_spec(value: i16) -> Result<Self, TimeAlarmError> {
        time_zone_of(value)
    }
}

impl From<AcpiTimeZone> for i16 {
    fn from(val: AcpiTimeZone) -> (value: Self) {
        val.to_field()
    }
}

impl vstd::std_specs::convert::FromSpecImpl<AcpiTimeZone> for i16 {
    open spec fn obeys_from_spec() -> bool {
        true
    }

    open spec fn from_spec(val: AcpiTimeZone) -> Self {
        val.spec_field()
    }
}

impl AcpiTimeZone {
    /// The value of the time zone field.
    pub open spec fn spec_field(self) -> i16 {
        match self {
            AcpiTimeZone::Unknown => 2047,
            AcpiTimeZone::MinutesFromUtc(offset) => offset.spec_minutes_from_utc(),
        }
    }

    /// Read the time zone field: 2047 is unspecified, any other value an
    /// offset, which has to be at most a day
    pub fn from_field(value: i16) -> (r: Result<Self, TimeAlarmError>)
        ensures
            r == time_zone_of(value),
            r matches Ok(zone) ==> zone.spec_field() == value,
    {
        if value == UNSPECIFIED_TIME_ZONE {
            Ok(Self::Unknown)
        } else {
            match AcpiTimeZoneOffset::new(value) {
                Ok(offset) => Ok(Self::MinutesFromUtc(offset)),
                Err(e) => Err(e),
            }
        }
    }

    /// The value of the time zone field
    pub fn to_field(self) -> (value: i16)
        ensures
            value == self.spec_field(),
    {
        match self {
            AcpiTimeZone::Unknown => UNSPECIFIED_TIME_ZONE,
            AcpiTimeZone::MinutesFromUtc(offset) => offset.minutes_from_utc(),
        }
    }
}

} // verus!
