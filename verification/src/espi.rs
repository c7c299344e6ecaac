//! eSPI service: the memory map that the host reads, and the messages that
//! update it.

use vstd::prelude::*;

verus! {

/// An unsigned value of one of the widths that the memory map holds.
#[derive(Copy, Clone, Debug, PartialEq, Eq, Structural)]
pub enum Unsigned {
    /// One byte
    U8(u8),
    /// Two bytes
    U16(u16),
    /// Four bytes
    U32(u32),
}

impl Unsigned {
    /// Number of bytes of the value.
    pub open spec fn spec_width(self) -> int {
        match self {
            Unsigned::U8(_) => 1,
            Unsigned::U16(_) => 2,
            Unsigned::U32(_) => 4,
        }
    }

    /// Number of bytes of the value
    pub fn width(&self) -> (width: usize)
        ensures
            width == self.spec_width(),
    {
        match self {
            Unsigned::U8(_) => 1,
            Unsigned::U16(_) => 2,
            Unsigned::U32(_) => 4,
        }
    }
}

/// Update of one field of the memory map.
#[derive(Copy, Clone, Debug, PartialEq, Eq, Structural)]
pub enum Message {
    /// CAPS_FW_VERSION
    CapsFwVersion(u16),
    /// CAPS_SECURE_STATE
    CapsSecureState(u8),
    /// CAPS_BOOT_STATUS
    CapsBootStatus(u8),
    /// CAPS_DEBUG_MASK
    CapsDebugMask(u16),
    /// CAPS_BATTERY_MASK
    CapsBatteryMask(u8),
    /// CAPS_FAN_MASK
    CapsFanMask(u8),
    /// CAPS_TEMP_MASK
    CapsTempMask(u8),
    /// CAPS_HID_MASK
    CapsHidMask(u8),
    /// CAPS_KEY_MASK
    CapsKeyMask(u8),
    /// BAT_LAST_FULL_CHARGE (BIX)
    BatLastFullCharge(u32),
    /// BAT_CYCLE_COUNT (BIX)
    BatCycleCount(u32),
    /// BAT_STATE (BST)
    BatState(u32),
    /// BAT_PRESENT_RATE (BST)
    BatPresentRate(u32),
    /// BAT_REMAIN_CAP (BST)
    BatRemainCap(u32),
    /// BAT_PRESENT_VOLT (BST)
    BatPresentVolt(u32),
    /// BAT_PSR_STATE (PSR/PIF)
    BatPsrState(u32),
    /// BAT_PSR_MAX_OUT (PIF)
    BatPsrMaxOut(u32),
    /// BAT_PSR_MAX_IN (PIF)
    BatPsrMaxIn(u32),
    /// BAT_PEAK_LEVEL (BPS)
    BatPeakLevel(u32),
    /// BAT_PEAK_POWER (BPS/BPC)
    BatPeakPower(u32),
    /// BAT_SUS_LEVEL (BPS)
    BatSusLevel(u32),
    /// BAT_SUS_POWER (BPS/PBC)
    BatSusPower(u32),
    /// BAT_PEAK_THRES (BPT)
    BatPeakThres(u32),
    /// BAT_SUS_THRES (BPT)
    BatSusThres(u32),
    /// BAT_TRIP_THRES (BTP)
    BatTripThres(u32),
    /// BAT_BMC_DATA (BMC)
    BatBmcData(u32),
    /// BAT_BMD_STATUS (BMD)
    BatBmdStatus(u32),
    /// BAT_BMD_FLAGS (BMD)
    BatBmdFlags(u32),
    /// BAT_BMD_COUNT (BMD)
    BatBmdCount(u32),
    /// BAT_CHARGE_TIME (BCT)
    BatChargeTime(u32),
    /// BAT_RUN_TIME (BTM)
    BatRunTime(u32),
    /// BAT_SAMPLE_TIME (BMS/BMA)
    BatSampleTime(u32),
    /// THM_TMP1_VAL (TMP)
    MptfTmp1Val(u32),
    /// THM_TMP1_TIMEOUT (EC_THM_SET/GET_THRS)
    MptfTmp1Timeout(u32),
    /// THM_TMP1_LOW (EC_THM_SET/GET_THRS)
    MptfTmp1Low(u32),
    /// THM_TMP1_HIGH (EC_THM_SET/GET_THRS)
    MptfTmp1High(u32),
    /// THM_COOL_MODE (EC_THM_SET_SCP)
    MptfCoolMode(u32),
    /// THM_FAN_ON_TEMP (GET/SET VAR)
    MptfFanOnTemp(u32),
    /// THM_FAN_RAMP_TEMP (GET/SET VAR)
    MptfFanRampTemp(u32),
    /// THM_FAN_MAX_TEMP (GET/SET VAR)
    MptfFanMaxTemp(u32),
    /// THM_FAN_CRT_TEMP (GET/SET VAR)
    MptfFanCrtTemp(u32),
    /// THM_FAN_HOT_TEMP (GET/SET VAR PROCHOT notification)
    MptfFanHotTemp(u32),
    /// THM_FAN_MAX_RPM (GET/SET VAR)
    MptfFanMaxRpm(u32),
    /// THM_FAN_RPM (GET VAR)
    MptfFanRpm(u32),
    /// THM_DBA_LIMIT (GET/SET VAR)
    MptfDbaLimit(u32),
    /// THM_SON_LIMIT (GET/SET VAR)
    MptfSonLimit(u32),
    /// THM_MA_LIMIT (GET/SET VAR)
    MptfMaLimit(u32),
    /// TAS_CAPABILITY (GCP)
    RtcCapability(u32),
    /// TAS_YEAR (GRT/SRT)
    RtcYear(u16),
    /// TAS_MONTH (GRT/SRT)
    RtcMonth(u8),
    /// TAS_DAY (GRT/SRT)
    RtcDay(u8),
    /// TAS_HOUR (GRT/SRT)
    RtcHour(u8),
    /// TAS_MINUTE (GRT/SRT)
    RtcMinute(u8),
    /// TAS_SECOND (GRT/SRT)
    RtcSecond(u8),
    /// TAS_VALID (GRT/SRT)
    RtcValid(u8),
    /// TAS_MS (GRT/SRT)
    RtcMs(u16),
    /// TAS_TIME_ZONE (GRT/SRT)
    RtcTimeZone(u16),
    /// TAS_DAYLIGHT (GRT/SRT)
    RtcDaylight(u8),
    /// TAS_ALARM_STATUS (GWS/CWS)
    RtcAlarmStatus(u32),
    /// TAS_AC_TIME_VAL (STV/TIV)
    RtcAcTimeVal(u32),
    /// TAS_DC_TIME_VAL (STV/TIV)
    RtcDcTimeVal(u32),
}

/// Number of bytes of the field that starts at `offset` of the memory map,
/// if a field starts there.
///
/// The capabilities start at 0, the battery fields at 16, the thermal
/// fields at 112 and the clock fields at 176.
pub open spec fn field_width(offset: int) -> Option<int> {
    if offset == 0 || offset == 4 || offset == 180 || offset == 188 || offset == 190 {
        Some(2)
    } else if offset == 2 || offset == 3 || (6 <= offset <= 10) || (182 <= offset <= 187) || offset
        == 192 {
        Some(1)
    } else if (16 <= offset <= 104 && offset % 4 == 0) || (112 <= offset <= 168 && offset % 4 == 0)
        || offset == 176 || offset == 193 || offset == 197 || offset == 201 {
        Some(4)
    } else {
        None
    }
}

/// Number of bytes of the field that starts at `offset`, if a field starts there
pub fn width_at(offset: usize) -> (width: Option<usize>)
    ensures
        match width {
            Some(width) => field_width(offset as int) == Some(width as int),
            None => field_width(offset as int) is None,
        },
{
    if offset == 0 || offset == 4 || offset == 180 || offset == 188 || offset == 190 {
        Some(2)
    } else if offset == 2 || offset == 3 || (6 <= offset && offset <= 10) || (182 <= offset
        && offset <= 187) || offset == 192 {
        Some(1)
    } else if (16 <= offset && offset <= 104 && offset % 4 == 0) || (112 <= offset && offset <= 168
        && offset % 4 == 0) || offset == 176 || offset == 193 || offset == 197 || offset == 201 {
        Some(4)
    } else {
        None
    }
}

impl Message {
    /// Offset of the field that the message updates.
    pub open spec fn spec_offset(self) -> int {
        match self {
            Message::CapsFwVersion(_) => 0,
            Message::CapsSecureState(_) => 2,
            Message::CapsBootStatus(_) => 3,
            Message::CapsDebugMask(_) => 4,
            Message::CapsBatteryMask(_) => 6,
            Message::CapsFanMask(_) => 7,
            Message::CapsTempMask(_) => 8,
            Message::CapsHidMask(_) => 9,
            Message::CapsKeyMask(_) => 10,
            Message::BatLastFullCharge(_) => 16,
            Message::BatCycleCount(_) => 20,
            Message::BatState(_) => 24,
            Message::BatPresentRate(_) => 28,
            Message::BatRemainCap(_) => 32,
            Message::BatPresentVolt(_) => 36,
            Message::BatPsrState(_) => 40,
            Message::BatPsrMaxOut(_) => 44,
            Message::BatPsrMaxIn(_) => 48,
            Message::BatPeakLevel(_) => 52,
            Message::BatPeakPower(_) => 56,
            Message::BatSusLevel(_) => 60,
            Message::BatSusPower(_) => 64,
            Message::BatPeakThres(_) => 68,
            Message::BatSusThres(_) => 72,
            Message::BatTripThres(_) => 76,
            Message::BatBmcData(_) => 80,
            Message::BatBmdStatus(_) => 84,
            Message::BatBmdFlags(_) => 88,
            Message::BatBmdCount(_) => 92,
            Message::BatChargeTime(_) => 96,
            Message::BatRunTime(_) => 100,
            Message::BatSampleTime(_) => 104,
            Message::MptfTmp1Val(_) => 112,
            Message::MptfTmp1Timeout(_) => 116,
            Message::MptfTmp1Low(_) => 120,
            Message::MptfTmp1High(_) => 124,
            Message::MptfCoolMode(_) => 128,
            Message::MptfFanOnTemp(_) => 132,
            Message::MptfFanRampTemp(_) => 136,
            Message::MptfFanMaxTemp(_) => 140,
            Message::MptfFanCrtTemp(_) => 144,
            Message::MptfFanHotTemp(_) => 148,
            Message::MptfFanMaxRpm(_) => 152,
            Message::MptfFanRpm(_) => 156,
            Message::MptfDbaLimit(_) => 160,
            Message::MptfSonLimit(_) => 164,
            Message::MptfMaLimit(_) => 168,
            Message::RtcCapability(_) => 176,
            Message::RtcYear(_) => 180,
            Message::RtcMonth(_) => 182,
            Message::RtcDay(_) => 183,
            Message::RtcHour(_) => 184,
            Message::RtcMinute(_) => 185,
            Message::RtcSecond(_) => 186,
            Message::RtcValid(_) => 187,
            Message::RtcMs(_) => 188,
            Message::RtcTimeZone(_) => 190,
            Message::RtcDaylight(_) => 192,
            Message::RtcAlarmStatus(_) => 193,
            Message::RtcAcTimeVal(_) => 197,
            Message::RtcDcTimeVal(_) => 201,
        }
    }

    /// Value that the message carries.
    pub open spec fn spec_value(self) -> Unsigned {
        match self {
            Message::CapsFwVersion(value) => Unsigned::U16(value),
            Message::CapsSecureState(value) => Unsigned::U8(value),
            Message::CapsBootStatus(value) => Unsigned::U8(value),
            Message::CapsDebugMask(value) => Unsigned::U16(value),
            Message::CapsBatteryMask(value) => Unsigned::U8(value),
            Message::CapsFanMask(value) => Unsigned::U8(value),
            Message::CapsTempMask(value) => Unsigned::U8(value),
            Message::CapsHidMask(value) => Unsigned::U8(value),
            Message::CapsKeyMask(value) => Unsigned::U8(value),
            Message::BatLastFullCharge(value) => Unsigned::U32(value),
            Message::BatCycleCount(value) => Unsigned::U32(value),
            Message::BatState(value) => Unsigned::U32(value),
            Message::BatPresentRate(value) => Unsigned::U32(value),
            Message::BatRemainCap(value) => Unsigned::U32(value),
            Message::BatPresentVolt(value) => Unsigned::U32(value),
            Message::BatPsrState(value) => Unsigned::U32(value),
            Message::BatPsrMaxOut(value) => Unsigned::U32(value),
            Message::BatPsrMaxIn(value) => Unsigned::U32(value),
            Message::BatPeakLevel(value) => Unsigned::U32(value),
            Message::BatPeakPower(value) => Unsigned::U32(value),
            Message::BatSusLevel(value) => Unsigned::U32(value),
            Message::BatSusPower(value) => Unsigned::U32(value),
            Message::BatPeakThres(value) => Unsigned::U32(value),
            Message::BatSusThres(value) => Unsigned::U32(value),
            Message::BatTripThres(value) => Unsigned::U32(value),
            Message::BatBmcData(value) => Unsigned::U32(value),
            Message::BatBmdStatus(value) => Unsigned::U32(value),
            Message::BatBmdFlags(value) => Unsigned::U32(value),
            Message::BatBmdCount(value) => Unsigned::U32(value),
            Message::BatChargeTime(value) => Unsigned::U32(value),
            Message::BatRunTime(value) => Unsigned::U32(value),
            Message::BatSampleTime(value) => Unsigned::U32(value),
            Message::MptfTmp1Val(value) => Unsigned::U32(value),
            Message::MptfTmp1Timeout(value) => Unsigned::U32(value),
            Message::MptfTmp1Low(value) => Unsigned::U32(value),
            Message::MptfTmp1High(value) => Unsigned::U32(value),
            Message::MptfCoolMode(value) => Unsigned::U32(value),
            Message::MptfFanOnTemp(value) => Unsigned::U32(value),
            Message::MptfFanRampTemp(value) => Unsigned::U32(value),
            Message::MptfFanMaxTemp(value) => Unsigned::U32(value),
            Message::MptfFanCrtTemp(value) => Unsigned::U32(value),
            Message::MptfFanHotTemp(value) => Unsigned::U32(value),
            Message::MptfFanMaxRpm(value) => Unsigned::U32(value),
            Message::MptfFanRpm(value) => Unsigned::U32(value),
            Message::MptfDbaLimit(value) => Unsigned::U32(value),
            Message::MptfSonLimit(value) => Unsigned::U32(value),
            Message::MptfMaLimit(value) => Unsigned::U32(value),
            Message::RtcCapability(value) => Unsigned::U32(value),
            Message::RtcYear(value) => Unsigned::U16(value),
            Message::RtcMonth(value) => Unsigned::U8(value),
            Message::RtcDay(value) => Unsigned::U8(value),
            Message::RtcHour(value) => Unsigned::U8(value),
            Message::RtcMinute(value) => Unsigned::U8(value),
            Message::RtcSecond(value) => Unsigned::U8(value),
            Message::RtcValid(value) => Unsigned::U8(value),
            Message::RtcMs(value) => Unsigned::U16(value),
            Message::RtcTimeZone(value) => Unsigned::U16(value),
            Message::RtcDaylight(value) => Unsigned::U8(value),
            Message::RtcAlarmStatus(value) => Unsigned::U32(value),
            Message::RtcAcTimeVal(value) => Unsigned::U32(value),
            Message::RtcDcTimeVal(value) => Unsigned::U32(value),
        }
    }

    /// Every message updates a field of the width of its value.
    pub proof fn lemma_message_fits(self)
        ensures
            field_width(self.spec_offset()) == Some(self.spec_value().spec_width()),
    {
    }
}

/// The one-byte value
fn value_u8(value: Unsigned) -> (v: u8)
    requires
        value is U8,
    ensures
        value == Unsigned::U8(v),
{
    match value {
        Unsigned::U8(v) => v,
        _ => 0,
    }
}

/// The two-byte value
fn value_u16(value: Unsigned) -> (v: u16)
    requires
        value is U16,
    ensures
        value == Unsigned::U16(v),
{
    match value {
        Unsigned::U16(v) => v,
        _ => 0,
    }
}

/// The four-byte value
fn value_u32(value: Unsigned) -> (v: u32)
    requires
        value is U32,
    ensures
        value == Unsigned::U32(v),
{
    match value {
        Unsigned::U32(v) => v,
        _ => 0,
    }
}

/// The message that writes `value` to the field at `offset`
///
/// A field has to start at the offset, with the width of the value.
pub fn offset_to_message(offset: usize, value: Unsigned) -> (message: Message)
    requires
        field_width(offset as int) == Some(value.spec_width()),
    ensures
        message.spec_offset() == offset,
        message.spec_value() == value,
{
    match offset {
        0 => Message::CapsFwVersion(value_u16(value)),
        2 => Message::CapsSecureState(value_u8(value)),
        3 => Message::CapsBootStatus(value_u8(value)),
        4 => Message::CapsDebugMask(value_u16(value)),
        6 => Message::CapsBatteryMask(value_u8(value)),
        7 => Message::CapsFanMask(value_u8(value)),
        8 => Message::CapsTempMask(value_u8(value)),
        9 => Message::CapsHidMask(value_u8(value)),
        10 => Message::CapsKeyMask(value_u8(value)),
        16 => Message::BatLastFullCharge(value_u32(value)),
        20 => Message::BatCycleCount(value_u32(value)),
        24 => Message::BatState(value_u32(value)),
        28 => Message::BatPresentRate(value_u32(value)),
        32 => Message::BatRemainCap(value_u32(value)),
        36 => Message::BatPresentVolt(value_u32(value)),
        40 => Message::BatPsrState(value_u32(value)),
        44 => Message::BatPsrMaxOut(value_u32(value)),
        48 => Message::BatPsrMaxIn(value_u32(value)),
        52 => Message::BatPeakLevel(value_u32(value)),
        56 => Message::BatPeakPower(value_u32(value)),
        60 => Message::BatSusLevel(value_u32(value)),
        64 => Message::BatSusPower(value_u32(value)),
        68 => Message::BatPeakThres(value_u32(value)),
        72 => Message::BatSusThres(value_u32(value)),
        76 => Message::BatTripThres(value_u32(value)),
        80 => Message::BatBmcData(value_u32(value)),
        84 => Message::BatBmdStatus(value_u32(value)),
        88 => Message::BatBmdFlags(value_u32(value)),
        92 => Message::BatBmdCount(value_u32(value)),
        96 => Message::BatChargeTime(value_u32(value)),
        100 => Message::BatRunTime(value_u32(value)),
        104 => Message::BatSampleTime(value_u32(value)),
        112 => Message::MptfTmp1Val(value_u32(value)),
        116 => Message::MptfTmp1Timeout(value_u32(value)),
        120 => Message::MptfTmp1Low(value_u32(value)),
        124 => Message::MptfTmp1High(value_u32(value)),
        128 => Message::MptfCoolMode(value_u32(value)),
        132 => Message::MptfFanOnTemp(value_u32(value)),
        136 => Message::MptfFanRampTemp(value_u32(value)),
        140 => Message::MptfFanMaxTemp(value_u32(value)),
        144 => Message::MptfFanCrtTemp(value_u32(value)),
        148 => Message::MptfFanHotTemp(value_u32(value)),
        152 => Message::MptfFanMaxRpm(value_u32(value)),
        156 => Message::MptfFanRpm(value_u32(value)),
        160 => Message::MptfDbaLimit(value_u32(value)),
        164 => Message::MptfSonLimit(value_u32(value)),
        168 => Message::MptfMaLimit(value_u32(value)),
        176 => Message::RtcCapability(value_u32(value)),
        180 => Message::RtcYear(value_u16(value)),
        182 => Message::RtcMonth(value_u8(value)),
        183 => Message::RtcDay(value_u8(value)),
        184 => Message::RtcHour(value_u8(value)),
        185 => Message::RtcMinute(value_u8(value)),
        186 => Message::RtcSecond(value_u8(value)),
        187 => Message::RtcValid(value_u8(value)),
        188 => Message::RtcMs(value_u16(value)),
        190 => Message::RtcTimeZone(value_u16(value)),
        192 => Message::RtcDaylight(value_u8(value)),
        193 => Message::RtcAlarmStatus(value_u32(value)),
        197 => Message::RtcAcTimeVal(value_u32(value)),
        201 => Message::RtcDcTimeVal(value_u32(value)),
        _ => {
            // No field starts anywhere else
            Message::CapsFwVersion(value_u16(value))
        },
    }
}

/// The message that writes `value` to the field at `offset`, if a field
/// of the value's width starts there
pub fn try_offset_to_message(offset: usize, value: Unsigned) -> (message: Option<Message>)
    ensures
        message is Some <==> field_width(offset as int) == Some(value.spec_width()),
        message matches Some(m) ==> m.spec_offset() == offset && m.spec_value() == value,
{
    match width_at(offset) {
        Some(width) => {
            if width == value.width() {
                Some(offset_to_message(offset, value))
            } else {
                None
            }
        },
        None => None,
    }
}

/// The memory map that the host reads.
#[derive(Copy, Clone, Debug, PartialEq, Eq, Structural)]
pub struct MemoryMap {
    /// CAPS_FW_VERSION
    pub fw_version: u16,
    /// CAPS_SECURE_STATE
    pub secure_state: u8,
    /// CAPS_BOOT_STATUS
    pub boot_status: u8,
    /// CAPS_DEBUG_MASK
    pub debug_mask: u16,
    /// CAPS_BATTERY_MASK
    pub battery_mask: u8,
    /// CAPS_FAN_MASK
    pub fan_mask: u8,
    /// CAPS_TEMP_MASK
    pub temp_mask: u8,
    /// CAPS_HID_MASK
    pub hid_mask: u8,
    /// CAPS_KEY_MASK
    pub key_mask: u8,
    /// BAT_LAST_FULL_CHARGE (BIX)
    pub last_full_charge: u32,
    /// BAT_CYCLE_COUNT (BIX)
    pub cycle_count: u32,
    /// BAT_STATE (BST)
    pub state: u32,
    /// BAT_PRESENT_RATE (BST)
    pub present_rate: u32,
    /// BAT_REMAIN_CAP (BST)
    pub remain_cap: u32,
    /// BAT_PRESENT_VOLT (BST)
    pub present_volt: u32,
    /// BAT_PSR_STATE (PSR/PIF)
    pub psr_state: u32,
    /// BAT_PSR_MAX_OUT (PIF)
    pub psr_max_out: u32,
    /// BAT_PSR_MAX_IN (PIF)
    pub psr_max_in: u32,
    /// BAT_PEAK_LEVEL (BPS)
    pub peak_level: u32,
    /// BAT_PEAK_POWER (BPS/BPC)
    pub peak_power: u32,
    /// BAT_SUS_LEVEL (BPS)
    pub sus_level: u32,
    /// BAT_SUS_POWER (BPS/PBC)
    pub sus_power: u32,
    /// BAT_PEAK_THRES (BPT)
    pub peak_thres: u32,
    /// BAT_SUS_THRES (BPT)
    pub sus_thres: u32,
    /// BAT_TRIP_THRES (BTP)
    pub trip_thres: u32,
    /// BAT_BMC_DATA (BMC)
    pub bmc_data: u32,
    /// BAT_BMD_STATUS (BMD)
    pub bmd_status: u32,
    /// BAT_BMD_FLAGS (BMD)
    pub bmd_flags: u32,
    /// BAT_BMD_COUNT (BMD)
    pub bmd_count: u32,
    /// BAT_CHARGE_TIME (BCT)
    pub charge_time: u32,
    /// BAT_RUN_TIME (BTM)
    pub run_time: u32,
    /// BAT_SAMPLE_TIME (BMS/BMA)
    pub sample_time: u32,
    /// THM_TMP1_VAL (TMP)
    pub tmp1_val: u32,
    /// THM_TMP1_TIMEOUT (EC_THM_SET/GET_THRS)
    pub tmp1_timeout: u32,
    /// THM_TMP1_LOW (EC_THM_SET/GET_THRS)
    pub tmp1_low: u32,
    /// THM_TMP1_HIGH (EC_THM_SET/GET_THRS)
    pub tmp1_high: u32,
    /// THM_COOL_MODE (EC_THM_SET_SCP)
    pub cool_mode: u32,
    /// THM_FAN_ON_TEMP (GET/SET VAR)
    pub fan_on_temp: u32,
    /// THM_FAN_RAMP_TEMP (GET/SET VAR)
    pub fan_ramp_temp: u32,
    /// THM_FAN_MAX_TEMP (GET/SET VAR)
    pub fan_max_temp: u32,
    /// THM_FAN_CRT_TEMP (GET/SET VAR)
    pub fan_crt_temp: u32,
    /// THM_FAN_HOT_TEMP (GET/SET VAR PROCHOT notification)
    pub fan_hot_temp: u32,
    /// THM_FAN_MAX_RPM (GET/SET VAR)
    pub fan_max_rpm: u32,
    /// THM_FAN_RPM (GET VAR)
    pub fan_rpm: u32,
    /// THM_DBA_LIMIT (GET/SET VAR)
    pub dba_limit: u32,
    /// THM_SON_LIMIT (GET/SET VAR)
    pub son_limit: u32,
    /// THM_MA_LIMIT (GET/SET VAR)
    pub ma_limit: u32,
    /// TAS_CAPABILITY (GCP)
    pub capability: u32,
    /// TAS_YEAR (GRT/SRT)
    pub year: u16,
    /// TAS_MONTH (GRT/SRT)
    pub month: u8,
    /// TAS_DAY (GRT/SRT)
    pub day: u8,
    /// TAS_HOUR (GRT/SRT)
    pub hour: u8,
    /// TAS_MINUTE (GRT/SRT)
    pub minute: u8,
    /// TAS_SECOND (GRT/SRT)
    pub second: u8,
    /// TAS_VALID (GRT/SRT)
    pub valid: u8,
    /// TAS_MS (GRT/SRT)
    pub ms: u16,
    /// TAS_TIME_ZONE (GRT/SRT)
    pub time_zone: u16,
    /// TAS_DAYLIGHT (GRT/SRT)
    pub daylight: u8,
    /// TAS_ALARM_STATUS (GWS/CWS)
    pub alarm_status: u32,
    /// TAS_AC_TIME_VAL (STV/TIV)
    pub ac_time_val: u32,
    /// TAS_DC_TIME_VAL (STV/TIV)
    pub dc_time_val: u32,
}

impl MemoryMap {
    /// The value of the field that starts at `offset`.
    pub open spec fn read_at(self, offset: int) -> Unsigned {
        if offset == 0 {
            Unsigned::U16(self.fw_version)
        } else if offset == 2 {
            Unsigned::U8(self.secure_state)
        } else if offset == 3 {
            Unsigned::U8(self.boot_status)
        } else if offset == 4 {
            Unsigned::U16(self.debug_mask)
        } else if offset == 6 {
            Unsigned::U8(self.battery_mask)
        } else if offset == 7 {
            Unsigned::U8(self.fan_mask)
        } else if offset == 8 {
            Unsigned::U8(self.temp_mask)
        } else if offset == 9 {
            Unsigned::U8(self.hid_mask)
        } else if offset == 10 {
            Unsigned::U8(self.key_mask)
        } else if offset == 16 {
            Unsigned::U32(self.last_full_charge)
        } else if offset == 20 {
            Unsigned::U32(self.cycle_count)
        } else if offset == 24 {
            Unsigned::U32(self.state)
        } else if offset == 28 {
            Unsigned::U32(self.present_rate)
        } else if offset == 32 {
            Unsigned::U32(self.remain_cap)
        } else if offset == 36 {
            Unsigned::U32(self.present_volt)
        } else if offset == 40 {
            Unsigned::U32(self.psr_state)
        } else if offset == 44 {
            Unsigned::U32(self.psr_max_out)
        } else if offset == 48 {
            Unsigned::U32(self.psr_max_in)
        } else if offset == 52 {
            Unsigned::U32(self.peak_level)
        } else if offset == 56 {
            Unsigned::U32(self.peak_power)
        } else if offset == 60 {
            Unsigned::U32(self.sus_level)
        } else if offset == 64 {
            Unsigned::U32(self.sus_power)
        } else if offset == 68 {
            Unsigned::U32(self.peak_thres)
        } else if offset == 72 {
            Unsigned::U32(self.sus_thres)
        } else if offset == 76 {
            Unsigned::U32(self.trip_thres)
        } else if offset == 80 {
            Unsigned::U32(self.bmc_data)
        } else if offset == 84 {
            Unsigned::U32(self.bmd_status)
        } else if offset == 88 {
            Unsigned::U32(self.bmd_flags)
        } else if offset == 92 {
            Unsigned::U32(self.bmd_count)
        } else if offset == 96 {
            Unsigned::U32(self.charge_time)
        } else if offset == 100 {
            Unsigned::U32(self.run_time)
        } else if offset == 104 {
            Unsigned::U32(self.sample_time)
        } else if offset == 112 {
            Unsigned::U32(self.tmp1_val)
        } else if offset == 116 {
            Unsigned::U32(self.tmp1_timeout)
        } else if offset == 120 {
            Unsigned::U32(self.tmp1_low)
        } else if offset == 124 {
            Unsigned::U32(self.tmp1_high)
        } else if offset == 128 {
            Unsigned::U32(self.cool_mode)
        } else if offset == 132 {
            Unsigned::U32(self.fan_on_temp)
        } else if offset == 136 {
            Unsigned::U32(self.fan_ramp_temp)
        } else if offset == 140 {
            Unsigned::U32(self.fan_max_temp)
        } else if offset == 144 {
            Unsigned::U32(self.fan_crt_temp)
        } else if offset == 148 {
            Unsigned::U32(self.fan_hot_temp)
        } else if offset == 152 {
            Unsigned::U32(self.fan_max_rpm)
        } else if offset == 156 {
            Unsigned::U32(self.fan_rpm)
        } else if offset == 160 {
            Unsigned::U32(self.dba_limit)
        } else if offset == 164 {
            Unsigned::U32(self.son_limit)
        } else if offset == 168 {
            Unsigned::U32(self.ma_limit)
        } else if offset == 176 {
            Unsigned::U32(self.capability)
        } else if offset == 180 {
            Unsigned::U16(self.year)
        } else if offset == 182 {
            Unsigned::U8(self.month)
        } else if offset == 183 {
            Unsigned::U8(self.day)
        } else if offset == 184 {
            Unsigned::U8(self.hour)
        } else if offset == 185 {
            Unsigned::U8(self.minute)
        } else if offset == 186 {
            Unsigned::U8(self.second)
        } else if offset == 187 {
            Unsigned::U8(self.valid)
        } else if offset == 188 {
            Unsigned::U16(self.ms)
        } else if offset == 190 {
            Unsigned::U16(self.time_zone)
        } else if offset == 192 {
            Unsigned::U8(self.daylight)
        } else if offset == 193 {
            Unsigned::U32(self.alarm_status)
        } else if offset == 197 {
            Unsigned::U32(self.ac_time_val)
        } else {
            Unsigned::U32(self.dc_time_val)
        }
    }

    /// The memory map with every field zero.
    pub open spec fn spec_new() -> Self {
        MemoryMap {
            fw_version: 0,
            secure_state: 0,
            boot_status: 0,
            debug_mask: 0,
            battery_mask: 0,
            fan_mask: 0,
            temp_mask: 0,
            hid_mask: 0,
            key_mask: 0,
            last_full_charge: 0,
            cycle_count: 0,
            state: 0,
            present_rate: 0,
            remain_cap: 0,
            present_volt: 0,
            psr_state: 0,
            psr_max_out: 0,
            psr_max_in: 0,
            peak_level: 0,
            peak_power: 0,
            sus_level: 0,
            sus_power: 0,
            peak_thres: 0,
            sus_thres: 0,
            trip_thres: 0,
            bmc_data: 0,
            bmd_status: 0,
            bmd_flags: 0,
            bmd_count: 0,
            charge_time: 0,
            run_time: 0,
            sample_time: 0,
            tmp1_val: 0,
            tmp1_timeout: 0,
            tmp1_low: 0,
            tmp1_high: 0,
            cool_mode: 0,
            fan_on_temp: 0,
            fan_ramp_temp: 0,
            fan_max_temp: 0,
            fan_crt_temp: 0,
            fan_hot_temp: 0,
            fan_max_rpm: 0,
            fan_rpm: 0,
            dba_limit: 0,
            son_limit: 0,
            ma_limit: 0,
            capability: 0,
            year: 0,
            month: 0,
            day: 0,
            hour: 0,
            minute: 0,
            second: 0,
            valid: 0,
            ms: 0,
            time_zone: 0,
            daylight: 0,
            alarm_status: 0,
            ac_time_val: 0,
            dc_time_val: 0,
        }
    }

    /// Create a memory map with every field zero
    pub fn new() -> (map: Self)
        ensures
            map == Self::spec_new(),
    {
        MemoryMap {
            fw_version: 0,
            secure_state: 0,
            boot_status: 0,
            debug_mask: 0,
            battery_mask: 0,
            fan_mask: 0,
            temp_mask: 0,
            hid_mask: 0,
            key_mask: 0,
            last_full_charge: 0,
            cycle_count: 0,
            state: 0,
            present_rate: 0,
            remain_cap: 0,
            present_volt: 0,
            psr_state: 0,
            psr_max_out: 0,
            psr_max_in: 0,
            peak_level: 0,
            peak_power: 0,
            sus_level: 0,
            sus_power: 0,
            peak_thres: 0,
            sus_thres: 0,
            trip_thres: 0,
            bmc_data: 0,
            bmd_status: 0,
            bmd_flags: 0,
            bmd_count: 0,
            charge_time: 0,
            run_time: 0,
            sample_time: 0,
            tmp1_val: 0,
            tmp1_timeout: 0,
            tmp1_low: 0,
            tmp1_high: 0,
            cool_mode: 0,
            fan_on_temp: 0,
            fan_ramp_temp: 0,
            fan_max_temp: 0,
            fan_crt_temp: 0,
            fan_hot_temp: 0,
            fan_max_rpm: 0,
            fan_rpm: 0,
            dba_limit: 0,
            son_limit: 0,
            ma_limit: 0,
            capability: 0,
            year: 0,
            month: 0,
            day: 0,
            hour: 0,
            minute: 0,
            second: 0,
            valid: 0,
            ms: 0,
            time_zone: 0,
            daylight: 0,
            alarm_status: 0,
            ac_time_val: 0,
            dc_time_val: 0,
        }
    }

    /// Take a message into the memory map
    ///
    /// The field that the message names takes the value; every other field
    /// stays as it is.
    pub fn update_memory_map(&mut self, msg: &Message)
        ensures
            final(self)@ == old(self)@.insert(msg.spec_offset(), msg.spec_value()),
            final(self).read_at(msg.spec_offset()) == msg.spec_value(),
    {
        match msg {
            Message::CapsFwVersion(fw_version) => self.fw_version = *fw_version,
            Message::CapsSecureState(secure_state) => self.secure_state = *secure_state,
            Message::CapsBootStatus(boot_status) => self.boot_status = *boot_status,
            Message::CapsDebugMask(debug_mask) => self.debug_mask = *debug_mask,
            Message::CapsBatteryMask(battery_mask) => self.battery_mask = *battery_mask,
            Message::CapsFanMask(fan_mask) => self.fan_mask = *fan_mask,
            Message::CapsTempMask(temp_mask) => self.temp_mask = *temp_mask,
            Message::CapsHidMask(hid_mask) => self.hid_mask = *hid_mask,
            Message::CapsKeyMask(key_mask) => self.key_mask = *key_mask,
            Message::BatLastFullCharge(last_full_charge) => self.last_full_charge = *last_full_charge,
            Message::BatCycleCount(cycle_count) => self.cycle_count = *cycle_count,
            Message::BatState(state) => self.state = *state,
            Message::BatPresentRate(present_rate) => self.present_rate = *present_rate,
            Message::BatRemainCap(remain_cap) => self.remain_cap = *remain_cap,
            Message::BatPresentVolt(present_volt) => self.present_volt = *present_volt,
            Message::BatPsrState(psr_state) => self.psr_state = *psr_state,
            Message::BatPsrMaxOut(psr_max_out) => self.psr_max_out = *psr_max_out,
            Message::BatPsrMaxIn(psr_max_in) => self.psr_max_in = *psr_max_in,
            Message::BatPeakLevel(peak_level) => self.peak_level = *peak_level,
            Message::BatPeakPower(peak_power) => self.peak_power = *peak_power,
            Message::BatSusLevel(sus_level) => self.sus_level = *sus_level,
            Message::BatSusPower(sus_power) => self.sus_power = *sus_power,
            Message::BatPeakThres(peak_thres) => self.peak_thres = *peak_thres,
            Message::BatSusThres(sus_thres) => self.sus_thres = *sus_thres,
            Message::BatTripThres(trip_thres) => self.trip_thres = *trip_thres,
            Message::BatBmcData(bmc_data) => self.bmc_data = *bmc_data,
            Message::BatBmdStatus(bmd_status) => self.bmd_status = *bmd_status,
            Message::BatBmdFlags(bmd_flags) => self.bmd_flags = *bmd_flags,
            Message::BatBmdCount(bmd_count) => self.bmd_count = *bmd_count,
            Message::BatChargeTime(charge_time) => self.charge_time = *charge_time,
            Message::BatRunTime(run_time) => self.run_time = *run_time,
            Message::BatSampleTime(sample_time) => self.sample_time = *sample_time,
            Message::MptfTmp1Val(tmp1_val) => self.tmp1_val = *tmp1_val,
            Message::MptfTmp1Timeout(tmp1_timeout) => self.tmp1_timeout = *tmp1_timeout,
            Message::MptfTmp1Low(tmp1_low) => self.tmp1_low = *tmp1_low,
            Message::MptfTmp1High(tmp1_high) => self.tmp1_high = *tmp1_high,
            Message::MptfCoolMode(cool_mode) => self.cool_mode = *cool_mode,
            Message::MptfFanOnTemp(fan_on_temp) => self.fan_on_temp = *fan_on_temp,
            Message::MptfFanRampTemp(fan_ramp_temp) => self.fan_ramp_temp = *fan_ramp_temp,
            Message::MptfFanMaxTemp(fan_max_temp) => self.fan_max_temp = *fan_max_temp,
            Message::MptfFanCrtTemp(fan_crt_temp) => self.fan_crt_temp = *fan_crt_temp,
            Message::MptfFanHotTemp(fan_hot_temp) => self.fan_hot_temp = *fan_hot_temp,
            Message::MptfFanMaxRpm(fan_max_rpm) => self.fan_max_rpm = *fan_max_rpm,
            Message::MptfFanRpm(fan_rpm) => self.fan_rpm = *fan_rpm,
            Message::MptfDbaLimit(dba_limit) => self.dba_limit = *dba_limit,
            Message::MptfSonLimit(son_limit) => self.son_limit = *son_limit,
            Message::MptfMaLimit(ma_limit) => self.ma_limit = *ma_limit,
            Message::RtcCapability(capability) => self.capability = *capability,
            Message::RtcYear(year) => self.year = *year,
            Message::RtcMonth(month) => self.month = *month,
            Message::RtcDay(day) => self.day = *day,
            Message::RtcHour(hour) => self.hour = *hour,
            Message::RtcMinute(minute) => self.minute = *minute,
            Message::RtcSecond(second) => self.second = *second,
            Message::RtcValid(valid) => self.valid = *valid,
            Message::RtcMs(ms) => self.ms = *ms,
            Message::RtcTimeZone(time_zone) => self.time_zone = *time_zone,
            Message::RtcDaylight(daylight) => self.daylight = *daylight,
            Message::RtcAlarmStatus(alarm_status) => self.alarm_status = *alarm_status,
            Message::RtcAcTimeVal(ac_time_val) => self.ac_time_val = *ac_time_val,
            Message::RtcDcTimeVal(dc_time_val) => self.dc_time_val = *dc_time_val,
        }
        assert(self@ =~= old(self)@.insert(msg.spec_offset(), msg.spec_value()));
    }
}

impl View for MemoryMap {
    type V = Map<int, Unsigned>;

    /// The value of each field by the offset at which the field starts.
    open spec fn view(&self) -> Map<int, Unsigned> {
        Map::new(|offset: int| field_width(offset) is Some, |offset: int| self.read_at(offset))
    }
}

} // verus!
