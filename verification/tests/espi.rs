use embedded_services::espi::{
    offset_to_message, try_offset_to_message, width_at, MemoryMap, Message, Unsigned,
};

#[test]
fn field_widths() {
    let two = [0usize, 4, 180, 188, 190];
    let one = [2usize, 3, 6, 7, 8, 9, 10, 182, 183, 184, 185, 186, 187, 192];
    let mut fields = 0;
    for offset in 0..300usize {
        let expected = if two.contains(&offset) {
            Some(2)
        } else if one.contains(&offset) {
            Some(1)
        } else if (16..=104).contains(&offset) && offset % 4 == 0
            || (112..=168).contains(&offset) && offset % 4 == 0
            || [176, 193, 197, 201].contains(&offset)
        {
            Some(4)
        } else {
            None
        };
        assert_eq!(width_at(offset), expected, "offset {}", offset);
        if expected.is_some() {
            fields += 1;
        }
    }
    assert_eq!(fields, 61);
    assert_eq!(width_at(usize::MAX), None);
    assert_eq!(Unsigned::U8(1).width(), 1);
    assert_eq!(Unsigned::U16(1).width(), 2);
    assert_eq!(Unsigned::U32(1).width(), 4);
}

#[test]
fn offsets_name_messages() {
    assert_eq!(offset_to_message(0, Unsigned::U16(0x0102)), Message::CapsFwVersion(0x0102));
    assert_eq!(offset_to_message(2, Unsigned::U8(7)), Message::CapsSecureState(7));
    assert_eq!(offset_to_message(10, Unsigned::U8(9)), Message::CapsKeyMask(9));
    assert_eq!(offset_to_message(16, Unsigned::U32(5)), Message::BatLastFullCharge(5));
    assert_eq!(offset_to_message(104, Unsigned::U32(6)), Message::BatSampleTime(6));
    assert_eq!(offset_to_message(112, Unsigned::U32(2981)), Message::MptfTmp1Val(2981));
    assert_eq!(offset_to_message(168, Unsigned::U32(1)), Message::MptfMaLimit(1));
    assert_eq!(offset_to_message(176, Unsigned::U32(3)), Message::RtcCapability(3));
    assert_eq!(offset_to_message(180, Unsigned::U16(2026)), Message::RtcYear(2026));
    assert_eq!(offset_to_message(187, Unsigned::U8(1)), Message::RtcValid(1));
    assert_eq!(offset_to_message(190, Unsigned::U16(2047)), Message::RtcTimeZone(2047));
    assert_eq!(offset_to_message(192, Unsigned::U8(1)), Message::RtcDaylight(1));
    assert_eq!(offset_to_message(193, Unsigned::U32(2)), Message::RtcAlarmStatus(2));
    assert_eq!(offset_to_message(197, Unsigned::U32(60)), Message::RtcAcTimeVal(60));
    assert_eq!(offset_to_message(201, Unsigned::U32(90)), Message::RtcDcTimeVal(90));
}

#[test]
fn offsets_without_field_or_of_other_width_give_nothing() {
    assert_eq!(try_offset_to_message(0, Unsigned::U16(1)), Some(Message::CapsFwVersion(1)));
    assert_eq!(try_offset_to_message(0, Unsigned::U8(1)), None);
    assert_eq!(try_offset_to_message(0, Unsigned::U32(1)), None);
    assert_eq!(try_offset_to_message(1, Unsigned::U8(1)), None);
    assert_eq!(try_offset_to_message(11, Unsigned::U8(1)), None);
    assert_eq!(try_offset_to_message(18, Unsigned::U32(1)), None);
    assert_eq!(try_offset_to_message(108, Unsigned::U32(1)), None);
    assert_eq!(try_offset_to_message(172, Unsigned::U32(1)), None);
    assert_eq!(try_offset_to_message(194, Unsigned::U32(1)), None);
    assert_eq!(try_offset_to_message(205, Unsigned::U32(1)), None);
    assert_eq!(try_offset_to_message(192, Unsigned::U8(1)), Some(Message::RtcDaylight(1)));
}

#[test]
fn messages_update_their_field_only() {
    let mut map = MemoryMap::new();
    assert_eq!(map.fw_version, 0);
    map.update_memory_map(&Message::CapsFwVersion(0x0201));
    map.update_memory_map(&Message::BatRemainCap(4200));
    map.update_memory_map(&Message::MptfFanRpm(1800));
    map.update_memory_map(&Message::RtcYear(2026));
    map.update_memory_map(&Message::RtcDcTimeVal(30));
    let expected = MemoryMap {
        fw_version: 0x0201,
        remain_cap: 4200,
        fan_rpm: 1800,
        year: 2026,
        dc_time_val: 30,
        ..MemoryMap::new()
    };
    assert_eq!(map, expected);
    map.update_memory_map(&Message::BatRemainCap(4100));
    assert_eq!(map, MemoryMap { remain_cap: 4100, ..expected });
}

#[test]
fn every_field_is_reached_through_its_offset() {
    let mut map = MemoryMap::new();
    let mut written = 0u32;
    for offset in 0..210usize {
        let value = match width_at(offset) {
            Some(1) => Unsigned::U8(offset as u8 | 1),
            Some(2) => Unsigned::U16(offset as u16 | 1),
            Some(4) => Unsigned::U32(offset as u32 | 1),
            _ => continue,
        };
        let before = map;
        map.update_memory_map(&offset_to_message(offset, value));
        assert_ne!(map, before, "offset {}", offset);
        written += 1;
    }
    assert_eq!(written, 61);
    assert_eq!(map.fw_version, 1);
    assert_eq!(map.key_mask, 11);
    assert_eq!(map.sample_time, 105);
    assert_eq!(map.ma_limit, 169);
    assert_eq!(map.alarm_status, 193);
    assert_eq!(map.dc_time_val, 201);
}
