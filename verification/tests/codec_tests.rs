use rodbus::codec::{parse_bits_response, parse_registers_response};
use rodbus::cursor::{ReadCursor, WriteCursor};
use rodbus::error::{ADUParseError, Bug, Error, InvalidRequest};
use rodbus::function::Serialize;
use rodbus::types::{AddressRange, CoilState, Indexed, RegisterValue};

#[test]
fn serializes_address_range() {
    let range = AddressRange::new(3, 512);
    let mut cursor = WriteCursor::new(4);
    range.serialize(&mut cursor).unwrap();
    assert_eq!(cursor.into_bytes(), vec![0x00, 0x03, 0x02, 0x00]);
}

#[test]
fn address_range_validates_correctly_for_bits() {
    assert_eq!(
        AddressRange::new(0, AddressRange::MAX_BINARY_BITS).check_validity_for_bits(),
        Ok(())
    );
    let err = Err(InvalidRequest::CountTooBigForType(
        AddressRange::MAX_BINARY_BITS + 1,
        AddressRange::MAX_BINARY_BITS,
    ));
    assert_eq!(
        AddressRange::new(0, AddressRange::MAX_BINARY_BITS + 1).check_validity_for_bits(),
        err
    );
}

#[test]
fn address_range_validates_correctly_for_registers() {
    assert_eq!(
        AddressRange::new(0, AddressRange::MAX_REGISTERS).check_validity_for_registers(),
        Ok(())
    );
    let err = Err(InvalidRequest::CountTooBigForType(
        AddressRange::MAX_REGISTERS + 1,
        AddressRange::MAX_REGISTERS,
    ));
    assert_eq!(
        AddressRange::new(0, AddressRange::MAX_REGISTERS + 1).check_validity_for_registers(),
        err
    );
}

#[test]
fn address_range_catches_zero_and_overflow() {
    assert_eq!(
        AddressRange::new(u16::MAX, 1).check_validity_for_bits(),
        Ok(())
    );

    assert_eq!(
        AddressRange::new(0, 0).check_validity_for_bits(),
        Err(InvalidRequest::CountOfZero)
    );
    // 2 items starting at the max index would overflow
    assert_eq!(
        AddressRange::new(u16::MAX, 2).check_validity_for_bits(),
        Err(InvalidRequest::AddressOverflow(u16::MAX, 2))
    );
}

#[test]
fn address_range_round_trips_through_bytes() {
    for (start, count) in [(3u16, 512u16), (0, 1), (u16::MAX, 1), (0x1234, 0x00FF)] {
        let range = AddressRange::new(start, count);
        let mut cursor = WriteCursor::new(4);
        range.serialize(&mut cursor).unwrap();
        let mut reader = ReadCursor::new(cursor.into_bytes());
        assert_eq!(AddressRange::parse(&mut reader), Ok(range));
        assert!(reader.is_empty());
    }
}

#[test]
fn parsing_short_address_range_fails() {
    let mut reader = ReadCursor::new(vec![0x00, 0x03, 0x02]);
    assert_eq!(
        AddressRange::parse(&mut reader),
        Err(Error::InsufficientReadBytes)
    );
}

#[test]
fn write_cursor_rejects_writes_past_capacity() {
    let mut cursor = WriteCursor::new(1);
    assert_eq!(cursor.write_u8(0xAB), Ok(()));
    assert_eq!(cursor.write_u8(0xCD), Err(Error::InsufficientWriteSpace));
    let mut cursor = WriteCursor::new(1);
    assert_eq!(
        cursor.write_u16_be(0xCAFE),
        Err(Error::InsufficientWriteSpace)
    );
    assert_eq!(cursor.remaining(), 1);
}

#[test]
fn read_cursor_rejects_reads_past_end() {
    let mut cursor = ReadCursor::new(vec![0x01]);
    assert_eq!(cursor.read_u16_be(), Err(Error::InsufficientReadBytes));
    assert_eq!(cursor.read_bytes(2), Err(Error::InsufficientReadBytes));
    assert_eq!(cursor.read_u8(), Ok(0x01));
    assert_eq!(cursor.read_u8(), Err(Error::InsufficientReadBytes));
}

#[test]
fn decodes_bit_packed_coils_ignoring_padding() {
    // 10 coils starting at 0: byte-count 2, byte0 = 0b00000101 and six
    // padding bits in byte1 that must be ignored.
    let request = AddressRange::new(0, 10);
    let mut cursor = ReadCursor::new(vec![2, 0b0000_0101, 0b1111_1110]);
    let values = parse_bits_response(&mut cursor, &request).unwrap();
    assert_eq!(values.len(), 10);
    let expected = [
        true, false, true, false, false, false, false, false, false, true,
    ];
    for (k, item) in values.iter().enumerate() {
        assert_eq!(item.index, k as u16);
        assert_eq!(item.value, expected[k]);
    }
}

#[test]
fn bit_response_with_wrong_byte_count_fails() {
    let request = AddressRange::new(0, 10);
    let mut cursor = ReadCursor::new(vec![3, 0, 0, 0]);
    assert_eq!(
        parse_bits_response(&mut cursor, &request),
        Err(Error::BadResponse(ADUParseError::RequestByteCountMismatch(
            2, 3
        )))
    );
}

#[test]
fn bit_response_with_short_body_fails() {
    let request = AddressRange::new(0, 10);
    let mut cursor = ReadCursor::new(vec![2, 0b0000_0101]);
    assert_eq!(
        parse_bits_response(&mut cursor, &request),
        Err(Error::BadResponse(
            ADUParseError::InsufficientBytesForByteCount(2, 1)
        ))
    );
}

#[test]
fn decodes_register_response_values() {
    let request = AddressRange::new(5, 2);
    let mut cursor = ReadCursor::new(vec![4, 0x00, 0x01, 0xFF, 0xFF]);
    let values = parse_registers_response(&mut cursor, &request).unwrap();
    assert_eq!(values, vec![Indexed::new(5, 1), Indexed::new(6, 0xFFFF)]);
}

#[test]
fn register_response_with_wrong_byte_count_fails() {
    let request = AddressRange::new(0, 2);
    let mut cursor = ReadCursor::new(vec![3, 0x00, 0x01, 0xFF]);
    assert_eq!(
        parse_registers_response(&mut cursor, &request),
        Err(Error::BadResponse(ADUParseError::RequestByteCountMismatch(
            4, 3
        )))
    );
}

#[test]
fn register_response_with_short_body_fails() {
    let request = AddressRange::new(0, 2);
    let mut cursor = ReadCursor::new(vec![4, 0x00, 0x01]);
    assert_eq!(
        parse_registers_response(&mut cursor, &request),
        Err(Error::BadResponse(
            ADUParseError::InsufficientBytesForByteCount(4, 2)
        ))
    );
}

#[test]
fn serializes_register_collection_with_byte_count() {
    let values = vec![
        Indexed::new(0, RegisterValue::new(0xCAFE)),
        Indexed::new(1, RegisterValue::new(0x0001)),
    ];
    let mut cursor = WriteCursor::new(5);
    values.serialize(&mut cursor).unwrap();
    assert_eq!(cursor.into_bytes(), vec![4, 0xCA, 0xFE, 0x00, 0x01]);
}

#[test]
fn oversized_register_collection_is_a_bug() {
    let values: Vec<Indexed<RegisterValue>> = (0..128)
        .map(|i| Indexed::new(i, RegisterValue::new(0)))
        .collect();
    let mut cursor = WriteCursor::new(1024);
    assert_eq!(
        values.serialize(&mut cursor),
        Err(Error::Internal(Bug::ADUTooBig(256)))
    );
}

#[test]
fn register_collection_rejects_small_buffer() {
    let values = vec![Indexed::new(0, RegisterValue::new(7))];
    let mut cursor = WriteCursor::new(2);
    assert_eq!(
        values.serialize(&mut cursor),
        Err(Error::InsufficientWriteSpace)
    );
}

#[test]
fn verifies_write_single_coil_echo() {
    let request = Indexed::new(7, CoilState::On);
    let mut cursor = ReadCursor::new(vec![0x00, 0x07, 0xFF, 0x00]);
    assert_eq!(
        Indexed::<CoilState>::parse_response(&mut cursor, &request),
        Ok(request)
    );
    let mut cursor = ReadCursor::new(vec![0x00, 0x08, 0xFF, 0x00]);
    assert_eq!(
        Indexed::<CoilState>::parse_response(&mut cursor, &request),
        Err(Error::BadResponse(ADUParseError::ReplyEchoMismatch))
    );
    let mut cursor = ReadCursor::new(vec![0x00, 0x07, 0x00, 0x00]);
    assert_eq!(
        Indexed::<CoilState>::parse_response(&mut cursor, &request),
        Err(Error::BadResponse(ADUParseError::ReplyEchoMismatch))
    );
}

#[test]
fn verifies_write_single_register_echo() {
    let request = Indexed::new(1, RegisterValue::new(0xABCD));
    let mut cursor = ReadCursor::new(vec![0x00, 0x01, 0xAB, 0xCD]);
    assert_eq!(
        Indexed::<RegisterValue>::parse_response(&mut cursor, &request),
        Ok(request)
    );
    let mut cursor = ReadCursor::new(vec![0x00, 0x01, 0xAB, 0xCE]);
    assert_eq!(
        Indexed::<RegisterValue>::parse_response(&mut cursor, &request),
        Err(Error::BadResponse(ADUParseError::ReplyEchoMismatch))
    );
}

#[test]
fn unknown_coil_sentinel_is_rejected() {
    assert_eq!(
        CoilState::from_u16(0x1234),
        Err(ADUParseError::UnknownCoilState(0x1234))
    );
    // even when it echoes back a mangled sentinel for the written coil
    let request = Indexed::new(7, CoilState::On);
    let mut cursor = ReadCursor::new(vec![0x00, 0x07, 0x12, 0x34]);
    assert_eq!(
        Indexed::<CoilState>::parse_response(&mut cursor, &request),
        Err(Error::BadResponse(ADUParseError::UnknownCoilState(0x1234)))
    );
}

#[test]
fn coil_state_maps_to_and_from_sentinels() {
    assert_eq!(CoilState::from_bool(true), CoilState::On);
    assert_eq!(CoilState::from_bool(false), CoilState::Off);
    assert_eq!(CoilState::On.to_u16(), 0xFF00);
    assert_eq!(CoilState::Off.to_u16(), 0x0000);
    assert_eq!(CoilState::from_u16(0xFF00), Ok(CoilState::On));
    assert_eq!(CoilState::from_u16(0x0000), Ok(CoilState::Off));
}
