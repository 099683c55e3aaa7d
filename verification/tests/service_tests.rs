use rodbus::cursor::WriteCursor;
use rodbus::error::{ExceptionCode, InvalidRequest};
use rodbus::function::{FunctionCode, Serialize, ADU};
use rodbus::runtime::{runtime_destroy, runtime_new, worker_thread_count, RuntimeConfig};
use rodbus::service::{ReadInputRegisters, Request, Service, ServiceRequest, WriteSingleCoil};
use rodbus::types::{AddressRange, CoilState, Indexed, UnitId};

#[test]
fn function_codes_map_to_wire_bytes() {
    assert_eq!(FunctionCode::ReadCoils.get_value(), 1);
    assert_eq!(FunctionCode::ReadDiscreteInputs.get_value(), 2);
    assert_eq!(FunctionCode::ReadHoldingRegisters.get_value(), 3);
    assert_eq!(FunctionCode::ReadInputRegisters.get_value(), 4);
    assert_eq!(FunctionCode::WriteSingleCoil.get_value(), 5);
    assert_eq!(FunctionCode::WriteSingleRegister.get_value(), 6);
}

#[test]
fn function_code_lookup_inverts_wire_bytes() {
    for byte in 1u8..=6 {
        let code = FunctionCode::get(byte).unwrap();
        assert_eq!(code.get_value(), byte);
    }
    assert_eq!(FunctionCode::get(0), None);
    assert_eq!(FunctionCode::get(7), None);
    // the write-multiple codes are recognized protocol concepts but
    // deliberately unsupported
    assert_eq!(FunctionCode::get(15), None);
    assert_eq!(FunctionCode::get(16), None);
    assert_eq!(FunctionCode::get(0x81), None);
}

#[test]
fn error_function_byte_sets_high_bit() {
    assert_eq!(FunctionCode::ReadCoils.as_error(), 0x81);
    assert_eq!(FunctionCode::WriteSingleRegister.as_error(), 0x86);
}

#[test]
fn function_codes_have_names() {
    assert_eq!(FunctionCode::ReadCoils.name(), "READ COILS");
    assert_eq!(FunctionCode::WriteSingleCoil.name(), "WRITE SINGLE COIL");
}

#[test]
fn adu_prefixes_body_with_function_byte() {
    let range = AddressRange::new(1, 3);
    let adu = ADU::new(FunctionCode::ReadInputRegisters.get_value(), &range);
    let mut cursor = WriteCursor::new(5);
    adu.serialize(&mut cursor).unwrap();
    assert_eq!(cursor.into_bytes(), vec![0x04, 0x00, 0x01, 0x00, 0x03]);
}

#[test]
fn exception_response_serializes_as_two_bytes() {
    let code = ExceptionCode::IllegalDataAddress;
    let adu = ADU::new(FunctionCode::ReadCoils.as_error(), &code);
    let mut cursor = WriteCursor::new(2);
    adu.serialize(&mut cursor).unwrap();
    assert_eq!(cursor.into_bytes(), vec![0x81, 0x02]);
}

#[test]
fn exception_codes_map_to_bytes() {
    assert_eq!(ExceptionCode::IllegalFunction.to_u8(), 0x01);
    assert_eq!(ExceptionCode::ServerDeviceBusy.to_u8(), 0x06);
    assert_eq!(ExceptionCode::MemoryParityError.to_u8(), 0x08);
    assert_eq!(ExceptionCode::GatewayPathUnavailable.to_u8(), 0x0A);
    assert_eq!(ExceptionCode::Unknown(0x7F).to_u8(), 0x7F);
}

#[test]
fn unit_id_round_trips_and_defaults() {
    assert_eq!(UnitId::new(0x2A).to_u8(), 0x2A);
    assert_eq!(UnitId::default().to_u8(), 0xFF);
}

#[test]
fn read_input_registers_binding() {
    assert_eq!(
        ReadInputRegisters::request_function_code(),
        FunctionCode::ReadInputRegisters
    );
    let range = AddressRange::new(0, 10);
    assert_eq!(ReadInputRegisters::check_request_validity(&range), Ok(()));
    let oversized = AddressRange::new(0, 126);
    assert_eq!(
        ReadInputRegisters::check_request_validity(&oversized),
        Err(InvalidRequest::CountTooBigForType(126, 125))
    );
    let request = ServiceRequest::<ReadInputRegisters>::new(UnitId::new(1), range);
    let request = ReadInputRegisters::create_request(request);
    assert!(matches!(request, Request::ReadInputRegisters(_)));
}

#[test]
fn write_single_coil_binding() {
    assert_eq!(
        WriteSingleCoil::request_function_code(),
        FunctionCode::WriteSingleCoil
    );
    let argument = Indexed::new(3, CoilState::On);
    assert_eq!(WriteSingleCoil::check_request_validity(&argument), Ok(()));
    let request = ServiceRequest::<WriteSingleCoil>::new(UnitId::default(), argument);
    let request = WriteSingleCoil::create_request(request);
    assert!(matches!(request, Request::WriteSingleCoil(_)));
}

#[test]
fn worker_thread_override_follows_configuration() {
    assert_eq!(worker_thread_count(None), None);
    assert_eq!(
        worker_thread_count(Some(&RuntimeConfig {
            num_core_threads: 0
        })),
        None
    );
    assert_eq!(
        worker_thread_count(Some(&RuntimeConfig {
            num_core_threads: 2
        })),
        Some(2)
    );
}

#[test]
fn destroy_absent_runtime_handle_is_noop() {
    runtime_destroy(None);
}

#[test]
fn creates_and_destroys_runtime() {
    let handle = runtime_new(Some(&RuntimeConfig {
        num_core_threads: 1,
    }));
    assert!(handle.is_some());
    runtime_destroy(handle);
}
