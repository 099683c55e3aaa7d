use vstd::prelude::*;

use crate::error::InvalidRequest;
use crate::function::FunctionCode;
use crate::types::{AddressRange, CoilState, Indexed, RegisterValue, UnitId};

verus! {

/// The compile-time binding of one operation: its function code, its
/// request and response types, the validity check that must pass before
/// any bytes are produced, and the lift into the closed request sum.
/// Binding these together per operation is what keeps a request type from
/// ever being paired with the wrong response decoder or function code.
pub trait Service: Sized {
    type ClientRequest;

    type ClientResponse;

    /// The function code this operation goes out under.
    spec fn function_code_spec() -> FunctionCode;

    fn request_function_code() -> (c: FunctionCode)
        ensures
            c == Self::function_code_spec(),
    ;

    /// The validity verdict this operation gives a request before send.
    spec fn validity_spec(request: Self::ClientRequest) -> Result<(), InvalidRequest>;

    fn check_request_validity(request: &Self::ClientRequest) -> (r: Result<(), InvalidRequest>)
        ensures
            r == Self::validity_spec(*request),
    ;

    /// The request-sum variant this operation lifts its requests into.
    spec fn lift_spec(request: ServiceRequest<Self>) -> Request;

    fn create_request(request: ServiceRequest<Self>) -> (r: Request)
        ensures
            r == Self::lift_spec(request),
    ;
}

/// A request for the operation `S`, addressed to one unit, awaiting
/// hand-off to the dispatcher.
pub struct ServiceRequest<S: Service> {
    pub id: UnitId,
    pub argument: S::ClientRequest,
}

impl<S: Service> ServiceRequest<S> {
    pub fn new(id: UnitId, argument: S::ClientRequest) -> (r: Self)
        ensures
            r == (ServiceRequest::<S> { id, argument }),
    {
        ServiceRequest { id, argument }
    }
}

/// The closed sum of requests this protocol can carry: one variant per
/// supported operation, constructed only through `Service::create_request`.
pub enum Request {
    ReadCoils(ServiceRequest<ReadCoils>),
    ReadDiscreteInputs(ServiceRequest<ReadDiscreteInputs>),
    ReadHoldingRegisters(ServiceRequest<ReadHoldingRegisters>),
    ReadInputRegisters(ServiceRequest<ReadInputRegisters>),
    WriteSingleCoil(ServiceRequest<WriteSingleCoil>),
    WriteSingleRegister(ServiceRequest<WriteSingleRegister>),
}

pub struct ReadCoils;

impl Service for ReadCoils {
    type ClientRequest = AddressRange;

    type ClientResponse = Vec<Indexed<bool>>;

    open spec fn function_code_spec() -> FunctionCode {
        FunctionCode::ReadCoils
    }

    fn request_function_code() -> (c: FunctionCode) {
        FunctionCode::ReadCoils
    }

    open spec fn validity_spec(request: AddressRange) -> Result<(), InvalidRequest> {
        request.check_validity_spec(AddressRange::MAX_BINARY_BITS)
    }

    fn check_request_validity(request: &AddressRange) -> (r: Result<(), InvalidRequest>) {
        request.check_validity_for_bits()
    }

    open spec fn lift_spec(request: ServiceRequest<ReadCoils>) -> Request {
        Request::ReadCoils(request)
    }

    fn create_request(request: ServiceRequest<ReadCoils>) -> (r: Request) {
        Request::ReadCoils(request)
    }
}

pub struct ReadDiscreteInputs;

impl Service for ReadDiscreteInputs {
    type ClientRequest = AddressRange;

    type ClientResponse = Vec<Indexed<bool>>;

    open spec fn function_code_spec() -> FunctionCode {
        FunctionCode::ReadDiscreteInputs
    }

    fn request_function_code() -> (c: FunctionCode) {
        FunctionCode::ReadDiscreteInputs
    }

    open spec fn validity_spec(request: AddressRange) -> Result<(), InvalidRequest> {
        request.check_validity_spec(AddressRange::MAX_BINARY_BITS)
    }

    fn check_request_validity(request: &AddressRange) -> (r: Result<(), InvalidRequest>) {
        request.check_validity_for_bits()
    }

    open spec fn lift_spec(request: ServiceRequest<ReadDiscreteInputs>) -> Request {
        Request::ReadDiscreteInputs(request)
    }

    fn create_request(request: ServiceRequest<ReadDiscreteInputs>) -> (r: Request) {
        Request::ReadDiscreteInputs(request)
    }
}

pub struct ReadHoldingRegisters;

impl Service for ReadHoldingRegisters {
    type ClientRequest = AddressRange;

    type ClientResponse = Vec<Indexed<u16>>;

    open spec fn function_code_spec() -> FunctionCode {
        FunctionCode::ReadHoldingRegisters
    }

    fn request_function_code() -> (c: FunctionCode) {
        FunctionCode::ReadHoldingRegisters
    }

    open spec fn validity_spec(request: AddressRange) -> Result<(), InvalidRequest> {
        request.check_validity_spec(AddressRange::MAX_REGISTERS)
    }

    fn check_request_validity(request: &AddressRange) -> (r: Result<(), InvalidRequest>) {
        request.check_validity_for_registers()
    }

    open spec fn lift_spec(request: ServiceRequest<ReadHoldingRegisters>) -> Request {
        Request::ReadHoldingRegisters(request)
    }

    fn create_request(request: ServiceRequest<ReadHoldingRegisters>) -> (r: Request) {
        Request::ReadHoldingRegisters(request)
    }
}

pub struct ReadInputRegisters;

impl Service for ReadInputRegisters {
    type ClientRequest = AddressRange;

    type ClientResponse = Vec<Indexed<u16>>;

    open spec fn function_code_spec() -> FunctionCode {
        FunctionCode::ReadInputRegisters
    }

    fn request_function_code() -> (c: FunctionCode) {
        FunctionCode::ReadInputRegisters
    }

    open spec fn validity_spec(request: AddressRange) -> Result<(), InvalidRequest> {
        request.check_validity_spec(AddressRange::MAX_REGISTERS)
    }

    fn check_request_validity(request: &AddressRange) -> (r: Result<(), InvalidRequest>) {
        request.check_validity_for_registers()
    }

    open spec fn lift_spec(request: ServiceRequest<ReadInputRegisters>) -> Request {
        Request::ReadInputRegisters(request)
    }

    fn create_request(request: ServiceRequest<ReadInputRegisters>) -> (r: Request) {
        Request::ReadInputRegisters(request)
    }
}

pub struct WriteSingleCoil;

impl Service for WriteSingleCoil {
    type ClientRequest = Indexed<CoilState>;

    type ClientResponse = Indexed<CoilState>;

    open spec fn function_code_spec() -> FunctionCode {
        FunctionCode::WriteSingleCoil
    }

    fn request_function_code() -> (c: FunctionCode) {
        FunctionCode::WriteSingleCoil
    }

    open spec fn validity_spec(request: Indexed<CoilState>) -> Result<(), InvalidRequest> {
        Ok(())
    }

    fn check_request_validity(request: &Indexed<CoilState>) -> (r: Result<(), InvalidRequest>) {
        Ok(())
    }

    open spec fn lift_spec(request: ServiceRequest<WriteSingleCoil>) -> Request {
        Request::WriteSingleCoil(request)
    }

    fn create_request(request: ServiceRequest<WriteSingleCoil>) -> (r: Request) {
        Request::WriteSingleCoil(request)
    }
}

pub struct WriteSingleRegister;

impl Service for WriteSingleRegister {
    type ClientRequest = Indexed<RegisterValue>;

    type ClientResponse = Indexed<RegisterValue>;

    open spec fn function_code_spec() -> FunctionCode {
        FunctionCode::WriteSingleRegister
    }

    fn request_function_code() -> (c: FunctionCode) {
        FunctionCode::WriteSingleRegister
    }

    open spec fn validity_spec(request: Indexed<RegisterValue>) -> Result<(), InvalidRequest> {
        Ok(())
    }

    fn check_request_validity(request: &Indexed<RegisterValue>) -> (r: Result<(), InvalidRequest>) {
        Ok(())
    }

    open spec fn lift_spec(request: ServiceRequest<WriteSingleRegister>) -> Request {
        Request::WriteSingleRegister(request)
    }

    fn create_request(request: ServiceRequest<WriteSingleRegister>) -> (r: Request) {
        Request::WriteSingleRegister(request)
    }
}

} // verus!
