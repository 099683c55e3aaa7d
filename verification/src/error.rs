use vstd::prelude::*;

verus! {

/// Why a request is rejected locally, before it is ever encoded.
#[derive(Clone, Copy, Debug, PartialEq, Eq, Structural)]
pub enum InvalidRequest {
    /// A range with `count == 0` is never a legal request.
    CountOfZero,
    /// `start + count - 1` does not fit in the 16-bit address space;
    /// carries the offending start and count.
    AddressOverflow(u16, u16),
    /// The count exceeds the per-operation maximum; carries the observed
    /// count and the maximum.
    CountTooBigForType(u16, u16),
}

/// Why received response bytes could not be decoded.
#[derive(Clone, Copy, Debug, PartialEq, Eq, Structural)]
pub enum ADUParseError {
    /// A coil value on the wire was neither 0xFF00 nor 0x0000.
    UnknownCoilState(u16),
    /// A single-write response did not echo the request exactly.
    ReplyEchoMismatch,
    /// The leading byte-count byte differs from the count implied by the
    /// original request; carries the expected and the received count.
    RequestByteCountMismatch(usize, usize),
    /// The bytes remaining after the byte-count byte do not match it;
    /// carries the byte count and the number of remaining bytes.
    InsufficientBytesForByteCount(usize, usize),
}

/// A defect in this library itself, distinguished from protocol errors.
#[derive(Clone, Copy, Debug, PartialEq, Eq, Structural)]
pub enum Bug {
    /// A collection whose byte length cannot fit in the single-byte count
    /// field of the wire format; carries the byte count that did not fit.
    ADUTooBig(usize),
}

/// An exception code carried in a server's error response.
#[derive(Clone, Copy, Debug, PartialEq, Eq, Structural)]
pub enum ExceptionCode {
    IllegalFunction,
    IllegalDataAddress,
    IllegalDataValue,
    ServerDeviceFailure,
    Acknowledge,
    ServerDeviceBusy,
    MemoryParityError,
    GatewayPathUnavailable,
    GatewayTargetDeviceFailedToRespond,
    Unknown(u8),
}

impl ExceptionCode {
    /// The single wire byte of this exception code.
    pub open spec fn to_u8_spec(self) -> u8 {
        match self {
            ExceptionCode::IllegalFunction => 0x01,
            ExceptionCode::IllegalDataAddress => 0x02,
            ExceptionCode::IllegalDataValue => 0x03,
            ExceptionCode::ServerDeviceFailure => 0x04,
            ExceptionCode::Acknowledge => 0x05,
            ExceptionCode::ServerDeviceBusy => 0x06,
            ExceptionCode::MemoryParityError => 0x08,
            ExceptionCode::GatewayPathUnavailable => 0x0A,
            ExceptionCode::GatewayTargetDeviceFailedToRespond => 0x0B,
            ExceptionCode::Unknown(value) => value,
        }
    }

    pub fn to_u8(self) -> (r: u8)
        ensures
            r == self.to_u8_spec(),
    {
        match self {
            ExceptionCode::IllegalFunction => 0x01,
            ExceptionCode::IllegalDataAddress => 0x02,
            ExceptionCode::IllegalDataValue => 0x03,
            ExceptionCode::ServerDeviceFailure => 0x04,
            ExceptionCode::Acknowledge => 0x05,
            ExceptionCode::ServerDeviceBusy => 0x06,
            ExceptionCode::MemoryParityError => 0x08,
            ExceptionCode::GatewayPathUnavailable => 0x0A,
            ExceptionCode::GatewayTargetDeviceFailedToRespond => 0x0B,
            ExceptionCode::Unknown(value) => value,
        }
    }
}

/// Any failure this library reports.
#[derive(Clone, Copy, Debug, PartialEq, Eq, Structural)]
pub enum Error {
    /// A write cursor ran out of space in its buffer.
    InsufficientWriteSpace,
    /// A read cursor ran out of data.
    InsufficientReadBytes,
    /// The request is invalid and was never encoded.
    BadRequest(InvalidRequest),
    /// The response bytes could not be decoded.
    BadResponse(ADUParseError),
    /// A logic defect in this library.
    Internal(Bug),
}

} // verus!
