use vstd::prelude::*;

use crate::error::{ADUParseError, InvalidRequest};

verus! {

/// Target device address on a shared bus. Any byte value is legal.
#[derive(Clone, Copy, Debug, PartialEq, Eq, Structural)]
pub struct UnitId {
    id: u8,
}

/// A contiguous register or coil range addressed by a request.
#[derive(Clone, Copy, Debug, PartialEq, Eq, Structural)]
pub struct AddressRange {
    pub start: u16,
    pub count: u16,
}

/// One 16-bit register content.
#[derive(Clone, Copy, Debug, PartialEq, Eq, Structural)]
pub struct RegisterValue {
    pub value: u16,
}

/// A value paired with the address it belongs to.
#[derive(Clone, Copy, Debug, PartialEq, Eq, Structural)]
pub struct Indexed<T> {
    pub index: u16,
    pub value: T,
}

/// A binary coil value. On the wire it is one of exactly two 16-bit
/// sentinels; any other value is a decode error, never coerced.
#[derive(Clone, Copy, Debug, PartialEq, Eq, Structural)]
pub enum CoilState {
    On,
    Off,
}

pub const COIL_ON: u16 = 0xFF00;
pub const COIL_OFF: u16 = 0x0000;

impl CoilState {
    pub open spec fn from_bool_spec(value: bool) -> CoilState {
        if value {
            CoilState::On
        } else {
            CoilState::Off
        }
    }

    pub fn from_bool(value: bool) -> (r: Self)
        ensures
            r == Self::from_bool_spec(value),
    {
        if value {
            CoilState::On
        } else {
            CoilState::Off
        }
    }

    /// The decode of one 16-bit wire value: only the two sentinels are
    /// accepted; everything else is an error carrying the value seen.
    pub open spec fn from_u16_spec(value: u16) -> Result<CoilState, ADUParseError> {
        if value == COIL_ON {
            Ok(CoilState::On)
        } else if value == COIL_OFF {
            Ok(CoilState::Off)
        } else {
            Err(ADUParseError::UnknownCoilState(value))
        }
    }

    pub fn from_u16(value: u16) -> (r: Result<Self, ADUParseError>)
        ensures
            r == Self::from_u16_spec(value),
    {
        if value == COIL_ON {
            Ok(CoilState::On)
        } else if value == COIL_OFF {
            Ok(CoilState::Off)
        } else {
            Err(ADUParseError::UnknownCoilState(value))
        }
    }

    pub open spec fn to_u16_spec(self) -> u16 {
        match self {
            CoilState::On => COIL_ON,
            CoilState::Off => COIL_OFF,
        }
    }

    pub fn to_u16(self) -> (r: u16)
        ensures
            r == self.to_u16_spec(),
    {
        match self {
            CoilState::On => COIL_ON,
            CoilState::Off => COIL_OFF,
        }
    }
}

impl RegisterValue {
    pub fn new(value: u16) -> (r: Self)
        ensures
            r == (RegisterValue { value }),
    {
        RegisterValue { value }
    }
}

impl AddressRange {
    /// The largest register count a single read request may carry.
    pub const MAX_REGISTERS: u16 = 125;

    /// The largest bit count a single read request may carry.
    pub const MAX_BINARY_BITS: u16 = 2000;

    pub fn new(start: u16, count: u16) -> (r: Self)
        ensures
            r == (AddressRange { start, count }),
    {
        AddressRange { start, count }
    }

    /// The validity verdict on this range for an operation capped at
    /// `max_count` items: a zero count, a range whose last address leaves
    /// the 16-bit space, and an oversized count are rejected, in that order.
    pub open spec fn check_validity_spec(self, max_count: u16) -> Result<(), InvalidRequest> {
        if self.count == 0 {
            Err(InvalidRequest::CountOfZero)
        } else if self.start + self.count - 1 > 0xFFFF {
            Err(InvalidRequest::AddressOverflow(self.start, self.count))
        } else if self.count > max_count {
            Err(InvalidRequest::CountTooBigForType(self.count, max_count))
        } else {
            Ok(())
        }
    }

    /// The range is accepted for an operation capped at `max_count` items.
    pub open spec fn is_valid_for(self, max_count: u16) -> bool {
        1 <= self.count <= max_count && self.start + self.count - 1 <= 0xFFFF
    }

    fn check_validity(&self, max_count: u16) -> (r: Result<(), InvalidRequest>)
        ensures
            r == self.check_validity_spec(max_count),
            r is Ok <==> self.is_valid_for(max_count),
    {
        // a count of zero is never valid
        if self.count == 0 {
            return Err(InvalidRequest::CountOfZero);
        }
        // check that start/count don't overflow u16
        let last_address: u32 = (self.start as u32) + (self.count as u32 - 1);
        if last_address > 0xFFFF {
            return Err(InvalidRequest::AddressOverflow(self.start, self.count));
        }
        if self.count > max_count {
            return Err(InvalidRequest::CountTooBigForType(self.count, max_count));
        }
        Ok(())
    }

    pub fn check_validity_for_bits(&self) -> (r: Result<(), InvalidRequest>)
        ensures
            r == self.check_validity_spec(Self::MAX_BINARY_BITS),
            r is Ok <==> self.is_valid_for(Self::MAX_BINARY_BITS),
    {
        self.check_validity(Self::MAX_BINARY_BITS)
    }

    pub fn check_validity_for_registers(&self) -> (r: Result<(), InvalidRequest>)
        ensures
            r == self.check_validity_spec(Self::MAX_REGISTERS),
            r is Ok <==> self.is_valid_for(Self::MAX_REGISTERS),
    {
        self.check_validity(Self::MAX_REGISTERS)
    }
}

/// Validity for register reads: every range with a count in 1..=125 whose
/// last address stays inside the 16-bit space is accepted; a count of zero
/// is always rejected as count-of-zero; a count of 126 always fails, and
/// is rejected as too big whenever its last address stays inside the
/// space; and start 65535 with count 2 is rejected as address overflow.
pub proof fn lemma_register_validity(r: AddressRange)
    ensures
        r.is_valid_for(AddressRange::MAX_REGISTERS) ==> r.check_validity_spec(AddressRange::MAX_REGISTERS) == Ok::<
            (),
            InvalidRequest,
        >(()),
        r.count == 0 ==> r.check_validity_spec(AddressRange::MAX_REGISTERS) == Err::<(), InvalidRequest>(
            InvalidRequest::CountOfZero,
        ),
        r.count == 126 ==> r.check_validity_spec(AddressRange::MAX_REGISTERS) is Err,
        r.count == 126 && r.start + r.count - 1 <= 0xFFFF ==> r.check_validity_spec(AddressRange::MAX_REGISTERS)
            == Err::<(), InvalidRequest>(InvalidRequest::CountTooBigForType(126, AddressRange::MAX_REGISTERS)),
        r.start == 0xFFFF && r.count == 2 ==> r.check_validity_spec(AddressRange::MAX_REGISTERS) == Err::<
            (),
            InvalidRequest,
        >(InvalidRequest::AddressOverflow(0xFFFF, 2)),
{
}

/// Decoding any 16-bit coil value other than the two sentinels always
/// fails with the unknown-sentinel error, never coerced to a boolean.
pub proof fn lemma_unknown_coil_sentinel(value: u16)
    requires
        value != COIL_ON,
        value != COIL_OFF,
    ensures
        CoilState::from_u16_spec(value) == Err::<CoilState, ADUParseError>(
            ADUParseError::UnknownCoilState(value),
        ),
{
}

impl<T> Indexed<T> {
    pub fn new(index: u16, value: T) -> (r: Self)
        ensures
            r == (Indexed { index, value }),
    {
        Indexed { index, value }
    }
}

impl UnitId {
    pub closed spec fn id_spec(self) -> u8 {
        self.id
    }

    pub fn new(unit_id: u8) -> (r: Self)
        ensures
            r.id_spec() == unit_id,
    {
        Self { id: unit_id }
    }

    /// The conventional broadcast-avoiding sentinel address.
    pub fn default() -> (r: Self)
        ensures
            r.id_spec() == 0xFF,
    {
        Self { id: 0xFF }
    }

    pub fn to_u8(self) -> (r: u8)
        ensures
            r == self.id_spec(),
    {
        self.id
    }
}

} // verus!
