use vstd::prelude::*;

use crate::cursor::WriteCursor;
use crate::error::Error;

verus! {

/// The closed set of supported operations, identified by one wire byte.
#[derive(Debug, Copy, Clone, PartialEq, Eq, Structural)]
pub enum FunctionCode {
    ReadCoils,
    ReadDiscreteInputs,
    ReadHoldingRegisters,
    ReadInputRegisters,
    WriteSingleCoil,
    WriteSingleRegister,
}

impl FunctionCode {
    /// The wire byte of each operation.
    pub open spec fn get_value_spec(self) -> u8 {
        match self {
            FunctionCode::ReadCoils => 1,
            FunctionCode::ReadDiscreteInputs => 2,
            FunctionCode::ReadHoldingRegisters => 3,
            FunctionCode::ReadInputRegisters => 4,
            FunctionCode::WriteSingleCoil => 5,
            FunctionCode::WriteSingleRegister => 6,
        }
    }

    pub fn get_value(self) -> (r: u8)
        ensures
            r == self.get_value_spec(),
    {
        match self {
            FunctionCode::ReadCoils => 1,
            FunctionCode::ReadDiscreteInputs => 2,
            FunctionCode::ReadHoldingRegisters => 3,
            FunctionCode::ReadInputRegisters => 4,
            FunctionCode::WriteSingleCoil => 5,
            FunctionCode::WriteSingleRegister => 6,
        }
    }

    /// The function byte of an exception response: the wire byte with its
    /// high bit set.
    pub open spec fn as_error_spec(self) -> u8 {
        (self.get_value_spec() + 0x80) as u8
    }

    pub fn as_error(self) -> (r: u8)
        ensures
            r == self.as_error_spec(),
    {
        let v = self.get_value();
        proof {
            assert((v | 0x80) == v + 0x80) by (bit_vector)
                requires
                    v < 0x80,
            ;
        }
        v | 0x80
    }

    /// The inverse of `get_value_spec`: no byte outside the closed set is
    /// recognized, the write-multiple codes included.
    pub open spec fn get_spec(value: u8) -> Option<FunctionCode> {
        if value == 1 {
            Some(FunctionCode::ReadCoils)
        } else if value == 2 {
            Some(FunctionCode::ReadDiscreteInputs)
        } else if value == 3 {
            Some(FunctionCode::ReadHoldingRegisters)
        } else if value == 4 {
            Some(FunctionCode::ReadInputRegisters)
        } else if value == 5 {
            Some(FunctionCode::WriteSingleCoil)
        } else if value == 6 {
            Some(FunctionCode::WriteSingleRegister)
        } else {
            None
        }
    }

    pub fn get(value: u8) -> (r: Option<Self>)
        ensures
            r == Self::get_spec(value),
    {
        match value {
            1 => Some(FunctionCode::ReadCoils),
            2 => Some(FunctionCode::ReadDiscreteInputs),
            3 => Some(FunctionCode::ReadHoldingRegisters),
            4 => Some(FunctionCode::ReadInputRegisters),
            5 => Some(FunctionCode::WriteSingleCoil),
            6 => Some(FunctionCode::WriteSingleRegister),
            _ => None,
        }
    }

    /// The operation's display name.
    pub open spec fn name_spec(self) -> Seq<char> {
        match self {
            FunctionCode::ReadCoils => "READ COILS"@,
            FunctionCode::ReadDiscreteInputs => "READ DISCRETE INPUTS"@,
            FunctionCode::ReadHoldingRegisters => "READ HOLDING REGISTERS"@,
            FunctionCode::ReadInputRegisters => "READ INPUT REGISTERS"@,
            FunctionCode::WriteSingleCoil => "WRITE SINGLE COIL"@,
            FunctionCode::WriteSingleRegister => "WRITE SINGLE REGISTERS"@,
        }
    }

    pub fn name(self) -> (r: &'static str)
        ensures
            r@ == self.name_spec(),
    {
        match self {
            FunctionCode::ReadCoils => "READ COILS",
            FunctionCode::ReadDiscreteInputs => "READ DISCRETE INPUTS",
            FunctionCode::ReadHoldingRegisters => "READ HOLDING REGISTERS",
            FunctionCode::ReadInputRegisters => "READ INPUT REGISTERS",
            FunctionCode::WriteSingleCoil => "WRITE SINGLE COIL",
            FunctionCode::WriteSingleRegister => "WRITE SINGLE REGISTERS",
        }
    }
}

/// A value with a fixed place in the wire format. `wire` is the exact byte
/// string the value stands for; `encodable` says whether the wire format
/// can hold it at all, and `bug` which defect is reported when it cannot.
/// For a value the format always holds, `encodable` is constantly true
/// and `bug` is never relied on.
pub trait Serialize {
    spec fn wire(&self) -> Seq<u8>;

    spec fn encodable(&self) -> bool;

    spec fn bug(&self) -> Error;

    /// Appends exactly `wire` to the cursor, or reports why it cannot:
    /// a value the format cannot hold yields its `bug` error, and a buffer
    /// with too little room the out-of-space error. A failed write never
    /// writes past what a successful prefix already placed.
    fn serialize(&self, cursor: &mut WriteCursor) -> (r: Result<(), Error>)
        ensures
            r is Ok <==> self.encodable() && self.wire().len() <= old(cursor).space(),
            r is Ok ==> final(cursor).written() == old(cursor).written() + self.wire()
                && final(cursor).space() == old(cursor).space() - self.wire().len(),
            r is Err ==> old(cursor).written().is_prefix_of(final(cursor).written())
                && final(cursor).space() <= old(cursor).space(),
            self.encodable() && r is Err ==> r == Err::<(), Error>(Error::InsufficientWriteSpace),
            !self.encodable() ==> r == Err::<(), Error>(self.bug())
                || r == Err::<(), Error>(Error::InsufficientWriteSpace),
    ;
}

/// One protocol data unit: a function-code byte paired with a body that
/// serializes itself right after it.
pub struct ADU<'a, T> where T: Serialize {
    function: u8,
    body: &'a T,
}

impl<'a, T> ADU<'a, T> where T: Serialize {
    pub fn new(function: u8, body: &'a T) -> (r: Self)
        ensures
            r.wire() == seq![function] + body.wire(),
            r.encodable() == body.encodable(),
            r.bug() == body.bug(),
    {
        ADU { function, body }
    }
}

impl<'a, T> Serialize for ADU<'a, T> where T: Serialize {
    closed spec fn wire(&self) -> Seq<u8> {
        seq![self.function] + self.body.wire()
    }

    closed spec fn encodable(&self) -> bool {
        self.body.encodable()
    }

    closed spec fn bug(&self) -> Error {
        self.body.bug()
    }

    fn serialize(&self, cursor: &mut WriteCursor) -> (r: Result<(), Error>) {
        let res = cursor.write_u8(self.function);
        if let Err(e) = res {
            return Err(e);
        }
        self.body.serialize(cursor)
    }
}

} // verus!
