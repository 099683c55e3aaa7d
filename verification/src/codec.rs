use vstd::prelude::*;

use crate::cursor::{u16_be_bytes, u16_from_be, ReadCursor, WriteCursor};
use crate::error::{ADUParseError, Bug, Error, ExceptionCode};
use crate::function::Serialize;
use crate::types::{AddressRange, CoilState, Indexed, RegisterValue};

verus! {

/// The two wire bytes of a value are recovered exactly from the value.
pub proof fn lemma_u16_be_injective(hi: u8, lo: u8)
    ensures
        u16_be_bytes(u16_from_be(hi, lo)) == seq![hi, lo],
{
    assert(hi * 256 + lo <= 0xFFFF);
    assert((hi * 256 + lo) / 256 == hi) by (nonlinear_arith);
    assert((hi * 256 + lo) % 256 == lo) by (nonlinear_arith);
    assert(u16_be_bytes(u16_from_be(hi, lo)) =~= seq![hi, lo]);
}

impl Serialize for AddressRange {
    open spec fn wire(&self) -> Seq<u8> {
        u16_be_bytes(self.start) + u16_be_bytes(self.count)
    }

    open spec fn encodable(&self) -> bool {
        true
    }

    open spec fn bug(&self) -> Error {
        Error::InsufficientWriteSpace
    }

    fn serialize(&self, cursor: &mut WriteCursor) -> (r: Result<(), Error>) {
        let res = cursor.write_u16_be(self.start);
        if let Err(e) = res {
            return Err(e);
        }
        let res = cursor.write_u16_be(self.count);
        if let Err(e) = res {
            return Err(e);
        }
        Ok(())
    }
}

/// What the four bytes of a serialized range parse back to: the exact
/// inverse of its wire format, with no validity re-check.
pub open spec fn parse_address_range_spec(data: Seq<u8>) -> Result<AddressRange, Error> {
    if data.len() < 4 {
        Err(Error::InsufficientReadBytes)
    } else {
        Ok(AddressRange {
            start: u16_from_be(data[0], data[1]),
            count: u16_from_be(data[2], data[3]),
        })
    }
}

impl AddressRange {
    pub fn parse(cursor: &mut ReadCursor) -> (r: Result<AddressRange, Error>)
        requires
            old(cursor).wf(),
        ensures
            final(cursor).wf(),
            r == parse_address_range_spec(old(cursor).data()),
            r is Ok ==> final(cursor).data() == old(cursor).data().skip(4),
    {
        let start = match cursor.read_u16_be() {
            Ok(v) => v,
            Err(e) => {
                return Err(e);
            },
        };
        let count = match cursor.read_u16_be() {
            Ok(v) => v,
            Err(e) => {
                return Err(e);
            },
        };
        proof {
            assert(old(cursor).data().skip(2).skip(2) =~= old(cursor).data().skip(4));
        }
        Ok(AddressRange::new(start, count))
    }
}

/// Serializing then parsing a range yields the original range, for every
/// range.
pub proof fn lemma_address_range_round_trip(r: AddressRange)
    ensures
        parse_address_range_spec(r.wire()) == Ok::<AddressRange, Error>(r),
{
    crate::cursor::lemma_u16_be_round_trip(r.start);
    crate::cursor::lemma_u16_be_round_trip(r.count);
}

impl Serialize for Indexed<CoilState> {
    open spec fn wire(&self) -> Seq<u8> {
        u16_be_bytes(self.index) + u16_be_bytes(self.value.to_u16_spec())
    }

    open spec fn encodable(&self) -> bool {
        true
    }

    open spec fn bug(&self) -> Error {
        Error::InsufficientWriteSpace
    }

    fn serialize(&self, cursor: &mut WriteCursor) -> (r: Result<(), Error>) {
        let res = cursor.write_u16_be(self.index);
        if let Err(e) = res {
            return Err(e);
        }
        let res = cursor.write_u16_be(self.value.to_u16());
        if let Err(e) = res {
            return Err(e);
        }
        Ok(())
    }
}

impl Serialize for Indexed<RegisterValue> {
    open spec fn wire(&self) -> Seq<u8> {
        u16_be_bytes(self.index) + u16_be_bytes(self.value.value)
    }

    open spec fn encodable(&self) -> bool {
        true
    }

    open spec fn bug(&self) -> Error {
        Error::InsufficientWriteSpace
    }

    fn serialize(&self, cursor: &mut WriteCursor) -> (r: Result<(), Error>) {
        let res = cursor.write_u16_be(self.index);
        if let Err(e) = res {
            return Err(e);
        }
        let res = cursor.write_u16_be(self.value.value);
        if let Err(e) = res {
            return Err(e);
        }
        Ok(())
    }
}

/// What a single-register write response decodes to, given the original
/// request: four echoed bytes, and any difference from the request is an
/// echo-mismatch failure.
pub open spec fn parse_register_echo_spec(
    request: Indexed<RegisterValue>,
    data: Seq<u8>,
) -> Result<Indexed<RegisterValue>, Error> {
    if data.len() < 4 {
        Err(Error::InsufficientReadBytes)
    } else {
        let response = Indexed {
            index: u16_from_be(data[0], data[1]),
            value: RegisterValue { value: u16_from_be(data[2], data[3]) },
        };
        if response != request {
            Err(Error::BadResponse(ADUParseError::ReplyEchoMismatch))
        } else {
            Ok(response)
        }
    }
}

impl Indexed<RegisterValue> {
    /// Decodes a write-single-register response against the request it
    /// answers.
    pub fn parse_response(cursor: &mut ReadCursor, request: &Indexed<RegisterValue>) -> (r: Result<
        Indexed<RegisterValue>,
        Error,
    >)
        requires
            old(cursor).wf(),
        ensures
            final(cursor).wf(),
            r == parse_register_echo_spec(*request, old(cursor).data()),
            r is Ok ==> final(cursor).data() == old(cursor).data().skip(4),
    {
        let index = match cursor.read_u16_be() {
            Ok(v) => v,
            Err(e) => {
                return Err(e);
            },
        };
        let value = match cursor.read_u16_be() {
            Ok(v) => v,
            Err(e) => {
                return Err(e);
            },
        };
        let response = Indexed::new(index, RegisterValue::new(value));
        if request != &response {
            return Err(Error::BadResponse(ADUParseError::ReplyEchoMismatch));
        }
        proof {
            assert(old(cursor).data().skip(2).skip(2) =~= old(cursor).data().skip(4));
        }
        Ok(response)
    }
}

/// What a single-coil write response decodes to, given the original
/// request: a value byte pair that is no coil sentinel fails on its own;
/// a decoded pair differing from the request is an echo-mismatch failure.
pub open spec fn parse_coil_echo_spec(request: Indexed<CoilState>, data: Seq<u8>) -> Result<
    Indexed<CoilState>,
    Error,
> {
    if data.len() < 4 {
        Err(Error::InsufficientReadBytes)
    } else {
        match CoilState::from_u16_spec(u16_from_be(data[2], data[3])) {
            Err(e) => Err(Error::BadResponse(e)),
            Ok(state) => {
                let response = Indexed { index: u16_from_be(data[0], data[1]), value: state };
                if response != request {
                    Err(Error::BadResponse(ADUParseError::ReplyEchoMismatch))
                } else {
                    Ok(response)
                }
            },
        }
    }
}

impl Indexed<CoilState> {
    /// Decodes a write-single-coil response against the request it answers.
    pub fn parse_response(cursor: &mut ReadCursor, request: &Indexed<CoilState>) -> (r: Result<
        Indexed<CoilState>,
        Error,
    >)
        requires
            old(cursor).wf(),
        ensures
            final(cursor).wf(),
            r == parse_coil_echo_spec(*request, old(cursor).data()),
            r is Ok ==> final(cursor).data() == old(cursor).data().skip(4),
    {
        let index = match cursor.read_u16_be() {
            Ok(v) => v,
            Err(e) => {
                return Err(e);
            },
        };
        let raw = match cursor.read_u16_be() {
            Ok(v) => v,
            Err(e) => {
                return Err(e);
            },
        };
        let state = match CoilState::from_u16(raw) {
            Ok(s) => s,
            Err(e) => {
                return Err(Error::BadResponse(e));
            },
        };
        let response = Indexed::new(index, state);
        if &response != request {
            return Err(Error::BadResponse(ADUParseError::ReplyEchoMismatch));
        }
        proof {
            assert(old(cursor).data().skip(2).skip(2) =~= old(cursor).data().skip(4));
        }
        Ok(response)
    }
}

/// An exact echo of the request decodes successfully to a value equal to
/// the request; a response whose decoded index or value differs from the
/// request always fails with the echo-mismatch error.
pub proof fn lemma_coil_echo_verification(request: Indexed<CoilState>, data: Seq<u8>)
    requires
        data.len() >= 4,
    ensures
        data.take(4) == request.wire() ==> parse_coil_echo_spec(request, data) == Ok::<
            Indexed<CoilState>,
            Error,
        >(request),
        CoilState::from_u16_spec(u16_from_be(data[2], data[3])) is Ok && data.take(4)
            != request.wire() ==> parse_coil_echo_spec(request, data) == Err::<
            Indexed<CoilState>,
            Error,
        >(Error::BadResponse(ADUParseError::ReplyEchoMismatch)),
{
    lemma_u16_be_injective(data[0], data[1]);
    lemma_u16_be_injective(data[2], data[3]);
    crate::cursor::lemma_u16_be_round_trip(request.index);
    crate::cursor::lemma_u16_be_round_trip(request.value.to_u16_spec());
    if data.take(4) == request.wire() {
        assert(data.take(4)[0] == data[0]);
        assert(request.wire()[0] == u16_be_bytes(request.index)[0]);
        assert(request.wire()[1] == u16_be_bytes(request.index)[1]);
        assert(request.wire()[2] == u16_be_bytes(request.value.to_u16_spec())[0]);
        assert(request.wire()[3] == u16_be_bytes(request.value.to_u16_spec())[1]);
        assert(u16_from_be(data[0], data[1]) == request.index);
        assert(u16_from_be(data[2], data[3]) == request.value.to_u16_spec());
    } else if CoilState::from_u16_spec(u16_from_be(data[2], data[3])) is Ok {
        let state = CoilState::from_u16_spec(u16_from_be(data[2], data[3]))->Ok_0;
        let response = Indexed { index: u16_from_be(data[0], data[1]), value: state };
        if response == request {
            assert(state.to_u16_spec() == u16_from_be(data[2], data[3]));
            assert(u16_be_bytes(request.value.to_u16_spec()) == seq![data[2], data[3]]);
            assert(u16_be_bytes(request.index) == seq![data[0], data[1]]);
            assert(data.take(4) =~= request.wire());
            assert(false);
        }
    }
}

impl Serialize for ExceptionCode {
    open spec fn wire(&self) -> Seq<u8> {
        seq![self.to_u8_spec()]
    }

    open spec fn encodable(&self) -> bool {
        true
    }

    open spec fn bug(&self) -> Error {
        Error::InsufficientWriteSpace
    }

    fn serialize(&self, cursor: &mut WriteCursor) -> (r: Result<(), Error>) {
        let res = cursor.write_u8(self.to_u8());
        if let Err(e) = res {
            return Err(e);
        }
        Ok(())
    }
}

/// The packed payload of a register collection: two big-endian bytes per
/// value, most significant first, values in order.
pub open spec fn registers_payload(s: Seq<Indexed<RegisterValue>>) -> Seq<u8> {
    Seq::new(2 * s.len(), |i: int| u16_be_bytes(s[i / 2].value.value)[i % 2])
}

impl Serialize for Vec<Indexed<RegisterValue>> {
    open spec fn wire(&self) -> Seq<u8> {
        seq![(2 * self@.len()) as u8] + registers_payload(self@)
    }

    open spec fn encodable(&self) -> bool {
        2 * self@.len() <= 255
    }

    open spec fn bug(&self) -> Error {
        // the byte count that did not fit; a length whose doubling leaves
        // the machine word (which no vector of four-byte items reaches) is
        // reported at the machine limit
        Error::Internal(
            Bug::ADUTooBig(
                if 2 * self@.len() > usize::MAX {
                    usize::MAX
                } else {
                    (2 * self@.len()) as usize
                },
            ),
        )
    }

    fn serialize(&self, cursor: &mut WriteCursor) -> (r: Result<(), Error>) {
        let byte_count = match self.len().checked_mul(2) {
            Some(b) => b,
            None => usize::MAX,
        };
        if byte_count > 255 {
            return Err(Error::Internal(Bug::ADUTooBig(byte_count)));
        }
        let len = self.len();
        let res = cursor.write_u8(byte_count as u8);
        if let Err(e) = res {
            return Err(e);
        }
        let mut i: usize = 0;
        while i < len
            invariant
                i <= len,
                len == self@.len(),
                len <= 127,
                cursor.written() == old(cursor).written() + seq![(2 * self@.len()) as u8]
                    + registers_payload(self@.take(i as int)),
                cursor.space() + 1 + 2 * i == old(cursor).space(),
            decreases len - i,
        {
            let res = cursor.write_u16_be(self[i].value.value);
            if let Err(e) = res {
                return Err(e);
            }
            proof {
                assert(registers_payload(self@.take(i + 1)) =~= registers_payload(
                    self@.take(i as int),
                ) + u16_be_bytes(self@[i as int].value.value));
                assert(cursor.written() =~= old(cursor).written() + seq![(2 * self@.len()) as u8]
                    + registers_payload(self@.take(i + 1)));
            }
            i = i + 1;
        }
        proof {
            assert(self@.take(len as int) =~= self@);
            assert(cursor.written() =~= old(cursor).written() + self.wire());
        }
        Ok(())
    }
}

/// The decoded items of a registers response payload: 16-bit big-endian
/// values in order, item `k` holding the value at address `start + k`.
pub open spec fn register_response_values(start: u16, count: u16, payload: Seq<u8>) -> Seq<
    Indexed<u16>,
> {
    Seq::new(
        count as nat,
        |k: int|
            Indexed {
                index: (start + k) as u16,
                value: u16_from_be(payload[2 * k], payload[2 * k + 1]),
            },
    )
}

/// What a registers response decodes to, given the original request. The
/// expected byte count is re-derived from the request, never trusted from
/// the wire: the count byte must equal twice the requested count exactly,
/// the remaining bytes must match it exactly, and any deviation is a hard
/// failure, never a partial read.
pub open spec fn parse_registers_spec(request: AddressRange, data: Seq<u8>) -> Result<
    Seq<Indexed<u16>>,
    Error,
> {
    if data.len() < 1 {
        Err(Error::InsufficientReadBytes)
    } else if data[0] != 2 * request.count {
        Err(
            Error::BadResponse(
                ADUParseError::RequestByteCountMismatch(
                    (2 * request.count) as usize,
                    data[0] as usize,
                ),
            ),
        )
    } else if data.len() - 1 != 2 * request.count {
        Err(
            Error::BadResponse(
                ADUParseError::InsufficientBytesForByteCount(
                    data[0] as usize,
                    (data.len() - 1) as usize,
                ),
            ),
        )
    } else {
        Ok(register_response_values(request.start, request.count, data.skip(1)))
    }
}

/// Decodes a read-registers response against the request it answers.
pub fn parse_registers_response(cursor: &mut ReadCursor, request: &AddressRange) -> (r: Result<
    Vec<Indexed<u16>>,
    Error,
>)
    requires
        old(cursor).wf(),
        request.start + request.count <= 0x10000,
    ensures
        final(cursor).wf(),
        r is Ok <==> parse_registers_spec(*request, old(cursor).data()) is Ok,
        r matches Ok(v) ==> v@ == parse_registers_spec(*request, old(cursor).data())->Ok_0
            && final(cursor).data().len() == 0,
        r matches Err(e) ==> e == parse_registers_spec(*request, old(cursor).data())->Err_0,
{
    let byte_count = match cursor.read_u8() {
        Ok(b) => b as usize,
        Err(e) => {
            return Err(e);
        },
    };
    // how many bytes should we have?
    let expected_byte_count: usize = 2 * (request.count as usize);
    if byte_count != expected_byte_count {
        return Err(
            Error::BadResponse(
                ADUParseError::RequestByteCountMismatch(expected_byte_count, byte_count),
            ),
        );
    }
    if expected_byte_count != cursor.len() {
        return Err(
            Error::BadResponse(
                ADUParseError::InsufficientBytesForByteCount(byte_count, cursor.len()),
            ),
        );
    }
    let ghost payload = old(cursor).data().skip(1);
    let mut values: Vec<Indexed<u16>> = Vec::new();
    let mut i: u16 = 0;
    while i < request.count
        invariant
            i <= request.count,
            request.start + request.count <= 0x10000,
            cursor.wf(),
            payload.len() == 2 * request.count,
            cursor.data() == payload.skip(2 * i as int),
            values@.len() == i as int,
            forall|k: int|
                0 <= k < i ==> values@[k] == (Indexed {
                    index: (request.start + k) as u16,
                    value: u16_from_be(payload[2 * k], payload[2 * k + 1]),
                }),
        decreases request.count - i,
    {
        let value = match cursor.read_u16_be() {
            Ok(v) => v,
            Err(e) => {
                proof {
                    assert(false);
                }
                return Err(e);
            },
        };
        values.push(Indexed::new(request.start + i, value));
        proof {
            assert(payload.skip(2 * i as int).skip(2) =~= payload.skip(2 * (i + 1)));
            assert(payload.skip(2 * i as int)[0] == payload[2 * i]);
            assert(payload.skip(2 * i as int)[1] == payload[2 * i + 1]);
        }
        i = i + 1;
    }
    proof {
        assert(values@ =~= register_response_values(request.start, request.count, payload));
        assert(cursor.data().len() == 0);
    }
    Ok(values)
}

/// A registers response whose count byte differs from twice the requested
/// count always fails with the byte-count mismatch error, never silently.
pub proof fn lemma_register_byte_count_mismatch(request: AddressRange, data: Seq<u8>)
    requires
        data.len() >= 1,
        data[0] != 2 * request.count,
    ensures
        parse_registers_spec(request, data) == Err::<Seq<Indexed<u16>>, Error>(
            Error::BadResponse(
                ADUParseError::RequestByteCountMismatch(
                    (2 * request.count) as usize,
                    data[0] as usize,
                ),
            ),
        ),
{
}

/// Bit `i` of a packed byte, counting from the least significant end.
pub open spec fn bit_at(byte: u8, i: u8) -> bool {
    (byte >> i) & 1 == 1
}

/// How many packed bytes a bit response must carry for `count` bits:
/// eight bits to the byte, the last byte padded out.
pub open spec fn expected_bit_byte_count(count: u16) -> int {
    if count % 8 == 0 {
        count as int / 8
    } else {
        count as int / 8 + 1
    }
}

/// The decoded items of a bit response payload: one bit per address
/// starting at `start`, least significant bit first within each byte,
/// and the padding bits beyond `count` ignored.
pub open spec fn bit_response_values(start: u16, count: u16, payload: Seq<u8>) -> Seq<
    Indexed<bool>,
> {
    Seq::new(
        count as nat,
        |k: int| Indexed { index: (start + k) as u16, value: bit_at(payload[k / 8], (k % 8) as u8) },
    )
}

/// What a bit response decodes to, given the original request. The
/// expected byte count is re-derived from the request; the count byte and
/// the remaining length must match it exactly, and any deviation is a
/// hard failure.
pub open spec fn parse_bits_spec(request: AddressRange, data: Seq<u8>) -> Result<
    Seq<Indexed<bool>>,
    Error,
> {
    if data.len() < 1 {
        Err(Error::InsufficientReadBytes)
    } else if data[0] != expected_bit_byte_count(request.count) {
        Err(
            Error::BadResponse(
                ADUParseError::RequestByteCountMismatch(
                    expected_bit_byte_count(request.count) as usize,
                    data[0] as usize,
                ),
            ),
        )
    } else if data.len() - 1 != data[0] {
        Err(
            Error::BadResponse(
                ADUParseError::InsufficientBytesForByteCount(
                    data[0] as usize,
                    (data.len() - 1) as usize,
                ),
            ),
        )
    } else {
        Ok(bit_response_values(request.start, request.count, data.skip(1)))
    }
}

/// Decodes a read-coils or read-discrete-inputs response against the
/// request it answers.
pub fn parse_bits_response(cursor: &mut ReadCursor, request: &AddressRange) -> (r: Result<
    Vec<Indexed<bool>>,
    Error,
>)
    requires
        old(cursor).wf(),
        request.start + request.count <= 0x10000,
    ensures
        final(cursor).wf(),
        r is Ok <==> parse_bits_spec(*request, old(cursor).data()) is Ok,
        r matches Ok(v) ==> v@ == parse_bits_spec(*request, old(cursor).data())->Ok_0
            && final(cursor).data().len() == 0,
        r matches Err(e) ==> e == parse_bits_spec(*request, old(cursor).data())->Err_0,
{
    let byte_count = match cursor.read_u8() {
        Ok(b) => b as usize,
        Err(e) => {
            return Err(e);
        },
    };
    // how many bytes should we have?
    let expected_byte_count: usize = if request.count % 8 == 0 {
        (request.count / 8) as usize
    } else {
        (request.count / 8) as usize + 1
    };
    if byte_count != expected_byte_count {
        return Err(
            Error::BadResponse(
                ADUParseError::RequestByteCountMismatch(expected_byte_count, byte_count),
            ),
        );
    }
    if byte_count != cursor.len() {
        return Err(
            Error::BadResponse(
                ADUParseError::InsufficientBytesForByteCount(byte_count, cursor.len()),
            ),
        );
    }
    let bytes = match cursor.read_bytes(byte_count) {
        Ok(b) => b,
        Err(e) => {
            proof {
                assert(false);
            }
            return Err(e);
        },
    };
    let ghost payload = old(cursor).data().skip(1);
    let mut values: Vec<Indexed<bool>> = Vec::new();
    let mut k: u16 = 0;
    while k < request.count
        invariant
            k <= request.count,
            request.start + request.count <= 0x10000,
            bytes@ == payload,
            bytes@.len() == expected_bit_byte_count(request.count),
            values@.len() == k as int,
            forall|j: int|
                0 <= j < k ==> values@[j] == (Indexed {
                    index: (request.start + j) as u16,
                    value: bit_at(payload[j / 8], (j % 8) as u8),
                }),
        decreases request.count - k,
    {
        proof {
            assert(k / 8 < expected_bit_byte_count(request.count));
        }
        let byte = bytes[(k / 8) as usize];
        let bit_index = (k % 8) as u8;
        let value = ((byte >> bit_index) & 1) == 1;
        values.push(Indexed::new(request.start + k, value));
        k = k + 1;
    }
    proof {
        assert(values@ =~= bit_response_values(request.start, request.count, payload));
    }
    Ok(values)
}

} // verus!
