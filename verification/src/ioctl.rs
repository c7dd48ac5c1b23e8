//! Control-request codes in the conventional Linux layout.
//!
//! A code is a 32-bit word: two direction bits on top, fourteen bits of
//! payload size below them, then the magic byte, then the operation number in
//! the lowest byte.

use vstd::prelude::*;

verus! {

/// Which way the payload of a control request travels, seen from the caller.
#[derive(Clone, Copy, Debug, PartialEq, Eq, Structural)]
pub enum Direction {
    /// No payload is transferred.
    Neither,
    /// The caller hands data to the driver.
    Write,
    /// The driver hands data to the caller.
    Read,
    /// Data travels both ways.
    ReadWrite,
}

/// The four fields a control-request code is made of.
#[derive(Clone, Copy, Debug, PartialEq, Eq, Structural)]
pub struct IoctlCommand {
    pub direction: Direction,
    pub magic: u8,
    pub number: u8,
    pub payload_size: u16,
}

/// Why a command has no code.
#[derive(Clone, Copy, Debug, PartialEq, Eq, Structural)]
pub enum CodecError {
    /// The payload size, carried here, does not fit the fourteen-bit field.
    SizeOverflow(u16),
}

/// Number of payload sizes the size field can hold: sizes run from 0 to one below this.
pub const SIZE_LIMIT: u16 = 16384;

/// The two bits that stand for a direction.
pub open spec fn direction_bits(direction: Direction) -> nat {
    match direction {
        Direction::Neither => 0,
        Direction::Write => 1,
        Direction::Read => 2,
        Direction::ReadWrite => 3,
    }
}

/// The direction that two bits stand for.
pub open spec fn direction_from_bits(bits: nat) -> Direction {
    if bits == 0 {
        Direction::Neither
    } else if bits == 1 {
        Direction::Write
    } else if bits == 2 {
        Direction::Read
    } else {
        Direction::ReadWrite
    }
}

/// The code of a command whose size fits: direction, size, magic and number
/// laid side by side, from the top bit down.
pub open spec fn code_of(direction: Direction, magic: u8, number: u8, payload_size: u16) -> nat {
    direction_bits(direction) * 0x4000_0000 + (payload_size as nat) * 0x1_0000 + (magic as nat)
        * 0x100 + (number as nat)
}

/// What `encode` returns: the code where the size fits, the overflow otherwise.
pub open spec fn encode_spec(
    direction: Direction,
    magic: u8,
    number: u8,
    payload_size: u16,
) -> Result<u32, CodecError> {
    if payload_size < SIZE_LIMIT {
        Ok(code_of(direction, magic, number, payload_size) as u32)
    } else {
        Err(CodecError::SizeOverflow(payload_size))
    }
}

/// The fields can be read back from a code: the layout loses nothing.
pub proof fn law_fields_recoverable(direction: Direction, magic: u8, number: u8, payload_size: u16)
    requires
        payload_size < SIZE_LIMIT,
    ensures
        code_of(direction, magic, number, payload_size) <= u32::MAX,
        code_of(direction, magic, number, payload_size) % 0x100 == number,
        code_of(direction, magic, number, payload_size) / 0x100 % 0x100 == magic,
        code_of(direction, magic, number, payload_size) / 0x1_0000 % 0x4000 == payload_size,
        direction_from_bits(code_of(direction, magic, number, payload_size) / 0x4000_0000)
            == direction,
{
}

/// Two commands with the same code are the same command: no two operations,
/// sizes or directions are ever confused.
pub proof fn law_codes_distinct(a: IoctlCommand, b: IoctlCommand)
    requires
        a.payload_size < SIZE_LIMIT,
        b.payload_size < SIZE_LIMIT,
        a.code() == b.code(),
    ensures
        a == b,
{
    law_fields_recoverable(a.direction, a.magic, a.number, a.payload_size);
    law_fields_recoverable(b.direction, b.magic, b.number, b.payload_size);
}

/// A payload size that does not fit is refused whatever the other fields are,
/// and a size that fits is never refused.
pub proof fn law_overflow_refused(direction: Direction, magic: u8, number: u8, payload_size: u16)
    ensures
        encode_spec(direction, magic, number, payload_size) is Err <==> payload_size
            >= SIZE_LIMIT,
        payload_size >= SIZE_LIMIT ==> encode_spec(direction, magic, number, payload_size)
            == Err::<u32, CodecError>(CodecError::SizeOverflow(payload_size)),
{
}

impl Direction {
    /// The direction's two bits as a number.
    pub fn bits(self) -> (r: u32)
        ensures
            r == direction_bits(self),
    {
        match self {
            Direction::Neither => 0,
            Direction::Write => 1,
            Direction::Read => 2,
            Direction::ReadWrite => 3,
        }
    }
}

/// Encodes a command. A payload size of `SIZE_LIMIT` or more is refused, never cut down.
pub fn encode(direction: Direction, magic: u8, number: u8, payload_size: u16) -> (r: Result<
    u32,
    CodecError,
>)
    ensures
        r == encode_spec(direction, magic, number, payload_size),
        payload_size < SIZE_LIMIT ==> r == Ok::<u32, CodecError>(
            (direction_bits(direction) as u32) << 30 | (payload_size as u32) << 16 | (magic as u32) << 8
                | number as u32,
        ),
        payload_size < SIZE_LIMIT ==> code_of(direction, magic, number, payload_size)
            <= u32::MAX,
{
    if payload_size >= SIZE_LIMIT {
        return Err(CodecError::SizeOverflow(payload_size));
    }
    let d: u32 = direction.bits();
    let s: u32 = payload_size as u32;
    let m: u32 = magic as u32;
    let n: u32 = number as u32;
    assert(d << 30 | s << 16 | m << 8 | n == d * 0x4000_0000 + s * 0x1_0000 + m * 0x100 + n)
        by (bit_vector)
        requires
            d < 4,
            s < 16384,
            m < 256,
            n < 256,
    ;
    Ok(d * 0x4000_0000 + s * 0x1_0000 + m * 0x100 + n)
}

impl IoctlCommand {
    /// The code of this command.
    pub open spec fn code(self) -> Result<u32, CodecError> {
        encode_spec(self.direction, self.magic, self.number, self.payload_size)
    }

    /// Encodes this command.
    pub fn encode(&self) -> (r: Result<u32, CodecError>)
        ensures
            r == self.code(),
    {
        self::encode(self.direction, self.magic, self.number, self.payload_size)
    }
}

} // verus!
