//! The header chunk of a standard MIDI file.

use byteorder::ByteOrder;
use vstd::prelude::*;

verus! {

/// The four bytes `MThd` that open a MIDI file, read as a big-endian number.
pub const MIDI_MAGIC: i32 = 0x4d54_6864;

/// The length every header chunk declares for what follows it.
pub const MIDI_HEADER_LENGTH: i32 = 6;

/// Number of bytes of a complete header chunk.
pub const MIDI_HEADER_BYTES: usize = 14;

/// The header chunk up to the number of tracks.
#[derive(Clone, Copy, Debug, PartialEq, Eq, Structural)]
pub struct MidiHeader {
    pub mthd: i32,
    pub header_length: i32,
    pub format: i16,
    pub n: i16,
}

/// Why bytes are no MIDI header.
#[derive(Clone, Copy, Debug, PartialEq, Eq, Structural)]
pub enum MidiError {
    /// The bytes end before the header does.
    Truncated,
    /// The bytes do not open with `MThd`.
    NotMidi,
    /// The header declares a length other than six.
    BadHeaderLength,
}

/// The unsigned number four bytes write, most significant byte first.
pub open spec fn be_u32(b0: u8, b1: u8, b2: u8, b3: u8) -> int {
    b0 * 0x100_0000 + b1 * 0x1_0000 + b2 * 0x100 + b3
}

/// The signed number four bytes write in two's complement, most significant
/// byte first.
pub open spec fn be_i32(b0: u8, b1: u8, b2: u8, b3: u8) -> int {
    if be_u32(b0, b1, b2, b3) >= 0x8000_0000 {
        be_u32(b0, b1, b2, b3) - 0x1_0000_0000
    } else {
        be_u32(b0, b1, b2, b3)
    }
}

/// The signed number two bytes write in two's complement, most significant
/// byte first.
pub open spec fn be_i16(b0: u8, b1: u8) -> int {
    if b0 * 0x100 + b1 >= 0x8000 {
        b0 * 0x100 + b1 - 0x1_0000
    } else {
        b0 * 0x100 + b1
    }
}

/// Calls `byteorder::BigEndian::read_i32` on the bytes from `at` on. That
/// function panics on fewer than four bytes, which the precondition rules
/// out; on four or more it reads the first four as a big-endian number in
/// two's complement.
#[verifier::external_body]
fn read_i32_be(buf: &[u8], at: usize) -> (value: i32)
    requires
        at + 4 <= buf@.len(),
    ensures
        value == be_i32(buf@[at as int], buf@[at + 1], buf@[at + 2], buf@[at + 3]),
{
    byteorder::BigEndian::read_i32(&buf[at..])
}

/// Calls `byteorder::BigEndian::read_i16` on the bytes from `at` on. That
/// function panics on fewer than two bytes, which the precondition rules
/// out; on two or more it reads the first two as a big-endian number in
/// two's complement.
#[verifier::external_body]
fn read_i16_be(buf: &[u8], at: usize) -> (value: i16)
    requires
        at + 2 <= buf@.len(),
    ensures
        value == be_i16(buf@[at as int], buf@[at + 1]),
{
    byteorder::BigEndian::read_i16(&buf[at..])
}

/// The big-endian 32-bit number at position `at`.
pub open spec fn i32_at(bytes: Seq<u8>, at: int) -> int {
    be_i32(bytes[at], bytes[at + 1], bytes[at + 2], bytes[at + 3])
}

/// The big-endian 16-bit number at position `at`.
pub open spec fn i16_at(bytes: Seq<u8>, at: int) -> int {
    be_i16(bytes[at], bytes[at + 1])
}

/// What is wrong with `bytes` as the start of a MIDI file, if anything.
/// The magic number is looked at first, then the declared length, then the
/// rest; at each step the bytes must reach far enough.
pub open spec fn midi_fault(bytes: Seq<u8>) -> Option<MidiError> {
    if bytes.len() < 4 {
        Some(MidiError::Truncated)
    } else if i32_at(bytes, 0) != MIDI_MAGIC {
        Some(MidiError::NotMidi)
    } else if bytes.len() < 8 {
        Some(MidiError::Truncated)
    } else if i32_at(bytes, 4) != MIDI_HEADER_LENGTH {
        Some(MidiError::BadHeaderLength)
    } else if bytes.len() < MIDI_HEADER_BYTES {
        Some(MidiError::Truncated)
    } else {
        None
    }
}

impl MidiHeader {
    /// Reads the header chunk at the start of `bytes`: the header up to the
    /// number of tracks, and the time division that follows it.
    pub fn parse(bytes: &[u8]) -> (header: Result<(MidiHeader, i16), MidiError>)
        ensures
            match header {
                Ok((h, division)) => {
                    &&& midi_fault(bytes@) is None
                    &&& h.mthd == MIDI_MAGIC
                    &&& h.header_length == MIDI_HEADER_LENGTH
                    &&& h.format == i16_at(bytes@, 8)
                    &&& h.n == i16_at(bytes@, 10)
                    &&& division == i16_at(bytes@, 12)
                },
                Err(e) => midi_fault(bytes@) == Some(e),
            },
    {
        if bytes.len() < 4 {
            return Err(MidiError::Truncated);
        }
        let mthd = read_i32_be(bytes, 0);
        if mthd != MIDI_MAGIC {
            return Err(MidiError::NotMidi);
        }
        if bytes.len() < 8 {
            return Err(MidiError::Truncated);
        }
        let header_length = read_i32_be(bytes, 4);
        if header_length != MIDI_HEADER_LENGTH {
            return Err(MidiError::BadHeaderLength);
        }
        if bytes.len() < MIDI_HEADER_BYTES {
            return Err(MidiError::Truncated);
        }
        let format = read_i16_be(bytes, 8);
        let n = read_i16_be(bytes, 10);
        let division = read_i16_be(bytes, 12);
        Ok((MidiHeader { mthd, header_length, format, n }, division))
    }
}

} // verus!
