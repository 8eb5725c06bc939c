//! Headers of the geometry command stream.

use vstd::prelude::*;

verus! {

/// Command code of a header that starts a new subpath.
pub const CMD_MOVE_TO: u32 = 1;

/// Command code of a header that extends the current subpath.
pub const CMD_LINE_TO: u32 = 2;

/// Command code of a header that closes the current subpath.
pub const CMD_CLOSE_PATH: u32 = 7;

/// The command code of a header: its low three bits.
pub open spec fn header_command(h: u32) -> u32 {
    h & 7
}

/// The repeat count of a header: the bits above the command code.
pub open spec fn header_count(h: u32) -> u32 {
    h >> 3
}

/// The number of stream elements that one repetition of a command consumes.
pub open spec fn arity(command: u32) -> nat {
    if command == CMD_MOVE_TO || command == CMD_LINE_TO {
        2
    } else {
        0
    }
}

/// A header read from the command stream.
#[derive(Clone, Copy, Debug, PartialEq, Eq)]
pub struct Header {
    pub command: u32,
    pub count: u32,
}

/// A header is a command code below eight and a count below `2^29`, and the
/// two parts determine the header: `h == count * 8 + command`.
pub proof fn header_parts(h: u32)
    ensures
        header_command(h) == h % 8,
        header_count(h) == h / 8,
        header_command(h) < 8,
        header_count(h) < 0x2000_0000,
        h == header_count(h) * 8 + header_command(h),
{
    assert((h & 7) == h % 8 && (h >> 3) == h / 8) by (bit_vector);
}

/// Splits a header into its command code and its repeat count.
pub fn parse_header(h: u32) -> (r: Header)
    ensures
        r.command == header_command(h),
        r.count == header_count(h),
{
    Header { command: h & 7, count: h >> 3 }
}

/// The number of stream elements that one repetition of `command` consumes.
pub fn parameters_of(command: u32) -> (n: usize)
    ensures
        n == arity(command),
{
    if command == CMD_MOVE_TO || command == CMD_LINE_TO {
        2
    } else {
        0
    }
}

} // verus!
