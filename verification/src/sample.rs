//! Raw samples and their wire format.  A device hands the kernel's input
//! event records as bytes; one record is 24 bytes on a 64-bit machine (two
//! 64-bit time words, then type, code and value, little endian), and only
//! absolute-axis records for the two tracked axes carry a sample.

use vstd::prelude::*;

verus! {

/// Event type code for absolute axes in the kernel input protocol.
pub const EV_ABS: u16 = 3;

/// Code of the horizontal absolute axis.
pub const ABS_X: u16 = 0;

/// Code of the vertical absolute axis.
pub const ABS_Y: u16 = 1;

/// Size in bytes of one kernel input event record on a 64-bit machine.
pub const EVENT_RECORD_SIZE: usize = 24;

/// Which logical axis a sample belongs to.
#[derive(Clone, Copy, Debug, PartialEq, Eq, Structural)]
pub enum Axis {
    X,
    Y,
    /// Any event that is not an absolute sample of a tracked axis: buttons,
    /// synchronization markers, further axes.  Ignored by the pipeline.
    Other,
}

/// One decoded sample: an axis and the raw absolute position reported for it.
#[derive(Clone, Copy, Debug, PartialEq, Eq, Structural)]
pub struct RawSample {
    pub axis: Axis,
    pub value: i32,
}

/// Little-endian 16-bit word from two bytes.
pub open spec fn le16(b0: u8, b1: u8) -> int {
    b0 + 256 * b1
}

/// Little-endian 32-bit two's-complement value from four bytes.
pub open spec fn le32_signed(b0: u8, b1: u8, b2: u8, b3: u8) -> int {
    let u = b0 + 256 * b1 + 65536 * b2 + 16777216 * b3;
    if u < 2147483648 {
        u
    } else {
        u - 4294967296
    }
}

/// The axis selected by a record's type and code words.
pub open spec fn spec_axis_of(ty: int, code: int) -> Axis {
    if ty == EV_ABS && code == ABS_X {
        Axis::X
    } else if ty == EV_ABS && code == ABS_Y {
        Axis::Y
    } else {
        Axis::Other
    }
}

/// The sample encoded by the record starting at `off`: type word at byte 16,
/// code word at byte 18, value at byte 20.
pub open spec fn spec_sample_at(bytes: Seq<u8>, off: int) -> RawSample {
    RawSample {
        axis: spec_axis_of(
            le16(bytes[off + 16], bytes[off + 17]),
            le16(bytes[off + 18], bytes[off + 19]),
        ),
        value: le32_signed(
            bytes[off + 20],
            bytes[off + 21],
            bytes[off + 22],
            bytes[off + 23],
        ) as i32,
    }
}

/// Decodes the input event record starting at `off`.
pub fn parse_sample(bytes: &Vec<u8>, off: usize) -> (r: RawSample)
    requires
        off + EVENT_RECORD_SIZE <= bytes@.len(),
    ensures
        r == spec_sample_at(bytes@, off as int),
{
    let n = bytes.len();
    assert(off + EVENT_RECORD_SIZE <= n);
    let ty: u16 = bytes[off + 16] as u16 + 256 * (bytes[off + 17] as u16);
    let code: u16 = bytes[off + 18] as u16 + 256 * (bytes[off + 19] as u16);
    let vu: u32 = bytes[off + 20] as u32 + 256 * (bytes[off + 21] as u32) + 65536 * (bytes[off
        + 22] as u32) + 16777216 * (bytes[off + 23] as u32);
    let value: i32 = if vu >= 2147483648u32 {
        (-(4294967296i64 - vu as i64)) as i32
    } else {
        vu as i32
    };
    let axis = if ty == EV_ABS && code == ABS_X {
        Axis::X
    } else if ty == EV_ABS && code == ABS_Y {
        Axis::Y
    } else {
        Axis::Other
    };
    RawSample { axis, value }
}

} // verus!
