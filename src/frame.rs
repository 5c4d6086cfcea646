//! Decoding of the sensor frames that the driver lends to the callback.
use vstd::prelude::*;

verus! {

/// Bytes of a frame that carry data: three big-endian 32-bit floats.
pub const FRAME_DATA_LEN: usize = 12;

/// One orientation sample, each angle as the bit pattern of an IEEE-754
/// single-precision float in degrees (`f32::from_bits` gives the angle).
///
/// Roll lies in -90..=90 (past 90 pitch and yaw invert), pitch in
/// -180..=180, yaw in -180..=180 with zero at connection time. The decoder
/// does not check these ranges.
#[derive(Debug, Clone, Copy, PartialEq, Eq, Structural)]
pub struct ImuData {
    pub roll_bits: u32,
    pub pitch_bits: u32,
    pub yaw_bits: u32,
}

/// The big-endian 32-bit word at byte offset `at` of `b`.
pub open spec fn be_word(b: Seq<u8>, at: int) -> int {
    b[at] * 0x100_0000 + b[at + 1] * 0x1_0000 + b[at + 2] * 0x100 + b[at + 3]
}

/// Whether a frame of declared length `len` lent as `buf` can be decoded:
/// the buffer is present, and both its declared length and the memory lent
/// hold the data bytes.
pub open spec fn frame_readable(buf: Option<&[u8]>, len: u16) -> bool {
    match buf {
        Some(b) => len >= FRAME_DATA_LEN && b@.len() >= FRAME_DATA_LEN,
        None => false,
    }
}

/// The sample that the first data bytes of `b` encode: roll, pitch and yaw
/// at offsets 0, 4 and 8.
pub open spec fn sample_of(b: Seq<u8>) -> ImuData {
    ImuData {
        roll_bits: be_word(b, 0) as u32,
        pitch_bits: be_word(b, 4) as u32,
        yaw_bits: be_word(b, 8) as u32,
    }
}

/// What the decoder produces for a frame.
pub open spec fn frame_sample(buf: Option<&[u8]>, len: u16) -> Option<ImuData> {
    if frame_readable(buf, len) {
        Some(sample_of(buf.unwrap()@))
    } else {
        None
    }
}

/// The big-endian word at `at`, read from the slice.
fn read_be_word(b: &[u8], at: usize) -> (r: u32)
    requires
        at + 4 <= b@.len(),
    ensures
        r == be_word(b@, at as int),
{
    let b0 = b[at] as u32;
    let b1 = b[at + 1] as u32;
    let b2 = b[at + 2] as u32;
    let b3 = b[at + 3] as u32;
    b0 * 0x100_0000 + b1 * 0x1_0000 + b2 * 0x100 + b3
}

/// Decodes a sensor frame lent by the driver: `buf` is the lent memory
/// (`None` for a null reference) and `len` the length the driver declared.
///
/// Declines (returns `None`) when the buffer is absent or either length is
/// below the data bytes; otherwise reads roll, pitch and yaw at offsets 0, 4
/// and 8. Bytes past the data bytes are reserved and never read.
pub fn decode_frame(buf: Option<&[u8]>, len: u16) -> (r: Option<ImuData>)
    ensures
        r == frame_sample(buf, len),
{
    match buf {
        Some(b) => {
            if (len as usize) < FRAME_DATA_LEN || b.len() < FRAME_DATA_LEN {
                None
            } else {
                Some(
                    ImuData {
                        roll_bits: read_be_word(b, 0),
                        pitch_bits: read_be_word(b, 4),
                        yaw_bits: read_be_word(b, 8),
                    },
                )
            }
        },
        None => None,
    }
}

/// A frame whose declared length or lent memory is shorter than the data
/// bytes is declined.
pub proof fn lemma_short_frame_declined(buf: Option<&[u8]>, len: u16)
    requires
        len < FRAME_DATA_LEN || (buf is Some && buf.unwrap()@.len() < FRAME_DATA_LEN),
    ensures
        frame_sample(buf, len) is None,
{
}

/// A null or zero-length buffer is declined.
pub proof fn lemma_null_or_empty_declined(buf: Option<&[u8]>, len: u16)
    requires
        buf is None || len == 0 || buf.unwrap()@.len() == 0,
    ensures
        frame_sample(buf, len) is None,
{
}

/// Two readable frames that agree on their data bytes decode to the same
/// sample, whatever follows those bytes and whatever lengths were declared.
pub proof fn lemma_trailing_bytes_ignored(a: &[u8], len_a: u16, b: &[u8], len_b: u16)
    requires
        frame_readable(Some(a), len_a),
        frame_readable(Some(b), len_b),
        a@.subrange(0, FRAME_DATA_LEN as int) == b@.subrange(0, FRAME_DATA_LEN as int),
    ensures
        frame_sample(Some(a), len_a) == frame_sample(Some(b), len_b),
{
    assert forall|i: int| 0 <= i < FRAME_DATA_LEN implies a@[i] == b@[i] by {
        assert(a@[i] == a@.subrange(0, FRAME_DATA_LEN as int)[i]);
        assert(b@[i] == b@.subrange(0, FRAME_DATA_LEN as int)[i]);
    }
}

} // verus!
