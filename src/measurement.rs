//! Decoding of raw sample registers.
use vstd::prelude::*;

verus! {

/// The signed 16-bit value of a register pair, low byte and high byte, in two's complement.
pub open spec fn lane_value(low: u8, high: u8) -> int {
    if high < 128 {
        high * 256 + low
    } else {
        (high - 256) * 256 + low
    }
}

/// Combine the low and high byte of a data register pair.
pub fn lane(low: u8, high: u8) -> (r: i16)
    ensures
        r == lane_value(low, high),
{
    let r: i16 = ((high as i16) << 8) | (low as i16);
    assert(r == lane_value(low, high)) by (bit_vector)
        requires
            r == ((high as i16) << 8) | (low as i16),
    ;
    r
}

/// Split six data bytes, X then Y then Z with the low byte first, into three signed samples.
pub fn raw_triple(data: &[u8; 6]) -> (r: (i16, i16, i16))
    ensures
        r.0 == lane_value(data@[0], data@[1]),
        r.1 == lane_value(data@[2], data@[3]),
        r.2 == lane_value(data@[4], data@[5]),
{
    (lane(data[0], data[1]), lane(data[2], data[3]), lane(data[4], data[5]))
}

/// The temperature in sixteenths of a degree Celsius for a raw temperature sample: the
/// sensor reads 0 at 25 degrees and counts 16 per degree, so this is
/// `16 * (raw / 16 + 25)`.
pub fn temperature_sixteenths(raw: i16) -> (r: i32)
    ensures
        r == raw + 400,
{
    raw as i32 + 400
}

} // verus!
