use vstd::prelude::*;

verus! {

/// Half of one output quantization step: the rounding bias added
/// before an internal fixed-point sample is cut down to eight bits.
pub const ROUND_BIAS: i32 = 0x10_0000;

/// One past the largest magnitude of the internal fixed-point
/// representation's symmetric range.
pub const FIXED_UNITY: i32 = 0x1000_0000;

/// The signed eight-bit output value of one internal fixed-point
/// sample: add the rounding bias, clamp to the internal symmetric
/// range, and drop the bits below the output width.
pub open spec fn spec_rescale(s: int) -> int {
    let biased = s + ROUND_BIAS;
    let clamped = if biased >= FIXED_UNITY {
        FIXED_UNITY - 1
    } else if biased <= -FIXED_UNITY {
        -FIXED_UNITY as int
    } else {
        biased
    };
    (clamped + FIXED_UNITY) / 0x20_0000 - 128
}

/// The two's-complement byte that carries `spec_rescale(s)`.
pub open spec fn rescale_byte(s: int) -> int {
    let v = spec_rescale(s);
    if v >= 0 {
        v
    } else {
        v + 256
    }
}

/// The rescaled output always stays inside the signed eight-bit
/// range, whatever the input sample, clamping included.
pub proof fn lemma_rescale_output_in_range(s: int)
    ensures
        -128 <= spec_rescale(s) <= 127,
        0 <= rescale_byte(s) <= 255,
{
    let biased = s + ROUND_BIAS;
    let clamped = if biased >= FIXED_UNITY {
        FIXED_UNITY - 1
    } else if biased <= -FIXED_UNITY {
        -FIXED_UNITY as int
    } else {
        biased
    };
    assert(0 <= clamped + FIXED_UNITY < 0x2000_0000);
    assert((clamped + FIXED_UNITY) / 0x20_0000 >= 0) by (nonlinear_arith)
        requires clamped + FIXED_UNITY >= 0;
    assert((clamped + FIXED_UNITY) / 0x20_0000 <= 255) by (nonlinear_arith)
        requires clamped + FIXED_UNITY < 0x2000_0000;
}

/// Rescales one internal fixed-point sample to the eight-bit output
/// format, as a two's-complement byte.
pub fn rescale(sample: i32) -> (r: u8)
    ensures
        r == rescale_byte(sample as int),
{
    proof {
        lemma_rescale_output_in_range(sample as int);
    }
    let biased: i64 = sample as i64 + ROUND_BIAS as i64;
    let clamped: i64 = if biased >= FIXED_UNITY as i64 {
        FIXED_UNITY as i64 - 1
    } else if biased <= -(FIXED_UNITY as i64) {
        -(FIXED_UNITY as i64)
    } else {
        biased
    };
    let t: i64 = (clamped + FIXED_UNITY as i64) / 0x20_0000;
    if t >= 128 {
        (t - 128) as u8
    } else {
        (t + 128) as u8
    }
}

} // verus!
