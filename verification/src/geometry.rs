use vstd::prelude::*;

verus! {

/// The device pixel ratio is carried in thousandths: a ratio of one is 1000.
pub const RATIO_ONE: u32 = 1000;

/// Device-pixel length of a logical length under a pixel ratio, rounded down:
/// `floor(logical * ratio)`. A non-positive logical length yields zero, and a
/// result too large for the backing buffer's dimension type saturates, the
/// way a conversion from a wide value to that type saturates.
pub open spec fn viewport_dim(logical: int, ratio_milli: int) -> int {
    if logical <= 0 {
        0
    } else {
        let exact = (logical * ratio_milli) / (RATIO_ONE as int);
        if exact > u32::MAX { u32::MAX as int } else { exact }
    }
}

/// A surface-local coordinate scaled by the device pixel ratio, exact in
/// thousandths of a device pixel: `offset * ratio_milli`.
pub open spec fn scaled_coord(offset: int, ratio_milli: int) -> int {
    offset * ratio_milli
}

/// Computes the device-pixel length of one viewport dimension.
pub fn viewport_len(logical: i32, ratio_milli: u32) -> (r: u32)
    ensures
        r == viewport_dim(logical as int, ratio_milli as int),
{
    if logical <= 0 {
        0
    } else {
        proof {
            let l = logical as int;
            let m = ratio_milli as int;
            assert(0 <= l * m <= 0x7fff_ffff * 0xffff_ffff) by (nonlinear_arith)
                requires
                    0 < l <= 0x7fff_ffff,
                    0 <= m <= 0xffff_ffff,
            ;
        }
        let wide: u64 = (logical as u64) * (ratio_milli as u64);
        let exact: u64 = wide / (RATIO_ONE as u64);
        if exact > u32::MAX as u64 {
            u32::MAX
        } else {
            exact as u32
        }
    }
}

/// Scales one surface-local coordinate by the device pixel ratio.
pub fn scale_coord(offset: i32, ratio_milli: u32) -> (r: i64)
    ensures
        r == scaled_coord(offset as int, ratio_milli as int),
{
    proof {
        let o = offset as int;
        let m = ratio_milli as int;
        assert(-0x7fff_ffff_ffff_ffff <= o * m <= 0x7fff_ffff_ffff_ffff) by (nonlinear_arith)
            requires
                -0x8000_0000 <= o <= 0x7fff_ffff,
                0 <= m <= 0xffff_ffff,
        ;
    }
    (offset as i64) * (ratio_milli as i64)
}

} // verus!
