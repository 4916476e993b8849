//! Integer pixel geometry: sizes, points and rectangles in the two pixel
//! spaces the adapter bridges (device-independent "logical" pixels and
//! physical "device" pixels), and an exact rational scale factor between
//! them.

use vstd::prelude::*;

verus! {

/// A size in device-independent (logical) pixels.
#[derive(Clone, Copy, Debug, PartialEq, Eq, Structural)]
pub struct LogicalSize {
    pub width: i32,
    pub height: i32,
}

/// A point in device-independent (logical) pixels.
#[derive(Clone, Copy, Debug, PartialEq, Eq, Structural)]
pub struct LogicalPoint {
    pub x: i32,
    pub y: i32,
}

/// An axis-aligned rectangle in device-independent (logical) pixels.
#[derive(Clone, Copy, Debug, PartialEq, Eq, Structural)]
pub struct LogicalRect {
    pub origin: LogicalPoint,
    pub size: LogicalSize,
}

/// A size in physical device pixels.
#[derive(Clone, Copy, Debug, PartialEq, Eq, Structural)]
pub struct DeviceSize {
    pub width: i32,
    pub height: i32,
}

/// A point in physical device pixels.
#[derive(Clone, Copy, Debug, PartialEq, Eq, Structural)]
pub struct DevicePoint {
    pub x: i32,
    pub y: i32,
}

/// An axis-aligned rectangle in physical device pixels.
#[derive(Clone, Copy, Debug, PartialEq, Eq, Structural)]
pub struct DeviceRect {
    pub origin: DevicePoint,
    pub size: DeviceSize,
}

/// The scale factor from logical pixels to device pixels, held exactly as a
/// positive rational number `numer / denom`.
#[derive(Clone, Copy, Debug, PartialEq, Eq, Structural)]
pub struct PixelRatio {
    pub numer: u32,
    pub denom: u32,
}

impl PixelRatio {
    /// A well-formed ratio is strictly positive: both parts are at least one.
    pub open spec fn wf(self) -> bool {
        1 <= self.numer && 1 <= self.denom
    }

    /// The identity scale: one device pixel per logical pixel.
    pub open spec fn spec_identity() -> PixelRatio {
        PixelRatio { numer: 1, denom: 1 }
    }

    /// Builds the identity scale.
    pub fn identity() -> (r: PixelRatio)
        ensures
            r == PixelRatio::spec_identity(),
            r.wf(),
    {
        PixelRatio { numer: 1, denom: 1 }
    }
}

/// An orientation in the spatial-tracking space, as a quaternion with
/// components `i`, `j`, `k` and scalar part `r`; the headless window only
/// ever reports the identity.
#[derive(Clone, Copy, Debug, PartialEq, Eq, Structural)]
pub struct Rotation {
    pub i: i32,
    pub j: i32,
    pub k: i32,
    pub r: i32,
}

impl Rotation {
    /// The identity rotation.
    pub open spec fn spec_identity() -> Rotation {
        Rotation { i: 0, j: 0, k: 0, r: 1 }
    }
}

/// A translation in the spatial-tracking space; the headless window only
/// ever reports the zero vector.
#[derive(Clone, Copy, Debug, PartialEq, Eq, Structural)]
pub struct Vector3 {
    pub x: i32,
    pub y: i32,
    pub z: i32,
}

impl Vector3 {
    /// The zero translation.
    pub open spec fn spec_zero() -> Vector3 {
        Vector3 { x: 0, y: 0, z: 0 }
    }
}

/// `v` scaled by `numer / denom` and rounded half-up to an integer: the
/// device-pixel extent of a logical extent `v` under that scale factor.
pub open spec fn scale_round(v: int, numer: int, denom: int) -> int {
    (2 * v * numer + denom) / (2 * denom)
}

/// Whether a scaled extent can serve as a device-pixel dimension: the surface
/// abstraction refuses dimensions below one, and the representation caps them
/// at `i32::MAX`.
pub open spec fn in_device_range(v: int) -> bool {
    1 <= v <= i32::MAX
}

/// The device-pixel size of the logical size `s` under the scale factor `r`,
/// each dimension rounded half-up.
pub open spec fn spec_scaled_size(s: LogicalSize, r: PixelRatio) -> DeviceSize {
    DeviceSize {
        width: scale_round(s.width as int, r.numer as int, r.denom as int) as i32,
        height: scale_round(s.height as int, r.numer as int, r.denom as int) as i32,
    }
}

/// Whether both dimensions of `s` scaled by `r` land in the device range, so
/// that the scaled size is a usable inner size.
pub open spec fn scalable(s: LogicalSize, r: PixelRatio) -> bool {
    &&& in_device_range(scale_round(s.width as int, r.numer as int, r.denom as int))
    &&& in_device_range(scale_round(s.height as int, r.numer as int, r.denom as int))
}

/// Scales one positive extent by a ratio, rounding half-up; `None` exactly
/// when the scaled extent falls outside the device range.
pub fn checked_scale_dim(v: i32, ratio: PixelRatio) -> (r: Option<i32>)
    requires
        1 <= v,
        ratio.wf(),
    ensures
        (match r {
            Some(x) => in_device_range(scale_round(v as int, ratio.numer as int, ratio.denom as int))
                && x == scale_round(v as int, ratio.numer as int, ratio.denom as int),
            None => !in_device_range(scale_round(v as int, ratio.numer as int, ratio.denom as int)),
        }),
{
    let wide_v: u128 = v as u128;
    let wide_n: u128 = ratio.numer as u128;
    let wide_d: u128 = ratio.denom as u128;
    proof {
        assert(2 * wide_v * wide_n + wide_d <= u128::MAX) by (nonlinear_arith)
            requires
                wide_v <= 0x8000_0000,
                wide_n <= 0xffff_ffff,
                wide_d <= 0xffff_ffff,
        ;
    }
    let num: u128 = 2 * wide_v * wide_n + wide_d;
    let den: u128 = 2 * wide_d;
    let q: u128 = num / den;
    if 1 <= q && q <= i32::MAX as u128 {
        Some(q as i32)
    } else {
        None
    }
}

/// The identity scale factor maps a logical extent to the same device
/// extent.
pub proof fn lemma_scale_round_identity(v: int)
    requires
        0 <= v,
    ensures
        scale_round(v, 1, 1) == v,
{
    assert(scale_round(v, 1, 1) == (2 * v * 1 + 1) / (2int * 1int));
    assert((2 * v * 1 + 1) / (2int * 1int) == v) by (nonlinear_arith)
        requires
            0 <= v,
    ;
}

/// A whole-number scale factor multiplies a logical extent exactly.
pub proof fn lemma_scale_round_whole(v: int, n: int)
    requires
        0 <= v,
        1 <= n,
    ensures
        scale_round(v, n, 1) == v * n,
{
    assert(scale_round(v, n, 1) == (2 * v * n + 1) / (2int * 1int));
    assert((2 * v * n + 1) / (2int * 1int) == v * n) by (nonlinear_arith)
        requires
            0 <= v,
            1 <= n,
    ;
}

/// With the identity scale factor the scaled size equals the requested
/// size, and any positive requested size is usable as an inner size.
pub proof fn lemma_scaled_size_identity(s: LogicalSize)
    requires
        1 <= s.width,
        1 <= s.height,
    ensures
        scalable(s, PixelRatio::spec_identity()),
        spec_scaled_size(s, PixelRatio::spec_identity()) == (DeviceSize {
            width: s.width,
            height: s.height,
        }),
{
    lemma_scale_round_identity(s.width as int);
    lemma_scale_round_identity(s.height as int);
}

/// One device-pixel extent clamped to the minimum the surface accepts.
pub open spec fn clamp_dim(v: int) -> int {
    if v < 1 {
        1
    } else {
        v
    }
}

/// A requested device size with both dimensions clamped to at least one
/// device pixel.
pub open spec fn spec_clamped_size(s: DeviceSize) -> DeviceSize {
    DeviceSize {
        width: clamp_dim(s.width as int) as i32,
        height: clamp_dim(s.height as int) as i32,
    }
}

/// Clamps each dimension of a requested size to a minimum of one device
/// pixel.
pub fn clamped_size(s: DeviceSize) -> (r: DeviceSize)
    ensures
        r == spec_clamped_size(s),
        1 <= r.width,
        1 <= r.height,
{
    DeviceSize {
        width: if s.width < 1 {
            1
        } else {
            s.width
        },
        height: if s.height < 1 {
            1
        } else {
            s.height
        },
    }
}

/// However a resize request is phrased (zero or negative extents too), the
/// clamped size never has a dimension below one device pixel.
pub proof fn lemma_clamped_size_at_least_one(s: DeviceSize)
    ensures
        1 <= spec_clamped_size(s).width,
        1 <= spec_clamped_size(s).height,
{
}

} // verus!
