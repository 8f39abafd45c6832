use vstd::prelude::*;

use crate::display::Rect;

verus! {

/// Fixed-point layout units per pixel.
pub const AU_PER_PX: i32 = 60;

/// A length in fixed-point layout units.
#[derive(Clone, Copy, Debug, PartialEq, Eq, Structural)]
pub struct Au(pub i32);

/// Largest pixel count whose fixed-point length fits in an `i32`.
pub const MAX_PX: i32 = 35791394;

/// Pixel count of a fixed-point length, rounded toward zero.
pub open spec fn px_of(a: int) -> int {
    if a >= 0 {
        a / 60
    } else {
        -((-a) / 60)
    }
}

impl Au {
    /// The length of `px` whole pixels.
    pub fn from_px(px: i32) -> (r: Au)
        requires
            -MAX_PX <= px <= MAX_PX,
        ensures
            r.0 == px * 60,
    {
        Au(px * AU_PER_PX)
    }

    /// Whole pixels in this length, rounded toward zero.
    pub fn to_px(self) -> (r: i32)
        ensures
            r == px_of(self.0 as int),
    {
        let a: i64 = self.0 as i64;
        if a >= 0 {
            (a / 60) as i32
        } else {
            -((-a) / 60) as i32
        }
    }
}

/// Converting whole pixels to layout units and back loses nothing.
pub proof fn lemma_px_round_trip(px: int)
    ensures
        px_of(px * 60) == px,
{
    if px >= 0 {
        assert((px * 60) / 60 == px) by (nonlinear_arith);
    } else {
        assert((-(px * 60)) == (-px) * 60) by (nonlinear_arith);
        assert(((-px) * 60) / 60 == -px) by (nonlinear_arith);
    }
}

/// An exact rational `num / den`.
#[derive(Clone, Copy, Debug, PartialEq, Eq, Structural)]
pub struct Ratio {
    pub num: i64,
    pub den: i64,
}

impl Ratio {
    pub open spec fn wf(self) -> bool {
        self.den > 0
    }

    /// This rational equals the integer `k`.
    pub open spec fn is_int(self, k: int) -> bool {
        self.num == k * self.den
    }
}

/// The pixel size of the render target.
#[derive(Clone, Copy, Debug, PartialEq, Eq, Structural)]
pub struct TargetSize {
    pub width: i32,
    pub height: i32,
}

impl TargetSize {
    /// Both sides are positive and their layout lengths fit in an `i32`.
    pub open spec fn wf(self) -> bool {
        0 < self.width <= MAX_PX && 0 < self.height <= MAX_PX
    }
}

/// A rectangle in normalized device space, as origin and size.
#[derive(Clone, Copy, Debug, PartialEq, Eq, Structural)]
pub struct DeviceRect {
    pub x: Ratio,
    pub y: Ratio,
    pub width: Ratio,
    pub height: Ratio,
}

/// Device coordinate of the pixel position `p` on an axis of `extent` pixels:
/// `(p / extent - 1/2) * 2`.
pub open spec fn ndc_position(p: int, extent: int) -> Ratio {
    Ratio { num: (2 * p - extent) as i64, den: extent as i64 }
}

/// Device length of `p` pixels on an axis of `extent` pixels: `p / extent * 2`.
pub open spec fn ndc_length(p: int, extent: int) -> Ratio {
    Ratio { num: (2 * p) as i64, den: extent as i64 }
}

/// Device position of the point `(x, y)`.
pub fn point_to_normalized_device_position(x: Au, y: Au, size: TargetSize) -> (r: (Ratio, Ratio))
    requires
        size.wf(),
    ensures
        r.0 == ndc_position(px_of(x.0 as int), size.width as int),
        r.1 == ndc_position(px_of(y.0 as int), size.height as int),
{
    let px: i64 = x.to_px() as i64;
    let py: i64 = y.to_px() as i64;
    let w: i64 = size.width as i64;
    let h: i64 = size.height as i64;
    (Ratio { num: 2 * px - w, den: w }, Ratio { num: 2 * py - h, den: h })
}

/// Device lengths of the size `(width, height)`.
pub fn size_to_normalized_device_size(width: Au, height: Au, size: TargetSize) -> (r: (Ratio, Ratio))
    requires
        size.wf(),
    ensures
        r.0 == ndc_length(px_of(width.0 as int), size.width as int),
        r.1 == ndc_length(px_of(height.0 as int), size.height as int),
{
    let pw: i64 = width.to_px() as i64;
    let ph: i64 = height.to_px() as i64;
    (Ratio { num: 2 * pw, den: size.width as i64 }, Ratio { num: 2 * ph, den: size.height as i64 })
}

/// The device-space rectangle of `rect`: its origin as a position, its
/// size as lengths, both converted through whole pixels.
pub open spec fn rect_ndc(rect: Rect, size: TargetSize) -> DeviceRect {
    DeviceRect {
        x: ndc_position(px_of(rect.x.0 as int), size.width as int),
        y: ndc_position(px_of(rect.y.0 as int), size.height as int),
        width: ndc_length(px_of(rect.width.0 as int), size.width as int),
        height: ndc_length(px_of(rect.height.0 as int), size.height as int),
    }
}

/// Device-space rectangle of `rect` on a render target of `size` pixels.
pub fn rect_to_normalized_device_position(rect: &Rect, size: TargetSize) -> (r: DeviceRect)
    requires
        size.wf(),
    ensures
        r == rect_ndc(*rect, size),
{
    let (x, y) = point_to_normalized_device_position(rect.x, rect.y, size);
    let (width, height) = size_to_normalized_device_size(rect.width, rect.height, size);
    DeviceRect { x, y, width, height }
}

/// The rectangle in layout units that covers the whole render target.
pub open spec fn full_target_rect(size: TargetSize) -> Rect {
    Rect {
        x: Au(0),
        y: Au(0),
        width: Au((size.width * 60) as i32),
        height: Au((size.height * 60) as i32),
    }
}

/// The render target as a rectangle in layout units, at the origin.
pub fn target_rect_to_au(size: TargetSize) -> (r: Rect)
    requires
        size.wf(),
    ensures
        r == full_target_rect(size),
{
    Rect {
        x: Au::from_px(0),
        y: Au::from_px(0),
        width: Au::from_px(size.width),
        height: Au::from_px(size.height),
    }
}

/// A rectangle that covers the render target exactly has the device-space
/// corners (-1, -1) and (1, 1).
pub proof fn lemma_full_target_is_unit_square(size: TargetSize)
    requires
        size.wf(),
    ensures
        ({
            let d = rect_ndc(full_target_rect(size), size);
            &&& d.x.wf() && d.x.is_int(-1)
            &&& d.y.wf() && d.y.is_int(-1)
            &&& (Ratio { num: (d.x.num + d.width.num) as i64, den: d.x.den }).is_int(1)
            &&& (Ratio { num: (d.y.num + d.height.num) as i64, den: d.y.den }).is_int(1)
        }),
{
    lemma_px_round_trip(size.width as int);
    lemma_px_round_trip(size.height as int);
    assert(size.width * 60 <= i32::MAX) by (nonlinear_arith)
        requires size.width <= MAX_PX;
    assert(size.height * 60 <= i32::MAX) by (nonlinear_arith)
        requires size.height <= MAX_PX;
    assert(px_of(0) == 0);
}

} // verus!
