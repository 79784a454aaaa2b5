//! Pixel-rect calculation: converting a UI-space clip rectangle plus a DPI
//! scale factor into an integer, device-pixel scissor rectangle clamped to
//! the target surface.
//!
//! UI-space coordinates and the DPI scale are carried in fixed point with
//! [`FX_ONE`] subunits per UI point, so that scaling, clamping and rounding
//! are exact integer arithmetic.

use vstd::prelude::*;

verus! {

/// Fixed-point subunits per UI point (a coordinate of `v` points is `v * FX_ONE`).
pub const FX_ONE: u32 = 256;

/// Subunits of a coordinate after it has been scaled by a fixed-point DPI
/// factor: `FX_ONE * FX_ONE`.
pub const FX_SQ: u64 = 65536;

/// Half of [`FX_SQ`], used to round a scaled coordinate to the nearest pixel.
pub const FX_SQ_HALF: u64 = 32768;

/// Largest magnitude accepted for a clip-rect coordinate, so that scaling by
/// the DPI factor cannot overflow an `i64`.
pub const MAX_COORD: i64 = 0x100_0000_0000;

/// Largest accepted DPI scale factor (in [`FX_ONE`] subunits).
pub const MAX_DPI: u32 = 0x10_0000;

/// A clip rectangle in UI space, in [`FX_ONE`] fixed-point subunits per point.
/// `min` and `max` are the two corners; the rectangle may be inverted or lie
/// outside the target surface.
#[derive(Clone, Copy, Debug, PartialEq, Eq, Structural)]
pub struct ClipRect {
    pub min_x: i64,
    pub min_y: i64,
    pub max_x: i64,
    pub max_y: i64,
}

/// All coordinates of the clip rectangle are small enough that scaling by a
/// DPI factor of at most [`MAX_DPI`] stays within `i64`.
pub open spec fn clip_wf(c: ClipRect) -> bool {
    &&& -MAX_COORD <= c.min_x <= MAX_COORD
    &&& -MAX_COORD <= c.min_y <= MAX_COORD
    &&& -MAX_COORD <= c.max_x <= MAX_COORD
    &&& -MAX_COORD <= c.max_y <= MAX_COORD
}

impl ClipRect {
    /// Runtime check for [`clip_wf`], for callers that receive rectangles
    /// from outside and must establish the calculator's precondition.
    pub fn is_wf(&self) -> (b: bool)
        ensures
            b == clip_wf(*self),
    {
        -MAX_COORD <= self.min_x && self.min_x <= MAX_COORD && -MAX_COORD <= self.min_y
            && self.min_y <= MAX_COORD && -MAX_COORD <= self.max_x && self.max_x <= MAX_COORD
            && -MAX_COORD <= self.max_y && self.max_y <= MAX_COORD
    }
}

/// An integer scissor rectangle in device pixels.
#[derive(Clone, Copy, Debug, PartialEq, Eq, Structural)]
pub struct PixelRect {
    pub x: u32,
    pub y: u32,
    pub w: u32,
    pub h: u32,
}

impl PixelRect {
    /// A rectangle covering no visible area; such a group is skipped at render time.
    pub open spec fn spec_is_empty(self) -> bool {
        self.w == 0 || self.h == 0
    }

    pub fn is_empty(&self) -> (b: bool)
        ensures
            b == self.spec_is_empty(),
    {
        self.w == 0 || self.h == 0
    }
}

/// `v` clamped into `[lo, hi]` (for `lo <= hi`).
pub open spec fn clampi(v: int, lo: int, hi: int) -> int {
    if v < lo {
        lo
    } else if v > hi {
        hi
    } else {
        v
    }
}

/// Round a nonnegative scaled coordinate (in [`FX_SQ`] subunits) to the
/// nearest whole pixel, halves rounding up.
pub open spec fn round_fx(v: int) -> int {
    (v + FX_SQ_HALF as int) / (FX_SQ as int)
}

/// The pixel-rect calculation, step for step:
/// scale the four bounds by the DPI factor, clamp `min` into `[0, target]`,
/// clamp `max` into `[min, target]`, round to the nearest pixel, take
/// `max - min` floored to 1 as the extent, then re-clamp the origin into the
/// target and shrink the extent so the rectangle never exceeds the target.
pub open spec fn spec_pixel_rect(c: ClipRect, dpi: int, tw: int, th: int) -> PixelRect {
    let sminx = clampi(c.min_x * dpi, 0, tw * FX_SQ as int);
    let sminy = clampi(c.min_y * dpi, 0, th * FX_SQ as int);
    let smaxx = clampi(c.max_x * dpi, sminx, tw * FX_SQ as int);
    let smaxy = clampi(c.max_y * dpi, sminy, th * FX_SQ as int);
    let rminx = round_fx(sminx);
    let rminy = round_fx(sminy);
    let rmaxx = round_fx(smaxx);
    let rmaxy = round_fx(smaxy);
    let w0 = if rmaxx - rminx < 1 { 1int } else { rmaxx - rminx };
    let h0 = if rmaxy - rminy < 1 { 1int } else { rmaxy - rminy };
    let x = if rminx < tw { rminx } else { tw };
    let y = if rminy < th { rminy } else { th };
    let w = if w0 < tw - x { w0 } else { tw - x };
    let h = if h0 < th - y { h0 } else { th - y };
    PixelRect { x: x as u32, y: y as u32, w: w as u32, h: h as u32 }
}

/// Clamp an `i64` into `[lo, hi]`.
fn clamp_i64(v: i64, lo: i64, hi: i64) -> (r: i64)
    requires
        lo <= hi,
    ensures
        r == clampi(v as int, lo as int, hi as int),
{
    if v < lo {
        lo
    } else if v > hi {
        hi
    } else {
        v
    }
}

/// Convert a UI-space clip rectangle to a device-pixel scissor rectangle.
///
/// The result is exactly [`spec_pixel_rect`] of the inputs, and always lies
/// inside the target surface.
pub fn to_pixel_rect(clip: &ClipRect, pixels_per_point: u32, target_size: [u32; 2]) -> (r:
    PixelRect)
    requires
        clip_wf(*clip),
        pixels_per_point <= MAX_DPI,
    ensures
        r == spec_pixel_rect(
            *clip,
            pixels_per_point as int,
            target_size[0] as int,
            target_size[1] as int,
        ),
        r.x + r.w <= target_size[0],
        r.y + r.h <= target_size[1],
{
    let dpi: i64 = pixels_per_point as i64;
    let tw: u32 = target_size[0];
    let th: u32 = target_size[1];
    let tw_fx: i64 = (tw as i64) * (FX_SQ as i64);
    let th_fx: i64 = (th as i64) * (FX_SQ as i64);

    proof {
        lemma_scale_bounded(clip.min_x as int, dpi as int);
        lemma_scale_bounded(clip.min_y as int, dpi as int);
        lemma_scale_bounded(clip.max_x as int, dpi as int);
        lemma_scale_bounded(clip.max_y as int, dpi as int);
    }

    let sminx: i64 = clamp_i64(clip.min_x * dpi, 0, tw_fx);
    let sminy: i64 = clamp_i64(clip.min_y * dpi, 0, th_fx);
    let smaxx: i64 = clamp_i64(clip.max_x * dpi, sminx, tw_fx);
    let smaxy: i64 = clamp_i64(clip.max_y * dpi, sminy, th_fx);

    let rminx: u32 = round_px(sminx as u64, tw);
    let rminy: u32 = round_px(sminy as u64, th);
    let rmaxx: u32 = round_px(smaxx as u64, tw);
    let rmaxy: u32 = round_px(smaxy as u64, th);

    proof {
        vstd::arithmetic::div_mod::lemma_div_is_ordered(
            sminx as int + FX_SQ_HALF as int,
            smaxx as int + FX_SQ_HALF as int,
            FX_SQ as int,
        );
        vstd::arithmetic::div_mod::lemma_div_is_ordered(
            sminy as int + FX_SQ_HALF as int,
            smaxy as int + FX_SQ_HALF as int,
            FX_SQ as int,
        );
    }

    let w0: u32 = if rmaxx - rminx < 1 { 1 } else { rmaxx - rminx };
    let h0: u32 = if rmaxy - rminy < 1 { 1 } else { rmaxy - rminy };
    let x: u32 = if rminx < tw { rminx } else { tw };
    let y: u32 = if rminy < th { rminy } else { th };
    let w: u32 = if w0 < tw - x { w0 } else { tw - x };
    let h: u32 = if h0 < th - y { h0 } else { th - y };
    PixelRect { x, y, w, h }
}

/// A coordinate within [`MAX_COORD`] scaled by a factor within [`MAX_DPI`]
/// stays within `i64`.
proof fn lemma_scale_bounded(c: int, dpi: int)
    requires
        -MAX_COORD <= c <= MAX_COORD,
        0 <= dpi <= MAX_DPI,
    ensures
        -0x1000_0000_0000_0000 <= c * dpi <= 0x1000_0000_0000_0000,
{
    assert(c * dpi <= 0x1000_0000_0000_0000 && -0x1000_0000_0000_0000 <= c * dpi)
        by (nonlinear_arith)
        requires
            -MAX_COORD <= c <= MAX_COORD,
            0 <= dpi <= MAX_DPI,
    ;
}

/// Rounding an exact multiple of a pixel is the identity.
proof fn lemma_round_exact(k: int)
    requires
        0 <= k,
    ensures
        round_fx(k * (FX_SQ as int)) == k,
{
    vstd::arithmetic::div_mod::lemma_fundamental_div_mod_converse(
        k * (FX_SQ as int) + (FX_SQ_HALF as int),
        FX_SQ as int,
        k,
        FX_SQ_HALF as int,
    );
}

/// A rounded, clamped coordinate stays between 0 and the target extent.
proof fn lemma_round_in_range(v: int, t: int)
    requires
        0 <= v <= t * (FX_SQ as int),
        0 <= t,
    ensures
        0 <= round_fx(v) <= t,
{
    vstd::arithmetic::div_mod::lemma_div_is_ordered(
        FX_SQ_HALF as int,
        v + FX_SQ_HALF as int,
        FX_SQ as int,
    );
    vstd::arithmetic::div_mod::lemma_div_is_ordered(
        v + FX_SQ_HALF as int,
        t * (FX_SQ as int) + FX_SQ_HALF as int,
        FX_SQ as int,
    );
    vstd::arithmetic::div_mod::lemma_fundamental_div_mod_converse(
        t * (FX_SQ as int) + (FX_SQ_HALF as int),
        FX_SQ as int,
        t,
        FX_SQ_HALF as int,
    );
}

/// For every clip rectangle — fully outside or inverted included — the
/// calculated scissor rect lies inside the target: its origin is within the
/// target extent and origin plus extent never exceeds it (extents are
/// unsigned, so they are never negative). An extent collapses to zero only
/// where the origin was clamped to the far edge of the target.
pub proof fn lemma_pixel_rect_in_bounds(c: ClipRect, dpi: int, tw: int, th: int)
    requires
        0 <= tw <= u32::MAX,
        0 <= th <= u32::MAX,
    ensures
        spec_pixel_rect(c, dpi, tw, th).x <= tw,
        spec_pixel_rect(c, dpi, tw, th).y <= th,
        spec_pixel_rect(c, dpi, tw, th).x + spec_pixel_rect(c, dpi, tw, th).w <= tw,
        spec_pixel_rect(c, dpi, tw, th).y + spec_pixel_rect(c, dpi, tw, th).h <= th,
        spec_pixel_rect(c, dpi, tw, th).w == 0 ==> spec_pixel_rect(c, dpi, tw, th).x == tw,
        spec_pixel_rect(c, dpi, tw, th).h == 0 ==> spec_pixel_rect(c, dpi, tw, th).y == th,
{
    let sminx = clampi(c.min_x * dpi, 0, tw * FX_SQ as int);
    let sminy = clampi(c.min_y * dpi, 0, th * FX_SQ as int);
    let smaxx = clampi(c.max_x * dpi, sminx, tw * FX_SQ as int);
    let smaxy = clampi(c.max_y * dpi, sminy, th * FX_SQ as int);
    lemma_round_in_range(sminx, tw);
    lemma_round_in_range(sminy, th);
    lemma_round_in_range(smaxx, tw);
    lemma_round_in_range(smaxy, th);
}

/// For a clip rectangle fully off the low side of the target surface (both
/// corners at or before the origin in both axes), the calculator yields the
/// minimal one-pixel rect clamped to the origin.
pub proof fn lemma_pixel_rect_offscreen_low(c: ClipRect, dpi: int, tw: int, th: int)
    requires
        0 <= dpi,
        c.min_x <= c.max_x <= 0,
        c.min_y <= c.max_y <= 0,
        1 <= tw <= u32::MAX,
        1 <= th <= u32::MAX,
    ensures
        spec_pixel_rect(c, dpi, tw, th) == (PixelRect { x: 0, y: 0, w: 1, h: 1 }),
{
    assert(c.max_x * dpi <= 0 && c.min_x * dpi <= 0 && c.max_y * dpi <= 0 && c.min_y * dpi <= 0)
        by (nonlinear_arith)
        requires
            0 <= dpi,
            c.min_x <= 0,
            c.max_x <= 0,
            c.min_y <= 0,
            c.max_y <= 0,
    ;
    lemma_round_exact(0);
}

/// A clip rectangle with whole-pixel coordinates that already lies inside the
/// target maps, at unit scale, to exactly itself.
pub proof fn lemma_pixel_rect_identity(x: int, y: int, xe: int, ye: int, tw: int, th: int)
    requires
        0 <= x < xe <= tw <= u32::MAX,
        0 <= y < ye <= th <= u32::MAX,
    ensures
        spec_pixel_rect(
            ClipRect {
                min_x: (x * FX_ONE) as i64,
                min_y: (y * FX_ONE) as i64,
                max_x: (xe * FX_ONE) as i64,
                max_y: (ye * FX_ONE) as i64,
            },
            FX_ONE as int,
            tw,
            th,
        ) == (PixelRect { x: x as u32, y: y as u32, w: (xe - x) as u32, h: (ye - y) as u32 }),
{
    lemma_round_exact(x);
    lemma_round_exact(y);
    lemma_round_exact(xe);
    lemma_round_exact(ye);
}

/// Idempotence: re-applying the calculation, at unit scale and with the same
/// target size, to a rectangle it produced returns that rectangle unchanged.
pub proof fn lemma_pixel_rect_idempotent(c: ClipRect, dpi: int, tw: int, th: int)
    requires
        0 <= tw <= u32::MAX,
        0 <= th <= u32::MAX,
    ensures
        ({
            let r = spec_pixel_rect(c, dpi, tw, th);
            spec_pixel_rect(
                ClipRect {
                    min_x: (r.x * FX_ONE) as i64,
                    min_y: (r.y * FX_ONE) as i64,
                    max_x: ((r.x + r.w) * FX_ONE) as i64,
                    max_y: ((r.y + r.h) * FX_ONE) as i64,
                },
                FX_ONE as int,
                tw,
                th,
            ) == r
        }),
{
    lemma_pixel_rect_in_bounds(c, dpi, tw, th);
    let r = spec_pixel_rect(c, dpi, tw, th);
    lemma_round_exact(r.x as int);
    lemma_round_exact(r.y as int);
    lemma_round_exact(r.x as int + r.w as int);
    lemma_round_exact(r.y as int + r.h as int);
}

/// Round a clamped, scaled coordinate to the nearest pixel. The input is at
/// most `t * FX_SQ`, so the result is at most `t`.
fn round_px(v: u64, t: u32) -> (r: u32)
    requires
        v as int <= t as int * FX_SQ as int,
    ensures
        r == round_fx(v as int),
        r <= t,
{
    proof {
        assert((v as int + FX_SQ_HALF as int) / (FX_SQ as int) <= t) by {
            vstd::arithmetic::div_mod::lemma_div_is_ordered(
                v as int + FX_SQ_HALF as int,
                t as int * FX_SQ as int + FX_SQ_HALF as int,
                FX_SQ as int,
            );
            vstd::arithmetic::div_mod::lemma_fundamental_div_mod_converse(
                t as int * FX_SQ as int + FX_SQ_HALF as int,
                FX_SQ as int,
                t as int,
                FX_SQ_HALF as int,
            );
        }
    }
    ((v + FX_SQ_HALF) / FX_SQ) as u32
}

} // verus!
