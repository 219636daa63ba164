//! Letterbox geometry: how a frame is scaled and centered inside a
//! window whose aspect ratio it need not match.
//!
//! The frame is drawn as a centered quad whose corners sit at
//! `(±mag_x, ±mag_y)` in the window's normalized device coordinates,
//! where the whole window spans `[-1, 1]` on each axis; the quad maps
//! the full source texture, `[0, 1] × [0, 1]`. The magnitudes are
//! exact ratios of integers, so the binding axis comes out as exactly
//! one and the other at most one: the whole frame stays visible.

use vstd::prelude::*;
use crate::arith::lemma_mul_le;
use crate::arith::lemma_mul_pos;

verus! {

/// The half-extents of the centered quad that letterboxing draws: the
/// quad's corners are `(±mag_x, ±mag_y)` where `mag_x` is the ratio
/// `mag_x_num / mag_x_den`, and likewise for `mag_y`. Each denominator
/// is positive.
pub struct LetterboxQuad {
    pub mag_x_num: u64,
    pub mag_x_den: u64,
    pub mag_y_num: u64,
    pub mag_y_den: u64,
}

/// The exact quad magnitudes, as the two ratios
/// `(mag_x_num, mag_x_den, mag_y_num, mag_y_den)`.
///
/// The uniform scale factor is the smaller of `ui_w / frame_w` and
/// `ui_h / frame_h` — the binding axis — so the whole frame fits
/// without cropping. When the height binds (the frame's aspect ratio
/// is no wider than the window's, `frame_w * ui_h <= frame_h * ui_w`),
/// the quad spans the window's full height (`mag_y == 1`) and
/// `mag_x = (frame_w * ui_h) / (frame_h * ui_w)`; otherwise the width
/// binds, the quad spans the full width (`mag_x == 1`), and
/// `mag_y = (frame_h * ui_w) / (frame_w * ui_h)`.
pub open spec fn spec_letterbox(ui_w: int, ui_h: int, frame_w: int, frame_h: int) -> (
    int,
    int,
    int,
    int,
) {
    if frame_w * ui_h <= frame_h * ui_w {
        (frame_w * ui_h, frame_h * ui_w, 1, 1)
    } else {
        (1, 1, frame_h * ui_w, frame_w * ui_h)
    }
}

/// Compute the quad that maps a frame of `frame_w × frame_h` pixels
/// onto a window of logical size `ui_w × ui_h`. Both magnitudes are at
/// most one: the whole frame is visible and centered.
pub fn calculate_vertices(ui_w: u32, ui_h: u32, frame_w: u32, frame_h: u32) -> (r: LetterboxQuad)
    requires
        ui_w >= 1,
        ui_h >= 1,
        frame_w >= 1,
        frame_h >= 1,
    ensures
        ({
            let q = spec_letterbox(ui_w as int, ui_h as int, frame_w as int, frame_h as int);
            &&& r.mag_x_num == q.0
            &&& r.mag_x_den == q.1
            &&& r.mag_y_num == q.2
            &&& r.mag_y_den == q.3
            &&& 0 < r.mag_x_num <= r.mag_x_den
            &&& 0 < r.mag_y_num <= r.mag_y_den
        }),
{
    proof {
        lemma_mul_le(frame_w as int, ui_h as int, 0xffff_ffff, 0xffff_ffff);
        lemma_mul_le(frame_h as int, ui_w as int, 0xffff_ffff, 0xffff_ffff);
        lemma_mul_pos(frame_w as int, ui_h as int);
        lemma_mul_pos(frame_h as int, ui_w as int);
    }
    let width_scaled: u64 = (frame_w as u64) * (ui_h as u64);
    let height_scaled: u64 = (frame_h as u64) * (ui_w as u64);
    if width_scaled <= height_scaled {
        LetterboxQuad {
            mag_x_num: width_scaled,
            mag_x_den: height_scaled,
            mag_y_num: 1,
            mag_y_den: 1,
        }
    } else {
        LetterboxQuad {
            mag_x_num: 1,
            mag_x_den: 1,
            mag_y_num: height_scaled,
            mag_y_den: width_scaled,
        }
    }
}

/// A frame whose aspect ratio is narrower than the window's fills the
/// window's height exactly and leaves horizontal padding: `mag_y` is
/// one and `mag_x` is below one.
pub proof fn lemma_letterbox_height_bound(ui_w: int, ui_h: int, frame_w: int, frame_h: int)
    requires
        1 <= ui_w,
        1 <= ui_h,
        1 <= frame_w,
        1 <= frame_h,
        frame_w * ui_h < frame_h * ui_w,
    ensures
        ({
            let q = spec_letterbox(ui_w, ui_h, frame_w, frame_h);
            &&& q.2 == q.3
            &&& q.0 < q.1
        }),
{
}

/// A frame whose aspect ratio is wider than the window's fills the
/// window's width exactly and leaves vertical padding: `mag_x` is one
/// and `mag_y` is below one.
pub proof fn lemma_letterbox_width_bound(ui_w: int, ui_h: int, frame_w: int, frame_h: int)
    requires
        1 <= ui_w,
        1 <= ui_h,
        1 <= frame_w,
        1 <= frame_h,
        frame_h * ui_w < frame_w * ui_h,
    ensures
        ({
            let q = spec_letterbox(ui_w, ui_h, frame_w, frame_h);
            &&& q.0 == q.1
            &&& q.2 < q.3
        }),
{
}

} // verus!
