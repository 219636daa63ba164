//! The RGBA pixel canvas: an owned byte buffer with get/set, fill,
//! alpha compositing, nearest-neighbor scaling, and read-only
//! rectangular sub-views.
//!
//! A canvas of width `w` and height `h` owns exactly `w * h * 4` bytes,
//! laid out row-major with four bytes per pixel in (R, G, B, A) order;
//! row 0 is the top row.

use vstd::prelude::*;
use crate::arith::lemma_mul_le;
use crate::arith::lemma_mul_pos;

verus! {

/// An RGBA color: one byte each of red, green, blue and alpha.
pub type RgbaPixel = (u8, u8, u8, u8);

/// Byte offset of pixel `(x, y)` in a row-major RGBA buffer of the
/// given width: four bytes per pixel, rows of `width` pixels.
pub open spec fn pixel_index(width: int, x: int, y: int) -> int {
    (width * y + x) * 4
}

/// The four bytes of the pixel at `(x, y)` in a row-major RGBA buffer.
pub open spec fn pixel_bytes(bytes: Seq<u8>, width: int, x: int, y: int) -> RgbaPixel {
    let i = pixel_index(width, x, y);
    (bytes[i], bytes[i + 1], bytes[i + 2], bytes[i + 3])
}

/// The buffer after the four bytes of the pixel at `(x, y)` are
/// replaced by `p`.
pub open spec fn spec_set_pixel(bytes: Seq<u8>, width: int, x: int, y: int, p: RgbaPixel) -> Seq<
    u8,
> {
    let i = pixel_index(width, x, y);
    bytes.update(i, p.0).update(i + 1, p.1).update(i + 2, p.2).update(i + 3, p.3)
}

/// What retrieving the pixel at `(x, y)` yields: the four bytes at the
/// computed offset, or nothing when that offset lies past the buffer.
pub open spec fn spec_get_pixel(bytes: Seq<u8>, width: int, x: int, y: int) -> Option<RgbaPixel> {
    if pixel_index(width, x, y) < bytes.len() {
        Some(pixel_bytes(bytes, width, x, y))
    } else {
        None
    }
}

/// Fully opaque white, the implicit backdrop of every canvas.
pub open spec fn spec_white() -> RgbaPixel {
    (255u8, 255u8, 255u8, 255u8)
}

/// One channel of alpha blending, rounded half-up: the exact value of
/// `round((alpha/255) * fg + (1 - alpha/255) * bg)`. Since
/// `alpha * fg + (255 - alpha) * bg` is never congruent to half of 255
/// modulo 255, adding 127 before the division realizes that rounding.
pub open spec fn blend_channel(alpha: int, fg: int, bg: int) -> int {
    (alpha * fg + (255 - alpha) * bg + 127) / 255
}

/// Alpha-blend `pixel` over the opaque `background`, producing a fully
/// opaque color: each channel is blended by `pixel`'s alpha, and the
/// result's alpha is 255.
pub open spec fn spec_de_alpha(pixel: RgbaPixel, background: RgbaPixel) -> RgbaPixel {
    (
        blend_channel(pixel.3 as int, pixel.0 as int, background.0 as int) as u8,
        blend_channel(pixel.3 as int, pixel.1 as int, background.1 as int) as u8,
        blend_channel(pixel.3 as int, pixel.2 as int, background.2 as int) as u8,
        255u8,
    )
}

/// How `draw` combines one source pixel with the canvas pixel beneath
/// it: the canvas pixel is first flattened against the implicit opaque
/// white backdrop, and the source pixel is then blended over that
/// opaque color by its own alpha.
pub open spec fn spec_composite(target: RgbaPixel, source: RgbaPixel) -> RgbaPixel {
    spec_de_alpha(source, spec_de_alpha(target, spec_white()))
}

/// The pixel at `(cx, cy)` of a canvas of the given width after an
/// image of dimensions `iw × ih` is drawn with its top-left corner at
/// `(x, y)`: a canvas pixel under the image is composited with the
/// source pixel above it, and every other pixel keeps its value.
pub open spec fn spec_draw_pixel(
    canvas: Seq<u8>,
    width: int,
    img: Seq<u8>,
    iw: int,
    ih: int,
    x: int,
    y: int,
    cx: int,
    cy: int,
) -> RgbaPixel {
    if x <= cx < x + iw && y <= cy < y + ih {
        spec_composite(pixel_bytes(canvas, width, cx, cy), pixel_bytes(img, iw, cx - x, cy - y))
    } else {
        pixel_bytes(canvas, width, cx, cy)
    }
}

/// Whether the source pixel that maps onto canvas pixel `(cx, cy)` has
/// already been handled, when the image's first `rows` rows have been
/// drawn in full and `cols` pixels of row `rows` besides.
spec fn draw_progress(x: int, y: int, iw: int, cx: int, cy: int, rows: int, cols: int) -> bool {
    let sx = cx - x;
    let sy = cy - y;
    &&& 0 <= sx < iw
    &&& 0 <= sy
    &&& (sy < rows || (sy == rows && sx < cols))
}

/// One channel of alpha blending over an opaque background.
fn blend_channel_exec(alpha: u8, fg: u8, bg: u8) -> (r: u8)
    ensures
        r == blend_channel(alpha as int, fg as int, bg as int),
{
    let a = alpha as u32;
    let f = fg as u32;
    let b = bg as u32;
    proof {
        assert(a * f + (255 - a) * b <= 255 * 255) by (nonlinear_arith)
            requires a <= 255 && f <= 255 && b <= 255;
    }
    let num: u32 = a * f + (255 - a) * b + 127;
    let q: u32 = num / 255;
    q as u8
}

/// Flatten `pixel` against the opaque `background`: blend each channel
/// by `pixel`'s alpha and return a fully opaque color.
pub fn de_alpha(pixel: &RgbaPixel, background: &RgbaPixel) -> (r: RgbaPixel)
    ensures
        r == spec_de_alpha(*pixel, *background),
{
    (
        blend_channel_exec(pixel.3, pixel.0, background.0),
        blend_channel_exec(pixel.3, pixel.1, background.1),
        blend_channel_exec(pixel.3, pixel.2, background.2),
        255,
    )
}

/// The error returned when a scaling factor would produce a canvas
/// with no pixels.
#[derive(Debug, Copy, Clone, PartialEq, Eq, Structural)]
pub enum ScaleError {
    DegenerateDimensions,
}

/// A source dimension scaled by the ratio `num / den` and rounded to
/// the nearest whole pixel, halves rounding up.
pub open spec fn scaled_dim(dim: int, num: int, den: int) -> int {
    (dim * num + den / 2) / den
}

/// A rectangular image made up of RGBA pixels.
pub struct RgbaImage {
    width: u32,
    height: u32,
    bytes: Vec<u8>,
}

impl View for RgbaImage {
    type V = Seq<u8>;

    closed spec fn view(&self) -> Seq<u8> {
        self.bytes@
    }
}

/// A read-only region of an `RgbaImage`: a width, a height, and a
/// borrowed run of the image's bytes.
pub struct RgbaImageRegion<'a> {
    width: u32,
    height: u32,
    bytes: &'a [u8],
}

impl<'a> View for RgbaImageRegion<'a> {
    type V = Seq<u8>;

    closed spec fn view(&self) -> Seq<u8> {
        self.bytes@
    }
}

impl<'a> RgbaImageRegion<'a> {
    /// The region invariant: the borrowed run of bytes consists of
    /// whole pixels.
    pub open spec fn wf(self) -> bool {
        self@.len() % 4 == 0
    }

    /// The region's width in pixels.
    pub closed spec fn spec_width(self) -> u32 {
        self.width
    }

    /// The region's height in pixels.
    pub closed spec fn spec_height(self) -> u32 {
        self.height
    }

    pub fn width(&self) -> (r: u32)
        ensures
            r == self.spec_width(),
    {
        self.width
    }

    pub fn height(&self) -> (r: u32)
        ensures
            r == self.spec_height(),
    {
        self.height
    }

    /// The region's bytes: one flat run of the parent image's buffer,
    /// from the first byte of the region's top-left pixel through the
    /// last byte of its bottom-right pixel.
    pub fn bytes(&self) -> (r: &[u8])
        ensures
            r@ == self@,
    {
        self.bytes
    }

    /// Retrieve a single pixel at a given point.
    pub fn get_pixel(&self, x: u32, y: u32) -> (r: Option<RgbaPixel>)
        requires
            self.wf(),
        ensures
            r == spec_get_pixel(self@, self.spec_width() as int, x as int, y as int),
    {
        proof {
            lemma_mul_le(self.spec_width() as int, y as int, 0xffff_ffff, 0xffff_ffff);
        }
        let flat: u64 = (self.width as u64) * (y as u64) + (x as u64);
        let len: u64 = self.bytes.len() as u64;
        if flat > u64::MAX / 4 || flat * 4 >= len {
            return None;
        }
        let i: usize = (flat * 4) as usize;
        Some((self.bytes[i], self.bytes[i + 1], self.bytes[i + 2], self.bytes[i + 3]))
    }
}

impl RgbaImage {
    /// The canvas invariant: the byte buffer holds exactly four bytes
    /// for each of `width * height` pixels.
    pub open spec fn wf(self) -> bool {
        self@.len() == self.spec_width() * self.spec_height() * 4
    }

    /// The image's width in pixels.
    pub closed spec fn spec_width(self) -> u32 {
        self.width
    }

    /// The image's height in pixels.
    pub closed spec fn spec_height(self) -> u32 {
        self.height
    }

    /// Create a new `RgbaImage` with the given dimensions, with every
    /// byte zero (transparent black).
    pub fn new(w: u32, h: u32) -> (r: RgbaImage)
        requires
            w * h * 4 <= usize::MAX,
        ensures
            r.wf(),
            r.spec_width() == w,
            r.spec_height() == h,
            forall|i: int| 0 <= i < r@.len() ==> r@[i] == 0u8,
    {
        proof {
            assert((w as int) * (h as int) * 4 == ((w as usize) as int) * ((h as usize) as int) * 4);
        }
        let len: usize = (w as usize) * (h as usize) * 4;
        let bytes: Vec<u8> = vec![0u8; len];
        RgbaImage { width: w, height: h, bytes }
    }

    pub fn width(&self) -> (r: u32)
        ensures
            r == self.spec_width(),
    {
        self.width
    }

    pub fn height(&self) -> (r: u32)
        ensures
            r == self.spec_height(),
    {
        self.height
    }

    /// Draw a single pixel at a given point. Out-of-range coordinates
    /// are reported by returning false; the buffer is left unchanged.
    pub fn set_pixel(&mut self, x: u32, y: u32, pixel: RgbaPixel) -> (r: bool)
        requires
            old(self).wf(),
        ensures
            final(self).wf(),
            final(self).spec_width() == old(self).spec_width(),
            final(self).spec_height() == old(self).spec_height(),
            r == (x < old(self).spec_width() && y < old(self).spec_height()),
            r ==> final(self)@ == spec_set_pixel(
                old(self)@,
                old(self).spec_width() as int,
                x as int,
                y as int,
                pixel,
            ),
            !r ==> final(self)@ == old(self)@,
    {
        if x >= self.width {
            return false;
        }
        if y >= self.height {
            return false;
        }

        let len: usize = self.bytes.len();
        proof {
            lemma_pixel_in_bounds(
                self.spec_width() as int,
                self.spec_height() as int,
                x as int,
                y as int,
            );
            assert(pixel_index(self.spec_width() as int, x as int, y as int) + 4 <= len);
        }
        let i: usize = ((self.width as usize) * (y as usize) + (x as usize)) * 4;

        self.bytes[i] = pixel.0;
        self.bytes[i + 1] = pixel.1;
        self.bytes[i + 2] = pixel.2;
        self.bytes[i + 3] = pixel.3;

        true
    }

    /// Retrieve a single pixel at a given point.
    pub fn get_pixel(&self, x: u32, y: u32) -> (r: Option<RgbaPixel>)
        requires
            self.wf(),
        ensures
            r == spec_get_pixel(self@, self.spec_width() as int, x as int, y as int),
    {
        proof {
            lemma_mul_le(self.spec_width() as int, y as int, 0xffff_ffff, 0xffff_ffff);
            lemma_mul_le(
                self.spec_width() as int,
                self.spec_height() as int,
                0xffff_ffff,
                0xffff_ffff,
            );
        }
        let flat: u64 = (self.width as u64) * (y as u64) + (x as u64);
        let len: u64 = self.bytes.len() as u64;
        if flat > u64::MAX / 4 || flat * 4 >= len {
            return None;
        }
        let i: usize = (flat * 4) as usize;
        Some((self.bytes[i], self.bytes[i + 1], self.bytes[i + 2], self.bytes[i + 3]))
    }

    /// Superimpose another `RgbaImage` on top of this one, with its
    /// top-left corner at the given point, which may be negative or
    /// extend past the canvas edge; source pixels falling outside this
    /// canvas are silently skipped. Each covered canvas pixel is first
    /// flattened against the implicit opaque white backdrop, and the
    /// source pixel is then blended over it by its own alpha; the
    /// result is stored fully opaque.
    pub fn draw(&mut self, img: &RgbaImage, x: i32, y: i32)
        requires
            old(self).wf(),
            img.wf(),
            img.spec_width() <= i32::MAX,
            img.spec_height() <= i32::MAX,
            x + img.spec_width() <= i32::MAX + 1,
            y + img.spec_height() <= i32::MAX + 1,
        ensures
            final(self).wf(),
            final(self).spec_width() == old(self).spec_width(),
            final(self).spec_height() == old(self).spec_height(),
            forall|cx: int, cy: int|
                0 <= cx < old(self).spec_width() && 0 <= cy < old(self).spec_height()
                    ==> pixel_bytes(final(self)@, old(self).spec_width() as int, cx, cy)
                    == spec_draw_pixel(
                    old(self)@,
                    old(self).spec_width() as int,
                    img@,
                    img.spec_width() as int,
                    img.spec_height() as int,
                    x as int,
                    y as int,
                    cx,
                    cy,
                ),
    {
        let w = self.width;
        let h = self.height;
        let iw = img.width();
        let ih = img.height();
        let ghost orig = self@;
        for img_y in 0..ih
            invariant
                self.wf(),
                self.spec_width() == w,
                self.spec_height() == h,
                img.wf(),
                img.spec_width() == iw,
                img.spec_height() == ih,
                iw <= i32::MAX,
                ih <= i32::MAX,
                x + iw <= i32::MAX + 1,
                y + ih <= i32::MAX + 1,
                forall|cx: int, cy: int|
                    0 <= cx < w && 0 <= cy < h ==> pixel_bytes(self@, w as int, cx, cy) == (
                    if draw_progress(x as int, y as int, iw as int, cx, cy, img_y as int, 0) {
                        spec_composite(
                            pixel_bytes(orig, w as int, cx, cy),
                            pixel_bytes(img@, iw as int, cx - x, cy - y),
                        )
                    } else {
                        pixel_bytes(orig, w as int, cx, cy)
                    }),
        {
            for img_x in 0..iw
                invariant
                    img_y < ih,
                    self.wf(),
                    self.spec_width() == w,
                    self.spec_height() == h,
                    img.wf(),
                    img.spec_width() == iw,
                    img.spec_height() == ih,
                    iw <= i32::MAX,
                    ih <= i32::MAX,
                    x + iw <= i32::MAX + 1,
                    y + ih <= i32::MAX + 1,
                    forall|cx: int, cy: int|
                        0 <= cx < w && 0 <= cy < h ==> pixel_bytes(self@, w as int, cx, cy) == (
                        if draw_progress(
                            x as int,
                            y as int,
                            iw as int,
                            cx,
                            cy,
                            img_y as int,
                            img_x as int,
                        ) {
                            spec_composite(
                                pixel_bytes(orig, w as int, cx, cy),
                                pixel_bytes(img@, iw as int, cx - x, cy - y),
                            )
                        } else {
                            pixel_bytes(orig, w as int, cx, cy)
                        }),
            {
                let ghost prev = self@;
                let pixel = img.get_pixel(img_x, img_y);
                proof {
                    lemma_pixel_in_bounds(iw as int, ih as int, img_x as int, img_y as int);
                }
                let pixel = pixel.unwrap();

                let canvas_x: i32 = x + img_x as i32;
                let canvas_y: i32 = y + img_y as i32;

                if canvas_x >= 0 && canvas_y >= 0 {
                    let target = self.get_pixel(canvas_x as u32, canvas_y as u32);
                    match target {
                        Some(target_pixel) => {
                            let target_pixel = de_alpha(&target_pixel, &(255, 255, 255, 255));
                            let blended = de_alpha(&pixel, &target_pixel);
                            let wrote = self.set_pixel(canvas_x as u32, canvas_y as u32, blended);
                            proof {
                                let wi = w as int;
                                let hi = h as int;
                                let ccx = canvas_x as int;
                                let ccy = canvas_y as int;
                                if wrote {
                                    lemma_pixel_in_bounds(wi, hi, ccx, ccy);
                                    lemma_set_pixel_frame(prev, wi, hi, ccx, ccy, blended);
                                    assert(self@ == spec_set_pixel(prev, wi, ccx, ccy, blended));
                                    assert(pixel_bytes(prev, wi, ccx, ccy) == pixel_bytes(
                                        orig,
                                        wi,
                                        ccx,
                                        ccy,
                                    ));
                                    assert(pixel_bytes(self@, wi, ccx, ccy) == spec_composite(
                                        pixel_bytes(orig, wi, ccx, ccy),
                                        pixel_bytes(img@, iw as int, img_x as int, img_y as int),
                                    ));
                                    assert forall|cx: int, cy: int|
                                        0 <= cx < w && 0 <= cy < h implies pixel_bytes(
                                        self@,
                                        wi,
                                        cx,
                                        cy,
                                    ) == (if draw_progress(
                                        x as int,
                                        y as int,
                                        iw as int,
                                        cx,
                                        cy,
                                        img_y as int,
                                        img_x as int + 1,
                                    ) {
                                        spec_composite(
                                            pixel_bytes(orig, wi, cx, cy),
                                            pixel_bytes(img@, iw as int, cx - x, cy - y),
                                        )
                                    } else {
                                        pixel_bytes(orig, wi, cx, cy)
                                    }) by {
                                        if !(cx == ccx && cy == ccy) {
                                            assert(pixel_bytes(self@, wi, cx, cy) == pixel_bytes(
                                                prev,
                                                wi,
                                                cx,
                                                cy,
                                            ));
                                        }
                                    }
                                } else {
                                    assert(self@ == prev);
                                }
                            }
                        },
                        None => {
                            proof {
                                let wi = w as int;
                                let hi = h as int;
                                let ccx = canvas_x as int;
                                let ccy = canvas_y as int;
                                if ccx < wi && ccy < hi {
                                    lemma_pixel_in_bounds(wi, hi, ccx, ccy);
                                    assert(false);
                                }
                            }
                        },
                    }
                }
            }
        }
        proof {
            assert forall|cx: int, cy: int|
                0 <= cx < w && 0 <= cy < h implies pixel_bytes(self@, w as int, cx, cy)
                == spec_draw_pixel(
                orig,
                w as int,
                img@,
                iw as int,
                ih as int,
                x as int,
                y as int,
                cx,
                cy,
            ) by {
                assert(draw_progress(x as int, y as int, iw as int, cx, cy, ih as int, 0) == (
                x <= cx < x + iw && y <= cy < y + ih));
            }
        }
    }

    /// Expand or shrink an image by the scaling factor `factor_num /
    /// factor_den`. The new canvas has each dimension scaled and
    /// rounded; each destination pixel samples the source pixel at
    /// `floor((x / dst_w) * src_w), floor((y / dst_h) * src_h)`. A
    /// factor that would produce a zero-sized dimension is rejected
    /// before any buffer is allocated.
    pub fn nearest_neighbor_scale(
        img: &RgbaImage,
        factor_num: u32,
        factor_den: u32,
    ) -> (r: Result<RgbaImage, ScaleError>)
        requires
            img.wf(),
            factor_den >= 1,
            scaled_dim(img.spec_width() as int, factor_num as int, factor_den as int)
                <= u32::MAX,
            scaled_dim(img.spec_height() as int, factor_num as int, factor_den as int)
                <= u32::MAX,
            scaled_dim(img.spec_width() as int, factor_num as int, factor_den as int)
                * scaled_dim(img.spec_height() as int, factor_num as int, factor_den as int) * 4
                <= usize::MAX,
        ensures
            ({
                let dw = scaled_dim(img.spec_width() as int, factor_num as int, factor_den as int);
                let dh = scaled_dim(
                    img.spec_height() as int,
                    factor_num as int,
                    factor_den as int,
                );
                &&& (r is Err <==> (dw == 0 || dh == 0))
                &&& (r is Err ==> r == Err::<RgbaImage, ScaleError>(
                    ScaleError::DegenerateDimensions,
                ))
                &&& (r matches Ok(out) ==> {
                    &&& out.wf()
                    &&& out.spec_width() == dw
                    &&& out.spec_height() == dh
                    &&& forall|dx: int, dy: int|
                        0 <= dx < dw && 0 <= dy < dh ==> pixel_bytes(out@, dw, dx, dy)
                            == pixel_bytes(
                            img@,
                            img.spec_width() as int,
                            dx * img.spec_width() / dw,
                            dy * img.spec_height() / dh,
                        )
                })
            }),
    {
        let iw = img.width();
        let ih = img.height();
        proof {
            lemma_mul_le(iw as int, factor_num as int, 0xffff_ffff, 0xffff_ffff);
            lemma_mul_le(ih as int, factor_num as int, 0xffff_ffff, 0xffff_ffff);
        }
        let half: u64 = (factor_den as u64) / 2;
        let dw64: u64 = ((iw as u64) * (factor_num as u64) + half) / (factor_den as u64);
        let dh64: u64 = ((ih as u64) * (factor_num as u64) + half) / (factor_den as u64);
        if dw64 == 0 || dh64 == 0 {
            return Err(ScaleError::DegenerateDimensions);
        }
        let dw: u32 = dw64 as u32;
        let dh: u32 = dh64 as u32;
        proof {
            lemma_scale_source_positive(iw as int, factor_num as int, factor_den as int);
            lemma_scale_source_positive(ih as int, factor_num as int, factor_den as int);
        }
        let mut out = RgbaImage::new(dw, dh);
        for y in 0..dh
            invariant
                out.wf(),
                out.spec_width() == dw,
                out.spec_height() == dh,
                img.wf(),
                img.spec_width() == iw,
                img.spec_height() == ih,
                1 <= iw,
                1 <= ih,
                1 <= dw,
                1 <= dh,
                forall|xx: int, yy: int|
                    0 <= xx < dw && 0 <= yy < y ==> pixel_bytes(out@, dw as int, xx, yy)
                        == pixel_bytes(
                        img@,
                        iw as int,
                        xx * iw / (dw as int),
                        yy * ih / (dh as int),
                    ),
        {
            for x in 0..dw
                invariant
                    y < dh,
                    out.wf(),
                    out.spec_width() == dw,
                    out.spec_height() == dh,
                    img.wf(),
                    img.spec_width() == iw,
                    img.spec_height() == ih,
                    1 <= iw,
                    1 <= ih,
                    1 <= dw,
                    1 <= dh,
                    forall|xx: int, yy: int|
                        0 <= xx < dw && 0 <= yy < y ==> pixel_bytes(out@, dw as int, xx, yy)
                            == pixel_bytes(
                            img@,
                            iw as int,
                            xx * iw / (dw as int),
                            yy * ih / (dh as int),
                        ),
                    forall|xx: int|
                        0 <= xx < x ==> pixel_bytes(out@, dw as int, xx, y as int) == pixel_bytes(
                            img@,
                            iw as int,
                            xx * iw / (dw as int),
                            (y as int) * ih / (dh as int),
                        ),
            {
                proof {
                    lemma_mul_le(x as int, iw as int, 0xffff_ffff, 0xffff_ffff);
                    lemma_mul_le(y as int, ih as int, 0xffff_ffff, 0xffff_ffff);
                    lemma_scaled_coord_in_range(x as int, iw as int, dw as int);
                    lemma_scaled_coord_in_range(y as int, ih as int, dh as int);
                }
                let src_x: u32 = ((x as u64) * (iw as u64) / (dw as u64)) as u32;
                let src_y: u32 = ((y as u64) * (ih as u64) / (dh as u64)) as u32;
                proof {
                    lemma_pixel_in_bounds(iw as int, ih as int, src_x as int, src_y as int);
                }
                let pixel = img.get_pixel(src_x, src_y).unwrap();
                let ghost prev = out@;
                out.set_pixel(x, y, pixel);
                proof {
                    lemma_set_pixel_frame(prev, dw as int, dh as int, x as int, y as int, pixel);
                    assert(out@ == spec_set_pixel(prev, dw as int, x as int, y as int, pixel));
                    assert forall|xx: int, yy: int|
                        0 <= xx < dw && 0 <= yy < y implies pixel_bytes(out@, dw as int, xx, yy)
                        == pixel_bytes(
                        img@,
                        iw as int,
                        xx * iw / (dw as int),
                        yy * ih / (dh as int),
                    ) by {
                        assert(pixel_bytes(out@, dw as int, xx, yy) == pixel_bytes(
                            prev,
                            dw as int,
                            xx,
                            yy,
                        ));
                    }
                    assert forall|xx: int|
                        0 <= xx <= x implies pixel_bytes(out@, dw as int, xx, y as int)
                        == pixel_bytes(
                        img@,
                        iw as int,
                        xx * iw / (dw as int),
                        (y as int) * ih / (dh as int),
                    ) by {
                        if xx < x {
                            assert(pixel_bytes(out@, dw as int, xx, y as int) == pixel_bytes(
                                prev,
                                dw as int,
                                xx,
                                y as int,
                            ));
                        }
                    }
                }
            }
        }
        Ok(out)
    }

    /// The whole image as a read-only region.
    pub fn as_region(&self) -> (r: RgbaImageRegion)
        requires
            self.wf(),
            self.spec_width() >= 1,
            self.spec_height() >= 1,
        ensures
            r.spec_width() == self.spec_width(),
            r.spec_height() == self.spec_height(),
            r@ == self@,
            r.wf(),
    {
        let w = self.width();
        let h = self.height();
        proof {
            lemma_mul_pos(w as int, h as int);
            assert((w as int) * (h as int - 1) + (w as int - 1) + 1 == (w as int) * (h as int))
                by (nonlinear_arith);
        }
        let region = self.get_region((0, 0), (w - 1, h - 1));
        proof {
            assert(self@.subrange(0, self@.len() as int) =~= self@);
        }
        region.unwrap()
    }

    /// A read-only region of this image for the rectangle from
    /// `top_left` to `bottom_right`, both inclusive, in pixel
    /// coordinates. An inverted rectangle, or one extending past the
    /// canvas in either axis, yields no value. The region's bytes are
    /// the single run of the image's bytes from the first byte of the
    /// top-left pixel through the last byte of the bottom-right pixel.
    pub fn get_region(&self, top_left: (u32, u32), bottom_right: (u32, u32)) -> (r: Option<
        RgbaImageRegion,
    >)
        requires
            self.wf(),
        ensures
            ({
                let start = pixel_index(
                    self.spec_width() as int,
                    top_left.0 as int,
                    top_left.1 as int,
                );
                let end = pixel_index(
                    self.spec_width() as int,
                    bottom_right.0 as int,
                    bottom_right.1 as int,
                ) + 3;
                &&& (r is Some <==> (top_left.0 <= bottom_right.0 < self.spec_width()
                    && top_left.1 <= bottom_right.1 < self.spec_height()))
                &&& (r matches Some(reg) ==> {
                    &&& reg.spec_width() == 1 + bottom_right.0 - top_left.0
                    &&& reg.spec_height() == 1 + bottom_right.1 - top_left.1
                    &&& reg@ == self@.subrange(start, end + 1)
                    &&& reg.wf()
                })
            }),
    {
        let (start_x, start_y) = top_left;
        let (end_x, end_y) = bottom_right;

        if end_x < start_x {
            return None;
        }
        if end_y < start_y {
            return None;
        }
        if end_x >= self.width {
            return None;
        }
        if end_y >= self.height {
            return None;
        }

        proof {
            lemma_mul_le(self.spec_width() as int, start_y as int, 0xffff_ffff, 0xffff_ffff);
            lemma_mul_le(self.spec_width() as int, end_y as int, 0xffff_ffff, 0xffff_ffff);
            lemma_pixel_in_bounds(
                self.spec_width() as int,
                self.spec_height() as int,
                end_x as int,
                end_y as int,
            );
            // a lower-or-equal row and column give a lower-or-equal
            // flat offset
            lemma_mul_le(
                self.spec_width() as int,
                start_y as int,
                self.spec_width() as int,
                end_y as int,
            );
        }
        let len: usize = self.bytes.len();
        let flat_start: u64 = (self.width as u64) * (start_y as u64) + (start_x as u64);
        let flat_end: u64 = (self.width as u64) * (end_y as u64) + (end_x as u64);

        let width = end_x - start_x + 1;
        let height = end_y - start_y + 1;
        let i0: usize = (flat_start * 4) as usize;
        let i1: usize = (flat_end * 4 + 3) as usize;
        let bytes: &[u8] = &self.bytes[i0..i1 + 1];

        Some(RgbaImageRegion { width, height, bytes })
    }

    /// Fill the entire image with a single color.
    pub fn fill(&mut self, color: RgbaPixel)
        requires
            old(self).wf(),
        ensures
            final(self).wf(),
            final(self).spec_width() == old(self).spec_width(),
            final(self).spec_height() == old(self).spec_height(),
            forall|x: int, y: int|
                0 <= x < final(self).spec_width() && 0 <= y < final(self).spec_height()
                    ==> pixel_bytes(final(self)@, final(self).spec_width() as int, x, y) == color,
    {
        let w = self.width;
        let h = self.height;
        for y in 0..h
            invariant
                self.wf(),
                self.spec_width() == w,
                self.spec_height() == h,
                forall|xx: int, yy: int|
                    0 <= xx < w && 0 <= yy < y ==> pixel_bytes(self@, w as int, xx, yy) == color,
        {
            for x in 0..w
                invariant
                    y < h,
                    self.wf(),
                    self.spec_width() == w,
                    self.spec_height() == h,
                    forall|xx: int, yy: int|
                        0 <= xx < w && 0 <= yy < y ==> pixel_bytes(self@, w as int, xx, yy)
                            == color,
                    forall|xx: int|
                        0 <= xx < x ==> pixel_bytes(self@, w as int, xx, y as int) == color,
            {
                let ghost prev = self@;
                self.set_pixel(x, y, color);
                proof {
                    lemma_set_pixel_frame(prev, w as int, h as int, x as int, y as int, color);
                    assert(self@ == spec_set_pixel(prev, w as int, x as int, y as int, color));
                    assert forall|xx: int, yy: int|
                        0 <= xx < w && 0 <= yy < y implies pixel_bytes(self@, w as int, xx, yy)
                        == color by {
                        assert(pixel_bytes(self@, w as int, xx, yy) == pixel_bytes(
                            prev,
                            w as int,
                            xx,
                            yy,
                        ));
                    }
                    assert forall|xx: int|
                        0 <= xx <= x implies pixel_bytes(self@, w as int, xx, y as int)
                        == color by {
                        if xx < x {
                            assert(pixel_bytes(self@, w as int, xx, y as int) == pixel_bytes(
                                prev,
                                w as int,
                                xx,
                                y as int,
                            ));
                        }
                    }
                }
            }
        }
    }
}

/// A pixel whose coordinates lie within the image's dimensions sits
/// entirely inside the byte buffer.
proof fn lemma_pixel_in_bounds(width: int, height: int, x: int, y: int)
    requires
        0 <= x < width,
        0 <= y < height,
    ensures
        0 <= pixel_index(width, x, y),
        pixel_index(width, x, y) + 4 <= width * height * 4,
{
    assert(width * y + x + 1 <= width * height) by (nonlinear_arith)
        requires 0 <= x < width && 0 <= y < height;
}

/// A destination coordinate below the scaled dimension samples a
/// source coordinate below the source dimension.
proof fn lemma_scaled_coord_in_range(x: int, m: int, d: int)
    requires
        0 <= x < d,
        1 <= m,
        1 <= d,
    ensures
        0 <= x * m / d < m,
{
    assert(0 <= x * m / d < m) by (nonlinear_arith)
        requires 0 <= x < d && 1 <= m && 1 <= d;
}

/// A scaled dimension of at least one pixel needs a source dimension
/// of at least one pixel.
proof fn lemma_scale_source_positive(dim: int, num: int, den: int)
    requires
        0 <= dim,
        0 <= num,
        1 <= den,
        1 <= scaled_dim(dim, num, den),
    ensures
        1 <= dim,
{
    if dim == 0 {
        assert(dim * num == 0) by (nonlinear_arith)
            requires dim == 0;
        assert((den / 2) / den == 0) by (nonlinear_arith)
            requires 1 <= den;
        assert(false);
    }
}

/// Two distinct in-row coordinates have distinct flat pixel offsets.
proof fn lemma_pixel_offsets_distinct(width: int, x1: int, y1: int, x2: int, y2: int)
    requires
        0 <= x1 < width,
        0 <= x2 < width,
        0 <= y1,
        0 <= y2,
        !(x1 == x2 && y1 == y2),
    ensures
        width * y1 + x1 != width * y2 + x2,
{
    assert(width * y1 + x1 != width * y2 + x2) by (nonlinear_arith)
        requires
            0 <= x1 < width && 0 <= x2 < width && 0 <= y1 && 0 <= y2
                && !(x1 == x2 && y1 == y2);
}

/// Replacing one in-bounds pixel reads back as the pixel written and
/// leaves every other in-bounds pixel unchanged.
pub proof fn lemma_set_pixel_frame(bytes: Seq<u8>, width: int, height: int, x: int, y: int, p: RgbaPixel)
    requires
        bytes.len() == width * height * 4,
        0 <= x < width,
        0 <= y < height,
    ensures
        pixel_bytes(spec_set_pixel(bytes, width, x, y, p), width, x, y) == p,
        forall|x2: int, y2: int|
            0 <= x2 < width && 0 <= y2 < height && !(x2 == x && y2 == y)
                ==> pixel_bytes(spec_set_pixel(bytes, width, x, y, p), width, x2, y2)
                == pixel_bytes(bytes, width, x2, y2),
{
    lemma_pixel_in_bounds(width, height, x, y);
    assert(pixel_bytes(spec_set_pixel(bytes, width, x, y, p), width, x, y) == (
        p.0,
        p.1,
        p.2,
        p.3,
    ));
    assert forall|x2: int, y2: int|
        0 <= x2 < width && 0 <= y2 < height && !(x2 == x && y2 == y) implies pixel_bytes(
        spec_set_pixel(bytes, width, x, y, p),
        width,
        x2,
        y2,
    ) == pixel_bytes(bytes, width, x2, y2) by {
        lemma_pixel_in_bounds(width, height, x2, y2);
        lemma_pixel_offsets_distinct(width, x, y, x2, y2);
    }
}

/// Blending a fully opaque source pixel over any target yields exactly
/// the source's color channels, fully opaque: compositing an
/// `alpha = 255` pixel replaces what was beneath it.
pub proof fn lemma_opaque_composite(target: RgbaPixel, source: RgbaPixel)
    requires
        source.3 == 255,
    ensures
        spec_composite(target, source) == (source.0, source.1, source.2, 255u8),
{
    let flat = spec_de_alpha(target, spec_white());
    assert(blend_channel(255, source.0 as int, flat.0 as int) == source.0) by (nonlinear_arith)
        requires 0 <= source.0 <= 255 && 0 <= flat.0 <= 255;
    assert(blend_channel(255, source.1 as int, flat.1 as int) == source.1) by (nonlinear_arith)
        requires 0 <= source.1 <= 255 && 0 <= flat.1 <= 255;
    assert(blend_channel(255, source.2 as int, flat.2 as int) == source.2) by (nonlinear_arith)
        requires 0 <= source.2 <= 255 && 0 <= flat.2 <= 255;
}

/// Drawing a fully opaque image at `(0, 0)` over a canvas of equal
/// size replaces every pixel with the source's color channels, fully
/// opaque.
pub proof fn lemma_opaque_draw_replaces(canvas: Seq<u8>, img: Seq<u8>, width: int, height: int)
    requires
        forall|cx: int, cy: int|
            0 <= cx < width && 0 <= cy < height ==> #[trigger] pixel_bytes(img, width, cx, cy).3
                == 255,
    ensures
        forall|cx: int, cy: int|
            0 <= cx < width && 0 <= cy < height ==> #[trigger] spec_draw_pixel(
                canvas,
                width,
                img,
                width,
                height,
                0,
                0,
                cx,
                cy,
            ) == (
                pixel_bytes(img, width, cx, cy).0,
                pixel_bytes(img, width, cx, cy).1,
                pixel_bytes(img, width, cx, cy).2,
                255u8,
            ),
{
    assert forall|cx: int, cy: int|
        0 <= cx < width && 0 <= cy < height implies #[trigger] spec_draw_pixel(
        canvas,
        width,
        img,
        width,
        height,
        0,
        0,
        cx,
        cy,
    ) == (
        pixel_bytes(img, width, cx, cy).0,
        pixel_bytes(img, width, cx, cy).1,
        pixel_bytes(img, width, cx, cy).2,
        255u8,
    ) by {
        lemma_opaque_composite(pixel_bytes(canvas, width, cx, cy), pixel_bytes(img, width, cx, cy));
    }
}

/// Setting a pixel at in-bounds coordinates and then getting the same
/// coordinates yields exactly the pixel that was written.
pub proof fn lemma_set_get_pixel_round_trip(
    bytes: Seq<u8>,
    width: int,
    height: int,
    x: int,
    y: int,
    p: RgbaPixel,
)
    requires
        bytes.len() == width * height * 4,
        0 <= x < width,
        0 <= y < height,
    ensures
        spec_get_pixel(spec_set_pixel(bytes, width, x, y, p), width, x, y) == Some(p),
{
    lemma_pixel_in_bounds(width, height, x, y);
    lemma_set_pixel_frame(bytes, width, height, x, y, p);
}

} // verus!
