//! Host-side pixel-buffer utilities: random seed images for the two
//! simulation variants, and the row-padding arithmetic that GPU
//! texture-to-buffer copies impose (rows are padded up to a multiple of 256
//! bytes and the padding must be stripped before the buffer is tightly
//! packed).

use vstd::prelude::*;

use crate::math::IVec2;

verus! {

/// Relies on `rand::random`: a value drawn from the thread-local generator.
/// Nothing is assumed of the value; callers state what holds of every
/// outcome.
pub assume_specification<T>[ rand::random::<T> ]() -> (r: T)
    where
        rand::distr::StandardUniform: rand::distr::Distribution<T>,
;

/// Bytes of one row of a GPU texture-to-buffer copy: four bytes per pixel,
/// padded up to the next multiple of 256.
pub open spec fn spec_padded_bytes_per_row(width: int) -> int {
    let bytes = 4 * width;
    bytes + ((256 - bytes % 256) % 256)
}

/// A tightly packed RGBA8 pixel buffer with its dimensions.
pub struct ImageData {
    pub size: IVec2,
    pub data: Vec<u8>,
}

impl ImageData {
    /// `data` holds exactly `width * height` RGBA8 pixels, row-major.
    pub open spec fn wf(self) -> bool {
        &&& self.size.x >= 0
        &&& self.size.y >= 0
        &&& self.data@.len() == 4 * (self.size.x * self.size.y)
    }
}

/// Each pixel of a monochrome image has equal color channels, all zero or
/// all 255.
pub open spec fn monochrome_pixel(data: Seq<u8>, p: int) -> bool {
    &&& data[4 * p] == data[4 * p + 1]
    &&& data[4 * p + 1] == data[4 * p + 2]
    &&& (data[4 * p] == 0 || data[4 * p] == 255)
}

proof fn lemma_quad_forms(w: int, h: int)
    by (nonlinear_arith)
    requires
        0 <= w,
        0 <= h,
    ensures
        (4 * w) * h == 4 * (w * h),
        h * (4 * w) == 4 * (w * h),
        0 <= w * h,
{
}

proof fn lemma_row_fits(row: int, height: int, stride: int, len: int)
    by (nonlinear_arith)
    requires
        0 <= row < height,
        0 <= stride,
        stride * height <= len,
    ensures
        row * stride + stride <= len,
{
}

proof fn lemma_mul_step(a: int, b: int)
    by (nonlinear_arith)
    ensures
        (a + 1) * b == a * b + b,
{
}

proof fn lemma_mul_le(a: int, b: int, c: int)
    by (nonlinear_arith)
    requires
        a <= b,
        0 <= c,
    ensures
        a * c <= b * c,
        c * a <= c * b,
{
}

pub struct ImageUtil {}

impl ImageUtil {
    /// Row stride of a GPU texture-to-buffer copy for the given pixel width.
    pub fn padded_bytes_per_row(width: u32) -> (r: usize)
        requires
            4 * width + 256 <= usize::MAX,
        ensures
            r == spec_padded_bytes_per_row(width as int),
    {
        let bytes_per_row = width as usize * 4;
        let padding = (256 - bytes_per_row % 256) % 256;
        bytes_per_row + padding
    }

    /// A random seed image for the rule-based variant: every pixel fully
    /// black or fully white, alpha opaque.
    pub fn random_image_monochrome(w: u32, h: u32) -> (img: ImageData)
        requires
            w <= i32::MAX,
            h <= i32::MAX,
            4 * (w as int) * (h as int) <= usize::MAX,
        ensures
            img.size.x == w,
            img.size.y == h,
            img.wf(),
            forall|p: int| 0 <= p < w * h ==> #[trigger] monochrome_pixel(img.data@, p),
            forall|p: int| 0 <= p < w * h ==> #[trigger] img.data@[4 * p + 3] == 255,
    {
        proof {
            lemma_quad_forms(w as int, h as int);
        }
        let total: usize = (w as usize) * (h as usize);
        let mut data: Vec<u8> = Vec::new();
        let mut p: usize = 0;
        while p < total
            invariant
                p <= total,
                total == w * h,
                4 * (w as int * h as int) <= usize::MAX,
                data@.len() == 4 * p,
                forall|q: int| 0 <= q < p ==> #[trigger] monochrome_pixel(data@, q),
                forall|q: int| 0 <= q < p ==> #[trigger] data@[4 * q + 3] == 255,
            decreases total - p,
        {
            let ghost pre = data@;
            let dark: bool = rand::random::<bool>();
            let v: u8 = if dark {
                0
            } else {
                255
            };
            data.push(v);
            data.push(v);
            data.push(v);
            data.push(255);
            proof {
                assert forall|q: int| 0 <= q < p + 1 implies #[trigger] monochrome_pixel(
                    data@,
                    q,
                ) && data@[4 * q + 3] == 255 by {
                    if q < p {
                        assert(monochrome_pixel(pre, q));
                        assert(pre[4 * q + 3] == 255);
                        assert(data@[4 * q] == pre[4 * q]);
                        assert(data@[4 * q + 1] == pre[4 * q + 1]);
                        assert(data@[4 * q + 2] == pre[4 * q + 2]);
                        assert(data@[4 * q + 3] == pre[4 * q + 3]);
                    } else {
                        assert(data@[4 * q] == v);
                        assert(data@[4 * q + 1] == v);
                        assert(data@[4 * q + 2] == v);
                        assert(data@[4 * q + 3] == 255);
                    }
                }
            }
            p = p + 1;
        }
        ImageData { size: IVec2 { x: w as i32, y: h as i32 }, data }
    }

    /// A random seed image for the weighted-filter variant: random color
    /// channels, alpha opaque.
    pub fn random_image_color(w: u32, h: u32) -> (img: ImageData)
        requires
            w <= i32::MAX,
            h <= i32::MAX,
            4 * (w as int) * (h as int) <= usize::MAX,
        ensures
            img.size.x == w,
            img.size.y == h,
            img.wf(),
            forall|p: int| 0 <= p < w * h ==> #[trigger] img.data@[4 * p + 3] == 255,
    {
        proof {
            lemma_quad_forms(w as int, h as int);
        }
        let total: usize = (w as usize) * (h as usize);
        let mut data: Vec<u8> = Vec::new();
        let mut p: usize = 0;
        while p < total
            invariant
                p <= total,
                total == w * h,
                4 * (w as int * h as int) <= usize::MAX,
                data@.len() == 4 * p,
                forall|q: int| 0 <= q < p ==> #[trigger] data@[4 * q + 3] == 255,
            decreases total - p,
        {
            let ghost pre = data@;
            let r: u8 = rand::random::<u8>();
            let g: u8 = rand::random::<u8>();
            let b: u8 = rand::random::<u8>();
            data.push(r);
            data.push(g);
            data.push(b);
            data.push(255);
            proof {
                assert forall|q: int| 0 <= q < p + 1 implies #[trigger] data@[4 * q + 3]
                    == 255 by {
                    if q < p {
                        assert(data@[4 * q + 3] == pre[4 * q + 3]);
                    } else {
                        assert(data@[4 * q + 3] == 255);
                    }
                }
            }
            p = p + 1;
        }
        ImageData { size: IVec2 { x: w as i32, y: h as i32 }, data }
    }

    /// A random monochrome seed image (alias of the rule-variant seed).
    pub fn random_image(w: u32, h: u32) -> (img: ImageData)
        requires
            w <= i32::MAX,
            h <= i32::MAX,
            4 * (w as int) * (h as int) <= usize::MAX,
        ensures
            img.size.x == w,
            img.size.y == h,
            img.wf(),
    {
        Self::random_image_monochrome(w, h)
    }

    /// Strip the device-imposed row padding from a texture-to-buffer copy:
    /// keep the first `4 * width` bytes of each `padded_bytes_per_row(width)`
    /// byte row, producing a tightly packed pixel buffer.
    pub fn strip_row_padding(padded: &Vec<u8>, width: u32, height: u32) -> (img: ImageData)
        requires
            width <= i32::MAX,
            height <= i32::MAX,
            4 * width + 256 <= usize::MAX,
            spec_padded_bytes_per_row(width as int) * height <= padded@.len(),
            4 * (width as int) * (height as int) <= usize::MAX,
        ensures
            img.size.x == width,
            img.size.y == height,
            img.wf(),
            forall|row: int, c: int|
                0 <= row < height && 0 <= c < 4 * width ==> #[trigger] img.data@[row * (4 * width)
                    + c] == padded@[row * spec_padded_bytes_per_row(width as int) + c],
    {
        proof {
            lemma_quad_forms(width as int, height as int);
        }
        let unpadded: usize = width as usize * 4;
        let stride: usize = Self::padded_bytes_per_row(width);
        proof {
            lemma_padding_bound(width as int);
            lemma_mul_le(height as int, height as int, stride as int);
        }
        let plen: usize = padded.len();
        let mut data: Vec<u8> = Vec::new();
        let mut row: usize = 0;
        while row < height as usize
            invariant
                row <= height,
                unpadded == 4 * width,
                stride == spec_padded_bytes_per_row(width as int),
                unpadded <= stride,
                plen == padded@.len(),
                stride * height <= plen,
                4 * (width as int * height as int) <= usize::MAX,
                data@.len() == row * (4 * width as int),
                forall|r0: int, c: int|
                    0 <= r0 < row && 0 <= c < 4 * width ==> #[trigger] data@[r0 * (4 * width) + c]
                        == padded@[r0 * spec_padded_bytes_per_row(width as int) + c],
            decreases height - row,
        {
            proof {
                lemma_row_fits(row as int, height as int, stride as int, plen as int);
                lemma_mul_le(row as int + 1, height as int, unpadded as int);
                lemma_quad_forms(width as int, height as int);
                lemma_mul_step(row as int, unpadded as int);
            }
            let base: usize = row * stride;
            let mut c: usize = 0;
            while c < unpadded
                invariant
                    c <= unpadded,
                    unpadded == 4 * width,
                    stride == spec_padded_bytes_per_row(width as int),
                    unpadded <= stride,
                    base == row * stride,
                    plen == padded@.len(),
                    base + stride <= plen,
                    row * (4 * width as int) + unpadded <= usize::MAX,
                    data@.len() == row * (4 * width as int) + c,
                    forall|r0: int, cc: int|
                        0 <= r0 < row && 0 <= cc < 4 * width ==> #[trigger] data@[r0 * (4 * width)
                            + cc] == padded@[r0 * spec_padded_bytes_per_row(width as int) + cc],
                    forall|cc: int|
                        0 <= cc < c ==> #[trigger] data@[row * (4 * width) + cc] == padded@[row
                            * (stride as int) + cc],
                decreases unpadded - c,
            {
                let ghost pre = data@;
                let byte = padded[base + c];
                data.push(byte);
                proof {
                    assert forall|r0: int, cc: int|
                        0 <= r0 < row && 0 <= cc < 4 * width implies #[trigger] data@[r0 * (4
                        * width) + cc] == padded@[r0 * spec_padded_bytes_per_row(width as int)
                        + cc] by {
                        lemma_mul_le(r0 + 1, row as int, 4 * width as int);
                        lemma_mul_step(r0, 4 * width as int);
                        assert(data@[r0 * (4 * width) + cc] == pre[r0 * (4 * width) + cc]);
                    }
                    assert forall|cc: int|
                        0 <= cc < c + 1 implies #[trigger] data@[row * (4 * width) + cc]
                        == padded@[row * (stride as int) + cc] by {
                        if cc < c {
                            assert(data@[row * (4 * width) + cc] == pre[row * (4 * width) + cc]);
                        } else {
                            assert(data@[row * (4 * width) + cc] == byte);
                        }
                    }
                }
                c = c + 1;
            }
            row = row + 1;
        }
        proof {
            lemma_quad_forms(width as int, height as int);
        }
        ImageData { size: IVec2 { x: width as i32, y: height as i32 }, data }
    }
}

/// The padded row stride is a multiple of 256 and exceeds the unpadded row
/// by less than 256 bytes.
pub proof fn lemma_padding_bound(width: int)
    requires
        width >= 0,
    ensures
        spec_padded_bytes_per_row(width) % 256 == 0,
        4 * width <= spec_padded_bytes_per_row(width) < 4 * width + 256,
{
    let bytes = 4 * width;
    vstd::arithmetic::div_mod::lemma_fundamental_div_mod(bytes, 256);
    vstd::arithmetic::div_mod::lemma_mod_bound(bytes, 256);
    if bytes % 256 == 0 {
    } else {
        let r = bytes + (256 - bytes % 256);
        assert(r == 256 * (bytes / 256) + 256);
        vstd::arithmetic::div_mod::lemma_mod_multiples_vanish(bytes / 256 + 1, 0, 256);
    }
}

} // verus!
