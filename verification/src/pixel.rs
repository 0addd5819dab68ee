use vstd::prelude::*;

use crate::errors::StageError;

verus! {

/// A raw captured frame: one 4-byte blue-green-red-alpha cell per pixel,
/// row-major. The upstream capture source is untrusted, so the buffer may
/// be shorter than the declared dimensions demand.
pub struct RawFrame {
    pub width: usize,
    pub height: usize,
    pub data: Vec<u8>,
}

/// An RGB image: one 3-byte red-green-blue cell per pixel, row-major.
pub struct Image {
    pub width: usize,
    pub height: usize,
    pub data: Vec<u8>,
}

impl Image {
    /// The buffer holds exactly three bytes for each of the
    /// `width * height` pixels.
    pub open spec fn wf(self) -> bool {
        self.data@.len() == self.width * self.height * 3
    }

    /// Channel `c` (0 red, 1 green, 2 blue) of the pixel at `(x, y)`.
    pub open spec fn channel(self, x: int, y: int, c: int) -> u8 {
        self.data@[(y * self.width + x) * 3 + c]
    }

    /// The red, green and blue channels of the pixel at `(x, y)`.
    pub fn pixel_at(&self, x: usize, y: usize) -> (rgb: (u8, u8, u8))
        requires
            self.wf(),
            x < self.width,
            y < self.height,
        ensures
            rgb.0 == self.channel(x as int, y as int, 0),
            rgb.1 == self.channel(x as int, y as int, 1),
            rgb.2 == self.channel(x as int, y as int, 2),
    {
        let len = self.data.len();
        proof {
            assert(0 <= y * self.width + x && (y * self.width + x) * 3 + 3 <= self.width
                * self.height * 3) by (nonlinear_arith)
                requires
                    0 <= x < self.width,
                    0 <= y < self.height,
            ;
            assert((y * self.width + x) * 3 + 3 <= len);
        }
        let i = (y * self.width + x) * 3;
        (self.data[i], self.data[i + 1], self.data[i + 2])
    }
}

impl RawFrame {
    /// The frame is long enough that for every pixel the blue, green and
    /// red bytes (offsets 0, 1 and 2 of its 4-byte cell) lie inside the
    /// buffer. The alpha byte of the last pixel is never read, so it may
    /// be missing.
    pub open spec fn covers_pixels(self) -> bool {
        self.width * self.height == 0 || self.data@.len() >= 4 * (self.width
            * self.height) - 1
    }
}

/// The conversion `convert_frame` performs, pixel by pixel in linear
/// order: pixel `k` of the output takes its red byte from offset `k*4 + 2`
/// of the frame, green from `k*4 + 1`, blue from `k*4`; alpha at `k*4 + 3`
/// is ignored.
pub open spec fn rgb_from_bgra(out: Seq<u8>, raw: Seq<u8>, n_pixels: int) -> bool {
    &&& out.len() == n_pixels * 3
    &&& forall|k: int, c: int|
        0 <= k < n_pixels && 0 <= c < 3 ==> #[trigger] out[k * 3 + c] == raw[k * 4 + (2 - c)]
}

/// The pixel bytes that converting `frame` produces, as one sequence:
/// byte `j` of the output is byte `(j/3)*4 + (2 - j%3)` of the frame.
pub open spec fn spec_convert(frame: RawFrame) -> Seq<u8> {
    Seq::new(
        (frame.width * frame.height * 3) as nat,
        |j: int| frame.data@[(j / 3) * 4 + (2 - (j % 3))],
    )
}

/// Reinterprets a raw blue-green-red-alpha frame as a red-green-blue
/// image of the same dimensions: a channel-order swap plus alpha drop.
/// The output pixel at `(x, y)` is `(raw[i+2], raw[i+1], raw[i])` at
/// `i = (y*width + x)*4`. Fails with `BufferTooSmall` exactly when some
/// pixel's bytes would fall outside the buffer.
pub fn convert_frame(frame: &RawFrame) -> (r: Result<Image, StageError>)
    ensures
        match r {
            Ok(img) => {
                &&& frame.covers_pixels()
                &&& img.width == frame.width
                &&& img.height == frame.height
                &&& img.wf()
                &&& forall|x: int, y: int, c: int|
                    0 <= x < img.width && 0 <= y < img.height && 0 <= c < 3
                        ==> img.channel(x, y, c) == frame.data@[(y * frame.width + x) * 4 + (2
                        - c)]
                &&& img.data@ == spec_convert(*frame)
            },
            Err(e) => e == StageError::BufferTooSmall && !frame.covers_pixels(),
        },
{
    let w = frame.width;
    let h = frame.height;
    let frame_len = frame.data.len();
    let wh = match w.checked_mul(h) {
        Some(p) => p,
        None => {
            proof {
                assert(w * h > usize::MAX);
                assert(frame_len < 4 * (w * h) - 1);
            }
            return Err(StageError::BufferTooSmall);
        },
    };
    if wh > 0 {
        // frame_len >= 4*wh - 1, computed without overflowing 4*wh
        let q = frame_len / 4;
        let rem = frame_len % 4;
        let big_enough = if rem == 3 {
            q + 1 >= wh
        } else {
            q >= wh
        };
        proof {
            assert(frame_len == 4 * q + rem && rem < 4) by (nonlinear_arith)
                requires
                    q == frame_len / 4,
                    rem == frame_len % 4,
            ;
        }
        if !big_enough {
            return Err(StageError::BufferTooSmall);
        }
    }
    let mut data: Vec<u8> = Vec::new();
    let mut y: usize = 0;
    while y < h
        invariant
            y <= h,
            w == frame.width,
            h == frame.height,
            wh == w * h,
            frame_len == frame.data@.len(),
            wh > 0 ==> frame_len >= 4 * wh - 1,
            data@.len() == y * w * 3,
            rgb_from_bgra(data@, frame.data@, y * w as int),
        decreases h - y,
    {
        let mut x: usize = 0;
        proof {
            assert(y * w + w <= w * h) by (nonlinear_arith)
                requires
                    y < h,
                    0 <= w,
                    0 <= y,
            ;
        }
        while x < w
            invariant
                x <= w,
                y < h,
                w == frame.width,
                h == frame.height,
                wh == w * h,
                frame_len == frame.data@.len(),
                wh > 0 ==> frame_len >= 4 * wh - 1,
                y * w + w <= wh,
                data@.len() == (y * w + x) * 3,
                rgb_from_bgra(data@, frame.data@, y * w + x),
            decreases w - x,
        {
            proof {
                assert(0 <= y * w + x && y * w + x < wh) by (nonlinear_arith)
                    requires
                        0 <= x < w,
                        0 <= y,
                        y * w + w <= wh,
                ;
                assert((y * w + x) * 3 + 3 <= wh * 3 && (y * w + x) * 4 + 2 <= wh * 4 - 2)
                    by (nonlinear_arith)
                    requires
                        0 <= y * w + x,
                        y * w + x < wh,
                ;
            }
            let ghost k: int = y * w + x;
            let i = (y * w + x) * 4;
            let b = frame.data[i];
            let g = frame.data[i + 1];
            let r = frame.data[i + 2];
            data.push(r);
            data.push(g);
            data.push(b);
            x += 1;
            proof {
                assert(data@.len() == (y * w + x) * 3);
                assert forall|k2: int, c: int|
                    0 <= k2 < y * w + x && 0 <= c < 3 implies #[trigger] data@[k2 * 3 + c]
                    == frame.data@[k2 * 4 + (2 - c)] by {
                    if k2 < k {
                        assert(k2 * 3 + c < k * 3) by (nonlinear_arith)
                            requires
                                0 <= k2 < k,
                                0 <= c < 3,
                        ;
                    } else {
                        assert(k2 == k);
                    }
                }
            }
        }
        y += 1;
        proof {
            assert(y * w == (y - 1) * w + w) by (nonlinear_arith)
                requires
                    1 <= y,
            ;
        }
    }
    let img = Image { width: w, height: h, data };
    proof {
        assert(img.wf()) by {
            assert(h * w * 3 == w * h * 3) by (nonlinear_arith);
        }
        assert forall|x: int, yy: int, c: int|
            0 <= x < img.width && 0 <= yy < img.height && 0 <= c < 3 implies img.channel(
            x,
            yy,
            c,
        ) == frame.data@[(yy * frame.width + x) * 4 + (2 - c)] by {
            assert(0 <= yy * w + x && yy * w + x < h * w) by (nonlinear_arith)
                requires
                    0 <= x < w,
                    0 <= yy < h,
            ;
            let k = yy * w + x;
            assert(img.data@[k * 3 + c] == frame.data@[k * 4 + (2 - c)]);
        }
        assert(img.data@ =~= spec_convert(*frame)) by {
            assert(h * w * 3 == w * h * 3) by (nonlinear_arith);
            assert forall|j: int| 0 <= j < img.data@.len() implies img.data@[j] == spec_convert(
                *frame,
            )[j] by {
                let k = j / 3;
                let c = j % 3;
                assert(j == k * 3 + c && 0 <= c < 3 && 0 <= k < h * w) by (nonlinear_arith)
                    requires
                        0 <= j < h * w * 3,
                        k == j / 3,
                        c == j % 3,
                ;
                assert(img.data@[k * 3 + c] == frame.data@[k * 4 + (2 - c)]);
            }
        }
    }
    Ok(img)
}

} // verus!
