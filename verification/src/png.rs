use vstd::prelude::*;

use crate::pixel::Image;

verus! {

/// The PNG byte stream that the image crate's encoder produces for an RGB
/// image of the given dimensions and pixel bytes. It is a function of its
/// arguments alone: the encoder is deterministic.
pub uninterp spec fn png_bytes_of(width: nat, height: nat, rgb: Seq<u8>) -> Seq<u8>;

/// What the image crate's PNG decoder recovers from a byte stream: the
/// dimensions and RGB8 pixel bytes when the stream is a readable PNG,
/// `None` when it is not.
pub uninterp spec fn png_pixels_of(bytes: Seq<u8>) -> Option<(nat, nat, Seq<u8>)>;

/// Relies on image's `RgbImage::from_raw` and `write_to` with the PNG
/// format. Encoding to an in-memory cursor succeeds when both dimensions
/// are nonzero and the pixel data stays under the PNG chunk limit; the
/// encoder rejects a zero width or height. PNG is lossless, so decoding
/// the produced bytes — as this library's decoder does, with the image
/// crate's decoding limits lifted — recovers the same dimensions and
/// pixel bytes.
#[verifier::external_body]
fn encode_png_bytes(width: u32, height: u32, rgb: &Vec<u8>) -> (r: Option<Vec<u8>>)
    requires
        rgb@.len() == width * height * 3,
    ensures
        r matches Some(b) ==> b@ == png_bytes_of(width as nat, height as nat, rgb@)
            && png_pixels_of(b@) == Some((width as nat, height as nat, rgb@)),
        width > 0 && height > 0 && width * height * 3 <= 0x7fffffff ==> r is Some,
        width == 0 || height == 0 ==> r is None,
{
    let buf = match image::RgbImage::from_raw(width, height, rgb.clone()) {
        Some(buf) => buf,
        None => return None,
    };
    let mut cur = std::io::Cursor::new(Vec::new());
    match buf.write_to(&mut cur, image::ImageFormat::Png) {
        Ok(()) => Some(cur.into_inner()),
        Err(_) => None,
    }
}

/// Relies on image's `ImageReader` (with its decoding limits lifted, so
/// that every stream the encoder can produce decodes) and
/// `DynamicImage::to_rgb8`: a readable PNG decodes to an RGB8 buffer of
/// exactly three bytes per pixel; anything else is an error.
#[verifier::external_body]
fn decode_png_bytes(bytes: &Vec<u8>) -> (r: Option<(u32, u32, Vec<u8>)>)
    ensures
        match r {
            Some(t) => png_pixels_of(bytes@) == Some(((t.0 as nat, t.1 as nat, t.2@)))
                && t.2@.len() == t.0 * t.1 * 3,
            None => png_pixels_of(bytes@) is None,
        },
{
    let mut reader = image::ImageReader::with_format(
        std::io::Cursor::new(bytes.as_slice()),
        image::ImageFormat::Png,
    );
    reader.no_limits();
    let img = match reader.decode() {
        Ok(img) => img,
        Err(_) => return None,
    };
    let rgb = img.to_rgb8();
    let (w, h) = (rgb.width(), rgb.height());
    Some((w, h, rgb.into_raw()))
}

impl Image {
    /// Encodes the image as a PNG byte stream. Succeeds on every image a
    /// capture can produce (both dimensions nonzero, pixel data under the
    /// PNG chunk limit); a zero-sized image is rejected. The bytes decode
    /// back to this image's exact dimensions and pixel bytes: PNG is
    /// lossless.
    pub fn to_png(&self) -> (r: Option<Vec<u8>>)
        requires
            self.wf(),
        ensures
            r matches Some(b) ==> b@ == png_bytes_of(
                self.width as nat,
                self.height as nat,
                self.data@,
            ) && png_pixels_of(b@) == Some(
                ((self.width as nat, self.height as nat, self.data@)),
            ),
            self.width > 0 && self.height > 0 && self.width * self.height * 3 <= 0x7fffffff
                ==> r is Some,
            self.width == 0 || self.height == 0 ==> r is None,
    {
        let wh3 = match self.width.checked_mul(self.height) {
            Some(p) => match p.checked_mul(3) {
                Some(q) => q,
                None => {
                    proof {
                        assert(self.width * self.height * 3 > 0x7fffffff);
                    }
                    return None;
                },
            },
            None => {
                proof {
                    assert(self.width * self.height * 3 > 0x7fffffff) by (nonlinear_arith)
                        requires
                            self.width * self.height > usize::MAX,
                    ;
                }
                return None;
            },
        };
        if self.width == 0 || self.height == 0 {
            return None;
        }
        if wh3 > 0x7fffffff {
            return None;
        }
        proof {
            assert(self.width <= 0x7fffffff && self.height <= 0x7fffffff) by (nonlinear_arith)
                requires
                    self.width * self.height * 3 <= 0x7fffffff,
                    self.width >= 1,
                    self.height >= 1,
            ;
        }
        let w = self.width as u32;
        let h = self.height as u32;
        encode_png_bytes(w, h, &self.data)
    }

    /// Decodes a PNG byte stream into an image: the exact dimensions and
    /// RGB8 pixel bytes the stream carries, or `None` when the bytes are
    /// not a readable PNG.
    pub fn from_png(bytes: &Vec<u8>) -> (r: Option<Image>)
        ensures
            match r {
                Some(img) => img.wf() && png_pixels_of(bytes@) == Some(
                    ((img.width as nat, img.height as nat, img.data@)),
                ),
                None => png_pixels_of(bytes@) is None,
            },
    {
        match decode_png_bytes(bytes) {
            Some((w, h, data)) => {
                let img = Image { width: w as usize, height: h as usize, data };
                proof {
                    assert(img.wf());
                }
                Some(img)
            },
            None => None,
        }
    }
}

} // verus!
