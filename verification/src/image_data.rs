//! The image model: a dense row-major RGB8 buffer with its dimensions, and
//! the trusted decoder that turns an encoded file into one.

use vstd::prelude::*;
use crate::color::RGB2;

verus! {

/// A dense row-major RGB8 image: pixel `(x, y)` sits at index
/// `y * width + x`.
pub struct Image {
    pub width: usize,
    pub height: usize,
    pub pixels: Vec<RGB2>,
}

/// The colours that a flat row-major byte buffer holds, three bytes to a
/// pixel in R, G, B order.
pub open spec fn bytes_to_pixels(data: Seq<u8>) -> Seq<RGB2> {
    Seq::new(data.len() / 3, |i: int| (RGB2 { r: data[3 * i], g: data[3 * i + 1], b: data[3 * i + 2] }))
}

impl Image {
    /// The buffer holds exactly one colour per cell.
    pub open spec fn wf(self) -> bool {
        self.pixels@.len() == self.width * self.height
    }

    /// The colour of cell `(x, y)`.
    pub open spec fn pixel_at(self, x: int, y: int) -> RGB2 {
        self.pixels@[y * self.width + x]
    }

    /// Wraps a pixel buffer whose length matches the dimensions.
    pub fn new(width: usize, height: usize, pixels: Vec<RGB2>) -> (r: Option<Image>)
        ensures
            r is Some <==> pixels@.len() == width * height,
            r matches Some(img) ==> img == (Image { width, height, pixels }) && img.wf(),
    {
        match width.checked_mul(height) {
            Some(cells) => {
                if pixels.len() == cells {
                    Some(Image { width, height, pixels })
                } else {
                    None
                }
            },
            None => {
                let l = pixels.len();
                proof {
                    assert(l < width * height);
                }
                None
            },
        }
    }

    /// Builds an image from a flat row-major byte buffer, three bytes to a
    /// pixel in R, G, B order.
    pub fn from_rgb_bytes(width: usize, height: usize, data: &Vec<u8>) -> (r: Option<Image>)
        ensures
            r is Some <==> data@.len() == 3 * width * height,
            r matches Some(img) ==> {
                &&& img.width == width
                &&& img.height == height
                &&& img.wf()
                &&& img.pixels@ == bytes_to_pixels(data@)
            },
    {
        let cells = match width.checked_mul(height) {
            Some(c) => c,
            None => {
                let l = data.len();
                proof {
                    assert(l < 3 * width * height) by (nonlinear_arith)
                        requires
                            l <= usize::MAX,
                            width * height > usize::MAX,
                    ;
                }
                return None;
            },
        };
        let n = match cells.checked_mul(3) {
            Some(n) => n,
            None => {
                let l = data.len();
                proof {
                    assert(l < 3 * width * height) by (nonlinear_arith)
                        requires
                            l <= usize::MAX,
                            cells == width * height,
                            cells * 3 > usize::MAX,
                    ;
                }
                return None;
            },
        };
        proof {
            assert(n == 3 * width * height) by (nonlinear_arith)
                requires
                    n == cells * 3,
                    cells == width * height,
            ;
        }
        if data.len() != n {
            return None;
        }
        let mut pixels: Vec<RGB2> = Vec::new();
        let mut i: usize = 0;
        while i < cells
            invariant
                0 <= i <= cells,
                cells == width * height,
                n == 3 * cells,
                data@.len() == n,
                pixels@.len() == i,
                forall|k: int| 0 <= k < i ==> pixels@[k] == bytes_to_pixels(data@)[k],
            decreases cells - i,
        {
            proof {
                assert(3 * i + 2 < n) by (nonlinear_arith)
                    requires
                        i < cells,
                        n == 3 * cells,
                ;
            }
            let p = RGB2 { r: data[3 * i], g: data[3 * i + 1], b: data[3 * i + 2] };
            pixels.push(p);
            i = i + 1;
        }
        proof {
            assert(pixels@ =~= bytes_to_pixels(data@));
        }
        Some(Image { width, height, pixels })
    }

    /// The colour of cell `(x, y)`.
    pub fn pixel(&self, x: usize, y: usize) -> (p: RGB2)
        requires
            self.wf(),
            x < self.width,
            y < self.height,
        ensures
            p == self.pixel_at(x as int, y as int),
    {
        let len = self.pixels.len();
        proof {
            assert(y * self.width + x < self.width * self.height) by (nonlinear_arith)
                requires
                    x < self.width,
                    y < self.height,
            ;
        }
        self.pixels[y * self.width + x]
    }
}

/// What `image::load_from_memory` followed by `DynamicImage::into_rgb8`
/// yields for a byte buffer: nothing when the buffer is not a decodable
/// image, else the dimensions and the flat row-major RGB8 pixel bytes. The
/// decoders are deterministic, so this is a function of the bytes alone.
pub uninterp spec fn decoded_rgb8(bytes: Seq<u8>) -> Option<(u32, u32, Seq<u8>)>;

/// Relies on `image::load_from_memory` and `DynamicImage::into_rgb8`: the
/// decoded RGB8 buffer holds three bytes for each of `width * height`
/// pixels, flattened row by row.
#[verifier::external_body]
fn decode_rgb8_raw(bytes: &Vec<u8>) -> (r: Option<(u32, u32, Vec<u8>)>)
    ensures
        r is Some <==> decoded_rgb8(bytes@) is Some,
        r matches Some((w, h, data)) ==> {
            &&& decoded_rgb8(bytes@) matches Some((dw, dh, dd)) && w == dw && h == dh && data@ == dd
            &&& data@.len() == 3 * (w as nat) * (h as nat)
        },
{
    match image::load_from_memory(bytes) {
        Ok(img) => {
            let img = img.into_rgb8();
            let (w, h) = img.dimensions();
            let data: Vec<u8> = img.pixels().flat_map(|p| p.0).collect();
            Some((w, h, data))
        },
        Err(_) => None,
    }
}

/// Decodes an encoded image file (PNG, JPEG, ...) into an [`Image`].
/// Returns nothing exactly when the byte buffer is not a decodable image.
pub fn load_image(bytes: &Vec<u8>) -> (r: Option<Image>)
    ensures
        r is Some <==> decoded_rgb8(bytes@) is Some,
        r matches Some(img) ==> {
            &&& decoded_rgb8(bytes@) matches Some((dw, dh, dd)) && img.width == dw && img.height == dh
                && img.pixels@ == bytes_to_pixels(dd)
            &&& img.wf()
        },
{
    match decode_rgb8_raw(bytes) {
        Some((w, h, data)) => {
            let wu = w as usize;
            let hu = h as usize;
            let img = Image::from_rgb_bytes(wu, hu, &data);
            match img {
                Some(img) => Some(img),
                None => {
                    proof {
                        assert(false);
                    }
                    None
                },
            }
        },
        None => None,
    }
}

} // verus!
