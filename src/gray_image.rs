//! Single-channel (grayscale) images, one brightness byte per pixel, stored
//! row by row as the image crate lays them out.

use vstd::prelude::*;

verus! {

/// A grayscale image: pixel `(x, y)` is byte `y * width + x` of its buffer.
/// As in the image crate, the buffer may run past the last pixel.
#[derive(Debug)]
pub struct GrayImage {
    width: u32,
    height: u32,
    pixels: Vec<u8>,
}

#[verifier::external_type_specification]
#[verifier::external_body]
pub struct ExImageError(image::ImageError);

/// Width, height and row-by-row grayscale pixels of the image that `buf`
/// holds, in whichever format the image crate recognises in its bytes;
/// `None` where it cannot decode them.
pub uninterp spec fn luma_decoding(buf: Seq<u8>) -> Option<(u32, u32, Seq<u8>)>;

/// Relies on `image::load_from_memory`, which guesses the format from the
/// bytes and decodes them, and on `DynamicImage::into_luma8` with
/// `ImageBuffer::into_raw`, which give the pixels as one gray byte each, row
/// by row, in a buffer that holds at least `width * height` of them.
#[verifier::external_body]
fn decode_luma(buf: &[u8]) -> (r: Result<(u32, u32, Vec<u8>), image::ImageError>)
    ensures
        r is Ok <==> luma_decoding(buf@) is Some,
        r matches Ok((w, h, p)) ==> luma_decoding(buf@) == Some((w, h, p@)) && p@.len() >= w * h,
{
    let img = image::load_from_memory(buf)?.into_luma8();
    let (width, height) = img.dimensions();
    Ok((width, height, img.into_raw()))
}

/// Whether `img` is the decoded image `(width, height, pixels)`.
pub open spec fn is_decoded(img: GrayImage, decoded: (u32, u32, Seq<u8>)) -> bool {
    &&& img.spec_width() == decoded.0
    &&& img.spec_height() == decoded.1
    &&& forall|x: int, y: int|
        0 <= x < decoded.0 && 0 <= y < decoded.1 ==> #[trigger] img.pixel_at(x, y) == decoded.2[y
            * decoded.0 + x]
}

/// Decodes an image file held in memory (PNG or JPEG) into grayscale.
pub fn decode_gray_image(buf: &[u8]) -> (r: Result<GrayImage, image::ImageError>)
    ensures
        r is Ok <==> luma_decoding(buf@) is Some,
        r matches Ok(img) ==> is_decoded(img, luma_decoding(buf@)->Some_0),
{
    match decode_luma(buf) {
        Ok((width, height, pixels)) => Ok(GrayImage { width, height, pixels }),
        Err(e) => Err(e),
    }
}

impl GrayImage {
    #[verifier::type_invariant]
    spec fn covers_all_pixels(self) -> bool {
        self.pixels@.len() >= self.width * self.height
    }

    pub closed spec fn spec_width(&self) -> u32 {
        self.width
    }

    pub closed spec fn spec_height(&self) -> u32 {
        self.height
    }

    /// Brightness of pixel `(x, y)`.
    pub closed spec fn pixel_at(self, x: int, y: int) -> u8 {
        self.pixels@[y * self.width + x]
    }

    /// The image `width` pixels wide and `height` high whose pixels are `pixels`
    /// row by row; `None` where the buffer is too short to hold them.
    pub fn new(width: u32, height: u32, pixels: Vec<u8>) -> (r: Option<GrayImage>)
        ensures
            r is Some <==> pixels@.len() >= width * height,
            r matches Some(img) ==> img.spec_width() == width && img.spec_height() == height
                && forall|x: int, y: int|
                0 <= x < width && 0 <= y < height ==> #[trigger] img.pixel_at(x, y) == pixels@[y
                    * width + x],
    {
        assert(width as u64 * height as u64 <= u32::MAX as u64 * u32::MAX as u64) by (nonlinear_arith);
        let needed: u64 = width as u64 * height as u64;
        if (pixels.len() as u64) < needed {
            None
        } else {
            Some(GrayImage { width, height, pixels })
        }
    }

    #[verifier::when_used_as_spec(spec_width)]
    pub fn width(&self) -> (r: u32)
        ensures
            r == self.spec_width(),
    {
        self.width
    }

    #[verifier::when_used_as_spec(spec_height)]
    pub fn height(&self) -> (r: u32)
        ensures
            r == self.spec_height(),
    {
        self.height
    }

    /// Brightness of pixel `(x, y)`.
    pub fn get_pixel(&self, x: u32, y: u32) -> (r: u8)
        requires
            x < self.spec_width(),
            y < self.spec_height(),
        ensures
            r == self.pixel_at(x as int, y as int),
    {
        let len = self.pixels.len();
        proof {
            use_type_invariant(self);
            assert(y * self.width + x < self.width * self.height) by (nonlinear_arith)
                requires
                    x < self.width,
                    y < self.height,
            ;
            assert(y * self.width <= y * self.width + x) by (nonlinear_arith);
            assert(y as usize * self.width as usize == y * self.width);
            assert(y * self.width + x < len);
        }
        let row_start = y as usize * self.width as usize;
        let index = row_start + x as usize;
        self.pixels[index]
    }
}

} // verus!
