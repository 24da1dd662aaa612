//! Captured pixel data and its conversions.
//!
//! A capture arrives as tightly packed RGBA bytes.  The clipboard wants a
//! BMP of the RGB channels; the recognition engine wants a binarized TIFF.
//! Dropping the alpha channel is done and verified here; the encoders of
//! the `image` and `imageproc` crates do the rest behind trusted wrappers.

use std::io::Cursor;

use vstd::prelude::*;

verus! {

/// Block radius of the adaptive threshold applied before recognition.
pub const THRESHOLD_BLOCK_RADIUS: u8 = 11;

/// Largest pixel count accepted for recognition encoding.  The
/// thresholding filter sums blocks by adding two entries of its `u32`
/// integral image before subtracting, and each entry can reach 255
/// times the pixel count, so the count is kept at most
/// `u32::MAX / 510`.
pub const MAX_RECOGNITION_PIXELS: u64 = 8_421_504;

/// Mathematical model of a captured image: its dimensions and its packed
/// RGBA bytes.
pub struct ImageModel {
    pub width: int,
    pub height: int,
    pub rgba: Seq<u8>,
}

/// A well-formed image holds exactly four bytes per pixel.
pub open spec fn image_wf(m: ImageModel) -> bool {
    &&& 0 <= m.width
    &&& 0 <= m.height
    &&& m.rgba.len() == 4 * m.width * m.height
}

/// A captured region's pixel data: tightly packed RGBA rows.
#[derive(Debug, PartialEq, Eq)]
pub struct PixelBuffer {
    width: u32,
    height: u32,
    rgba: Vec<u8>,
}

impl View for PixelBuffer {
    type V = ImageModel;

    closed spec fn view(&self) -> ImageModel {
        ImageModel { width: self.width as int, height: self.height as int, rgba: self.rgba@ }
    }
}

/// The RGB bytes of an RGBA byte sequence: every fourth byte, the alpha
/// channel, is dropped.
pub open spec fn rgb_of(rgba: Seq<u8>) -> Seq<u8> {
    Seq::new(rgba.len() / 4 * 3, |j: int| rgba[j / 3 * 4 + j % 3])
}

impl PixelBuffer {
    /// Four bytes per pixel.
    pub open spec fn wf(self) -> bool {
        image_wf(self@)
    }

    /// Builds a buffer from dimensions and packed RGBA bytes; refuses
    /// byte data whose length does not match the dimensions.
    pub fn new(width: u32, height: u32, rgba: Vec<u8>) -> (r: Option<PixelBuffer>)
        ensures
            r matches Some(b) ==> b@ == (ImageModel { width: width as int, height: height as int, rgba: rgba@ })
                && b.wf(),
            r is None <==> rgba@.len() != 4 * width * height,
    {
        proof {
            assert(4 * ((width as int) * (height as int)) < u128::MAX) by (nonlinear_arith);
            assert(4 * ((width as int) * (height as int)) == 4 * width * height) by (nonlinear_arith);
        }
        let need: u128 = 4u128 * (width as u128) * (height as u128);
        if (rgba.len() as u128) == need {
            Some(PixelBuffer { width, height, rgba })
        } else {
            None
        }
    }

    /// The width in pixels.
    pub fn width(&self) -> (r: u32)
        ensures
            r == self@.width,
    {
        self.width
    }

    /// The height in pixels.
    pub fn height(&self) -> (r: u32)
        ensures
            r == self@.height,
    {
        self.height
    }

    /// The packed RGBA bytes.
    pub fn rgba(&self) -> (r: &Vec<u8>)
        ensures
            r@ == self@.rgba,
    {
        &self.rgba
    }

    /// An owned copy of this buffer, for handing to a recognition worker.
    pub fn duplicate(&self) -> (r: PixelBuffer)
        ensures
            r@ == self@,
    {
        let rgba = clone_bytes(&self.rgba);
        PixelBuffer { width: self.width, height: self.height, rgba }
    }
}

/// An owned copy of a byte vector.
fn clone_bytes(v: &Vec<u8>) -> (r: Vec<u8>)
    ensures
        r@ == v@,
{
    let r = v.clone();
    proof {
        assert forall|i: int| 0 <= i < v@.len() implies r@[i] == v@[i] by {
            assert(cloned::<u8>(v@[i], r@[i]));
        }
        assert(r@ =~= v@);
    }
    r
}

/// An encoder of the image crates reported a failure.
#[derive(Clone, Copy, Debug, PartialEq, Eq, Structural)]
pub enum EncodeError {
    Backend,
}

/// What BMP encoding yields for given dimensions and RGB bytes.
pub uninterp spec fn bmp_of(width: int, height: int, rgb: Seq<u8>) -> Seq<u8>;

/// What binarizing with an adaptive threshold of a given block radius and
/// then TIFF-encoding yields for given dimensions and RGBA bytes.
pub uninterp spec fn tiff_of(width: int, height: int, block_radius: int, rgba: Seq<u8>) -> Seq<u8>;

/// Relies on `image::ImageBuffer::from_vec` and
/// `image::DynamicImage::write_to` with the BMP format: the encoded bytes
/// are a function of the dimensions and the RGB bytes alone.  Success is
/// promised: under the length requires `from_vec` returns the buffer, the
/// output goes to memory, and the encoder's one error check — the file
/// size, 54 header bytes plus at most four bytes per pixel, topping
/// `u32` — is out of reach under the pixel bound, which also keeps the
/// encoder's own `u32` products in range.
#[verifier::external_body]
fn encode_bmp(width: u32, height: u32, rgb: &Vec<u8>) -> (r: Result<Vec<u8>, EncodeError>)
    requires
        rgb@.len() == 3 * width * height,
        1 <= width,
        1 <= height,
        4 * width * height <= u32::MAX - 54,
    ensures
        r is Ok,
        r matches Ok(b) ==> b@ == bmp_of(width as int, height as int, rgb@),
{
    let buffer: image::ImageBuffer<image::Rgb<u8>, Vec<u8>> =
        match image::ImageBuffer::from_vec(width, height, rgb.clone()) {
            Some(b) => b,
            None => return Err(EncodeError::Backend),
        };
    let mut bytes: Vec<u8> = Vec::new();
    match image::DynamicImage::from(buffer).write_to(
        &mut Cursor::new(&mut bytes),
        image::ImageOutputFormat::Bmp,
    ) {
        Ok(()) => Ok(bytes),
        Err(_) => Err(EncodeError::Backend),
    }
}

/// Relies on `image::ImageBuffer::from_vec`, `DynamicImage::to_luma8`,
/// `imageproc::contrast::adaptive_threshold` and `DynamicImage::write_to`
/// with the TIFF format: the encoded bytes are a function of the
/// dimensions, the block radius and the RGBA bytes alone.  Success is
/// promised: under the length requires `from_vec` returns the buffer;
/// the pixel bound keeps every sum the filter takes of its `u32`
/// integral image in range, and the positive dimensions and radius keep
/// the filter from panicking; the TIFF encoder writes to memory and
/// errors only on zero dimensions, which the requires exclude.
#[verifier::external_body]
fn encode_tiff_thresholded(width: u32, height: u32, block_radius: u8, rgba: &Vec<u8>) -> (r: Result<
    Vec<u8>,
    EncodeError,
>)
    requires
        rgba@.len() == 4 * width * height,
        1 <= width,
        1 <= height,
        1 <= block_radius,
        width * height <= MAX_RECOGNITION_PIXELS,
    ensures
        r is Ok,
        r matches Ok(b) ==> b@ == tiff_of(width as int, height as int, block_radius as int, rgba@),
{
    let buffer: image::ImageBuffer<image::Rgba<u8>, Vec<u8>> =
        match image::ImageBuffer::from_vec(width, height, rgba.clone()) {
            Some(b) => b,
            None => return Err(EncodeError::Backend),
        };
    let gray = image::DynamicImage::from(buffer).to_luma8();
    let bw = imageproc::contrast::adaptive_threshold(&gray, block_radius as u32);
    let mut bytes: Vec<u8> = Vec::new();
    match image::DynamicImage::from(bw).write_to(
        &mut Cursor::new(&mut bytes),
        image::ImageOutputFormat::Tiff,
    ) {
        Ok(()) => Ok(bytes),
        Err(_) => Err(EncodeError::Backend),
    }
}

/// Conversions of a captured image for the clipboard and for the
/// recognition engine.
pub trait ImageExt {
    /// The model of the image the conversions read.
    spec fn img(&self) -> ImageModel;

    /// The RGB bytes of the image: the alpha channel dropped.
    fn rgb(&self) -> (r: Vec<u8>)
        requires
            image_wf(self.img()),
        ensures
            r@ == rgb_of(self.img().rgba),
            r@.len() == 3 * self.img().width * self.img().height,
    ;

    /// The image encoded as an RGB BMP, as the clipboard wants it.
    /// Encoding succeeds on every admitted image; the pixel bound
    /// leaves room for the 54 BMP header bytes in the format's `u32`
    /// file size.
    fn to_bmp(&self) -> (r: Result<Vec<u8>, EncodeError>)
        requires
            image_wf(self.img()),
            1 <= self.img().width,
            1 <= self.img().height,
            4 * self.img().width * self.img().height <= u32::MAX - 54,
        ensures
            r is Ok,
            r matches Ok(b) ==> b@ == bmp_of(
                self.img().width,
                self.img().height,
                rgb_of(self.img().rgba),
            ),
    ;

    /// The image binarized and encoded as a TIFF, as the recognition
    /// engine wants it.  Encoding succeeds on every admitted image.
    fn to_tiff(&self) -> (r: Result<Vec<u8>, EncodeError>)
        requires
            image_wf(self.img()),
            1 <= self.img().width,
            1 <= self.img().height,
            self.img().width * self.img().height <= MAX_RECOGNITION_PIXELS,
        ensures
            r is Ok,
            r matches Ok(b) ==> b@ == tiff_of(
                self.img().width,
                self.img().height,
                THRESHOLD_BLOCK_RADIUS as int,
                self.img().rgba,
            ),
    ;
}

impl ImageExt for PixelBuffer {
    open spec fn img(&self) -> ImageModel {
        self@
    }

    fn rgb(&self) -> (r: Vec<u8>) {
        let ghost s = self.rgba@;
        let ghost g = rgb_of(s);
        let ghost m = self.img().width * self.img().height;
        let n: usize = self.rgba.len() / 4;
        let mut out: Vec<u8> = Vec::new();
        proof {
            assert(s.len() == 4 * m) by (nonlinear_arith)
                requires
                    s.len() == 4 * self.img().width * self.img().height,
                    m == self.img().width * self.img().height,
            ;
            assert(s.len() / 4 == m && 4 * (s.len() / 4) == s.len()) by (nonlinear_arith)
                requires
                    s.len() == 4 * m,
                    m >= 0,
            ;
            assert(s.len() == 4 * n);
            assert(g.len() == 3 * n);
        }
        let mut p: usize = 0;
        while p < n
            invariant
                self.rgba@ == s,
                s.len() <= usize::MAX,
                s.len() == 4 * n,
                g == rgb_of(s),
                g.len() == 3 * n,
                m == self.img().width * self.img().height,
                n == m,
                p <= n,
                out@ == g.take(3 * p),
            decreases n - p,
        {
            let a = self.rgba[4 * p];
            let b = self.rgba[4 * p + 1];
            let c = self.rgba[4 * p + 2];
            out.push(a);
            out.push(b);
            out.push(c);
            proof {
                let pp = p as int;
                assert((3 * pp) / 3 == pp && (3 * pp) % 3 == 0) by (nonlinear_arith)
                    requires
                        pp >= 0,
                ;
                assert((3 * pp + 1) / 3 == pp && (3 * pp + 1) % 3 == 1) by (nonlinear_arith)
                    requires
                        pp >= 0,
                ;
                assert((3 * pp + 2) / 3 == pp && (3 * pp + 2) % 3 == 2) by (nonlinear_arith)
                    requires
                        pp >= 0,
                ;
                assert(g[3 * pp] == s[4 * pp]);
                assert(g[3 * pp + 1] == s[4 * pp + 1]);
                assert(g[3 * pp + 2] == s[4 * pp + 2]);
                assert(out@ =~= g.take(3 * (pp + 1)));
            }
            p += 1;
        }
        proof {
            assert(out@ =~= g);
            assert(3 * m == 3 * self.img().width * self.img().height) by (nonlinear_arith)
                requires
                    m == self.img().width * self.img().height,
            ;
        }
        out
    }

    fn to_bmp(&self) -> (r: Result<Vec<u8>, EncodeError>) {
        let rgb = self.rgb();
        encode_bmp(self.width, self.height, &rgb)
    }

    fn to_tiff(&self) -> (r: Result<Vec<u8>, EncodeError>) {
        encode_tiff_thresholded(self.width, self.height, THRESHOLD_BLOCK_RADIUS, &self.rgba)
    }
}

} // verus!
