//! Bringing a decoded image into the one pixel layout the cache stores:
//! eight bits each of red, green, blue and alpha.

use vstd::prelude::*;
use crate::error::AssetError;

verus! {

/// One pixel in the stored layout: red, green, blue, alpha.
pub type Rgba8 = (u8, u8, u8, u8);

/// Which samples make up a pixel of a decoded image.
#[derive(Debug, Clone, Copy, PartialEq, Eq, Structural, Hash)]
pub enum Layout {
    /// Red, green, blue.
    Rgb,
    /// Red, green, blue, alpha.
    Rgba,
    /// Grey.
    Gray,
    /// Grey, alpha.
    GrayAlpha,
}

/// The samples of a decoded image, pixel after pixel and row after row.
#[derive(Debug, PartialEq, Eq)]
pub enum Samples {
    /// Eight bits to a sample.
    Bits8(Vec<u8>),
    /// Sixteen bits to a sample.
    Bits16(Vec<u16>),
}

/// A decoded image. Samples at the end that do not make up a whole pixel
/// do not count.
#[derive(Debug, PartialEq, Eq)]
pub struct RawImage {
    pub width: usize,
    pub height: usize,
    pub layout: Layout,
    pub samples: Samples,
}

/// The high byte of a sixteen-bit sample.
pub open spec fn narrow(c: u16) -> u8 {
    (c >> 8) as u8
}

/// The high byte of a sample is the sample divided by 256.
pub proof fn lemma_narrow_is_division(c: u16)
    ensures
        narrow(c) == c / 256,
{
    assert((c >> 8) as u8 == c / 256) by (bit_vector);
}

impl Layout {
    /// How many samples make up a pixel.
    pub open spec fn channels(self) -> int {
        match self {
            Layout::Rgb => 3,
            Layout::Rgba => 4,
            Layout::Gray => 1,
            Layout::GrayAlpha => 2,
        }
    }

    /// The pixel at `i` of eight-bit samples in the stored layout: grey
    /// becomes equal red, green and blue, and a pixel without alpha is
    /// opaque.
    pub open spec fn rgba_at(self, s: Seq<u8>, i: int) -> Rgba8 {
        match self {
            Layout::Rgb => (s[3 * i], s[3 * i + 1], s[3 * i + 2], 255u8),
            Layout::Rgba => (s[4 * i], s[4 * i + 1], s[4 * i + 2], s[4 * i + 3]),
            Layout::Gray => (s[i], s[i], s[i], 255u8),
            Layout::GrayAlpha => (s[2 * i], s[2 * i], s[2 * i], s[2 * i + 1]),
        }
    }
}

impl Samples {
    /// The samples in eight bits: a sixteen-bit sample keeps its high byte.
    pub open spec fn bytes(&self) -> Seq<u8> {
        match self {
            Samples::Bits8(v) => v@,
            Samples::Bits16(v) => Seq::new(v@.len(), |i: int| narrow(v@[i])),
        }
    }
}

impl RawImage {
    /// How many whole pixels there are.
    pub open spec fn count(&self) -> nat {
        (self.samples.bytes().len() as int / self.layout.channels()) as nat
    }

    /// All pixels in the stored layout, in order.
    pub open spec fn rgba(&self) -> Seq<Rgba8> {
        Seq::new(self.count(), |i: int| self.layout.rgba_at(self.samples.bytes(), i))
    }
}

/// One of the four samples of a pixel: 0 red, 1 green, 2 blue, 3 alpha.
pub open spec fn channel(px: Rgba8, c: int) -> u8 {
    if c == 0 {
        px.0
    } else if c == 1 {
        px.1
    } else if c == 2 {
        px.2
    } else {
        px.3
    }
}

/// The samples of all pixels in a row: four bytes for each pixel.
pub open spec fn flatten(px: Seq<Rgba8>) -> Seq<u8> {
    Seq::new(4 * px.len(), |i: int| channel(px[i / 4], i % 4))
}

fn narrow_all(v: &Vec<u16>) -> (r: Vec<u8>)
    ensures
        r@ == Seq::new(v@.len(), |i: int| narrow(v@[i])),
{
    let mut out: Vec<u8> = Vec::new();
    let mut i: usize = 0;
    while i < v.len()
        invariant
            i <= v.len(),
            out.len() == i,
            forall|j: int| 0 <= j < i ==> out[j] == narrow(v[j]),
        decreases v.len() - i,
    {
        let c = v[i];
        out.push(
            #[verifier::truncate]
            ((c >> 8) as u8),
        );
        i += 1;
    }
    assert(out@ =~= Seq::new(v@.len(), |i: int| narrow(v@[i])));
    out
}

fn push_pixel(out: &mut Vec<u8>, px: Rgba8)
    ensures
        final(out)@ == old(out)@.push(px.0).push(px.1).push(px.2).push(px.3),
{
    out.push(px.0);
    out.push(px.1);
    out.push(px.2);
    out.push(px.3);
}

/// Lays eight-bit samples out in the stored layout.
fn expand(s: &Vec<u8>, layout: Layout) -> (r: Vec<u8>)
    ensures
        r@ == flatten(
            Seq::new((s@.len() as int / layout.channels()) as nat, |i: int| layout.rgba_at(s@, i)),
        ),
{
    let ghost px = Seq::new(
        (s@.len() as int / layout.channels()) as nat,
        |i: int| layout.rgba_at(s@, i),
    );
    let n = match layout {
        Layout::Rgb => s.len() / 3,
        Layout::Rgba => s.len() / 4,
        Layout::Gray => s.len(),
        Layout::GrayAlpha => s.len() / 2,
    };
    let mut out: Vec<u8> = Vec::new();
    let mut i: usize = 0;
    while i < n
        invariant
            n == s@.len() as int / layout.channels(),
            px == Seq::new(n as nat, |i: int| layout.rgba_at(s@, i)),
            i <= n,
            out.len() == 4 * i,
            forall|j: int| 0 <= j < 4 * i ==> out[j] == channel(px[j / 4], j % 4),
        decreases n - i,
    {
        let p: Rgba8 = match layout {
            Layout::Rgb => (s[3 * i], s[3 * i + 1], s[3 * i + 2], 255),
            Layout::Rgba => (s[4 * i], s[4 * i + 1], s[4 * i + 2], s[4 * i + 3]),
            Layout::Gray => (s[i], s[i], s[i], 255),
            Layout::GrayAlpha => (s[2 * i], s[2 * i], s[2 * i], s[2 * i + 1]),
        };
        assert(p == px[i as int]);
        push_pixel(&mut out, p);
        i += 1;
    }
    assert(out@ =~= flatten(px));
    out
}

/// The `image` crate's buffer of pixels in the stored layout.
#[verifier::external_body]
pub struct RgbaImage {
    inner: image::ImageBuffer<image::Rgba<u8>, Vec<u8>>,
}

/// The samples that an `RgbaImage` holds.
pub uninterp spec fn image_bytes(img: RgbaImage) -> Seq<u8>;

/// The width and the height that an `RgbaImage` was made with.
pub uninterp spec fn image_dims(img: RgbaImage) -> (u32, u32);

/// Whether a buffer of `len` samples holds an image of `w` by `h` pixels
/// with four samples each, the sizes being counted in `usize`.
pub open spec fn rgba_fits(w: u32, h: u32, len: nat) -> bool {
    4 * w <= usize::MAX && 4 * w * h <= usize::MAX && 4 * w * h <= len
}

impl RgbaImage {
    /// `image::ImageBuffer::from_vec`: the buffer with these dimensions
    /// around `buf` as it is, or `None` where `buf` has fewer samples than
    /// the dimensions ask for.
    #[verifier::external_body]
    pub(crate) fn from_vec(width: u32, height: u32, buf: Vec<u8>) -> (r: Option<RgbaImage>)
        ensures
            r is Some <==> rgba_fits(width, height, buf@.len()),
            r matches Some(img) ==> image_bytes(img) == buf@ && image_dims(img) == (width, height),
    {
        image::ImageBuffer::from_vec(width, height, buf).map(|inner| RgbaImage { inner })
    }

    /// `image::ImageBuffer::dimensions`: the width and the height the
    /// buffer was made with.
    #[verifier::external_body]
    pub(crate) fn dimensions(&self) -> (r: (u32, u32))
        ensures
            r == image_dims(*self),
    {
        self.inner.dimensions()
    }

    /// `image::ImageBuffer::into_raw`: the samples the buffer holds.
    #[verifier::external_body]
    pub(crate) fn into_raw(self) -> (r: Vec<u8>)
        ensures
            r@ == image_bytes(self),
    {
        self.inner.into_raw()
    }
}

/// An image in the stored layout: four samples for each pixel, row by row.
#[derive(Debug, PartialEq, Eq)]
pub struct StoredImage {
    pub width: u32,
    pub height: u32,
    pub data: Vec<u8>,
}

/// Converts a decoded image into the stored layout.
///
/// The dimensions are cut to 32 bits. The result holds the samples of all
/// pixels in order. It fails exactly when there are fewer pixels than the
/// dimensions ask for.
pub fn image_load_img_to_png(img: RawImage) -> (r: Result<StoredImage, AssetError>)
    ensures
        match r {
            Ok(out) => {
                &&& rgba_fits(img.width as u32, img.height as u32, 4 * img.count())
                &&& out.width == img.width as u32
                &&& out.height == img.height as u32
                &&& out.data@ == flatten(img.rgba())
            },
            Err(e) => {
                &&& e == AssetError::BufferTooSmall
                &&& !rgba_fits(img.width as u32, img.height as u32, 4 * img.count())
            },
        },
{
    let ps = match &img.samples {
        Samples::Bits8(v) => expand(v, img.layout),
        Samples::Bits16(v) => {
            let bytes = narrow_all(v);
            expand(&bytes, img.layout)
        },
    };
    let w = #[verifier::truncate]
    (img.width as u32);
    let h = #[verifier::truncate]
    (img.height as u32);
    match RgbaImage::from_vec(w, h, ps) {
        Some(buffer) => {
            let (width, height) = buffer.dimensions();
            Ok(StoredImage { width, height, data: buffer.into_raw() })
        },
        None => Err(AssetError::BufferTooSmall),
    }
}

} // verus!
