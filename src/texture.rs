use vstd::prelude::*;
use crate::color::Color;

verus! {

#[verifier::external_type_specification]
#[verifier::external_body]
pub struct ExImageError(image::ImageError);

/// What decoding `bytes` as a PNG picture gives: its pixels as 8-bit RGBA
/// rows, its width and its height, or nothing where the bytes hold no PNG
/// picture that can be decoded.
pub uninterp spec fn decoded_rgba(bytes: Seq<u8>) -> Option<(Seq<u8>, u32, u32)>;

/// Relies on `image::load_from_memory_with_format` with the built-in PNG
/// format, then on `DynamicImage::to_rgba8`, `ImageBuffer::dimensions` and
/// `ImageBuffer::into_raw` to hand out its RGBA bytes and size. With the
/// format fixed no detection or decoding hook is consulted, so the outcome
/// depends on the bytes alone. The PNG decoder refuses a zero width or
/// height, and the RGBA buffer holds exactly four bytes per pixel.
#[verifier::external_body]
fn decode_rgba(bytes: &[u8]) -> (r: Result<(Vec<u8>, u32, u32), image::ImageError>)
    ensures
        r is Ok <==> decoded_rgba(bytes@) is Some,
        r is Ok ==> decoded_rgba(bytes@) == Some((r->Ok_0.0@, r->Ok_0.1, r->Ok_0.2)),
        r is Ok ==> rgba_layout(r->Ok_0.0@, r->Ok_0.1, r->Ok_0.2),
{
    let rgba = image::load_from_memory_with_format(bytes, image::ImageFormat::Png)?.to_rgba8();
    let (width, height) = rgba.dimensions();
    Ok((rgba.into_raw(), width, height))
}

/// Why a texture could not be made.
#[derive(Clone, Copy, Debug, PartialEq, Eq, Structural)]
pub enum AssetLoadError {
    /// The bytes hold no image that could be decoded.
    Undecodable,
    /// The size is zero, or the pixel bytes do not fill it exactly.
    BadLayout,
}

/// A decoded picture: `width * height` pixels of four bytes (R, G, B, A),
/// row after row.
#[derive(Clone, Debug)]
pub struct Texture {
    pub data: Vec<u8>,
    pub width: u32,
    pub height: u32,
}

/// Whether `data` fills a picture of `width` by `height` RGBA pixels.
pub open spec fn rgba_layout(data: Seq<u8>, width: u32, height: u32) -> bool {
    &&& width > 0
    &&& height > 0
    &&& data.len() == width * height * 4
}

impl Texture {
    pub open spec fn wf(&self) -> bool {
        rgba_layout(self.data@, self.width, self.height)
    }

    /// Color of the pixel in column `x` and row `y` (alpha is dropped).
    pub open spec fn pixel(&self, x: int, y: int) -> Color {
        let i = (y * self.width + x) * 4;
        Color { r: self.data@[i], g: self.data@[i + 1], b: self.data@[i + 2] }
    }

    /// Color found at column `x` and row `y`, both taken modulo the size.
    pub open spec fn texel_spec(&self, x: int, y: int) -> Color {
        self.pixel(x % (self.width as int), y % (self.height as int))
    }

    /// A texture over the given RGBA bytes.
    pub fn from_rgba(data: Vec<u8>, width: u32, height: u32) -> (r: Result<Texture, AssetLoadError>)
        ensures
            r is Ok <==> rgba_layout(data@, width, height),
            r is Err ==> r == Err::<Texture, AssetLoadError>(AssetLoadError::BadLayout),
            r matches Ok(t) ==> t.wf() && t.data@ == data@ && t.width == width && t.height
                == height,
    {
        if width == 0 || height == 0 {
            return Err(AssetLoadError::BadLayout);
        }
        assert((width as int) * (height as int) * 4 <= 0x4_0000_0000_0000_0000) by (nonlinear_arith)
            requires
                width <= u32::MAX,
                height <= u32::MAX,
        ;
        let size: u128 = (width as u128) * (height as u128) * 4;
        if data.len() as u128 != size {
            return Err(AssetLoadError::BadLayout);
        }
        Ok(Texture { data, width, height })
    }

    /// A texture decoded from the bytes of a PNG file.
    pub fn decode(bytes: &[u8]) -> (r: Result<Texture, AssetLoadError>)
        ensures
            decoded_rgba(bytes@) is None ==> r == Err::<Texture, AssetLoadError>(
                AssetLoadError::Undecodable,
            ),
            decoded_rgba(bytes@) matches Some((d, w, h)) ==> r matches Ok(t) && t.data@ == d
                && t.width == w && t.height == h,
            r matches Ok(t) ==> t.wf(),
    {
        match decode_rgba(bytes) {
            Ok((data, width, height)) => Texture::from_rgba(data, width, height),
            Err(_) => Err(AssetLoadError::Undecodable),
        }
    }

    /// Color at column `x` and row `y` of the picture repeated without end:
    /// both coordinates wrap around the size.
    pub fn texel(&self, x: usize, y: usize) -> (c: Color)
        requires
            self.wf(),
        ensures
            c == self.texel_spec(x as int, y as int),
    {
        let w = self.width as usize;
        let h = self.height as usize;
        let u = x % w;
        let v = y % h;
        let n = self.data.len();
        proof {
            assert(n == self.data@.len());
            lemma_pixel_in_bounds(u as int, v as int, w as int, h as int);
            assert(self.data@.len() == (w as int) * (h as int) * 4);
        }
        assert(v * w + u < n);
        let row = v * w;
        let i = (row + u) * 4;
        Color::new(self.data[i], self.data[i + 1], self.data[i + 2])
    }
}

proof fn lemma_pixel_in_bounds(u: int, v: int, w: int, h: int)
    requires
        0 <= u < w,
        0 <= v < h,
    ensures
        0 <= v * w + u,
        (v * w + u) * 4 + 3 < w * h * 4,
{
    assert(v * w + u < w * h) by (nonlinear_arith)
        requires
            0 <= u < w,
            0 <= v < h,
    ;
    assert(0 <= v * w) by (nonlinear_arith)
        requires
            0 <= u < w,
            0 <= v < h,
    ;
}

/// Sampling repeats with the size of the texture: moving a whole width
/// across, or a whole height down, finds the same color.
pub proof fn lemma_texel_wraps(t: Texture, x: int, y: int)
    requires
        t.wf(),
        0 <= x,
        0 <= y,
    ensures
        t.texel_spec(x + t.width, y) == t.texel_spec(x, y),
        t.texel_spec(x, y + t.height) == t.texel_spec(x, y),
{
    vstd::arithmetic::div_mod::lemma_mod_add_multiples_vanish(x, t.width as int);
    vstd::arithmetic::div_mod::lemma_mod_add_multiples_vanish(y, t.height as int);
}

} // verus!
