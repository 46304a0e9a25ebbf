use vstd::prelude::*;
use crate::handles::RTextureId;

verus! {

/// Samples per pixel of the intermediate colour and depth targets, and of
/// every pipeline that draws into them.
pub const MSAA_SAMPLES: u32 = 4;

/// Edge length of the tiny texture that fills an unused texture slot.
pub const FALLBACK_TEXTURE_SIZE: u32 = 10;

/// Bytes per pixel of an RGBA8 image.
pub const RGBA_BYTES: u32 = 4;

/// The pixel formats that the renderer tells apart: those that a
/// presentation surface can have, and the format of the depth buffer.
#[derive(Clone, Copy, Debug, PartialEq, Eq, Structural)]
pub enum RTextureFormat {
    Rgba8Unorm,
    Rgba8UnormSrgb,
    Rgba8Snorm,
    Bgra8Unorm,
    Bgra8UnormSrgb,
    Rgb10a2Unorm,
    Rgba16Unorm,
    Rgba16Snorm,
    Rgba16Float,
    Depth24Plus,
}

impl RTextureFormat {
    /// The format stores colour in the sRGB transfer curve.
    pub open spec fn srgb(self) -> bool {
        self == RTextureFormat::Rgba8UnormSrgb || self == RTextureFormat::Bgra8UnormSrgb
    }

    /// The format stores blue before red.
    pub open spec fn blue_first(self) -> bool {
        self == RTextureFormat::Bgra8Unorm || self == RTextureFormat::Bgra8UnormSrgb
    }

    /// Whether the format stores colour in the sRGB transfer curve.
    pub fn is_srgb(&self) -> (b: bool)
        ensures
            b == self.srgb(),
    {
        match self {
            RTextureFormat::Rgba8UnormSrgb => true,
            RTextureFormat::Bgra8UnormSrgb => true,
            _ => false,
        }
    }

    /// Whether the format stores blue before red.
    pub fn is_bgra(&self) -> (b: bool)
        ensures
            b == self.blue_first(),
    {
        match self {
            RTextureFormat::Bgra8Unorm => true,
            RTextureFormat::Bgra8UnormSrgb => true,
            _ => false,
        }
    }
}

/// Picks the presentation format among those a surface offers: the first
/// sRGB format, or the first format of the list when none is sRGB. An empty
/// list offers nothing.
pub fn choose_surface_format(formats: &Vec<RTextureFormat>) -> (r: Option<RTextureFormat>)
    ensures
        r is None <==> formats@.len() == 0,
        r matches Some(f) ==> {
            ||| exists|k: int|
                0 <= k < formats@.len() && formats@[k] == f && f.srgb() && forall|j: int|
                    0 <= j < k ==> !(#[trigger] formats@[j]).srgb()
            ||| f == formats@[0] && forall|j: int|
                0 <= j < formats@.len() ==> !(#[trigger] formats@[j]).srgb()
        },
{
    let mut i: usize = 0;
    while i < formats.len()
        invariant
            i <= formats@.len(),
            forall|j: int| 0 <= j < i ==> !(#[trigger] formats@[j]).srgb(),
        decreases formats@.len() - i,
    {
        if formats[i].is_srgb() {
            return Some(formats[i]);
        }
        i = i + 1;
    }
    if formats.len() == 0 {
        None
    } else {
        Some(formats[0])
    }
}

/// What a texture may be used for.
#[derive(Clone, Copy, Debug, PartialEq, Eq, Structural)]
pub struct RTextureUsage {
    pub render_attachment: bool,
    pub texture_binding: bool,
    pub copy_dst: bool,
}

/// Everything needed to allocate one texture.
#[derive(Clone, Copy, Debug, PartialEq, Eq, Structural)]
pub struct RTextureDesc {
    pub width: u32,
    pub height: u32,
    pub format: RTextureFormat,
    pub sample_count: u32,
    pub usage: RTextureUsage,
}

/// A texture of the store. `stamp` counts how often the texture has been
/// allocated anew; a bind group built against an earlier stamp refers to
/// an allocation that no longer exists.
#[derive(Clone, Copy, Debug, PartialEq, Eq, Structural)]
pub struct RTexture {
    pub width: u32,
    pub height: u32,
    pub format: RTextureFormat,
    pub stamp: u64,
}

/// A texture as a bind group refers to it: the texture's id, and the stamp
/// of the allocation whose view the bind group holds.
#[derive(Clone, Copy, Debug, PartialEq, Eq, Structural)]
pub struct RBoundTexture {
    pub id: RTextureId,
    pub stamp: u64,
}

impl RTexture {
    /// A stored texture can serve as a draw target, as a sampled input and
    /// as the destination of a copy, with one sample per pixel.
    pub open spec fn spec_desc(&self) -> RTextureDesc {
        RTextureDesc {
            width: self.width,
            height: self.height,
            format: self.format,
            sample_count: 1,
            usage: RTextureUsage { render_attachment: true, texture_binding: true, copy_dst: true },
        }
    }

    /// What allocating this texture takes.
    #[verifier::when_used_as_spec(spec_desc)]
    pub fn desc(&self) -> (d: RTextureDesc)
        ensures
            d == self.spec_desc(),
    {
        RTextureDesc {
            width: self.width,
            height: self.height,
            format: self.format,
            sample_count: 1,
            usage: RTextureUsage { render_attachment: true, texture_binding: true, copy_dst: true },
        }
    }
}

/// The texture bound in place of an absent one: small, RGBA8, never written
/// by a copy.
pub open spec fn spec_fallback_texture() -> RTextureDesc {
    RTextureDesc {
        width: FALLBACK_TEXTURE_SIZE,
        height: FALLBACK_TEXTURE_SIZE,
        format: RTextureFormat::Rgba8Unorm,
        sample_count: 1,
        usage: RTextureUsage { render_attachment: true, texture_binding: true, copy_dst: false },
    }
}

/// What allocating the fallback texture takes.
#[verifier::when_used_as_spec(spec_fallback_texture)]
pub fn fallback_texture() -> (d: RTextureDesc)
    ensures
        d == spec_fallback_texture(),
{
    RTextureDesc {
        width: FALLBACK_TEXTURE_SIZE,
        height: FALLBACK_TEXTURE_SIZE,
        format: RTextureFormat::Rgba8Unorm,
        sample_count: 1,
        usage: RTextureUsage { render_attachment: true, texture_binding: true, copy_dst: false },
    }
}

/// An image file as it was read: the path it came from and its bytes.
#[derive(Clone, Copy, Debug)]
pub struct RImageFile<'a> {
    pub path: &'a str,
    pub bytes: &'a [u8],
}

/// An image decoded to RGBA8, row by row from the top.
#[derive(Clone, Debug)]
pub struct DecodedImage {
    pub width: u32,
    pub height: u32,
    pub pixels: Vec<u8>,
}

/// A decoded image as plain values: width, height and pixel bytes.
pub struct ImageView {
    pub width: u32,
    pub height: u32,
    pub pixels: Seq<u8>,
}

impl View for DecodedImage {
    type V = ImageView;

    open spec fn view(&self) -> ImageView {
        ImageView { width: self.width, height: self.height, pixels: self.pixels@ }
    }
}

impl ImageView {
    /// The image can be copied into a texture: its rows fit a 32-bit row
    /// pitch and it holds exactly four bytes for each of its pixels.
    pub open spec fn usable(self) -> bool {
        &&& RGBA_BYTES * self.width <= u32::MAX
        &&& self.pixels.len() == RGBA_BYTES * self.width * self.height
    }
}

/// The view of an optional image.
pub open spec fn image_view(img: Option<DecodedImage>) -> Option<ImageView> {
    match img {
        Some(i) => Some(i@),
        None => None,
    }
}

impl DecodedImage {
    /// Whether the image can be copied into a texture.
    pub fn is_usable(&self) -> (b: bool)
        ensures
            b == self@.usable(),
    {
        if self.width > u32::MAX / RGBA_BYTES {
            return false;
        }
        let w: u128 = self.width as u128;
        let h: u128 = self.height as u128;
        assert(w * h <= 0xFFFF_FFFF * 0xFFFF_FFFF) by (nonlinear_arith)
            requires
                0 <= w <= 0xFFFF_FFFF,
                0 <= h <= 0xFFFF_FFFF,
        ;
        assert(RGBA_BYTES * self.width * self.height == 4 * (w * h)) by (nonlinear_arith)
            requires
                w == self.width,
                h == self.height,
                RGBA_BYTES == 4,
        ;
        let need: u128 = 4 * (w * h);
        self.pixels.len() as u128 == need
    }
}

/// What decoding the bytes of an image file gives, when the format is taken
/// from the extension of the file's path: the image as RGBA8, or nothing
/// where the extension names no supported format or the bytes do not decode.
pub uninterp spec fn decoded_image(path: Seq<char>, bytes: Seq<u8>) -> Option<ImageView>;

/// Decodes an image with the `image` crate. `ImageFormat::from_path` picks
/// the format by the path's extension, `load_from_memory_with_format`
/// decodes the bytes in that format, and `DynamicImage::to_rgba8` converts
/// the pixels. The contract only claims that the outcome is determined by
/// the path and the bytes; nothing about its contents is assumed.
#[verifier::external_body]
pub(crate) fn decode_rgba8(path: &str, bytes: &[u8]) -> (r: Option<DecodedImage>)
    ensures
        image_view(r) == decoded_image(path@, bytes@),
{
    let format = image::ImageFormat::from_path(path).ok()?;
    let img = image::load_from_memory_with_format(bytes, format).ok()?;
    Some(DecodedImage { width: img.width(), height: img.height(), pixels: img.to_rgba8().into_raw() })
}

/// A copy of pixel rows into a rectangle of a texture.
#[derive(Clone, Debug)]
pub struct RTextureWrite {
    pub texture: RTextureId,
    pub x: u32,
    pub y: u32,
    pub width: u32,
    pub height: u32,
    pub bytes_per_row: u32,
    pub rows_per_image: u32,
    pub data: Vec<u8>,
}

/// A texture write as plain values.
pub struct TextureWriteView {
    pub texture: RTextureId,
    pub x: u32,
    pub y: u32,
    pub width: u32,
    pub height: u32,
    pub bytes_per_row: u32,
    pub rows_per_image: u32,
    pub data: Seq<u8>,
}

impl View for RTextureWrite {
    type V = TextureWriteView;

    open spec fn view(&self) -> TextureWriteView {
        TextureWriteView {
            texture: self.texture,
            x: self.x,
            y: self.y,
            width: self.width,
            height: self.height,
            bytes_per_row: self.bytes_per_row,
            rows_per_image: self.rows_per_image,
            data: self.data@,
        }
    }
}

impl TextureWriteView {
    /// The write stays inside a texture of the given size.
    pub open spec fn inside(self, width: u32, height: u32) -> bool {
        self.x + self.width <= width && self.y + self.height <= height
    }

    /// The write carries exactly the RGBA8 rows of its rectangle.
    pub open spec fn packed(self) -> bool {
        &&& self.bytes_per_row == RGBA_BYTES * self.width
        &&& self.rows_per_image == self.height
        &&& self.data.len() == RGBA_BYTES * self.width * self.height
    }
}

/// The write that places a whole image at the origin of a texture.
pub open spec fn image_upload(texture: RTextureId, img: ImageView) -> TextureWriteView {
    TextureWriteView {
        texture,
        x: 0,
        y: 0,
        width: img.width,
        height: img.height,
        bytes_per_row: (RGBA_BYTES * img.width) as u32,
        rows_per_image: img.height,
        data: img.pixels,
    }
}

/// Turns a usable image into the write that uploads it.
pub(crate) fn upload_image(texture: RTextureId, img: DecodedImage) -> (w: RTextureWrite)
    requires
        img@.usable(),
    ensures
        w@ == image_upload(texture, img@),
        w@.packed(),
{
    RTextureWrite {
        texture,
        x: 0,
        y: 0,
        width: img.width,
        height: img.height,
        bytes_per_row: RGBA_BYTES * img.width,
        rows_per_image: img.height,
        data: img.pixels,
    }
}

} // verus!
