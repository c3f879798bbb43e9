//! The data the backend uploads at setup: shader code, the texture, and the version it
//! asks of the Vulkan instance.
use vstd::prelude::*;
use super::swapchain::Extent2D;

verus! {

/// The bytes that open a SPIR-V module stored little-endian.
pub open spec fn spirv_little_endian(bytes: Seq<u8>) -> bool {
    &&& bytes.len() >= 4
    &&& bytes[0] == 0x03u8 && bytes[1] == 0x02u8 && bytes[2] == 0x23u8 && bytes[3] == 0x07u8
}

/// The bytes that open a SPIR-V module stored big-endian.
pub open spec fn spirv_big_endian(bytes: Seq<u8>) -> bool {
    &&& bytes.len() >= 4
    &&& bytes[0] == 0x07u8 && bytes[1] == 0x23u8 && bytes[2] == 0x02u8 && bytes[3] == 0x03u8
}

/// The bytes form whole 32-bit words and start with the SPIR-V magic number in either
/// byte order.
pub open spec fn spirv_accepted(bytes: Seq<u8>) -> bool {
    &&& bytes.len() % 4 == 0
    &&& spirv_little_endian(bytes) || spirv_big_endian(bytes)
}

/// Word `i` of `bytes`, read least significant byte first.
pub open spec fn word_le(bytes: Seq<u8>, i: int) -> u32 {
    (bytes[4 * i] + 256 * bytes[4 * i + 1] + 65536 * bytes[4 * i + 2] + 16777216 * bytes[4 * i
        + 3]) as u32
}

/// Word `i` of `bytes`, read most significant byte first.
pub open spec fn word_be(bytes: Seq<u8>, i: int) -> u32 {
    (bytes[4 * i + 3] + 256 * bytes[4 * i + 2] + 65536 * bytes[4 * i + 1] + 16777216 * bytes[4
        * i]) as u32
}

/// The words of a SPIR-V module, in the byte order that its magic number shows.
pub open spec fn spirv_words(bytes: Seq<u8>) -> Seq<u32> {
    Seq::new(
        bytes.len() / 4,
        |i: int|
            if spirv_little_endian(bytes) {
                word_le(bytes, i)
            } else {
                word_be(bytes, i)
            },
    )
}

/// An accepted module holds a whole number of words, one for every four bytes, and its
/// first word is the SPIR-V magic number, whichever byte order it was stored in.
pub proof fn lemma_spirv_words_start_with_magic(bytes: Seq<u8>)
    requires
        spirv_accepted(bytes),
    ensures
        spirv_words(bytes).len() * 4 == bytes.len(),
        spirv_words(bytes)[0] == 0x0723_0203u32,
{
    assert(spirv_words(bytes)[0] == 0x0723_0203u32);
}

/// Calls `ash::util::read_spv` on the bytes, read through an in-memory cursor, and
/// keeps the words it returns. Its source checks that the length is a multiple of four,
/// reads the words in the machine's byte order, turns every word around when the first
/// one is the magic number turned around, and fails unless the first word is then the
/// magic number `0x0723_0203`; on either byte order of the machine that accepts exactly
/// the inputs of `spirv_accepted` and yields `spirv_words`. The cursor never fails to
/// seek or read.
#[verifier::external_body]
fn read_spv_words(bytes: &[u8]) -> (r: Option<Vec<u32>>)
    ensures
        r is Some <==> spirv_accepted(bytes@),
        r matches Some(words) ==> words@ == spirv_words(bytes@),
{
    ash::util::read_spv(&mut std::io::Cursor::new(bytes)).ok()
}

/// The compiled code of the vertex and the fragment shader.
pub struct ShaderCode {
    pub vertex: Vec<u32>,
    pub fragment: Vec<u32>,
}

/// The shader whose file could not be read as SPIR-V.
#[derive(Clone, Copy, Debug, PartialEq, Eq)]
pub enum ShaderError {
    Vertex,
    Fragment,
}

impl ShaderError {
    pub open spec fn spec_message(self) -> Seq<char> {
        match self {
            ShaderError::Vertex => "Failed to read vertex shader spv file"@,
            ShaderError::Fragment => "Failed to read fragment shader spv file"@,
        }
    }

    /// The message with which setup stops.
    pub fn message(&self) -> (r: &'static str)
        ensures
            r@ == self.spec_message(),
    {
        match self {
            ShaderError::Vertex => "Failed to read vertex shader spv file",
            ShaderError::Fragment => "Failed to read fragment shader spv file",
        }
    }
}

/// Reads the vertex shader and then the fragment shader from their SPIR-V files.
pub fn load_shaders(vertex: &[u8], fragment: &[u8]) -> (r: Result<ShaderCode, ShaderError>)
    ensures
        match r {
            Ok(code) => {
                &&& spirv_accepted(vertex@) && spirv_accepted(fragment@)
                &&& code.vertex@ == spirv_words(vertex@)
                &&& code.fragment@ == spirv_words(fragment@)
            },
            Err(ShaderError::Vertex) => !spirv_accepted(vertex@),
            Err(ShaderError::Fragment) => spirv_accepted(vertex@) && !spirv_accepted(fragment@),
        },
{
    let vertex_code = match read_spv_words(vertex) {
        Some(words) => words,
        None => return Err(ShaderError::Vertex),
    };
    let fragment_code = match read_spv_words(fragment) {
        Some(words) => words,
        None => return Err(ShaderError::Fragment),
    };
    Ok(ShaderCode { vertex: vertex_code, fragment: fragment_code })
}

/// Calls `image::load_from_memory` and converts the image it returns to eight-bit RGBA
/// with `to_rgba8`, handing out its size and its pixel buffer (`dimensions`,
/// `into_raw`); a decoding error comes back as `None`. Which image the bytes give is
/// not stated: the crate first consults format detection and decoding hooks that a
/// program may register at any time, so the outcome does not rest on the bytes alone.
/// What holds of every outcome is that an RGBA image buffer holds at least four bytes
/// per pixel (`ImageBuffer::from_raw` refuses a smaller container).
#[verifier::external_body]
fn decode_rgba8(bytes: &[u8]) -> (r: Option<(u32, u32, Vec<u8>)>)
    ensures
        r matches Some((w, h, p)) ==> p@.len() >= 4 * w * h,
{
    match image::load_from_memory(bytes) {
        Ok(decoded) => {
            let rgba = decoded.to_rgba8();
            let (width, height) = rgba.dimensions();
            Some((width, height, rgba.into_raw()))
        },
        Err(_) => None,
    }
}

/// An eight-bit RGBA image to be uploaded as a texture.
pub struct TextureImage {
    width: u32,
    height: u32,
    pixels: Vec<u8>,
}

impl TextureImage {
    pub closed spec fn width(&self) -> u32 {
        self.width
    }

    pub closed spec fn height(&self) -> u32 {
        self.height
    }

    pub closed spec fn pixels(&self) -> Seq<u8> {
        self.pixels@
    }

    /// Decodes an image file held in memory into RGBA pixels; `None` where the decoder
    /// does not read it. Whatever the decoder hands back, the texture holds four bytes
    /// or more for each of its pixels.
    pub fn decode(bytes: &[u8]) -> (r: Option<TextureImage>)
        ensures
            r matches Some(t) ==> t.pixels().len() >= 4 * t.width() * t.height(),
    {
        match decode_rgba8(bytes) {
            Some((width, height, pixels)) => TextureImage::from_rgba8(width, height, pixels),
            None => None,
        }
    }

    /// A texture of the given size over RGBA pixel bytes, row by row; `None` where the
    /// bytes are fewer than four per pixel.
    pub fn from_rgba8(width: u32, height: u32, pixels: Vec<u8>) -> (r: Option<TextureImage>)
        ensures
            r is Some <==> pixels@.len() >= 4 * width * height,
            r matches Some(t) ==> t.width() == width && t.height() == height && t.pixels()
                == pixels@,
    {
        let w: u128 = width as u128;
        let h: u128 = height as u128;
        assert(w * h <= 0xffff_ffff_ffff_ffffu128 * 0xffff_ffffu128) by (nonlinear_arith)
            requires
                w <= 0xffff_ffffu128,
                h <= 0xffff_ffffu128,
        ;
        let area: u128 = w * h;
        let needed: u128 = 4 * area;
        assert(needed == 4 * width * height) by (nonlinear_arith)
            requires
                needed == 4 * area,
                area == w * h,
                w == width,
                h == height,
        ;
        if (pixels.len() as u128) >= needed {
            Some(TextureImage { width, height, pixels })
        } else {
            None
        }
    }

    /// The size of the image in pixels.
    pub fn extent(&self) -> (r: Extent2D)
        ensures
            r == (Extent2D { width: self.width(), height: self.height() }),
    {
        Extent2D { width: self.width, height: self.height }
    }

    /// The size in bytes of the staging buffer that holds the pixels.
    pub fn staging_size(&self) -> (r: u64)
        ensures
            r == self.pixels().len(),
    {
        self.pixels.len() as u64
    }

    /// The pixel bytes.
    pub fn pixels_bytes(&self) -> (r: &[u8])
        ensures
            r@ == self.pixels(),
    {
        self.pixels.as_slice()
    }
}

/// The indices of the two triangles that make up the textured quad.
pub fn quad_indices() -> (r: [u32; 6])
    ensures
        r@ == seq![0u32, 1, 2, 2, 3, 0],
{
    [0u32, 1, 2, 2, 3, 0]
}

/// The Vulkan version number made of a variant, a major, a minor and a patch number.
pub open spec fn spec_api_version(variant: u32, major: u32, minor: u32, patch: u32) -> u32 {
    (variant << 29u32) | (major << 22u32) | (minor << 12u32) | patch
}

/// Calls `ash::vk::make_api_version`, whose body is the expression of
/// `spec_api_version`.
#[verifier::external_body]
fn make_api_version(variant: u32, major: u32, minor: u32, patch: u32) -> (r: u32)
    ensures
        r == spec_api_version(variant, major, minor, patch),
{
    ash::vk::make_api_version(variant, major, minor, patch)
}

/// The Vulkan version the instance is created for: 1.0.0.
pub fn instance_api_version() -> (r: u32)
    ensures
        r == spec_api_version(0, 1, 0, 0),
        r == 0x0040_0000,
{
    let r = make_api_version(0, 1, 0, 0);
    assert(spec_api_version(0, 1, 0, 0) == 0x0040_0000u32) by (bit_vector);
    r
}

} // verus!
