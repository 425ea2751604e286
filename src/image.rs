use vstd::prelude::*;

verus! {

/// Bayer sensor sample formats; each code is the register bit pattern.
#[allow(non_camel_case_types)]
#[derive(Clone, Copy, Debug, PartialEq, Eq, Structural)]
pub enum ImageBayerFormat {
    RAW6,
    RAW7,
    RAW8,
    RAW10,
    RAW12,
    RAW14,
    RAW16,
    RAW10_8,
    RAW12_8,
    RAW14_8,
    RAW10L,
    RAW12L,
    RAW14L,
    RAW16_BIG_ENDIAN,
    RAW4,
}

impl ImageBayerFormat {
    /// The numeric code that the firmware uses for this value.
    pub open spec fn spec_code(self) -> u32 {
        match self {
            ImageBayerFormat::RAW6 => 0,
            ImageBayerFormat::RAW7 => 1,
            ImageBayerFormat::RAW8 => 2,
            ImageBayerFormat::RAW10 => 3,
            ImageBayerFormat::RAW12 => 4,
            ImageBayerFormat::RAW14 => 5,
            ImageBayerFormat::RAW16 => 6,
            ImageBayerFormat::RAW10_8 => 7,
            ImageBayerFormat::RAW12_8 => 8,
            ImageBayerFormat::RAW14_8 => 9,
            ImageBayerFormat::RAW10L => 11,
            ImageBayerFormat::RAW12L => 12,
            ImageBayerFormat::RAW14L => 13,
            ImageBayerFormat::RAW16_BIG_ENDIAN => 14,
            ImageBayerFormat::RAW4 => 15,
        }
    }

    pub fn code(&self) -> (r: u32)
        ensures
            r == self.spec_code(),
    {
        match self {
            ImageBayerFormat::RAW6 => 0,
            ImageBayerFormat::RAW7 => 1,
            ImageBayerFormat::RAW8 => 2,
            ImageBayerFormat::RAW10 => 3,
            ImageBayerFormat::RAW12 => 4,
            ImageBayerFormat::RAW14 => 5,
            ImageBayerFormat::RAW16 => 6,
            ImageBayerFormat::RAW10_8 => 7,
            ImageBayerFormat::RAW12_8 => 8,
            ImageBayerFormat::RAW14_8 => 9,
            ImageBayerFormat::RAW10L => 11,
            ImageBayerFormat::RAW12L => 12,
            ImageBayerFormat::RAW14L => 13,
            ImageBayerFormat::RAW16_BIG_ENDIAN => 14,
            ImageBayerFormat::RAW4 => 15,
        }
    }

    /// The value whose code is `c`, if there is one.
    pub fn from_code(c: u32) -> (r: Option<ImageBayerFormat>)
        ensures
            match r {
                Some(v) => v.spec_code() == c,
                None => forall|v: ImageBayerFormat| #[trigger] v.spec_code() != c,
            },
    {
        if c == 0 {
            Some(ImageBayerFormat::RAW6)
        } else if c == 1 {
            Some(ImageBayerFormat::RAW7)
        } else if c == 2 {
            Some(ImageBayerFormat::RAW8)
        } else if c == 3 {
            Some(ImageBayerFormat::RAW10)
        } else if c == 4 {
            Some(ImageBayerFormat::RAW12)
        } else if c == 5 {
            Some(ImageBayerFormat::RAW14)
        } else if c == 6 {
            Some(ImageBayerFormat::RAW16)
        } else if c == 7 {
            Some(ImageBayerFormat::RAW10_8)
        } else if c == 8 {
            Some(ImageBayerFormat::RAW12_8)
        } else if c == 9 {
            Some(ImageBayerFormat::RAW14_8)
        } else if c == 11 {
            Some(ImageBayerFormat::RAW10L)
        } else if c == 12 {
            Some(ImageBayerFormat::RAW12L)
        } else if c == 13 {
            Some(ImageBayerFormat::RAW14L)
        } else if c == 14 {
            Some(ImageBayerFormat::RAW16_BIG_ENDIAN)
        } else if c == 15 {
            Some(ImageBayerFormat::RAW4)
        } else {
            None
        }
    }
}

/// Bayer colour filter orders; each code is the register bit pattern.
#[allow(non_camel_case_types)]
#[derive(Clone, Copy, Debug, PartialEq, Eq, Structural)]
pub enum ImageBayerOrder {
    RGGB,
    GBRG,
    BGGR,
    GRBG,
}

impl ImageBayerOrder {
    /// The numeric code that the firmware uses for this value.
    pub open spec fn spec_code(self) -> u32 {
        match self {
            ImageBayerOrder::RGGB => 0,
            ImageBayerOrder::GBRG => 1,
            ImageBayerOrder::BGGR => 2,
            ImageBayerOrder::GRBG => 3,
        }
    }

    pub fn code(&self) -> (r: u32)
        ensures
            r == self.spec_code(),
    {
        match self {
            ImageBayerOrder::RGGB => 0,
            ImageBayerOrder::GBRG => 1,
            ImageBayerOrder::BGGR => 2,
            ImageBayerOrder::GRBG => 3,
        }
    }

    /// The value whose code is `c`, if there is one.
    pub fn from_code(c: u32) -> (r: Option<ImageBayerOrder>)
        ensures
            match r {
                Some(v) => v.spec_code() == c,
                None => forall|v: ImageBayerOrder| #[trigger] v.spec_code() != c,
            },
    {
        if c == 0 {
            Some(ImageBayerOrder::RGGB)
        } else if c == 1 {
            Some(ImageBayerOrder::GBRG)
        } else if c == 2 {
            Some(ImageBayerOrder::BGGR)
        } else if c == 3 {
            Some(ImageBayerOrder::GRBG)
        } else {
            None
        }
    }
}

/// Image orientations: bit 0 mirrors, bit 1 rotates by 180 degrees, bit 2 rotates by 90 degrees.
#[allow(non_camel_case_types)]
#[derive(Clone, Copy, Debug, PartialEq, Eq, Structural)]
pub enum ImageTransform {
    ROT0,
    MIRROR_ROT0,
    MIRROR_ROT180,
    ROT180,
    MIRROR_ROT90,
    ROT270,
    ROT90,
    MIRROR_ROT270,
}

impl ImageTransform {
    /// The numeric code that the firmware uses for this value.
    pub open spec fn spec_code(self) -> u32 {
        match self {
            ImageTransform::ROT0 => 0,
            ImageTransform::MIRROR_ROT0 => 1,
            ImageTransform::MIRROR_ROT180 => 2,
            ImageTransform::ROT180 => 3,
            ImageTransform::MIRROR_ROT90 => 4,
            ImageTransform::ROT270 => 5,
            ImageTransform::ROT90 => 6,
            ImageTransform::MIRROR_ROT270 => 7,
        }
    }

    pub fn code(&self) -> (r: u32)
        ensures
            r == self.spec_code(),
    {
        match self {
            ImageTransform::ROT0 => 0,
            ImageTransform::MIRROR_ROT0 => 1,
            ImageTransform::MIRROR_ROT180 => 2,
            ImageTransform::ROT180 => 3,
            ImageTransform::MIRROR_ROT90 => 4,
            ImageTransform::ROT270 => 5,
            ImageTransform::ROT90 => 6,
            ImageTransform::MIRROR_ROT270 => 7,
        }
    }

    /// The value whose code is `c`, if there is one.
    pub fn from_code(c: u32) -> (r: Option<ImageTransform>)
        ensures
            match r {
                Some(v) => v.spec_code() == c,
                None => forall|v: ImageTransform| #[trigger] v.spec_code() != c,
            },
    {
        if c == 0 {
            Some(ImageTransform::ROT0)
        } else if c == 1 {
            Some(ImageTransform::MIRROR_ROT0)
        } else if c == 2 {
            Some(ImageTransform::MIRROR_ROT180)
        } else if c == 3 {
            Some(ImageTransform::ROT180)
        } else if c == 4 {
            Some(ImageTransform::MIRROR_ROT90)
        } else if c == 5 {
            Some(ImageTransform::ROT270)
        } else if c == 6 {
            Some(ImageTransform::ROT90)
        } else if c == 7 {
            Some(ImageTransform::MIRROR_ROT270)
        } else {
            None
        }
    }
}

/// Pixel formats of firmware images.
#[allow(non_camel_case_types)]
#[derive(Clone, Copy, Debug, PartialEq, Eq, Structural)]
pub enum ImageType {
    /// bounds for error checking
    MIN,
    RGB565,
    _1BPP,
    YUV420,
    _48BPP,
    RGB888,
    _8BPP,
    /// 4bpp palettised image
    _4BPP,
    /// A separated format of 16 colour/light shorts followed by 16 z values
    _3D32,
    /// 16 colours followed by 16 z values
    _3D32B,
    /// A separated format of 16 material/colour/light shorts followed by 16 z values
    _3D32MAT,
    /// 32 bit format containing 18 bits of 6.6.6 RGB, 9 bits per short
    RGB2X9,
    /// 32-bit format holding 18 bits of 6.6.6 RGB
    RGB666,
    /// 4bpp palettised image with embedded palette
    PAL4_OBSOLETE,
    /// 8bpp palettised image with embedded palette
    PAL8_OBSOLETE,
    /// RGB888 with an alpha byte after each pixel
    RGBA32,
    /// a line of Y (32-byte padded), a line of U (16-byte padded), and a line of V (16-byte padded)
    YUV422,
    /// RGB565 with a transparent patch
    RGBA565,
    /// Compressed (4444) version of RGBA32
    RGBA16,
    /// VCIII codec format
    YUV_UV,
    /// VCIII T-format RGBA8888
    TF_RGBA32,
    /// VCIII T-format RGBx8888
    TF_RGBX32,
    /// VCIII T-format float
    TF_FLOAT,
    /// VCIII T-format RGBA4444
    TF_RGBA16,
    /// VCIII T-format RGB5551
    TF_RGBA5551,
    /// VCIII T-format RGB565
    TF_RGB565,
    /// VCIII T-format 8-bit luma and 8-bit alpha
    TF_YA88,
    /// VCIII T-format 8 bit generic sample
    TF_BYTE,
    /// VCIII T-format 8-bit palette
    TF_PAL8,
    /// VCIII T-format 4-bit palette
    TF_PAL4,
    /// VCIII T-format Ericsson Texture Compressed
    TF_ETC1,
    /// RGB888 with R & B swapped
    BGR888,
    /// RGB888 with R & B swapped, but with no pitch, i.e. no padding after each row of pixels
    BGR888_NP,
    /// Bayer image, extra defines which variant is being used
    BAYER,
    /// General wrapper for codec images e.g. JPEG from camera
    CODEC,
    /// VCIII codec format
    YUV_UV32,
    /// VCIII T-format 8-bit luma
    TF_Y8,
    /// VCIII T-format 8-bit alpha
    TF_A8,
    /// VCIII T-format 16-bit generic sample
    TF_SHORT,
    /// VCIII T-format 1bpp black/white
    TF_1BPP,
    OPENGL,
    /// VCIII-B0 HVS YUV 4:4:4 interleaved samples
    YUV444I,
    /// Y, U, & V planes separately (YUV422 has them interleaved on a per line basis)
    YUV422PLANAR,
    /// 32bpp with 8bit alpha at MS byte, with R, G, B (LS byte)
    ARGB8888,
    /// 32bpp with 8bit unused at MS byte, with R, G, B (LS byte)
    XRGB8888,
    /// interleaved 8 bit samples of Y, U, Y, V
    YUV422YUYV,
    /// interleaved 8 bit samples of Y, V, Y, U
    YUV422YVYU,
    /// interleaved 8 bit samples of U, Y, V, Y
    YUV422UYVY,
    /// interleaved 8 bit samples of V, Y, U, Y
    YUV422VYUY,
    /// 32bpp like RGBA32 but with unused alpha
    RGBX32,
    /// 32bpp, corresponding to RGBA with unused alpha
    RGBX8888,
    /// 32bpp, corresponding to BGRA with unused alpha
    BGRX8888,
    /// Y as a plane, then UV byte interleaved in plane with with same pitch, half height
    YUV420SP,
    /// Y, U, & V planes separately 4:4:4
    YUV444PLANAR,
    /// T-format 8-bit U - same as TF_Y8 buf from U plane
    TF_U8,
    /// T-format 8-bit U - same as TF_Y8 buf from V plane
    TF_V8,
    /// bounds for error checking
    MAX,
    FORCE_ENUM_16BIT,
}

impl ImageType {
    /// The numeric code that the firmware uses for this value.
    pub open spec fn spec_code(self) -> u32 {
        match self {
            ImageType::MIN => 0,
            ImageType::RGB565 => 1,
            ImageType::_1BPP => 2,
            ImageType::YUV420 => 3,
            ImageType::_48BPP => 4,
            ImageType::RGB888 => 5,
            ImageType::_8BPP => 6,
            ImageType::_4BPP => 7,
            ImageType::_3D32 => 8,
            ImageType::_3D32B => 9,
            ImageType::_3D32MAT => 10,
            ImageType::RGB2X9 => 11,
            ImageType::RGB666 => 12,
            ImageType::PAL4_OBSOLETE => 13,
            ImageType::PAL8_OBSOLETE => 14,
            ImageType::RGBA32 => 15,
            ImageType::YUV422 => 16,
            ImageType::RGBA565 => 17,
            ImageType::RGBA16 => 18,
            ImageType::YUV_UV => 19,
            ImageType::TF_RGBA32 => 20,
            ImageType::TF_RGBX32 => 21,
            ImageType::TF_FLOAT => 22,
            ImageType::TF_RGBA16 => 23,
            ImageType::TF_RGBA5551 => 24,
            ImageType::TF_RGB565 => 25,
            ImageType::TF_YA88 => 26,
            ImageType::TF_BYTE => 27,
            ImageType::TF_PAL8 => 28,
            ImageType::TF_PAL4 => 29,
            ImageType::TF_ETC1 => 30,
            ImageType::BGR888 => 31,
            ImageType::BGR888_NP => 32,
            ImageType::BAYER => 33,
            ImageType::CODEC => 34,
            ImageType::YUV_UV32 => 35,
            ImageType::TF_Y8 => 36,
            ImageType::TF_A8 => 37,
            ImageType::TF_SHORT => 38,
            ImageType::TF_1BPP => 39,
            ImageType::OPENGL => 40,
            ImageType::YUV444I => 41,
            ImageType::YUV422PLANAR => 42,
            ImageType::ARGB8888 => 43,
            ImageType::XRGB8888 => 44,
            ImageType::YUV422YUYV => 45,
            ImageType::YUV422YVYU => 46,
            ImageType::YUV422UYVY => 47,
            ImageType::YUV422VYUY => 48,
            ImageType::RGBX32 => 49,
            ImageType::RGBX8888 => 50,
            ImageType::BGRX8888 => 51,
            ImageType::YUV420SP => 52,
            ImageType::YUV444PLANAR => 53,
            ImageType::TF_U8 => 54,
            ImageType::TF_V8 => 55,
            ImageType::MAX => 56,
            ImageType::FORCE_ENUM_16BIT => 0xffff,
        }
    }

    pub fn code(&self) -> (r: u32)
        ensures
            r == self.spec_code(),
    {
        match self {
            ImageType::MIN => 0,
            ImageType::RGB565 => 1,
            ImageType::_1BPP => 2,
            ImageType::YUV420 => 3,
            ImageType::_48BPP => 4,
            ImageType::RGB888 => 5,
            ImageType::_8BPP => 6,
            ImageType::_4BPP => 7,
            ImageType::_3D32 => 8,
            ImageType::_3D32B => 9,
            ImageType::_3D32MAT => 10,
            ImageType::RGB2X9 => 11,
            ImageType::RGB666 => 12,
            ImageType::PAL4_OBSOLETE => 13,
            ImageType::PAL8_OBSOLETE => 14,
            ImageType::RGBA32 => 15,
            ImageType::YUV422 => 16,
            ImageType::RGBA565 => 17,
            ImageType::RGBA16 => 18,
            ImageType::YUV_UV => 19,
            ImageType::TF_RGBA32 => 20,
            ImageType::TF_RGBX32 => 21,
            ImageType::TF_FLOAT => 22,
            ImageType::TF_RGBA16 => 23,
            ImageType::TF_RGBA5551 => 24,
            ImageType::TF_RGB565 => 25,
            ImageType::TF_YA88 => 26,
            ImageType::TF_BYTE => 27,
            ImageType::TF_PAL8 => 28,
            ImageType::TF_PAL4 => 29,
            ImageType::TF_ETC1 => 30,
            ImageType::BGR888 => 31,
            ImageType::BGR888_NP => 32,
            ImageType::BAYER => 33,
            ImageType::CODEC => 34,
            ImageType::YUV_UV32 => 35,
            ImageType::TF_Y8 => 36,
            ImageType::TF_A8 => 37,
            ImageType::TF_SHORT => 38,
            ImageType::TF_1BPP => 39,
            ImageType::OPENGL => 40,
            ImageType::YUV444I => 41,
            ImageType::YUV422PLANAR => 42,
            ImageType::ARGB8888 => 43,
            ImageType::XRGB8888 => 44,
            ImageType::YUV422YUYV => 45,
            ImageType::YUV422YVYU => 46,
            ImageType::YUV422UYVY => 47,
            ImageType::YUV422VYUY => 48,
            ImageType::RGBX32 => 49,
            ImageType::RGBX8888 => 50,
            ImageType::BGRX8888 => 51,
            ImageType::YUV420SP => 52,
            ImageType::YUV444PLANAR => 53,
            ImageType::TF_U8 => 54,
            ImageType::TF_V8 => 55,
            ImageType::MAX => 56,
            ImageType::FORCE_ENUM_16BIT => 0xffff,
        }
    }

    /// The value whose code is `c`, if there is one.
    pub fn from_code(c: u32) -> (r: Option<ImageType>)
        ensures
            match r {
                Some(v) => v.spec_code() == c,
                None => forall|v: ImageType| #[trigger] v.spec_code() != c,
            },
    {
        if c == 0 {
            Some(ImageType::MIN)
        } else if c == 1 {
            Some(ImageType::RGB565)
        } else if c == 2 {
            Some(ImageType::_1BPP)
        } else if c == 3 {
            Some(ImageType::YUV420)
        } else if c == 4 {
            Some(ImageType::_48BPP)
        } else if c == 5 {
            Some(ImageType::RGB888)
        } else if c == 6 {
            Some(ImageType::_8BPP)
        } else if c == 7 {
            Some(ImageType::_4BPP)
        } else if c == 8 {
            Some(ImageType::_3D32)
        } else if c == 9 {
            Some(ImageType::_3D32B)
        } else if c == 10 {
            Some(ImageType::_3D32MAT)
        } else if c == 11 {
            Some(ImageType::RGB2X9)
        } else if c == 12 {
            Some(ImageType::RGB666)
        } else if c == 13 {
            Some(ImageType::PAL4_OBSOLETE)
        } else if c == 14 {
            Some(ImageType::PAL8_OBSOLETE)
        } else if c == 15 {
            Some(ImageType::RGBA32)
        } else if c == 16 {
            Some(ImageType::YUV422)
        } else if c == 17 {
            Some(ImageType::RGBA565)
        } else if c == 18 {
            Some(ImageType::RGBA16)
        } else if c == 19 {
            Some(ImageType::YUV_UV)
        } else if c == 20 {
            Some(ImageType::TF_RGBA32)
        } else if c == 21 {
            Some(ImageType::TF_RGBX32)
        } else if c == 22 {
            Some(ImageType::TF_FLOAT)
        } else if c == 23 {
            Some(ImageType::TF_RGBA16)
        } else if c == 24 {
            Some(ImageType::TF_RGBA5551)
        } else if c == 25 {
            Some(ImageType::TF_RGB565)
        } else if c == 26 {
            Some(ImageType::TF_YA88)
        } else if c == 27 {
            Some(ImageType::TF_BYTE)
        } else if c == 28 {
            Some(ImageType::TF_PAL8)
        } else if c == 29 {
            Some(ImageType::TF_PAL4)
        } else if c == 30 {
            Some(ImageType::TF_ETC1)
        } else if c == 31 {
            Some(ImageType::BGR888)
        } else if c == 32 {
            Some(ImageType::BGR888_NP)
        } else if c == 33 {
            Some(ImageType::BAYER)
        } else if c == 34 {
            Some(ImageType::CODEC)
        } else if c == 35 {
            Some(ImageType::YUV_UV32)
        } else if c == 36 {
            Some(ImageType::TF_Y8)
        } else if c == 37 {
            Some(ImageType::TF_A8)
        } else if c == 38 {
            Some(ImageType::TF_SHORT)
        } else if c == 39 {
            Some(ImageType::TF_1BPP)
        } else if c == 40 {
            Some(ImageType::OPENGL)
        } else if c == 41 {
            Some(ImageType::YUV444I)
        } else if c == 42 {
            Some(ImageType::YUV422PLANAR)
        } else if c == 43 {
            Some(ImageType::ARGB8888)
        } else if c == 44 {
            Some(ImageType::XRGB8888)
        } else if c == 45 {
            Some(ImageType::YUV422YUYV)
        } else if c == 46 {
            Some(ImageType::YUV422YVYU)
        } else if c == 47 {
            Some(ImageType::YUV422UYVY)
        } else if c == 48 {
            Some(ImageType::YUV422VYUY)
        } else if c == 49 {
            Some(ImageType::RGBX32)
        } else if c == 50 {
            Some(ImageType::RGBX8888)
        } else if c == 51 {
            Some(ImageType::BGRX8888)
        } else if c == 52 {
            Some(ImageType::YUV420SP)
        } else if c == 53 {
            Some(ImageType::YUV444PLANAR)
        } else if c == 54 {
            Some(ImageType::TF_U8)
        } else if c == 55 {
            Some(ImageType::TF_V8)
        } else if c == 56 {
            Some(ImageType::MAX)
        } else if c == 0xffff {
            Some(ImageType::FORCE_ENUM_16BIT)
        } else {
            None
        }
    }
}

/// A firmware-side image object whose layout is not exposed; only ever
/// passed through by reference.
#[derive(Clone, Copy, Debug, PartialEq, Eq, Structural)]
pub struct Image;

/// An axis-aligned region in pixel coordinates, laid out as four signed
/// 32-bit integers in the order x, y, width, height.
#[derive(Clone, Copy, Debug, PartialEq, Eq, Structural)]
pub struct Rect {
    pub x: i32,
    pub y: i32,
    pub width: i32,
    pub height: i32,
}

/// Number of bytes that a `Rect` occupies in its native layout.
pub const RECT_SIZE: usize = 16;

/// The four little-endian bytes of `v`.
pub open spec fn i32_le(v: i32) -> Seq<u8> {
    let u = v as u32;
    seq![
        (u & 0xff) as u8,
        ((u >> 8) & 0xff) as u8,
        ((u >> 16) & 0xff) as u8,
        ((u >> 24) & 0xff) as u8,
    ]
}

/// The integer whose little-endian bytes are `b[at..at + 4]`.
pub open spec fn le_i32(b: Seq<u8>, at: int) -> i32 {
    ((b[at] as u32) | ((b[at + 1] as u32) << 8) | ((b[at + 2] as u32) << 16) | ((b[at + 3] as u32)
        << 24)) as i32
}

/// The native byte layout of a rectangle: x, y, width, height, each as four
/// little-endian bytes.
pub open spec fn rect_bytes(r: Rect) -> Seq<u8> {
    i32_le(r.x) + i32_le(r.y) + i32_le(r.width) + i32_le(r.height)
}

/// The rectangle read back from its native byte layout.
pub open spec fn rect_of_bytes(b: Seq<u8>) -> Rect {
    Rect { x: le_i32(b, 0), y: le_i32(b, 4), width: le_i32(b, 8), height: le_i32(b, 12) }
}

proof fn lemma_u32_bytes_join(u: u32)
    ensures
        (((u & 0xff) as u8) as u32) | (((((u >> 8) & 0xff) as u8) as u32) << 8) | (((((u >> 16)
            & 0xff) as u8) as u32) << 16) | (((((u >> 24) & 0xff) as u8) as u32) << 24) == u,
{
    assert((((u & 0xff) as u8) as u32) | (((((u >> 8) & 0xff) as u8) as u32) << 8) | (((((u >> 16)
        & 0xff) as u8) as u32) << 16) | (((((u >> 24) & 0xff) as u8) as u32) << 24) == u)
        by (bit_vector);
}

proof fn lemma_u32_bytes_split(b0: u8, b1: u8, b2: u8, b3: u8)
    ensures
        ({
            let u = (b0 as u32) | ((b1 as u32) << 8) | ((b2 as u32) << 16) | ((b3 as u32) << 24);
            &&& (u & 0xff) as u8 == b0
            &&& ((u >> 8) & 0xff) as u8 == b1
            &&& ((u >> 16) & 0xff) as u8 == b2
            &&& ((u >> 24) & 0xff) as u8 == b3
        }),
{
    let u = (b0 as u32) | ((b1 as u32) << 8) | ((b2 as u32) << 16) | ((b3 as u32) << 24);
    assert((u & 0xff) as u8 == b0 && ((u >> 8) & 0xff) as u8 == b1 && ((u >> 16) & 0xff) as u8
        == b2 && ((u >> 24) & 0xff) as u8 == b3) by (bit_vector)
        requires
            u == (b0 as u32) | ((b1 as u32) << 8) | ((b2 as u32) << 16) | ((b3 as u32) << 24),
    ;
}

proof fn lemma_i32_le_round_trip(v: i32)
    ensures
        le_i32(i32_le(v), 0) == v,
{
    let u = v as u32;
    lemma_u32_bytes_join(u);
    assert((v as u32) as i32 == v) by (bit_vector);
}

proof fn lemma_le_i32_round_trip(b: Seq<u8>, at: int)
    requires
        0 <= at,
        at + 4 <= b.len(),
    ensures
        i32_le(le_i32(b, at)) == b.subrange(at, at + 4),
{
    let u = (b[at] as u32) | ((b[at + 1] as u32) << 8) | ((b[at + 2] as u32) << 16) | ((b[at
        + 3] as u32) << 24);
    lemma_u32_bytes_split(b[at], b[at + 1], b[at + 2], b[at + 3]);
    assert((u as i32) as u32 == u) by (bit_vector);
    assert(i32_le(le_i32(b, at)) =~= b.subrange(at, at + 4));
}

/// Writing a rectangle to its native layout and reading it back gives the
/// same rectangle, field for field and in the same order.
pub proof fn lemma_rect_bytes_round_trip(r: Rect)
    ensures
        rect_bytes(r).len() == RECT_SIZE,
        rect_of_bytes(rect_bytes(r)) == r,
{
    let b = rect_bytes(r);
    lemma_i32_le_round_trip(r.x);
    lemma_i32_le_round_trip(r.y);
    lemma_i32_le_round_trip(r.width);
    lemma_i32_le_round_trip(r.height);
    assert(b.subrange(4, 8) =~= i32_le(r.y));
    assert(b.subrange(8, 12) =~= i32_le(r.width));
    assert(b.subrange(12, 16) =~= i32_le(r.height));
    assert(le_i32(b, 4) == le_i32(b.subrange(4, 8), 0));
    assert(le_i32(b, 8) == le_i32(b.subrange(8, 12), 0));
    assert(le_i32(b, 12) == le_i32(b.subrange(12, 16), 0));
}

/// Reading a rectangle from sixteen bytes and writing it back gives the same
/// bytes.
pub proof fn lemma_rect_of_bytes_round_trip(b: Seq<u8>)
    requires
        b.len() == RECT_SIZE,
    ensures
        rect_bytes(rect_of_bytes(b)) == b,
{
    lemma_le_i32_round_trip(b, 0);
    lemma_le_i32_round_trip(b, 4);
    lemma_le_i32_round_trip(b, 8);
    lemma_le_i32_round_trip(b, 12);
    assert(rect_bytes(rect_of_bytes(b)) =~= b);
}

fn push_i32_le(out: &mut Vec<u8>, v: i32)
    ensures
        final(out)@ == old(out)@ + i32_le(v),
{
    let u = v as u32;
    out.push((u & 0xff) as u8);
    out.push(((u >> 8) & 0xff) as u8);
    out.push(((u >> 16) & 0xff) as u8);
    out.push(((u >> 24) & 0xff) as u8);
    assert(final(out)@ =~= old(out)@ + i32_le(v));
}

fn read_i32_le(b: &[u8], at: usize) -> (r: i32)
    requires
        at + 4 <= b@.len(),
    ensures
        r == le_i32(b@, at as int),
{
    ((b[at] as u32) | ((b[at + 1] as u32) << 8) | ((b[at + 2] as u32) << 16) | ((b[at + 3] as u32)
        << 24)) as i32
}

impl Rect {
    pub fn new(x: i32, y: i32, width: i32, height: i32) -> (r: Rect)
        ensures
            r == (Rect { x, y, width, height }),
    {
        Rect { x, y, width, height }
    }

    /// The rectangle in its native layout, as handed to the firmware.
    pub fn to_bytes(&self) -> (r: Vec<u8>)
        ensures
            r@ == rect_bytes(*self),
            r@.len() == RECT_SIZE,
    {
        let mut out: Vec<u8> = Vec::new();
        push_i32_le(&mut out, self.x);
        push_i32_le(&mut out, self.y);
        push_i32_le(&mut out, self.width);
        push_i32_le(&mut out, self.height);
        assert(out@ =~= rect_bytes(*self));
        out
    }

    /// The rectangle held by a native record of exactly sixteen bytes.
    pub fn from_bytes(b: &[u8]) -> (r: Option<Rect>)
        ensures
            r == (if b@.len() == RECT_SIZE {
                Some(rect_of_bytes(b@))
            } else {
                None
            }),
    {
        if b.len() != RECT_SIZE {
            return None;
        }
        Some(
            Rect {
                x: read_i32_le(b, 0),
                y: read_i32_le(b, 4),
                width: read_i32_le(b, 8),
                height: read_i32_le(b, 12),
            },
        )
    }
}

} // verus!
