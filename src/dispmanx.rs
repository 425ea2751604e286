use vstd::prelude::*;

use crate::display::InputFormat;
use crate::image::{Image, Rect};

verus! {

/// Identifies a physical or off-screen display surface.
pub type DisplayHandle = u32;

/// Identifies one composited element.
pub type ElementHandle = u32;

/// Identifies a pixel buffer held in firmware memory.
pub type ResourceHandle = u32;

/// Identifies a batch of element operations that has not been committed yet.
pub type UpdateHandle = u32;

/// Content protection level of an element.
pub type Protection = u32;

/// The handle value that stands for "no handle".
pub const DISPMANX_NO_HANDLE: u32 = 0;

pub const DISPMANX_PROTECTION_MAX: u32 = 0x0f;

pub const DISPMANX_PROTECTION_NONE: u32 = 0;

/// Derived from the WM DRM levels 101 to 300.
pub const DISPMANX_PROTECTION_HDCP: u32 = 11;

pub const DISPMANX_ID_MAIN_LCD: u32 = 0;

pub const DISPMANX_ID_AUX_LCD: u32 = 1;

pub const DISPMANX_ID_HDMI: u32 = 2;

pub const DISPMANX_ID_SDTV: u32 = 3;

pub const DISPMANX_ID_FORCE_LCD: u32 = 4;

pub const DISPMANX_ID_FORCE_TV: u32 = 5;

/// A display other than the default one.
pub const DISPMANX_ID_FORCE_OTHER: u32 = 6;

/// Bits of the `change_flags` argument of an attribute change: each one
/// says which of the other arguments is applied.
pub const ELEMENT_CHANGE_LAYER: u32 = 0x01;

pub const ELEMENT_CHANGE_OPACITY: u32 = 0x02;

pub const ELEMENT_CHANGE_DEST_RECT: u32 = 0x04;

pub const ELEMENT_CHANGE_SRC_RECT: u32 = 0x08;

pub const ELEMENT_CHANGE_MASK_RESOURCE: u32 = 0x10;

pub const ELEMENT_CHANGE_TRANSFORM: u32 = 0x20;

/// Alpha blending flags: the bottom two bits select the mode, the others combine with it.
#[allow(non_camel_case_types)]
#[derive(Clone, Copy, Debug, PartialEq, Eq, Structural)]
pub enum FlagsAlpha {
    FROM_SOURCE,
    FIXED_ALL_PIXELS,
    FIXED_NON_ZERO,
    FIXED_EXCEED_0X07,
    PREMULT,
    MIX,
}

impl FlagsAlpha {
    /// The numeric code that the firmware uses for this value.
    pub open spec fn spec_code(self) -> u32 {
        match self {
            FlagsAlpha::FROM_SOURCE => 0,
            FlagsAlpha::FIXED_ALL_PIXELS => 1,
            FlagsAlpha::FIXED_NON_ZERO => 2,
            FlagsAlpha::FIXED_EXCEED_0X07 => 3,
            FlagsAlpha::PREMULT => 0x1_0000,
            FlagsAlpha::MIX => 0x2_0000,
        }
    }

    pub fn code(&self) -> (r: u32)
        ensures
            r == self.spec_code(),
    {
        match self {
            FlagsAlpha::FROM_SOURCE => 0,
            FlagsAlpha::FIXED_ALL_PIXELS => 1,
            FlagsAlpha::FIXED_NON_ZERO => 2,
            FlagsAlpha::FIXED_EXCEED_0X07 => 3,
            FlagsAlpha::PREMULT => 0x1_0000,
            FlagsAlpha::MIX => 0x2_0000,
        }
    }

    /// The value whose code is `c`, if there is one.
    pub fn from_code(c: u32) -> (r: Option<FlagsAlpha>)
        ensures
            match r {
                Some(v) => v.spec_code() == c,
                None => forall|v: FlagsAlpha| #[trigger] v.spec_code() != c,
            },
    {
        if c == 0 {
            Some(FlagsAlpha::FROM_SOURCE)
        } else if c == 1 {
            Some(FlagsAlpha::FIXED_ALL_PIXELS)
        } else if c == 2 {
            Some(FlagsAlpha::FIXED_NON_ZERO)
        } else if c == 3 {
            Some(FlagsAlpha::FIXED_EXCEED_0X07)
        } else if c == 0x1_0000 {
            Some(FlagsAlpha::PREMULT)
        } else if c == 0x2_0000 {
            Some(FlagsAlpha::MIX)
        } else {
            None
        }
    }
}

/// Colour clamping modes.
#[allow(non_camel_case_types)]
#[derive(Clone, Copy, Debug, PartialEq, Eq, Structural)]
pub enum FlagsClamp {
    NONE,
    LUMA_TRANSPARENT,
    TRANSPARENT,
    REPLACE,
}

impl FlagsClamp {
    /// The numeric code that the firmware uses for this value.
    pub open spec fn spec_code(self) -> u32 {
        match self {
            FlagsClamp::NONE => 0,
            FlagsClamp::LUMA_TRANSPARENT => 1,
            FlagsClamp::TRANSPARENT => 2,
            FlagsClamp::REPLACE => 3,
        }
    }

    pub fn code(&self) -> (r: u32)
        ensures
            r == self.spec_code(),
    {
        match self {
            FlagsClamp::NONE => 0,
            FlagsClamp::LUMA_TRANSPARENT => 1,
            FlagsClamp::TRANSPARENT => 2,
            FlagsClamp::REPLACE => 3,
        }
    }

    /// The value whose code is `c`, if there is one.
    pub fn from_code(c: u32) -> (r: Option<FlagsClamp>)
        ensures
            match r {
                Some(v) => v.spec_code() == c,
                None => forall|v: FlagsClamp| #[trigger] v.spec_code() != c,
            },
    {
        if c == 0 {
            Some(FlagsClamp::NONE)
        } else if c == 1 {
            Some(FlagsClamp::LUMA_TRANSPARENT)
        } else if c == 2 {
            Some(FlagsClamp::TRANSPARENT)
        } else if c == 3 {
            Some(FlagsClamp::REPLACE)
        } else {
            None
        }
    }
}

/// Key mask bits for colour clamping.
#[allow(non_camel_case_types)]
#[derive(Clone, Copy, Debug, PartialEq, Eq, Structural)]
pub enum FlagsKeymask {
    OVERRIDE,
    SMOOTH,
    CR_INV,
    CB_INV,
    YY_INV,
}

impl FlagsKeymask {
    /// The numeric code that the firmware uses for this value.
    pub open spec fn spec_code(self) -> u32 {
        match self {
            FlagsKeymask::OVERRIDE => 1,
            FlagsKeymask::SMOOTH => 2,
            FlagsKeymask::CR_INV => 4,
            FlagsKeymask::CB_INV => 8,
            FlagsKeymask::YY_INV => 0x10,
        }
    }

    pub fn code(&self) -> (r: u32)
        ensures
            r == self.spec_code(),
    {
        match self {
            FlagsKeymask::OVERRIDE => 1,
            FlagsKeymask::SMOOTH => 2,
            FlagsKeymask::CR_INV => 4,
            FlagsKeymask::CB_INV => 8,
            FlagsKeymask::YY_INV => 0x10,
        }
    }

    /// The value whose code is `c`, if there is one.
    pub fn from_code(c: u32) -> (r: Option<FlagsKeymask>)
        ensures
            match r {
                Some(v) => v.spec_code() == c,
                None => forall|v: FlagsKeymask| #[trigger] v.spec_code() != c,
            },
    {
        if c == 1 {
            Some(FlagsKeymask::OVERRIDE)
        } else if c == 2 {
            Some(FlagsKeymask::SMOOTH)
        } else if c == 4 {
            Some(FlagsKeymask::CR_INV)
        } else if c == 8 {
            Some(FlagsKeymask::CB_INV)
        } else if c == 0x10 {
            Some(FlagsKeymask::YY_INV)
        } else {
            None
        }
    }
}

/// Status codes of the composition manager.
#[allow(non_camel_case_types)]
#[derive(Clone, Copy, Debug, PartialEq, Eq, Structural)]
pub enum Status {
    SUCCESS,
    INVALID,
}

impl Status {
    /// The numeric code that the firmware uses for this value.
    pub open spec fn spec_code(self) -> i32 {
        match self {
            Status::SUCCESS => 0,
            Status::INVALID => -1i32,
        }
    }

    pub fn code(&self) -> (r: i32)
        ensures
            r == self.spec_code(),
    {
        match self {
            Status::SUCCESS => 0,
            Status::INVALID => -1i32,
        }
    }

    /// The value whose code is `c`, if there is one.
    pub fn from_code(c: i32) -> (r: Option<Status>)
        ensures
            match r {
                Some(v) => v.spec_code() == c,
                None => forall|v: Status| #[trigger] v.spec_code() != c,
            },
    {
        if c == 0 {
            Some(Status::SUCCESS)
        } else if c == -1i32 {
            Some(Status::INVALID)
        } else {
            None
        }
    }
}

/// Element and snapshot transforms: the bottom two bits rotate, the others combine with them.
#[allow(non_camel_case_types)]
#[derive(Clone, Copy, Debug, PartialEq, Eq, Structural)]
pub enum Transform {
    NO_ROTATE,
    ROTATE_90,
    ROTATE_180,
    ROTATE_270,
    FLIP_HRIZ,
    FLIP_VERT,
    /// controls how a snapshot is taken
    SNAPSHOT_NO_YUV,
    /// controls how a snapshot is taken
    SNAPSHOT_NO_RGB,
    /// controls how a snapshot is taken
    SNAPSHOT_FILL,
    /// controls how a snapshot is taken
    SNAPSHOT_SWAP_RED_BLUE,
    /// controls how a snapshot is taken
    SNAPSHOT_PACK,
}

impl Transform {
    /// The numeric code that the firmware uses for this value.
    pub open spec fn spec_code(self) -> u32 {
        match self {
            Transform::NO_ROTATE => 0,
            Transform::ROTATE_90 => 1,
            Transform::ROTATE_180 => 2,
            Transform::ROTATE_270 => 3,
            Transform::FLIP_HRIZ => 0x1_0000,
            Transform::FLIP_VERT => 0x2_0000,
            Transform::SNAPSHOT_NO_YUV => 0x100_0000,
            Transform::SNAPSHOT_NO_RGB => 0x200_0000,
            Transform::SNAPSHOT_FILL => 0x400_0000,
            Transform::SNAPSHOT_SWAP_RED_BLUE => 0x800_0000,
            Transform::SNAPSHOT_PACK => 0x1000_0000,
        }
    }

    pub fn code(&self) -> (r: u32)
        ensures
            r == self.spec_code(),
    {
        match self {
            Transform::NO_ROTATE => 0,
            Transform::ROTATE_90 => 1,
            Transform::ROTATE_180 => 2,
            Transform::ROTATE_270 => 3,
            Transform::FLIP_HRIZ => 0x1_0000,
            Transform::FLIP_VERT => 0x2_0000,
            Transform::SNAPSHOT_NO_YUV => 0x100_0000,
            Transform::SNAPSHOT_NO_RGB => 0x200_0000,
            Transform::SNAPSHOT_FILL => 0x400_0000,
            Transform::SNAPSHOT_SWAP_RED_BLUE => 0x800_0000,
            Transform::SNAPSHOT_PACK => 0x1000_0000,
        }
    }

    /// The value whose code is `c`, if there is one.
    pub fn from_code(c: u32) -> (r: Option<Transform>)
        ensures
            match r {
                Some(v) => v.spec_code() == c,
                None => forall|v: Transform| #[trigger] v.spec_code() != c,
            },
    {
        if c == 0 {
            Some(Transform::NO_ROTATE)
        } else if c == 1 {
            Some(Transform::ROTATE_90)
        } else if c == 2 {
            Some(Transform::ROTATE_180)
        } else if c == 3 {
            Some(Transform::ROTATE_270)
        } else if c == 0x1_0000 {
            Some(Transform::FLIP_HRIZ)
        } else if c == 0x2_0000 {
            Some(Transform::FLIP_VERT)
        } else if c == 0x100_0000 {
            Some(Transform::SNAPSHOT_NO_YUV)
        } else if c == 0x200_0000 {
            Some(Transform::SNAPSHOT_NO_RGB)
        } else if c == 0x400_0000 {
            Some(Transform::SNAPSHOT_FILL)
        } else if c == 0x800_0000 {
            Some(Transform::SNAPSHOT_SWAP_RED_BLUE)
        } else if c == 0x1000_0000 {
            Some(Transform::SNAPSHOT_PACK)
        } else {
            None
        }
    }
}

/// Alpha settings of an element whose mask is an image.
#[derive(Clone, Copy, Debug, PartialEq, Eq, Structural)]
pub struct Alpha {
    pub flags: FlagsAlpha,
    pub opacity: u32,
    pub mask: Image,
}

/// Key colour bounds for clamping in RGB.
#[derive(Clone, Copy, Debug, PartialEq, Eq, Structural)]
pub struct ClampKeysRGB {
    pub red_upper: u8,
    pub red_lower: u8,
    pub blue_upper: u8,
    pub blue_lower: u8,
    pub green_upper: u8,
    pub green_lower: u8,
}

/// Key colour bounds for clamping in YUV.
#[derive(Clone, Copy, Debug, PartialEq, Eq, Structural)]
pub struct ClampKeysYUV {
    pub yy_upper: u8,
    pub yy_lower: u8,
    pub cr_upper: u8,
    pub cr_lower: u8,
    pub cb_upper: u8,
    pub cb_lower: u8,
}

/// The key colour bounds of a clamp, in one of the two colour spaces.
#[derive(Clone, Copy, Debug, PartialEq, Eq, Structural)]
pub enum ClampKeys {
    Rgb(ClampKeysRGB),
    Yuv(ClampKeysYUV),
}

/// Colour clamping settings of an element.
#[derive(Clone, Copy, Debug, PartialEq, Eq, Structural)]
pub struct Clamp {
    pub mode: FlagsClamp,
    pub key_mask: FlagsKeymask,
    pub key_value: ClampKeys,
    pub replace_value: u32,
}

/// Geometry and pixel format of a display. `transform` holds the bits of
/// the `Transform` values that apply, which may be combined.
#[derive(Clone, Copy, Debug, PartialEq, Eq, Structural)]
pub struct Modeinfo {
    pub width: i32,
    pub height: i32,
    pub transform: u32,
    pub input_format: InputFormat,
}

impl Modeinfo {
    /// The record that the firmware fills, read from its raw fields; `None`
    /// where the input format code is not one that is known.
    pub fn from_raw(width: i32, height: i32, transform: u32, input_format: u32) -> (r: Option<
        Modeinfo,
    >)
        ensures
            match r {
                Some(m) => m.width == width && m.height == height && m.transform == transform
                    && m.input_format.spec_code() == input_format,
                None => forall|f: InputFormat| #[trigger] f.spec_code() != input_format,
            },
    {
        match InputFormat::from_code(input_format) {
            Some(f) => Some(Modeinfo { width, height, transform, input_format: f }),
            None => None,
        }
    }
}

/// Alpha settings of an element whose mask is a resource.
#[derive(Clone, Copy, Debug, PartialEq, Eq, Structural)]
pub struct VCAlpha {
    pub flags: FlagsAlpha,
    pub opacity: u32,
    pub mask: ResourceHandle,
}

/// An element together with its size.
#[derive(Clone, Copy, Debug, PartialEq, Eq, Structural)]
pub struct Window {
    pub element: ElementHandle,
    pub width: i32,
    pub height: i32,
}

/// Whether a status code that the firmware returned from an operation with a
/// yes-or-no outcome reports success: only a positive code does.
pub fn status_ok(status: i32) -> (r: bool)
    ensures
        r == (status > 0),
{
    status > 0
}

/// The handle that an allocating operation returned, or `None` where the
/// firmware answered with the sentinel for "no handle".
pub fn handle_of(raw: u32) -> (r: Option<u32>)
    ensures
        r == (if raw == DISPMANX_NO_HANDLE {
            None
        } else {
            Some(raw)
        }),
{
    if raw == DISPMANX_NO_HANDLE {
        None
    } else {
        Some(raw)
    }
}

/// Fills `rect` with the given offsets and size. Each value is stored in its
/// signed field as the firmware stores it, keeping its 32 bits. This cannot
/// fail.
pub fn rect_set(rect: &mut Rect, x_offset: u32, y_offset: u32, width: u32, height: u32) -> (r:
    bool)
    ensures
        r,
        *final(rect) == (Rect {
            x: x_offset as i32,
            y: y_offset as i32,
            width: width as i32,
            height: height as i32,
        }),
{
    rect.x = x_offset as i32;
    rect.y = y_offset as i32;
    rect.width = width as i32;
    rect.height = height as i32;
    true
}

} // verus!
