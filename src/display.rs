use vstd::prelude::*;

verus! {

/// Stereoscopic 3D output formats.
#[allow(non_camel_case_types)]
#[derive(Clone, Copy, Debug, PartialEq, Eq, Structural)]
pub enum _3dFormat {
    /// no 3D output (the default)
    UNSUPPORTED,
    /// for autostereoscopic displays
    INTERLEAVED,
    /// side by side, full width (also used by some autostereoscopic displays)
    SBS_FULL_AUTO,
    /// side by side, half width, horizontal subsampling
    SBS_HALF_HORIZ,
    /// top and bottom
    TB_HALF,
    MAX,
}

impl _3dFormat {
    /// The numeric code that the firmware uses for this value.
    pub open spec fn spec_code(self) -> u32 {
        match self {
            _3dFormat::UNSUPPORTED => 0,
            _3dFormat::INTERLEAVED => 1,
            _3dFormat::SBS_FULL_AUTO => 2,
            _3dFormat::SBS_HALF_HORIZ => 3,
            _3dFormat::TB_HALF => 4,
            _3dFormat::MAX => 5,
        }
    }

    pub fn code(&self) -> (r: u32)
        ensures
            r == self.spec_code(),
    {
        match self {
            _3dFormat::UNSUPPORTED => 0,
            _3dFormat::INTERLEAVED => 1,
            _3dFormat::SBS_FULL_AUTO => 2,
            _3dFormat::SBS_HALF_HORIZ => 3,
            _3dFormat::TB_HALF => 4,
            _3dFormat::MAX => 5,
        }
    }

    /// The value whose code is `c`, if there is one.
    pub fn from_code(c: u32) -> (r: Option<_3dFormat>)
        ensures
            match r {
                Some(v) => v.spec_code() == c,
                None => forall|v: _3dFormat| #[trigger] v.spec_code() != c,
            },
    {
        if c == 0 {
            Some(_3dFormat::UNSUPPORTED)
        } else if c == 1 {
            Some(_3dFormat::INTERLEAVED)
        } else if c == 2 {
            Some(_3dFormat::SBS_FULL_AUTO)
        } else if c == 3 {
            Some(_3dFormat::SBS_HALF_HORIZ)
        } else if c == 4 {
            Some(_3dFormat::TB_HALF)
        } else if c == 5 {
            Some(_3dFormat::MAX)
        } else {
            None
        }
    }
}

/// Output dithering modes.
#[allow(non_camel_case_types)]
#[derive(Clone, Copy, Debug, PartialEq, Eq, Structural)]
pub enum Dither {
    /// the default if not set
    NONE,
    RGB666,
    RGB565,
    RGB555,
    MAX,
}

impl Dither {
    /// The numeric code that the firmware uses for this value.
    pub open spec fn spec_code(self) -> u32 {
        match self {
            Dither::NONE => 0,
            Dither::RGB666 => 1,
            Dither::RGB565 => 2,
            Dither::RGB555 => 3,
            Dither::MAX => 4,
        }
    }

    pub fn code(&self) -> (r: u32)
        ensures
            r == self.spec_code(),
    {
        match self {
            Dither::NONE => 0,
            Dither::RGB666 => 1,
            Dither::RGB565 => 2,
            Dither::RGB555 => 3,
            Dither::MAX => 4,
        }
    }

    /// The value whose code is `c`, if there is one.
    pub fn from_code(c: u32) -> (r: Option<Dither>)
        ensures
            match r {
                Some(v) => v.spec_code() == c,
                None => forall|v: Dither| #[trigger] v.spec_code() != c,
            },
    {
        if c == 0 {
            Some(Dither::NONE)
        } else if c == 1 {
            Some(Dither::RGB666)
        } else if c == 2 {
            Some(Dither::RGB565)
        } else if c == 3 {
            Some(Dither::RGB555)
        } else if c == 4 {
            Some(Dither::MAX)
        } else {
            None
        }
    }
}

/// Physical display interfaces.
#[allow(non_camel_case_types)]
#[derive(Clone, Copy, Debug, PartialEq, Eq, Structural)]
pub enum Interface {
    MIN,
    SMI,
    DPI,
    DSI,
    LVDS,
    MAX,
}

impl Interface {
    /// The numeric code that the firmware uses for this value.
    pub open spec fn spec_code(self) -> u32 {
        match self {
            Interface::MIN => 0,
            Interface::SMI => 1,
            Interface::DPI => 2,
            Interface::DSI => 3,
            Interface::LVDS => 4,
            Interface::MAX => 5,
        }
    }

    pub fn code(&self) -> (r: u32)
        ensures
            r == self.spec_code(),
    {
        match self {
            Interface::MIN => 0,
            Interface::SMI => 1,
            Interface::DPI => 2,
            Interface::DSI => 3,
            Interface::LVDS => 4,
            Interface::MAX => 5,
        }
    }

    /// The value whose code is `c`, if there is one.
    pub fn from_code(c: u32) -> (r: Option<Interface>)
        ensures
            match r {
                Some(v) => v.spec_code() == c,
                None => forall|v: Interface| #[trigger] v.spec_code() != c,
            },
    {
        if c == 0 {
            Some(Interface::MIN)
        } else if c == 1 {
            Some(Interface::SMI)
        } else if c == 2 {
            Some(Interface::DPI)
        } else if c == 3 {
            Some(Interface::DSI)
        } else if c == 4 {
            Some(Interface::LVDS)
        } else if c == 5 {
            Some(Interface::MAX)
        } else {
            None
        }
    }
}

/// Pixel formats that a display accepts as input.
#[allow(non_camel_case_types)]
#[derive(Clone, Copy, Debug, PartialEq, Eq, Structural)]
pub enum VCOSInputFormat {
    INVALID,
    RGB888,
    RGB565,
}

impl VCOSInputFormat {
    /// The numeric code that the firmware uses for this value.
    pub open spec fn spec_code(self) -> u32 {
        match self {
            VCOSInputFormat::INVALID => 0,
            VCOSInputFormat::RGB888 => 1,
            VCOSInputFormat::RGB565 => 2,
        }
    }

    pub fn code(&self) -> (r: u32)
        ensures
            r == self.spec_code(),
    {
        match self {
            VCOSInputFormat::INVALID => 0,
            VCOSInputFormat::RGB888 => 1,
            VCOSInputFormat::RGB565 => 2,
        }
    }

    /// The value whose code is `c`, if there is one.
    pub fn from_code(c: u32) -> (r: Option<VCOSInputFormat>)
        ensures
            match r {
                Some(v) => v.spec_code() == c,
                None => forall|v: VCOSInputFormat| #[trigger] v.spec_code() != c,
            },
    {
        if c == 0 {
            Some(VCOSInputFormat::INVALID)
        } else if c == 1 {
            Some(VCOSInputFormat::RGB888)
        } else if c == 2 {
            Some(VCOSInputFormat::RGB565)
        } else {
            None
        }
    }
}

pub type InputFormat = VCOSInputFormat;

/// Description of a display, as a display driver reports it.
#[derive(Clone, Copy, Debug, PartialEq, Eq, Structural)]
pub struct Info {
    pub type_: Interface,
    pub width: u32,
    pub height: u32,
    pub input_format: InputFormat,
    pub interlaced: u32,
    pub output_dither: Dither,
    pub pixel_freq: u32,
    pub line_rate: u32,
    pub format_3d: _3dFormat,
    pub use_pixelvalve_1: u32,
    pub dsi_video_mode: u32,
    pub hvs_channel: u32,
}

} // verus!
