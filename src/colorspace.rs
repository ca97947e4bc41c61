use vstd::prelude::*;

verus! {

/// Colorspaces that the decoding engine reads and produces.
#[allow(non_camel_case_types)]
#[derive(Clone, Copy, Debug, PartialEq, Eq)]
pub enum ColorSpace {
    JCS_UNKNOWN,
    JCS_GRAYSCALE,
    JCS_RGB,
    JCS_YCbCr,
    JCS_CMYK,
    JCS_YCCK,
    JCS_EXT_RGB,
    JCS_EXT_RGBX,
    JCS_EXT_BGR,
    JCS_EXT_BGRX,
    JCS_EXT_XBGR,
    JCS_EXT_XRGB,
    JCS_EXT_RGBA,
    JCS_EXT_BGRA,
    JCS_EXT_ABGR,
    JCS_EXT_ARGB,
    JCS_RGB565,
}

/// Number of components a pixel of the colorspace carries.
pub open spec fn components_of(cs: ColorSpace) -> nat {
    match cs {
        ColorSpace::JCS_UNKNOWN => 0,
        ColorSpace::JCS_GRAYSCALE => 1,
        ColorSpace::JCS_RGB | ColorSpace::JCS_YCbCr | ColorSpace::JCS_EXT_RGB | ColorSpace::JCS_EXT_BGR
        | ColorSpace::JCS_RGB565 => 3,
        _ => 4,
    }
}

/// The colorspace's name, as its variant is written.
pub open spec fn name_of(cs: ColorSpace) -> Seq<char> {
    match cs {
        ColorSpace::JCS_UNKNOWN => "JCS_UNKNOWN"@,
        ColorSpace::JCS_GRAYSCALE => "JCS_GRAYSCALE"@,
        ColorSpace::JCS_RGB => "JCS_RGB"@,
        ColorSpace::JCS_YCbCr => "JCS_YCbCr"@,
        ColorSpace::JCS_CMYK => "JCS_CMYK"@,
        ColorSpace::JCS_YCCK => "JCS_YCCK"@,
        ColorSpace::JCS_EXT_RGB => "JCS_EXT_RGB"@,
        ColorSpace::JCS_EXT_RGBX => "JCS_EXT_RGBX"@,
        ColorSpace::JCS_EXT_BGR => "JCS_EXT_BGR"@,
        ColorSpace::JCS_EXT_BGRX => "JCS_EXT_BGRX"@,
        ColorSpace::JCS_EXT_XBGR => "JCS_EXT_XBGR"@,
        ColorSpace::JCS_EXT_XRGB => "JCS_EXT_XRGB"@,
        ColorSpace::JCS_EXT_RGBA => "JCS_EXT_RGBA"@,
        ColorSpace::JCS_EXT_BGRA => "JCS_EXT_BGRA"@,
        ColorSpace::JCS_EXT_ABGR => "JCS_EXT_ABGR"@,
        ColorSpace::JCS_EXT_ARGB => "JCS_EXT_ARGB"@,
        ColorSpace::JCS_RGB565 => "JCS_RGB565"@,
    }
}

impl ColorSpace {
    /// The colorspace's name, as its variant is written.
    pub fn name(&self) -> (r: &'static str)
        ensures
            r@ == name_of(*self),
    {
        match self {
            ColorSpace::JCS_UNKNOWN => "JCS_UNKNOWN",
            ColorSpace::JCS_GRAYSCALE => "JCS_GRAYSCALE",
            ColorSpace::JCS_RGB => "JCS_RGB",
            ColorSpace::JCS_YCbCr => "JCS_YCbCr",
            ColorSpace::JCS_CMYK => "JCS_CMYK",
            ColorSpace::JCS_YCCK => "JCS_YCCK",
            ColorSpace::JCS_EXT_RGB => "JCS_EXT_RGB",
            ColorSpace::JCS_EXT_RGBX => "JCS_EXT_RGBX",
            ColorSpace::JCS_EXT_BGR => "JCS_EXT_BGR",
            ColorSpace::JCS_EXT_BGRX => "JCS_EXT_BGRX",
            ColorSpace::JCS_EXT_XBGR => "JCS_EXT_XBGR",
            ColorSpace::JCS_EXT_XRGB => "JCS_EXT_XRGB",
            ColorSpace::JCS_EXT_RGBA => "JCS_EXT_RGBA",
            ColorSpace::JCS_EXT_BGRA => "JCS_EXT_BGRA",
            ColorSpace::JCS_EXT_ABGR => "JCS_EXT_ABGR",
            ColorSpace::JCS_EXT_ARGB => "JCS_EXT_ARGB",
            ColorSpace::JCS_RGB565 => "JCS_RGB565",
        }
    }

    /// Number of components a pixel of this colorspace carries.
    pub fn num_components(&self) -> (r: usize)
        ensures
            r == components_of(*self),
    {
        match self {
            ColorSpace::JCS_UNKNOWN => 0,
            ColorSpace::JCS_GRAYSCALE => 1,
            ColorSpace::JCS_RGB => 3,
            ColorSpace::JCS_YCbCr => 3,
            ColorSpace::JCS_CMYK => 4,
            ColorSpace::JCS_YCCK => 4,
            ColorSpace::JCS_EXT_RGB => 3,
            ColorSpace::JCS_EXT_RGBX => 4,
            ColorSpace::JCS_EXT_BGR => 3,
            ColorSpace::JCS_EXT_BGRX => 4,
            ColorSpace::JCS_EXT_XBGR => 4,
            ColorSpace::JCS_EXT_XRGB => 4,
            ColorSpace::JCS_EXT_RGBA => 4,
            ColorSpace::JCS_EXT_BGRA => 4,
            ColorSpace::JCS_EXT_ABGR => 4,
            ColorSpace::JCS_EXT_ARGB => 4,
            ColorSpace::JCS_RGB565 => 3,
        }
    }
}

} // verus!
