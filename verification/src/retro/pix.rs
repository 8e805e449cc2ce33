//! Pixel format.

use vstd::prelude::*;

verus! {

/// The pixel format used for rendering, numbered as the C interface numbers
/// it.
#[allow(non_camel_case_types)]
#[derive(Clone, Copy, Debug, PartialEq, Eq, Structural)]
pub enum retro_pixel_format {
    /// `0RGB1555`, native endian; number 0.
    ///
    /// Used as the default if `RETRO_ENVIRONMENT_SET_PIXEL_FORMAT` is not
    /// called. The most significant bit must be set to 0. Deprecated: new
    /// code should use `RETRO_PIXEL_FORMAT_RGB565` instead.
    RETRO_PIXEL_FORMAT_0RGB1555,
    /// `XRGB8888`, native endian; number 1.
    ///
    /// The most significant byte (the `X`) is ignored.
    RETRO_PIXEL_FORMAT_XRGB8888,
    /// `RGB565`, native endian; number 2.
    ///
    /// This format is recommended if 16-bit pixels are desired, as it is
    /// available on a variety of devices and APIs.
    RETRO_PIXEL_FORMAT_RGB565,
    /// Defined to ensure that `sizeof(retro_pixel_format) == sizeof(int)`; number
    /// `i32::MAX`. Deprecated: do not use.
    RETRO_PIXEL_FORMAT_UNKNOWN,
}

/// The number of a pixel format in the C interface.
pub open spec fn pixel_format_number(f: retro_pixel_format) -> i32 {
    match f {
        retro_pixel_format::RETRO_PIXEL_FORMAT_0RGB1555 => 0,
        retro_pixel_format::RETRO_PIXEL_FORMAT_XRGB8888 => 1,
        retro_pixel_format::RETRO_PIXEL_FORMAT_RGB565 => 2,
        retro_pixel_format::RETRO_PIXEL_FORMAT_UNKNOWN => i32::MAX,
    }
}

impl retro_pixel_format {
    /// The number of the pixel format in the C interface.
    pub fn value(self) -> (r: i32)
        ensures
            r == pixel_format_number(self),
    {
        match self {
            retro_pixel_format::RETRO_PIXEL_FORMAT_0RGB1555 => 0,
            retro_pixel_format::RETRO_PIXEL_FORMAT_XRGB8888 => 1,
            retro_pixel_format::RETRO_PIXEL_FORMAT_RGB565 => 2,
            retro_pixel_format::RETRO_PIXEL_FORMAT_UNKNOWN => i32::MAX,
        }
    }

    /// The pixel format with the given number in the C interface, if any.
    pub fn from_value(v: i32) -> (r: Option<retro_pixel_format>)
        ensures
            r matches Some(f) ==> pixel_format_number(f) == v,
            r is None ==> forall|f: retro_pixel_format| pixel_format_number(f) != v,
    {
        match v {
            0 => Some(retro_pixel_format::RETRO_PIXEL_FORMAT_0RGB1555),
            1 => Some(retro_pixel_format::RETRO_PIXEL_FORMAT_XRGB8888),
            2 => Some(retro_pixel_format::RETRO_PIXEL_FORMAT_RGB565),
            2147483647 => Some(retro_pixel_format::RETRO_PIXEL_FORMAT_UNKNOWN),
            _ => None,
        }
    }
}

} // verus!
