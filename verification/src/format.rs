//! Pixel formats reported by the compositor, and the two numbering schemes
//! (wl_shm and DRM FourCC) they arrive in.

use vstd::prelude::*;

verus! {

/// DRM FourCC code of ARGB8888 ('AR24').
pub const DRM_FORMAT_ARGB8888: u32 = 0x34325241;
/// DRM FourCC code of XRGB8888 ('XR24').
pub const DRM_FORMAT_XRGB8888: u32 = 0x34325258;
/// DRM FourCC code of ABGR8888 ('AB24').
pub const DRM_FORMAT_ABGR8888: u32 = 0x34324241;
/// DRM FourCC code of XBGR8888 ('XB24').
pub const DRM_FORMAT_XBGR8888: u32 = 0x34324258;
/// DRM FourCC code of RGB565 ('RG16').
pub const DRM_FORMAT_RGB565: u32 = 0x36314752;

/// wl_shm's own code for ARGB8888 (the one format it does not number by FourCC).
pub const WL_SHM_ARGB8888: u32 = 0;
/// wl_shm's own code for XRGB8888.
pub const WL_SHM_XRGB8888: u32 = 1;

/// Pixel format of a captured frame.
#[derive(Debug, Clone, Copy, PartialEq, Eq, Structural)]
pub enum PixelFormat {
    Xrgb8888,
    Argb8888,
    Xbgr8888,
    Abgr8888,
    Rgb565,
    Invalid,
    /// Any format the compositor reported that this crate does not name.
    Unknown(u32),
}

/// The format a DRM FourCC code names.
pub open spec fn spec_from_drm_fourcc(raw: u32) -> PixelFormat {
    if raw == DRM_FORMAT_ARGB8888 {
        PixelFormat::Argb8888
    } else if raw == DRM_FORMAT_XRGB8888 {
        PixelFormat::Xrgb8888
    } else if raw == DRM_FORMAT_ABGR8888 {
        PixelFormat::Abgr8888
    } else if raw == DRM_FORMAT_XBGR8888 {
        PixelFormat::Xbgr8888
    } else if raw == DRM_FORMAT_RGB565 {
        PixelFormat::Rgb565
    } else {
        PixelFormat::Unknown(raw)
    }
}

/// The format a wl_shm code names: wl_shm's two special codes, otherwise the
/// DRM FourCC reading (which also accepts the FourCC of ARGB/XRGB).
pub open spec fn spec_from_raw(raw: u32) -> PixelFormat {
    if raw == WL_SHM_ARGB8888 {
        PixelFormat::Argb8888
    } else if raw == WL_SHM_XRGB8888 {
        PixelFormat::Xrgb8888
    } else {
        spec_from_drm_fourcc(raw)
    }
}

/// Bytes one pixel occupies, for the formats this crate can read.
pub open spec fn spec_bytes_per_pixel(f: PixelFormat) -> Option<usize> {
    match f {
        PixelFormat::Argb8888 | PixelFormat::Xrgb8888 | PixelFormat::Abgr8888
        | PixelFormat::Xbgr8888 => Some(4),
        PixelFormat::Rgb565 => Some(2),
        PixelFormat::Invalid | PixelFormat::Unknown(_) => None,
    }
}

/// The wl_shm code used to create a buffer of this format, if it has one.
pub open spec fn spec_wl_shm_code(f: PixelFormat) -> Option<u32> {
    match f {
        PixelFormat::Argb8888 => Some(WL_SHM_ARGB8888),
        PixelFormat::Xrgb8888 => Some(WL_SHM_XRGB8888),
        PixelFormat::Abgr8888 => Some(DRM_FORMAT_ABGR8888),
        PixelFormat::Xbgr8888 => Some(DRM_FORMAT_XBGR8888),
        PixelFormat::Rgb565 => Some(DRM_FORMAT_RGB565),
        PixelFormat::Invalid | PixelFormat::Unknown(_) => None,
    }
}

/// The DRM FourCC code of this format, if it has one.
pub open spec fn spec_drm_fourcc(f: PixelFormat) -> Option<u32> {
    match f {
        PixelFormat::Argb8888 => Some(DRM_FORMAT_ARGB8888),
        PixelFormat::Xrgb8888 => Some(DRM_FORMAT_XRGB8888),
        PixelFormat::Abgr8888 => Some(DRM_FORMAT_ABGR8888),
        PixelFormat::Xbgr8888 => Some(DRM_FORMAT_XBGR8888),
        PixelFormat::Rgb565 => Some(DRM_FORMAT_RGB565),
        PixelFormat::Invalid | PixelFormat::Unknown(_) => None,
    }
}

impl PixelFormat {
    /// Reads a wl_shm format code. wl_shm uses 0 and 1 for ARGB8888 and
    /// XRGB8888 and the DRM FourCC for everything else; the FourCC of those
    /// two is accepted as well, since the two numberings cannot collide.
    pub fn from_raw(raw: u32) -> (f: PixelFormat)
        ensures
            f == spec_from_raw(raw),
    {
        if raw == WL_SHM_ARGB8888 {
            PixelFormat::Argb8888
        } else if raw == WL_SHM_XRGB8888 {
            PixelFormat::Xrgb8888
        } else {
            PixelFormat::from_drm_fourcc(raw)
        }
    }

    /// Reads a DRM FourCC format code, as weston-output-capture reports it.
    pub fn from_drm_fourcc(raw: u32) -> (f: PixelFormat)
        ensures
            f == spec_from_drm_fourcc(raw),
    {
        if raw == DRM_FORMAT_ARGB8888 {
            PixelFormat::Argb8888
        } else if raw == DRM_FORMAT_XRGB8888 {
            PixelFormat::Xrgb8888
        } else if raw == DRM_FORMAT_ABGR8888 {
            PixelFormat::Abgr8888
        } else if raw == DRM_FORMAT_XBGR8888 {
            PixelFormat::Xbgr8888
        } else if raw == DRM_FORMAT_RGB565 {
            PixelFormat::Rgb565
        } else {
            PixelFormat::Unknown(raw)
        }
    }

    /// Bytes per pixel of this format, if it is one this crate can read.
    pub fn bytes_per_pixel(self) -> (bpp: Option<usize>)
        ensures
            bpp == spec_bytes_per_pixel(self),
    {
        match self {
            PixelFormat::Argb8888 | PixelFormat::Xrgb8888 | PixelFormat::Abgr8888
            | PixelFormat::Xbgr8888 => Some(4),
            PixelFormat::Rgb565 => Some(2),
            PixelFormat::Invalid | PixelFormat::Unknown(_) => None,
        }
    }

    /// The wl_shm format code to create a `wl_buffer` of this format with.
    pub fn wl_shm_format_code(self) -> (code: Option<u32>)
        ensures
            code == spec_wl_shm_code(self),
    {
        match self {
            PixelFormat::Argb8888 => Some(WL_SHM_ARGB8888),
            PixelFormat::Xrgb8888 => Some(WL_SHM_XRGB8888),
            PixelFormat::Abgr8888 => Some(DRM_FORMAT_ABGR8888),
            PixelFormat::Xbgr8888 => Some(DRM_FORMAT_XBGR8888),
            PixelFormat::Rgb565 => Some(DRM_FORMAT_RGB565),
            PixelFormat::Invalid | PixelFormat::Unknown(_) => None,
        }
    }
}

} // verus!

verus! {

/// Every code other than wl_shm's two special ones reads the same whether it
/// arrives as a wl_shm code or as a DRM FourCC code.
pub proof fn lemma_raw_agrees_with_fourcc(raw: u32)
    requires
        raw != WL_SHM_ARGB8888,
        raw != WL_SHM_XRGB8888,
    ensures
        spec_from_raw(raw) == spec_from_drm_fourcc(raw),
{
}

/// A code this crate does not name is kept, not dropped: reading it gives
/// `Unknown` holding exactly that code.
pub proof fn lemma_unknown_codes_preserved(raw: u32)
    ensures
        spec_from_raw(raw) matches PixelFormat::Unknown(c) ==> c == raw,
        spec_from_drm_fourcc(raw) matches PixelFormat::Unknown(c) ==> c == raw,
        spec_from_drm_fourcc(raw) !is Invalid,
        spec_from_raw(raw) !is Invalid,
{
}

/// The wl_shm code a format is allocated with reads back as that format, and
/// so does its DRM FourCC code.
pub proof fn lemma_codes_round_trip(f: PixelFormat)
    ensures
        spec_wl_shm_code(f) matches Some(c) ==> spec_from_raw(c) == f,
        spec_drm_fourcc(f) matches Some(c) ==> spec_from_drm_fourcc(c) == f,
        spec_drm_fourcc(f) matches Some(c) ==> spec_from_raw(c) == f,
{
}

/// A format has a known pixel size exactly when it can be allocated through
/// wl_shm, and exactly when it has a DRM FourCC code.
pub proof fn lemma_known_formats_agree(f: PixelFormat)
    ensures
        spec_bytes_per_pixel(f) is Some <==> spec_wl_shm_code(f) is Some,
        spec_bytes_per_pixel(f) is Some <==> spec_drm_fourcc(f) is Some,
        spec_bytes_per_pixel(f) is Some <==> !(f is Invalid || f is Unknown),
{
}

/// The DRM FourCC code spelled by four characters, first character in the
/// lowest byte.
pub open spec fn fourcc(a: char, b: char, c: char, d: char) -> int {
    a as int + b as int * 0x100 + c as int * 0x1_0000 + d as int * 0x100_0000
}

/// A DRM FourCC code reads as a named format exactly when it is that
/// format's full four-letter code ('AR24', 'XR24', 'AB24', 'XB24', 'RG16');
/// every other code, such as the 10-bit 'XR30', reads as `Unknown` holding
/// that code.
pub proof fn lemma_fourcc_names_exact_codes(raw: u32)
    ensures
        spec_from_drm_fourcc(raw) == PixelFormat::Argb8888 <==> raw == fourcc('A', 'R', '2', '4'),
        spec_from_drm_fourcc(raw) == PixelFormat::Xrgb8888 <==> raw == fourcc('X', 'R', '2', '4'),
        spec_from_drm_fourcc(raw) == PixelFormat::Abgr8888 <==> raw == fourcc('A', 'B', '2', '4'),
        spec_from_drm_fourcc(raw) == PixelFormat::Xbgr8888 <==> raw == fourcc('X', 'B', '2', '4'),
        spec_from_drm_fourcc(raw) == PixelFormat::Rgb565 <==> raw == fourcc('R', 'G', '1', '6'),
        raw != fourcc('A', 'R', '2', '4') && raw != fourcc('X', 'R', '2', '4') && raw != fourcc(
            'A',
            'B',
            '2',
            '4',
        ) && raw != fourcc('X', 'B', '2', '4') && raw != fourcc('R', 'G', '1', '6')
            ==> spec_from_drm_fourcc(raw) == PixelFormat::Unknown(raw),
{
}

/// A wl_shm code reads as a named format only for wl_shm's own two codes
/// (0 for ARGB8888, 1 for XRGB8888) or that format's full DRM FourCC code;
/// every other code reads as `Unknown` holding that code.
pub proof fn lemma_wl_shm_names_exact_codes(raw: u32)
    ensures
        spec_from_raw(raw) == PixelFormat::Argb8888 <==> (raw == 0 || raw == fourcc('A', 'R', '2', '4')),
        spec_from_raw(raw) == PixelFormat::Xrgb8888 <==> (raw == 1 || raw == fourcc('X', 'R', '2', '4')),
        spec_from_raw(raw) == PixelFormat::Abgr8888 <==> raw == fourcc('A', 'B', '2', '4'),
        spec_from_raw(raw) == PixelFormat::Xbgr8888 <==> raw == fourcc('X', 'B', '2', '4'),
        spec_from_raw(raw) == PixelFormat::Rgb565 <==> raw == fourcc('R', 'G', '1', '6'),
        raw > 1 && raw != fourcc('A', 'R', '2', '4') && raw != fourcc('X', 'R', '2', '4') && raw
            != fourcc('A', 'B', '2', '4') && raw != fourcc('X', 'B', '2', '4') && raw != fourcc(
            'R',
            'G',
            '1',
            '6',
        ) ==> spec_from_raw(raw) == PixelFormat::Unknown(raw),
{
}

} // verus!

