use wayland_client::protocol::wl_shm::Format;
use xdg_desktop_portal_agl::format::{DRM_FORMAT_ABGR8888, DRM_FORMAT_RGB565, DRM_FORMAT_XBGR8888};
use xdg_desktop_portal_agl::PixelFormat;

#[test]
fn known_formats_parse_correctly() {
    assert_eq!(PixelFormat::from_raw(0x00000000), PixelFormat::Argb8888);
    assert_eq!(PixelFormat::from_raw(0x00000001), PixelFormat::Xrgb8888);
    assert_eq!(PixelFormat::from_raw(0x34324241), PixelFormat::Abgr8888);
    assert_eq!(PixelFormat::from_raw(0x34324258), PixelFormat::Xbgr8888);
}

#[test]
fn unknown_format_preserved() {
    let raw = 0xDEADBEEFu32;
    assert_eq!(PixelFormat::from_raw(raw), PixelFormat::Unknown(raw));
}

#[test]
fn known_formats_report_four_bytes_per_pixel() {
    let formats: [PixelFormat; 4] = [
        PixelFormat::Argb8888,
        PixelFormat::Xrgb8888,
        PixelFormat::Abgr8888,
        PixelFormat::Xbgr8888,
    ];
    for fmt in formats {
        assert_eq!(fmt.bytes_per_pixel(), Some(4), "{fmt:?} should be 4 bpp");
    }
}

#[test]
fn unknown_format_has_no_bpp() {
    assert_eq!(PixelFormat::Unknown(0xFF).bytes_per_pixel(), None);
}

#[test]
fn drm_fourcc_maps_to_named_formats() {
    // DRM FourCC codes differ from the wl_shm enum for ARGB/XRGB.
    assert_eq!(PixelFormat::from_drm_fourcc(0x34325241), PixelFormat::Argb8888);
    assert_eq!(PixelFormat::from_drm_fourcc(0x34325258), PixelFormat::Xrgb8888);
    assert_eq!(PixelFormat::from_drm_fourcc(0x34324241), PixelFormat::Abgr8888);
    assert_eq!(PixelFormat::from_drm_fourcc(0x34324258), PixelFormat::Xbgr8888);
    assert_eq!(PixelFormat::from_drm_fourcc(0x36314752), PixelFormat::Rgb565);
}

#[test]
fn drm_xrgb_is_not_confused_with_wl_shm_xrgb() {
    assert_eq!(PixelFormat::from_raw(1), PixelFormat::Xrgb8888);
    assert_eq!(PixelFormat::from_drm_fourcc(0x34325258), PixelFormat::Xrgb8888);
    assert_eq!(PixelFormat::from_raw(0x34325258), PixelFormat::Xrgb8888);
    assert_eq!(PixelFormat::from_raw(0x34325241), PixelFormat::Argb8888);
}

#[test]
fn genuinely_unknown_codes_are_still_preserved() {
    assert_eq!(PixelFormat::from_raw(0xDEADBEEF), PixelFormat::Unknown(0xDEADBEEF));
}

#[test]
fn wl_shm_format_conversion_roundtrips() {
    assert_eq!(PixelFormat::Argb8888.wl_shm_format_code(), Some(u32::from(Format::Argb8888)));
    assert_eq!(PixelFormat::Xrgb8888.wl_shm_format_code(), Some(u32::from(Format::Xrgb8888)));
    assert_eq!(PixelFormat::Abgr8888.wl_shm_format_code(), Some(u32::from(Format::Abgr8888)));
    assert_eq!(PixelFormat::Xbgr8888.wl_shm_format_code(), Some(u32::from(Format::Xbgr8888)));
    assert_eq!(PixelFormat::Unknown(0xFF).wl_shm_format_code(), None);
}

#[test]
fn wl_shm_format_codes_round_trip() {
    assert_eq!(PixelFormat::Argb8888.wl_shm_format_code(), Some(0));
    assert_eq!(PixelFormat::Xrgb8888.wl_shm_format_code(), Some(1));
    assert_eq!(PixelFormat::Abgr8888.wl_shm_format_code(), Some(DRM_FORMAT_ABGR8888));
    assert_eq!(PixelFormat::Xbgr8888.wl_shm_format_code(), Some(DRM_FORMAT_XBGR8888));
    assert_eq!(PixelFormat::Rgb565.wl_shm_format_code(), Some(DRM_FORMAT_RGB565));
    assert_eq!(PixelFormat::Unknown(0xFF).wl_shm_format_code(), None);
    assert_eq!(PixelFormat::Invalid.wl_shm_format_code(), None);
    for f in [
        PixelFormat::Argb8888,
        PixelFormat::Xrgb8888,
        PixelFormat::Abgr8888,
        PixelFormat::Xbgr8888,
        PixelFormat::Rgb565,
    ] {
        assert_eq!(PixelFormat::from_raw(f.wl_shm_format_code().unwrap()), f);
    }
}

#[test]
fn rgb565_is_two_bytes_and_invalid_has_no_size() {
    assert_eq!(PixelFormat::Rgb565.bytes_per_pixel(), Some(2));
    assert_eq!(PixelFormat::Invalid.bytes_per_pixel(), None);
    assert_eq!(PixelFormat::from_raw(DRM_FORMAT_RGB565), PixelFormat::Rgb565);
}
