use xdg_desktop_portal_agl::buffer::decode_pixel;
use xdg_desktop_portal_agl::portal::center_pixel;
use xdg_desktop_portal_agl::{capture_output_png, CaptureError, PixelBuffer, PixelFormat};

// A 2x1 image where each pixel is laid out in the source format's memory order.
fn buffer(format: PixelFormat, rows: &[u8]) -> PixelBuffer {
    PixelBuffer {
        data: rows.to_vec(),
        width: 2,
        height: 1,
        stride: 8,
        format,
    }
}

#[test]
fn argb_swizzles_bgra_memory_to_rgba() {
    // Memory order for ARGB8888 is [B, G, R, A].
    let px = buffer(PixelFormat::Argb8888, &[0x11, 0x22, 0x33, 0x44, 0x55, 0x66, 0x77, 0x88]);
    assert_eq!(px.to_rgba8().unwrap(), vec![0x33, 0x22, 0x11, 0x44, 0x77, 0x66, 0x55, 0x88]);
}

#[test]
fn xrgb_forces_opaque_alpha() {
    let px = buffer(PixelFormat::Xrgb8888, &[0x11, 0x22, 0x33, 0x00, 0x55, 0x66, 0x77, 0x00]);
    assert_eq!(px.to_rgba8().unwrap(), vec![0x33, 0x22, 0x11, 0xFF, 0x77, 0x66, 0x55, 0xFF]);
}

#[test]
fn abgr_is_already_rgba() {
    // Memory order for ABGR8888 is [R, G, B, A].
    let px = buffer(PixelFormat::Abgr8888, &[0x11, 0x22, 0x33, 0x44, 0x55, 0x66, 0x77, 0x88]);
    assert_eq!(px.to_rgba8().unwrap(), px.data.to_vec());
}

#[test]
fn unknown_format_is_rejected() {
    let px = buffer(PixelFormat::Unknown(0xABCD), &[0u8; 8]);
    assert!(px.to_rgba8().is_err());
}

#[test]
fn png_encodes_and_decodes_back_to_pixels() {
    let px = buffer(PixelFormat::Xrgb8888, &[0x11, 0x22, 0x33, 0x00, 0x55, 0x66, 0x77, 0x00]);
    let png_bytes = px.encode_png().expect("encode png");

    // A real PNG starts with the 8-byte signature.
    assert_eq!(&png_bytes[..8], &[0x89, b'P', b'N', b'G', 0x0D, 0x0A, 0x1A, 0x0A]);

    let decoder = png::Decoder::new(std::io::Cursor::new(&png_bytes));
    let mut reader = decoder.read_info().expect("read png info");
    let info = reader.info();
    assert_eq!(info.width, 2);
    assert_eq!(info.height, 1);
    assert_eq!(info.color_type, png::ColorType::Rgba);

    let mut out = vec![0u8; reader.output_buffer_size()];
    let frame = reader.next_frame(&mut out).expect("decode png frame");
    out.truncate(frame.buffer_size());
    assert_eq!(out, px.to_rgba8().unwrap());
}

#[test]
fn xbgr_keeps_order_and_forces_alpha() {
    let px = buffer(PixelFormat::Xbgr8888, &[1, 2, 3, 9, 4, 5, 6, 9]);
    assert_eq!(px.to_rgba8().unwrap(), vec![1, 2, 3, 0xFF, 4, 5, 6, 0xFF]);
}

#[test]
fn rgb565_widens_channels() {
    // 0xF800 is pure red, 0x07E0 pure green, 0x001F pure blue; 0x8410 mid grey.
    let px = PixelBuffer {
        data: vec![0x00, 0xF8, 0xE0, 0x07, 0x1F, 0x00, 0x10, 0x84],
        width: 4,
        height: 1,
        stride: 8,
        format: PixelFormat::Rgb565,
    };
    assert_eq!(
        px.to_rgba8().unwrap(),
        vec![255, 0, 0, 255, 0, 255, 0, 255, 0, 0, 255, 255, 132, 130, 132, 255]
    );
}

#[test]
fn padded_rows_skip_the_padding() {
    // 1x2 ABGR image with 4 bytes of padding per row.
    let px = PixelBuffer {
        data: vec![1, 2, 3, 4, 0, 0, 0, 0, 5, 6, 7, 8, 0, 0, 0, 0],
        width: 1,
        height: 2,
        stride: 8,
        format: PixelFormat::Abgr8888,
    };
    assert_eq!(px.to_rgba8().unwrap(), vec![1, 2, 3, 4, 5, 6, 7, 8]);
    assert_eq!(px.pixel_rgba8(0, 1).unwrap(), [5, 6, 7, 8]);
}

#[test]
fn short_buffer_and_short_row_are_reported() {
    let short = PixelBuffer { data: vec![0; 8], width: 2, height: 2, stride: 8, format: PixelFormat::Abgr8888 };
    match short.to_rgba8() {
        Err(CaptureError::CaptureFailed(m)) => assert_eq!(m, "buffer shorter than height"),
        other => panic!("unexpected {other:?}"),
    }
    let narrow = PixelBuffer { data: vec![0; 8], width: 3, height: 1, stride: 8, format: PixelFormat::Abgr8888 };
    match narrow.to_rgba8() {
        Err(CaptureError::CaptureFailed(m)) => assert_eq!(m, "row shorter than width"),
        other => panic!("unexpected {other:?}"),
    }
    match narrow.pixel_rgba8(2, 0) {
        Err(CaptureError::CaptureFailed(m)) => assert_eq!(m, "row shorter than width"),
        other => panic!("unexpected {other:?}"),
    }
    match narrow.pixel_rgba8(0, 1) {
        Err(CaptureError::CaptureFailed(m)) => assert_eq!(m, "buffer shorter than height"),
        other => panic!("unexpected {other:?}"),
    }
}

#[test]
fn unknown_format_is_reported_as_unsupported() {
    let px = buffer(PixelFormat::Unknown(7), &[0u8; 8]);
    assert!(matches!(px.pixel_rgba8(0, 0), Err(CaptureError::UnsupportedFormat(PixelFormat::Unknown(7)))));
    assert!(matches!(decode_pixel(&[0, 0, 0, 0], PixelFormat::Invalid), Err(CaptureError::UnsupportedFormat(PixelFormat::Invalid))));
}

#[test]
fn empty_frame_converts_to_nothing_but_cannot_be_encoded() {
    let px = PixelBuffer { data: vec![], width: 5, height: 0, stride: 20, format: PixelFormat::Unknown(3) };
    assert_eq!(px.to_rgba8().unwrap(), Vec::<u8>::new());
    assert!(matches!(px.encode_png(), Err(CaptureError::EncodingFailed(_))));
}

#[test]
fn expected_size_caps_at_i32_max() {
    assert_eq!(PixelBuffer::expected_size(8, 3), Some(24));
    assert_eq!(PixelBuffer::expected_size(0x8000, 0x10000), None);
    assert_eq!(PixelBuffer::expected_size(0x7fff_ffff, 1), Some(0x7fff_ffff));
    assert_eq!(PixelBuffer::expected_size(u32::MAX, u32::MAX), None);
}

#[test]
fn row_slices_by_stride() {
    let px = PixelBuffer { data: (0..12).collect(), width: 1, height: 3, stride: 4, format: PixelFormat::Abgr8888 };
    assert_eq!(px.row(1), Some(&[4u8, 5, 6, 7][..]));
    assert_eq!(px.row(3), None);
}

#[test]
fn center_pixel_samples_the_middle() {
    let px = PixelBuffer { data: (0..36).collect(), width: 3, height: 3, stride: 12, format: PixelFormat::Abgr8888 };
    assert_eq!(center_pixel(&px).unwrap(), [16, 17, 18, 19]);
    let rgba = px.to_rgba8().unwrap();
    assert_eq!(&rgba[16..20], &[16, 17, 18, 19]);
}

#[test]
fn capture_errors_pass_through_png_encoding() {
    let err = capture_output_png(Err(CaptureError::WaylandError("gone".to_string())));
    assert!(matches!(err, Err(CaptureError::WaylandError(m)) if m == "gone"));
    let ok = capture_output_png(Ok(buffer(PixelFormat::Abgr8888, &[1, 2, 3, 4, 5, 6, 7, 8]))).unwrap();
    assert_eq!(&ok[1..4], b"PNG");
}
