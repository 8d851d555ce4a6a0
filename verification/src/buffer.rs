//! A captured frame in the compositor's memory layout, and its conversion to
//! tightly packed RGBA8 and to PNG.

use vstd::arithmetic::mul::{lemma_mul_inequality, lemma_mul_is_distributive_add_other_way};
use vstd::prelude::*;
use vstd::slice::slice_subrange;

use crate::error::{capture_failed, failed_with, CaptureError};
use crate::format::{spec_bytes_per_pixel, PixelFormat};

verus! {

/// Largest buffer, in bytes, that a capture may allocate.
pub const MAX_BUFFER_SIZE: u64 = 0x7fff_ffff;

/// A captured frame: `height` rows of `stride` bytes each, the first
/// `width * bytes_per_pixel` bytes of a row being pixels in `format`.
#[derive(Debug)]
pub struct PixelBuffer {
    pub data: Vec<u8>,
    pub width: u32,
    pub height: u32,
    pub stride: u32,
    pub format: PixelFormat,
}

/// The RGBA8 value of one pixel whose bytes in memory are `px`.
///
/// wl_shm/DRM names describe the 32-bit little-endian word, so memory order is
/// reversed: ARGB8888 is stored as B, G, R, A and ABGR8888 as R, G, B, A. The
/// X formats are read as fully opaque, and RGB565's 5- and 6-bit channels are
/// widened to 8 bits by repeating their high bits.
pub open spec fn spec_decode_pixel(px: Seq<u8>, f: PixelFormat) -> Seq<u8> {
    match f {
        PixelFormat::Argb8888 => seq![px[2], px[1], px[0], px[3]],
        PixelFormat::Xrgb8888 => seq![px[2], px[1], px[0], 0xffu8],
        PixelFormat::Abgr8888 => seq![px[0], px[1], px[2], px[3]],
        PixelFormat::Xbgr8888 => seq![px[0], px[1], px[2], 0xffu8],
        PixelFormat::Rgb565 => {
            let v = px[0] as int + px[1] as int * 256;
            let r = v / 2048;
            let g = (v / 32) % 64;
            let b = v % 32;
            seq![(r * 8 + r / 4) as u8, (g * 4 + g / 16) as u8, (b * 8 + b / 4) as u8, 0xffu8]
        },
        PixelFormat::Invalid | PixelFormat::Unknown(_) => Seq::empty(),
    }
}

/// Decodes the pixel `px` (at least `bytes_per_pixel` bytes) of format
/// `format` into RGBA8.
pub fn decode_pixel(px: &[u8], format: PixelFormat) -> (r: Result<[u8; 4], CaptureError>)
    requires
        spec_bytes_per_pixel(format) matches Some(n) ==> px@.len() >= n,
    ensures
        spec_bytes_per_pixel(format) is Some ==> (r matches Ok(rgba) && rgba@ == spec_decode_pixel(
            px@,
            format,
        )),
        spec_bytes_per_pixel(format) is None ==> (r matches Err(CaptureError::UnsupportedFormat(
            f,
        )) && f == format),
{
    let rgba: [u8; 4] = match format {
        PixelFormat::Argb8888 => [px[2], px[1], px[0], px[3]],
        PixelFormat::Xrgb8888 => [px[2], px[1], px[0], 0xff],
        PixelFormat::Abgr8888 => [px[0], px[1], px[2], px[3]],
        PixelFormat::Xbgr8888 => [px[0], px[1], px[2], 0xff],
        PixelFormat::Rgb565 => {
            let v: u32 = px[0] as u32 + px[1] as u32 * 256;
            let r: u32 = v / 2048;
            let g: u32 = (v / 32) % 64;
            let b: u32 = v % 32;
            [(r * 8 + r / 4) as u8, (g * 4 + g / 16) as u8, (b * 8 + b / 4) as u8, 0xff]
        },
        PixelFormat::Invalid | PixelFormat::Unknown(_) => {
            return Err(CaptureError::UnsupportedFormat(format));
        },
    };
    assert(rgba@ =~= spec_decode_pixel(px@, format));
    Ok(rgba)
}

impl PixelBuffer {
    /// Row `y` of the buffer, if the buffer holds it: the `stride` bytes
    /// starting at `y * stride`, where that offset must fit in a `u32`.
    pub open spec fn spec_row(&self, y: int) -> Option<Seq<u8>> {
        let start = y * self.stride;
        if start <= u32::MAX && start + self.stride <= self.data@.len() {
            Some(self.data@.subrange(start, start + self.stride))
        } else {
            None
        }
    }

    /// The bytes of the pixel at (`x`, `y`), if its row exists and is long
    /// enough to hold it.
    pub open spec fn spec_pixel_bytes(&self, x: int, y: int) -> Option<Seq<u8>> {
        match (self.spec_row(y), spec_bytes_per_pixel(self.format)) {
            (Some(row), Some(bpp)) => if x * bpp + bpp <= row.len() {
                Some(row.subrange(x * bpp, x * bpp + bpp))
            } else {
                None
            },
            _ => None,
        }
    }

    /// What `pixel_rgba8(x, y)` gives: an unreadable format first, then a
    /// missing row, then a row too short for the pixel, else the decoded pixel.
    pub open spec fn pixel_rgba8_ok(&self, x: int, y: int) -> bool {
        &&& spec_bytes_per_pixel(self.format) is Some
        &&& self.spec_row(y) is Some
        &&& self.spec_pixel_bytes(x, y) is Some
    }

    /// Total size in bytes of `height` rows of `stride` bytes, if it stays
    /// within `MAX_BUFFER_SIZE`.
    pub fn expected_size(stride: u32, height: u32) -> (r: Option<usize>)
        ensures
            stride * height <= MAX_BUFFER_SIZE ==> r == Some((stride * height) as usize),
            stride * height > MAX_BUFFER_SIZE ==> r is None,
    {
        let size = match (stride as u64).checked_mul(height as u64) {
            Some(s) => s,
            None => { return None; },
        };
        if size > MAX_BUFFER_SIZE {
            None
        } else {
            Some(size as usize)
        }
    }

    /// The bytes of row `y`.
    pub fn row(&self, y: u32) -> (r: Option<&[u8]>)
        ensures
            r matches Some(s) ==> self.spec_row(y as int) == Some(s@),
            r is None ==> self.spec_row(y as int) is None,
    {
        let start = match y.checked_mul(self.stride) {
            Some(s) => s as usize,
            None => { return None; },
        };
        let end = match start.checked_add(self.stride as usize) {
            Some(e) => e,
            None => {
                assert(self.data@.len() == self.data.len());
                return None;
            },
        };
        if end <= self.data.len() {
            Some(slice_subrange(self.data.as_slice(), start, end))
        } else {
            None
        }
    }

    /// Decodes the single pixel at (`x`, `y`) into RGBA8.
    pub fn pixel_rgba8(&self, x: u32, y: u32) -> (r: Result<[u8; 4], CaptureError>)
        ensures
            spec_bytes_per_pixel(self.format) is None ==> (r matches Err(
                CaptureError::UnsupportedFormat(f),
            ) && f == self.format),
            spec_bytes_per_pixel(self.format) is Some && self.spec_row(y as int) is None
                ==> r is Err && failed_with(r->Err_0, "buffer shorter than height"@),
            spec_bytes_per_pixel(self.format) is Some && self.spec_row(y as int) is Some
                && self.spec_pixel_bytes(x as int, y as int) is None ==> r is Err && failed_with(
                r->Err_0,
                "row shorter than width"@,
            ),
            self.pixel_rgba8_ok(x as int, y as int) ==> (r matches Ok(rgba) && rgba@
                == spec_decode_pixel(
                self.spec_pixel_bytes(x as int, y as int)->0,
                self.format,
            )),
    {
        let bpp = match self.format.bytes_per_pixel() {
            Some(b) => b,
            None => { return Err(CaptureError::UnsupportedFormat(self.format)); },
        };
        let row = match self.row(y) {
            Some(r) => r,
            None => { return Err(capture_failed("buffer shorter than height")); },
        };
        let start: u64 = x as u64 * bpp as u64;
        if start + bpp as u64 > row.len() as u64 {
            return Err(capture_failed("row shorter than width"));
        }
        let px = slice_subrange(row, start as usize, start as usize + bpp);
        decode_pixel(px, self.format)
    }
}


/// The PNG encoding that the `png` crate produces for an 8-bit RGBA image of
/// `width` x `height` pixels with the pixel bytes `rgba`, written with the
/// encoder's fast compression setting through its stream writer.
pub uninterp spec fn png_rgba8(width: u32, height: u32, rgba: Seq<u8>) -> Seq<u8>;

/// The eight bytes every PNG file starts with.
pub open spec fn png_signature() -> Seq<u8> {
    seq![137u8, 80u8, 78u8, 71u8, 13u8, 10u8, 26u8, 10u8]
}

/// Encodes an 8-bit RGBA image with `png::Encoder` (colour type RGBA, depth
/// eight, fast compression): `write_header`, then the pixel bytes through
/// `Writer::stream_writer`, `StreamWriter::finish`, and the `IEND` chunk that
/// dropping the writer appends.
///
/// Trusted: the `png` crate rejects a zero width or height in `write_header`
/// and otherwise writes the signature before anything else; the stream writer
/// takes exactly `width * height * 4` bytes of RGBA data, and writing into a
/// `Vec` cannot otherwise fail. The encoded bytes themselves are named, not
/// stated.
#[verifier::external_body]
fn encode_rgba8_png(width: u32, height: u32, rgba: &[u8]) -> (r: Result<Vec<u8>, String>)
    requires
        width * height * 4 <= usize::MAX,
        rgba@.len() == width * height * 4,
    ensures
        r is Ok <==> (width != 0 && height != 0),
        r matches Ok(bytes) ==> bytes@ == png_rgba8(width, height, rgba@),
        r matches Ok(bytes) ==> bytes@.len() >= 8 && bytes@.subrange(0, 8) == png_signature(),
{
    let mut out: Vec<u8> = Vec::new();
    let mut encoder = png::Encoder::new(&mut out, width, height);
    encoder.set_color(png::ColorType::Rgba);
    encoder.set_depth(png::BitDepth::Eight);
    encoder.set_compression(png::Compression::Fast);
    let mut writer = encoder.write_header().map_err(|e| e.to_string())?;
    let mut stream = writer.stream_writer().map_err(|e| e.to_string())?;
    std::io::Write::write_all(&mut stream, rgba).map_err(|e| e.to_string())?;
    stream.finish().map_err(|e| e.to_string())?;
    drop(writer);
    Ok(out)
}

impl PixelBuffer {
    /// RGBA8 value of the pixel at (`x`, `y`).
    pub open spec fn spec_pixel_rgba(&self, x: int, y: int) -> Seq<u8> {
        spec_decode_pixel(self.spec_pixel_bytes(x, y)->0, self.format)
    }

    /// RGBA8 values of the first `n` pixels of row `y`, in order.
    pub open spec fn spec_row_rgba(&self, y: int, n: nat) -> Seq<u8>
        decreases n,
    {
        if n == 0 {
            Seq::empty()
        } else {
            self.spec_row_rgba(y, (n - 1) as nat) + self.spec_pixel_rgba(n - 1, y)
        }
    }

    /// RGBA8 values of the first `m` rows, row after row.
    pub open spec fn spec_rows_rgba(&self, m: nat) -> Seq<u8>
        decreases m,
    {
        if m == 0 {
            Seq::empty()
        } else {
            self.spec_rows_rgba((m - 1) as nat) + self.spec_row_rgba(m - 1, self.width as nat)
        }
    }

    /// Every row holds `width` pixels of a readable format.
    pub open spec fn rows_readable(&self) -> bool {
        &&& spec_bytes_per_pixel(self.format) matches Some(bpp) && self.width * bpp <= self.stride
        &&& self.spec_row(self.height - 1) is Some
    }

    /// `to_rgba8` succeeds: there is nothing to read, or every row is readable.
    pub open spec fn rgba8_ok(&self) -> bool {
        self.height == 0 || self.rows_readable()
    }

    /// The error `to_rgba8` reports when it fails: the first failing row is
    /// row 0 unless row 0 exists and is wide enough.
    pub open spec fn rgba8_error(&self, e: CaptureError) -> bool {
        if spec_bytes_per_pixel(self.format) is None {
            e matches CaptureError::UnsupportedFormat(f) && f == self.format
        } else if self.spec_row(0) is None {
            failed_with(e, "buffer shorter than height"@)
        } else if self.width * spec_bytes_per_pixel(self.format)->0 > self.stride {
            failed_with(e, "row shorter than width"@)
        } else {
            failed_with(e, "buffer shorter than height"@)
        }
    }

    /// Row existence is monotone: a buffer holding row `y` holds every
    /// earlier row.
    pub proof fn lemma_row_monotone(&self, y1: int, y2: int)
        requires
            0 <= y1 <= y2,
            self.spec_row(y2) is Some,
        ensures
            self.spec_row(y1) is Some,
    {
        lemma_mul_inequality(y1, y2, self.stride as int);
    }

    /// In a readable row every one of the `width` pixels is present.
    proof fn lemma_pixel_present(&self, x: int, y: int)
        requires
            0 <= x < self.width,
            0 <= y,
            self.spec_row(y) is Some,
            spec_bytes_per_pixel(self.format) matches Some(bpp) && self.width * bpp <= self.stride,
        ensures
            self.spec_pixel_bytes(x, y) is Some,
    {
        let bpp = spec_bytes_per_pixel(self.format)->0 as int;
        lemma_mul_inequality(x + 1, self.width as int, bpp);
        lemma_mul_is_distributive_add_other_way(bpp, x, 1);
    }

    /// The decoded image has four bytes per pixel, rows in order.
    pub proof fn lemma_rows_rgba_len(&self, m: nat)
        requires
            spec_bytes_per_pixel(self.format) is Some,
        ensures
            self.spec_rows_rgba(m).len() == m * (self.width * 4),
        decreases m,
    {
        if m > 0 {
            self.lemma_rows_rgba_len((m - 1) as nat);
            self.lemma_row_rgba_len(m - 1, self.width as nat);
            let w = self.width as int;
            let k = m as int;
            assert((k - 1) * (w * 4) + 4 * w == k * (w * 4)) by (nonlinear_arith);
        } else {
            assert(0 * (self.width * 4) == 0);
        }
    }

    /// A decoded row prefix of `n` pixels is `4 * n` bytes long.
    pub proof fn lemma_row_rgba_len(&self, y: int, n: nat)
        requires
            spec_bytes_per_pixel(self.format) is Some,
        ensures
            self.spec_row_rgba(y, n).len() == 4 * n,
        decreases n,
    {
        if n > 0 {
            self.lemma_row_rgba_len(y, (n - 1) as nat);
        }
    }

    /// Appends the RGBA8 values of row `y` to `out`.
    fn decode_row_into(&self, y: u32, out: &mut Vec<u8>) -> (r: Result<(), CaptureError>)
        ensures
            r is Ok <==> ((spec_bytes_per_pixel(self.format) matches Some(bpp) && self.width * bpp
                <= self.stride) && self.spec_row(y as int) is Some),
            r is Ok ==> final(out)@ == old(out)@ + self.spec_row_rgba(y as int, self.width as nat),
            r matches Err(e) ==> {
                if spec_bytes_per_pixel(self.format) is None {
                    e matches CaptureError::UnsupportedFormat(f) && f == self.format
                } else if self.spec_row(y as int) is None {
                    failed_with(e, "buffer shorter than height"@)
                } else {
                    failed_with(e, "row shorter than width"@)
                }
            },
    {
        let bpp = match self.format.bytes_per_pixel() {
            Some(b) => b,
            None => { return Err(CaptureError::UnsupportedFormat(self.format)); },
        };
        let row = match self.row(y) {
            Some(r) => r,
            None => { return Err(capture_failed("buffer shorter than height")); },
        };
        let ghost start_out = old(out)@;
        let mut x: u32 = 0;
        while x < self.width
            invariant
                0 <= x <= self.width,
                spec_bytes_per_pixel(self.format) == Some(bpp),
                self.spec_row(y as int) == Some(row@),
                row@.len() == self.stride,
                x * bpp <= self.stride,
                out@ == start_out + self.spec_row_rgba(y as int, x as nat),
            decreases self.width - x,
        {
            let start: u64 = x as u64 * bpp as u64;
            if start + bpp as u64 > row.len() as u64 {
                proof {
                    lemma_mul_inequality(x + 1, self.width as int, bpp as int);
                    lemma_mul_is_distributive_add_other_way(bpp as int, x as int, 1);
                }
                return Err(capture_failed("row shorter than width"));
            }
            proof {
                lemma_mul_is_distributive_add_other_way(bpp as int, x as int, 1);
            }
            let px = slice_subrange(row, start as usize, start as usize + bpp);
            let rgba = match decode_pixel(px, self.format) {
                Ok(v) => v,
                Err(e) => { return Err(e); },
            };
            out.push(rgba[0]);
            out.push(rgba[1]);
            out.push(rgba[2]);
            out.push(rgba[3]);
            assert(out@ =~= start_out + self.spec_row_rgba(y as int, (x + 1) as nat));
            x = x + 1;
        }
        Ok(())
    }

    /// Converts the frame into tightly packed RGBA8 (`width * height * 4`
    /// bytes, row after row), swizzling channels as the format requires and
    /// reading the padding byte of the X formats as opaque alpha.
    pub fn to_rgba8(&self) -> (r: Result<Vec<u8>, CaptureError>)
        ensures
            r is Ok <==> self.rgba8_ok(),
            r matches Ok(rgba) ==> rgba@ == self.spec_rows_rgba(self.height as nat),
            r matches Err(e) ==> self.rgba8_error(e),
    {
        let mut out: Vec<u8> = Vec::new();
        let mut y: u32 = 0;
        while y < self.height
            invariant
                0 <= y <= self.height,
                out@ == self.spec_rows_rgba(y as nat),
                y > 0 ==> (spec_bytes_per_pixel(self.format) matches Some(bpp) && self.width * bpp
                    <= self.stride && self.spec_row(0) is Some),
                y > 0 ==> self.spec_row(y - 1) is Some,
            decreases self.height - y,
        {
            match self.decode_row_into(y, &mut out) {
                Ok(()) => {},
                Err(e) => {
                    proof {
                        if self.spec_row(y as int) is None && self.rows_readable() {
                            self.lemma_row_monotone(y as int, self.height - 1);
                        }
                    }
                    return Err(e);
                },
            }
            proof {
                if y == 0 {
                } else {
                    self.lemma_row_monotone(0, y as int);
                }
            }
            y = y + 1;
        }
        proof {
            if self.height > 0 {
                assert(self.spec_row(self.height - 1) is Some);
            }
        }
        Ok(out)
    }

    /// Encodes the frame as a PNG image (8-bit RGBA).
    pub fn encode_png(&self) -> (r: Result<Vec<u8>, CaptureError>)
        ensures
            (self.width == 0 || self.height == 0) ==> (r matches Err(
                CaptureError::EncodingFailed(_),
            )),
            self.width != 0 && self.height != 0 && !self.rgba8_ok() ==> (r matches Err(e)
                && self.rgba8_error(e)),
            self.width != 0 && self.height != 0 && self.rgba8_ok() ==> (r matches Ok(bytes)
                && bytes@ == png_rgba8(
                self.width,
                self.height,
                self.spec_rows_rgba(self.height as nat),
            )),
            r matches Ok(bytes) ==> bytes@.len() >= 8 && bytes@.subrange(0, 8) == png_signature(),
    {
        if self.width == 0 || self.height == 0 {
            let empty: Vec<u8> = Vec::new();
            return match encode_rgba8_png(self.width, self.height, empty.as_slice()) {
                Ok(bytes) => Ok(bytes),
                Err(msg) => Err(CaptureError::EncodingFailed(msg)),
            };
        }
        let rgba = self.to_rgba8()?;
        proof {
            self.lemma_rows_rgba_len(self.height as nat);
            assert(rgba@.len() == self.height * (self.width * 4));
            assert(self.height * (self.width * 4) == self.width * self.height * 4) by (nonlinear_arith);
            assert(rgba@.len() == rgba.len());
        }
        match encode_rgba8_png(self.width, self.height, rgba.as_slice()) {
            Ok(bytes) => Ok(bytes),
            Err(msg) => Err(CaptureError::EncodingFailed(msg)),
        }
    }
}

impl PixelBuffer {
    /// Pixel `x` of a decoded row prefix sits at bytes `4x .. 4x + 4`.
    proof fn lemma_row_rgba_index(&self, y: int, n: nat, x: int)
        requires
            spec_bytes_per_pixel(self.format) is Some,
            0 <= x < n,
        ensures
            self.spec_row_rgba(y, n).subrange(4 * x, 4 * x + 4) == self.spec_pixel_rgba(x, y),
        decreases n,
    {
        self.lemma_row_rgba_len(y, (n - 1) as nat);
        let prev = self.spec_row_rgba(y, (n - 1) as nat);
        let px = self.spec_pixel_rgba(n - 1, y);
        assert(self.spec_row_rgba(y, n) == prev + px);
        if x == n - 1 {
            assert((prev + px).subrange(4 * x, 4 * x + 4) =~= px);
        } else {
            self.lemma_row_rgba_index(y, (n - 1) as nat, x);
            assert((prev + px).subrange(4 * x, 4 * x + 4) =~= prev.subrange(4 * x, 4 * x + 4));
        }
    }

    /// Pixel (`x`, `y`) of the decoded image sits at bytes
    /// `4 (y * width + x) .. 4 (y * width + x) + 4`.
    proof fn lemma_rows_rgba_index(&self, m: nat, x: int, y: int)
        requires
            spec_bytes_per_pixel(self.format) is Some,
            0 <= y < m,
            0 <= x < self.width,
        ensures
            self.spec_rows_rgba(m).subrange(4 * (y * self.width + x), 4 * (y * self.width + x) + 4)
                == self.spec_pixel_rgba(x, y),
        decreases m,
    {
        let w = self.width as int;
        let prev = self.spec_rows_rgba((m - 1) as nat);
        let row = self.spec_row_rgba(m - 1, self.width as nat);
        self.lemma_rows_rgba_len((m - 1) as nat);
        self.lemma_row_rgba_len(m - 1, self.width as nat);
        assert(self.spec_rows_rgba(m) == prev + row);
        let off = 4 * (y * w + x);
        if y == m - 1 {
            self.lemma_row_rgba_index(m - 1, self.width as nat, x);
            assert(off == (m - 1) * (w * 4) + 4 * x) by (nonlinear_arith)
                requires
                    off == 4 * (y * w + x),
                    y == m - 1,
            ;
            assert((prev + row).subrange(off, off + 4) =~= row.subrange(4 * x, 4 * x + 4));
        } else {
            self.lemma_rows_rgba_index((m - 1) as nat, x, y);
            assert(off + 4 <= (m - 1) * (w * 4)) by (nonlinear_arith)
                requires
                    off == 4 * (y * w + x),
                    0 <= y < m - 1,
                    0 <= x < w,
            ;
            assert((prev + row).subrange(off, off + 4) =~= prev.subrange(off, off + 4));
        }
    }
}

/// Whole-frame conversion and single-pixel sampling agree: when `to_rgba8`
/// succeeds, every pixel inside the frame can be sampled by `pixel_rgba8`,
/// and its four bytes in the converted image, at offset
/// `4 * (y * width + x)`, are exactly what sampling it gives. The converted
/// image is `width * height * 4` bytes long.
pub proof fn lemma_rgba8_layout(buf: PixelBuffer, x: int, y: int)
    requires
        buf.rgba8_ok(),
        0 <= x < buf.width,
        0 <= y < buf.height,
    ensures
        buf.pixel_rgba8_ok(x, y),
        buf.spec_rows_rgba(buf.height as nat).len() == buf.width * buf.height * 4,
        buf.spec_rows_rgba(buf.height as nat).subrange(
            4 * (y * buf.width + x),
            4 * (y * buf.width + x) + 4,
        ) == spec_decode_pixel(buf.spec_pixel_bytes(x, y)->0, buf.format),
{
    buf.lemma_row_monotone(y, buf.height - 1);
    buf.lemma_pixel_present(x, y);
    buf.lemma_rows_rgba_len(buf.height as nat);
    assert(buf.height * (buf.width * 4) == buf.width * buf.height * 4) by (nonlinear_arith);
    buf.lemma_rows_rgba_index(buf.height as nat, x, y);
}

/// The X formats read as fully opaque whatever their padding byte holds, and
/// ABGR8888 is already in RGBA byte order.
pub proof fn lemma_decode_pixel_channels(px: Seq<u8>)
    requires
        px.len() >= 4,
    ensures
        spec_decode_pixel(px, PixelFormat::Xrgb8888)[3] == 0xff,
        spec_decode_pixel(px, PixelFormat::Xbgr8888)[3] == 0xff,
        spec_decode_pixel(px, PixelFormat::Rgb565)[3] == 0xff,
        spec_decode_pixel(px, PixelFormat::Abgr8888) == px.take(4),
        spec_decode_pixel(px, PixelFormat::Xbgr8888).take(3) == px.take(3),
        spec_decode_pixel(px, PixelFormat::Argb8888) == seq![px[2], px[1], px[0], px[3]],
{
    assert(spec_decode_pixel(px, PixelFormat::Abgr8888) =~= px.take(4));
    assert(spec_decode_pixel(px, PixelFormat::Xbgr8888).take(3) =~= px.take(3));
}

} // verus!
