//! Verified core of an xdg-desktop-portal backend for AGL: pixel-format
//! decoding, capture-buffer layout and conversion, capture backend selection
//! and the backends' decisions, output bookkeeping, shell role rules, and the
//! portal's own text parsing.

pub mod buffer;
pub mod capture;
pub mod error;
pub mod format;
pub mod output;
pub mod portal;
pub mod registry;
pub mod settings;
pub mod shell;
pub mod text;

pub use buffer::PixelBuffer;
pub use error::CaptureError;
pub use format::PixelFormat;
pub use output::OutputSelector;

use vstd::prelude::*;

verus! {

/// Encodes a captured frame as PNG. `captured` is the outcome of capturing
/// the chosen output; its error is passed on unchanged.
pub fn capture_output_png(captured: Result<PixelBuffer, CaptureError>) -> (r: Result<Vec<u8>, CaptureError>)
    ensures
        captured matches Err(e) ==> r == Err::<Vec<u8>, CaptureError>(e),
        captured matches Ok(buf) ==> {
            &&& (buf.width == 0 || buf.height == 0) ==> (r matches Err(CaptureError::EncodingFailed(_)))
            &&& (buf.width != 0 && buf.height != 0 && !buf.rgba8_ok()) ==> (r matches Err(e) && buf.rgba8_error(e))
            &&& (buf.width != 0 && buf.height != 0 && buf.rgba8_ok()) ==> (r matches Ok(bytes)
                && bytes@ == buffer::png_rgba8(buf.width, buf.height, buf.spec_rows_rgba(buf.height as nat)))
        },
{
    match captured {
        Ok(buf) => buf.encode_png(),
        Err(e) => Err(e),
    }
}

} // verus!
