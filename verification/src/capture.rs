//! The decisions of the three capture backends: how each turns what the
//! compositor reports into a buffer to allocate, and how each reads the
//! compositor's answer. The protocol traffic itself stays with the caller,
//! which performs the actions these functions name and feeds back the events.

use vstd::prelude::*;

use crate::buffer::{PixelBuffer, MAX_BUFFER_SIZE};
use crate::error::{capture_failed, failed_with, CaptureError};
use crate::format::{spec_bytes_per_pixel, spec_from_drm_fourcc, spec_from_raw, spec_wl_shm_code, PixelFormat};
use crate::text::{push_decimal, push_str, spec_decimal, string_from_chars};

verus! {

broadcast use vstd::string::group_string_axioms;

/// The shm buffer a capture asks the compositor to fill.
#[derive(Debug, Clone, Copy, PartialEq, Eq, Structural)]
pub struct BufferPlan {
    pub width: u32,
    pub height: u32,
    pub stride: u32,
    pub format: PixelFormat,
    /// The wl_shm format code the buffer is created with.
    pub shm_format: u32,
    /// `stride * height`, in bytes.
    pub size: usize,
}

/// `p` is the buffer for a `width` x `height` frame in `format`: rows of
/// `width * bytes_per_pixel` bytes, within `MAX_BUFFER_SIZE` in all.
pub open spec fn plans(p: BufferPlan, width: u32, height: u32, format: PixelFormat) -> bool {
    &&& p.width == width
    &&& p.height == height
    &&& p.format == format
    &&& spec_bytes_per_pixel(format) matches Some(bpp) && p.stride == width * bpp
    &&& spec_wl_shm_code(format) == Some(p.shm_format)
    &&& p.size == p.stride * height
    &&& p.size <= MAX_BUFFER_SIZE
}

/// Plans a buffer of known geometry and stride.
fn plan_buffer(width: u32, height: u32, stride: u32, format: PixelFormat, shm_format: u32, overflow_msg: &str) -> (r: Result<BufferPlan, CaptureError>)
    ensures
        stride * height <= MAX_BUFFER_SIZE ==> r == Ok::<BufferPlan, CaptureError>(BufferPlan {
            width,
            height,
            stride,
            format,
            shm_format,
            size: (stride * height) as usize,
        }),
        stride * height > MAX_BUFFER_SIZE ==> r is Err && failed_with(r->Err_0, overflow_msg@),
{
    match PixelBuffer::expected_size(stride, height) {
        Some(size) => Ok(BufferPlan { width, height, stride, format, shm_format, size }),
        None => Err(capture_failed(overflow_msg)),
    }
}

// ---------------------------------------------------------------------------
// wlr-screencopy

/// Progress of one wlr-screencopy frame capture.
#[derive(Debug)]
pub enum CaptureState {
    /// Frame requested, waiting for the compositor's buffer offer.
    Pending,
    /// The compositor described the buffer it will fill.
    BufferAllocated { width: u32, height: u32, stride: u32, format: PixelFormat },
    /// The frame is in the buffer; `data` is filled in by the caller.
    Ready(PixelBuffer),
    Failed,
}

/// An event of a `zwlr_screencopy_frame_v1`.
#[derive(Debug, Clone, Copy, PartialEq, Eq, Structural)]
pub enum ScreencopyEvent {
    /// A buffer offer; `format` is the raw wl_shm format code.
    Buffer { format: u32, width: u32, height: u32, stride: u32 },
    Ready,
    Failed,
    /// Any other event (`buffer_done`, `flags`, `damage`, dmabuf offers).
    Other,
}

impl CaptureState {
    /// The capture is over, one way or the other.
    pub open spec fn spec_is_terminal(&self) -> bool {
        self is Ready || self is Failed
    }

    pub fn is_terminal(&self) -> (r: bool)
        ensures
            r == self.spec_is_terminal(),
    {
        match self {
            CaptureState::Ready(_) | CaptureState::Failed => true,
            _ => false,
        }
    }

    /// The captured frame, if the capture is ready.
    pub fn take_buffer(self) -> (r: Option<PixelBuffer>)
        ensures
            self matches CaptureState::Ready(b) ==> r == Some(b),
            !(self is Ready) ==> r is None,
    {
        match self {
            CaptureState::Ready(buf) => Some(buf),
            _ => None,
        }
    }

    /// Advances the capture on a frame event: a buffer offer records the
    /// geometry; `ready` completes a capture whose geometry is known and fails
    /// any other; `failed` fails it.
    pub fn apply(&mut self, event: ScreencopyEvent)
        ensures
            match event {
                ScreencopyEvent::Buffer { format, width, height, stride } => *final(self)
                    == CaptureState::BufferAllocated {
                    width,
                    height,
                    stride,
                    format: spec_from_raw(format),
                },
                ScreencopyEvent::Ready => match *old(self) {
                    CaptureState::BufferAllocated { width, height, stride, format } => (*final(self)
                        matches CaptureState::Ready(b) && b.data@.len() == 0 && b.width == width
                        && b.height == height && b.stride == stride && b.format == format),
                    _ => *final(self) is Failed,
                },
                ScreencopyEvent::Failed => *final(self) is Failed,
                ScreencopyEvent::Other => *final(self) == *old(self),
            },
    {
        match event {
            ScreencopyEvent::Buffer { format, width, height, stride } => {
                *self = CaptureState::BufferAllocated {
                    width,
                    height,
                    stride,
                    format: PixelFormat::from_raw(format),
                };
            },
            ScreencopyEvent::Ready => {
                let mut prev = CaptureState::Failed;
                std::mem::swap(self, &mut prev);
                if let CaptureState::BufferAllocated { width, height, stride, format } = prev {
                    *self = CaptureState::Ready(
                        PixelBuffer { data: Vec::new(), width, height, stride, format },
                    );
                }
            },
            ScreencopyEvent::Failed => {
                *self = CaptureState::Failed;
            },
            ScreencopyEvent::Other => {},
        }
    }

    /// The buffer to hand the compositor once its offer has arrived.
    pub fn screencopy_plan(&self) -> (r: Result<BufferPlan, CaptureError>)
        ensures
            !(*self is BufferAllocated) ==> r is Err && failed_with(r->Err_0, "Failed to allocate buffer"@),
            *self matches CaptureState::BufferAllocated { width, height, stride, format } ==> {
                if spec_wl_shm_code(format) is None {
                    r matches Err(CaptureError::UnsupportedFormat(f)) && f == format
                } else if stride * height > MAX_BUFFER_SIZE {
                    r is Err && failed_with(r->Err_0, "Buffer size overflow"@)
                } else {
                    r == Ok::<BufferPlan, CaptureError>(BufferPlan {
                        width,
                        height,
                        stride,
                        format,
                        shm_format: spec_wl_shm_code(format)->0,
                        size: (stride * height) as usize,
                    })
                }
            },
    {
        match self {
            CaptureState::BufferAllocated { width, height, stride, format } => {
                let shm = match format.wl_shm_format_code() {
                    Some(s) => s,
                    None => { return Err(CaptureError::UnsupportedFormat(*format)); },
                };
                plan_buffer(*width, *height, *stride, *format, shm, "Buffer size overflow")
            },
            _ => Err(capture_failed("Failed to allocate buffer")),
        }
    }

    /// The captured frame once the capture is over, its pixels being `data`
    /// (the contents of the shm buffer the compositor filled).
    pub fn screencopy_finish(self, data: Vec<u8>) -> (r: Result<PixelBuffer, CaptureError>)
        ensures
            self matches CaptureState::Ready(b) ==> (r matches Ok(p) && p.data@ == data@
                && p.width == b.width && p.height == b.height && p.stride == b.stride && p.format
                == b.format),
            !(self is Ready) ==> r is Err && failed_with(r->Err_0, "Capture failed"@),
    {
        match self.take_buffer() {
            Some(mut buf) => {
                buf.data = data;
                Ok(buf)
            },
            None => Err(capture_failed("Capture failed")),
        }
    }
}

/// How `{:?}` renders a pixel format.
pub open spec fn spec_format_name(f: PixelFormat) -> Seq<char> {
    match f {
        PixelFormat::Xrgb8888 => "Xrgb8888"@,
        PixelFormat::Argb8888 => "Argb8888"@,
        PixelFormat::Xbgr8888 => "Xbgr8888"@,
        PixelFormat::Abgr8888 => "Abgr8888"@,
        PixelFormat::Rgb565 => "Rgb565"@,
        PixelFormat::Invalid => "Invalid"@,
        PixelFormat::Unknown(n) => "Unknown("@ + spec_decimal(n as nat) + ")"@,
    }
}

/// Appends the name of `f` to `out`.
fn push_format_name(f: PixelFormat, out: &mut Vec<char>)
    ensures
        final(out)@ == old(out)@ + spec_format_name(f),
{
    match f {
        PixelFormat::Xrgb8888 => push_str("Xrgb8888", out),
        PixelFormat::Argb8888 => push_str("Argb8888", out),
        PixelFormat::Xbgr8888 => push_str("Xbgr8888", out),
        PixelFormat::Abgr8888 => push_str("Abgr8888", out),
        PixelFormat::Rgb565 => push_str("Rgb565", out),
        PixelFormat::Invalid => push_str("Invalid", out),
        PixelFormat::Unknown(n) => {
            let ghost start = old(out)@;
            push_str("Unknown(", out);
            push_decimal(n as u128, out);
            push_str(")", out);
            assert(out@ =~= start + spec_format_name(f));
        },
    }
}

// ---------------------------------------------------------------------------
// weston-output-capture

/// Maximum number of capture attempts: a `retry` is answered when the buffer
/// parameters change between the initial events and the capture.
pub const MAX_ATTEMPTS: usize = 4;

/// The pixel source a `weston_capture_v1` capture reads from.
#[derive(Debug, Clone, Copy, PartialEq, Eq, Structural)]
pub enum CaptureSource {
    Writeback,
    Framebuffer,
    FullFramebuffer,
    Blending,
}

/// The source an `XDP_AGL_CAPTURE_SOURCE` value names, if any.
pub fn capture_source_from_name(name: &str) -> (r: Option<CaptureSource>)
    ensures
        r == (if name@ == "writeback"@ {
            Some(CaptureSource::Writeback)
        } else if name@ == "framebuffer"@ {
            Some(CaptureSource::Framebuffer)
        } else if name@ == "full-framebuffer"@ {
            Some(CaptureSource::FullFramebuffer)
        } else if name@ == "blending"@ {
            Some(CaptureSource::Blending)
        } else {
            None
        }),
{
    let n = crate::text::chars_of(name);
    if crate::text::chars_eq(&n, &crate::text::chars_of("writeback")) {
        Some(CaptureSource::Writeback)
    } else if crate::text::chars_eq(&n, &crate::text::chars_of("framebuffer")) {
        Some(CaptureSource::Framebuffer)
    } else if crate::text::chars_eq(&n, &crate::text::chars_of("full-framebuffer")) {
        Some(CaptureSource::FullFramebuffer)
    } else if crate::text::chars_eq(&n, &crate::text::chars_of("blending")) {
        Some(CaptureSource::Blending)
    } else {
        None
    }
}

/// The sources to try, best first: the forced one alone, else writeback
/// (which keeps hardware planes in use) and then framebuffer, which libweston
/// always offers.
pub fn source_candidates(forced: Option<CaptureSource>) -> (v: Vec<CaptureSource>)
    ensures
        forced matches Some(s) ==> v@ == seq![s],
        forced is None ==> v@ == seq![CaptureSource::Writeback, CaptureSource::Framebuffer],
{
    let mut v: Vec<CaptureSource> = Vec::new();
    match forced {
        Some(s) => { v.push(s); },
        None => {
            v.push(CaptureSource::Writeback);
            v.push(CaptureSource::Framebuffer);
        },
    }
    assert(forced is None ==> v@ =~= seq![CaptureSource::Writeback, CaptureSource::Framebuffer]);
    assert(forced matches Some(s) ==> v@ =~= seq![s]);
    v
}

/// Outcome of the current weston capture attempt.
#[derive(Debug, Clone)]
pub enum WestonStatus {
    Pending,
    Complete,
    Retry,
    Failed(String),
}

/// An event of a `weston_capture_source_v1`.
#[derive(Debug)]
pub enum SourceEvent {
    /// The pixel format, as a DRM FourCC code.
    Format(u32),
    Size { width: i32, height: i32 },
    Complete,
    Retry,
    Failed(Option<String>),
}

/// What one weston capture has learnt so far. `format`, `width` and `height`
/// are (re)delivered before every attempt; `status` is the current attempt's.
#[derive(Debug)]
pub struct WestonState {
    pub format: Option<PixelFormat>,
    pub width: i32,
    pub height: i32,
    pub status: WestonStatus,
    /// Set when the `wl_display.sync` that bounds a source probe fires.
    pub sync_done: bool,
}

/// What the caller does after an attempt has finished.
#[derive(Debug)]
pub enum AttemptOutcome {
    /// The buffer holds the frame.
    Captured,
    /// The compositor asked for a new attempt.
    Retry,
    Failed(CaptureError),
}

impl WestonState {
    pub fn new() -> (s: WestonState)
        ensures
            s.format is None,
            s.width == 0,
            s.height == 0,
            s.status is Pending,
            !s.sync_done,
    {
        WestonState { format: None, width: 0, height: 0, status: WestonStatus::Pending, sync_done: false }
    }

    /// Records a source event.
    pub fn apply(&mut self, event: SourceEvent)
        ensures
            final(self).sync_done == old(self).sync_done,
            match event {
                SourceEvent::Format(drm) => final(self).format == Some(spec_from_drm_fourcc(drm))
                    && final(self).width == old(self).width && final(self).height == old(self).height
                    && final(self).status == old(self).status,
                SourceEvent::Size { width, height } => final(self).width == width && final(self).height
                    == height && final(self).format == old(self).format && final(self).status == old(self).status,
                SourceEvent::Complete => final(self).status is Complete && final(self).format == old(self).format
                    && final(self).width == old(self).width && final(self).height == old(self).height,
                SourceEvent::Retry => final(self).status is Retry && final(self).format == old(self).format
                    && final(self).width == old(self).width && final(self).height == old(self).height,
                SourceEvent::Failed(msg) => (final(self).status matches WestonStatus::Failed(m)
                    && m@ == match msg {
                    Some(t) => t@,
                    None => "unspecified"@,
                }) && final(self).format == old(self).format && final(self).width == old(self).width
                    && final(self).height == old(self).height,
            },
    {
        match event {
            SourceEvent::Format(drm) => { self.format = Some(PixelFormat::from_drm_fourcc(drm)); },
            SourceEvent::Size { width, height } => {
                self.width = width;
                self.height = height;
            },
            SourceEvent::Complete => { self.status = WestonStatus::Complete; },
            SourceEvent::Retry => { self.status = WestonStatus::Retry; },
            SourceEvent::Failed(msg) => {
                let m = match msg {
                    Some(t) => t,
                    None => "unspecified".to_string(),
                };
                self.status = WestonStatus::Failed(m);
            },
        }
    }

    /// A source probe is over: the source has described a usable frame, or
    /// the compositor has answered the sync without it doing so.
    pub fn probe_done(&self) -> (r: bool)
        ensures
            r == ((self.format is Some && self.width > 0 && self.height > 0) || self.sync_done),
    {
        (self.format.is_some() && self.width > 0 && self.height > 0) || self.sync_done
    }

    /// The probed source is usable: it reported a pixel format.
    pub fn source_accepted(&self) -> (r: bool)
        ensures
            r == self.format is Some,
    {
        self.format.is_some()
    }

    /// The stride computed for the reported geometry fits in a `u32`.
    pub open spec fn stride_fits(&self) -> bool {
        self.format matches Some(f) ==> (spec_bytes_per_pixel(f) matches Some(b) ==> (self.width
            > 0 ==> self.width * b <= u32::MAX))
    }

    /// The buffer for attempt number `attempt` (counting from 0), from the
    /// format and size the compositor reported. weston-output-capture needs a
    /// stride that is a multiple of 4 bytes.
    pub fn plan_attempt(&self, attempt: usize) -> (r: Result<BufferPlan, CaptureError>)
        requires
            self.stride_fits(),
        ensures
            attempt >= MAX_ATTEMPTS ==> r is Err && failed_with(r->Err_0, "weston capture exceeded retry limit"@),
            attempt < MAX_ATTEMPTS && self.format is None ==> r is Err && failed_with(r->Err_0, "no format from compositor"@),
            attempt < MAX_ATTEMPTS && self.format is Some && (self.width <= 0 || self.height <= 0) ==> r is Err
                && failed_with(r->Err_0, "invalid capture size"@),
            attempt < MAX_ATTEMPTS && self.width > 0 && self.height > 0 ==> match self.format {
                None => true,
                Some(f) => if spec_bytes_per_pixel(f) is None || spec_wl_shm_code(f) is None {
                    r matches Err(CaptureError::UnsupportedFormat(g)) && g == f
                } else {
                    let stride = self.width * spec_bytes_per_pixel(f)->0;
                    if stride % 4 != 0 {
                        r is Err && failed_with(r->Err_0,
                            spec_decimal(self.width as nat) + "x"@ + spec_decimal(self.height as nat) + " "@
                                + spec_format_name(f) + " has a "@ + spec_decimal(stride as nat)
                                + "-byte stride, which weston-output-capture cannot align to 4 bytes without padding"@)
                    } else if stride * self.height > MAX_BUFFER_SIZE {
                        r is Err && failed_with(r->Err_0, "buffer size overflow"@)
                    } else {
                        r matches Ok(p) && plans(p, self.width as u32, self.height as u32, f)
                    }
                },
            },
    {
        if attempt >= MAX_ATTEMPTS {
            return Err(capture_failed("weston capture exceeded retry limit"));
        }
        let format = match self.format {
            Some(f) => f,
            None => { return Err(capture_failed("no format from compositor")); },
        };
        if self.width <= 0 || self.height <= 0 {
            return Err(capture_failed("invalid capture size"));
        }
        let bpp = match format.bytes_per_pixel() {
            Some(b) => b,
            None => { return Err(CaptureError::UnsupportedFormat(format)); },
        };
        let shm = match format.wl_shm_format_code() {
            Some(s) => s,
            None => { return Err(CaptureError::UnsupportedFormat(format)); },
        };
        let width = self.width as u32;
        let height = self.height as u32;
        let stride = width * bpp as u32;
        if stride % 4 != 0 {
            let mut m: Vec<char> = Vec::new();
            push_decimal(width as u128, &mut m);
            push_str("x", &mut m);
            push_decimal(height as u128, &mut m);
            push_str(" ", &mut m);
            push_format_name(format, &mut m);
            push_str(" has a ", &mut m);
            push_decimal(stride as u128, &mut m);
            push_str("-byte stride, which weston-output-capture cannot align to 4 bytes without padding", &mut m);
            return Err(CaptureError::CaptureFailed(string_from_chars(m.as_slice())));
        }
        plan_buffer(width, height, stride, format, shm, "buffer size overflow")
    }

    /// How a finished attempt ended.
    pub fn attempt_outcome(&self) -> (r: AttemptOutcome)
        requires
            !(self.status is Pending),
        ensures
            self.status is Complete ==> r is Captured,
            self.status is Retry ==> r is Retry,
            self.status matches WestonStatus::Failed(m) ==> (r matches AttemptOutcome::Failed(e)
                && failed_with(e, "weston capture failed: "@ + m@)),
    {
        match &self.status {
            WestonStatus::Complete => AttemptOutcome::Captured,
            WestonStatus::Retry => AttemptOutcome::Retry,
            WestonStatus::Failed(msg) => {
                let mut m: Vec<char> = Vec::new();
                push_str("weston capture failed: ", &mut m);
                push_str(msg.as_str(), &mut m);
                AttemptOutcome::Failed(CaptureError::CaptureFailed(string_from_chars(m.as_slice())))
            },
            WestonStatus::Pending => AttemptOutcome::Retry,
        }
    }
}

// ---------------------------------------------------------------------------
// agl_screenshooter

/// The geometries to try with `agl_screenshooter`, which reports no capture
/// size: the output's mode size, and — when the output's transform swaps the
/// axes — the transposed size after it.
pub fn agl_candidates(width: i32, height: i32, swaps_axes: bool) -> (r: Result<Vec<(u32, u32)>, CaptureError>)
    ensures
        (width <= 0 || height <= 0) ==> r is Err && failed_with(r->Err_0, "output has unknown dimensions"@),
        (width > 0 && height > 0 && !swaps_axes) ==> (r matches Ok(v) && v@ == seq![(width as u32, height as u32)]),
        (width > 0 && height > 0 && swaps_axes) ==> (r matches Ok(v) && v@ == seq![(width as u32, height as u32), (height as u32, width as u32)]),
{
    if width <= 0 || height <= 0 {
        return Err(capture_failed("output has unknown dimensions"));
    }
    let mode = (width as u32, height as u32);
    let mut v: Vec<(u32, u32)> = Vec::new();
    v.push(mode);
    if swaps_axes {
        v.push((mode.1, mode.0));
    }
    assert(!swaps_axes ==> v@ =~= seq![(width as u32, height as u32)]);
    assert(swaps_axes ==> v@ =~= seq![(width as u32, height as u32), (height as u32, width as u32)]);
    Ok(v)
}

/// The XRGB8888 buffer for one `take_shot` at `width` x `height` (the format
/// the AGL reference client uses).
pub fn agl_plan(width: u32, height: u32) -> (r: Result<BufferPlan, CaptureError>)
    requires
        width * 4 <= u32::MAX,
    ensures
        width * 4 * height <= MAX_BUFFER_SIZE ==> (r matches Ok(p) && plans(p, width, height, PixelFormat::Xrgb8888)),
        width * 4 * height > MAX_BUFFER_SIZE ==> r is Err && failed_with(r->Err_0, "buffer size overflow"@),
{
    let format = PixelFormat::Xrgb8888;
    let stride = width * 4;
    plan_buffer(width, height, stride, format, crate::format::WL_SHM_XRGB8888, "buffer size overflow")
}

/// The status of a `take_shot`, as `agl_screenshooter.done` reports it.
#[derive(Debug, Clone)]
pub enum AglDone {
    Success,
    BadBuffer,
    /// Any other status, with how `{:?}` renders it.
    Other(String),
}

/// What to do after one `take_shot`.
#[derive(Debug)]
pub enum ShotDecision {
    Captured,
    /// The compositor rejected the geometry; try the next candidate.
    TryNext,
    Failed(CaptureError),
}

/// Reads the answer to a `take_shot` at `width` x `height`; `is_last` says
/// whether this was the last candidate geometry. A rejected geometry is
/// recoverable while another candidate remains.
pub fn agl_shot_outcome(done: &AglDone, is_last: bool, width: u32, height: u32) -> (r: ShotDecision)
    ensures
        *done is Success ==> r is Captured,
        *done is BadBuffer && !is_last ==> r is TryNext,
        *done is BadBuffer && is_last ==> (r matches ShotDecision::Failed(e) && failed_with(
            e,
            "agl_screenshooter rejected a "@ + spec_decimal(width as nat) + "x"@ + spec_decimal(
                height as nat,
            ) + " buffer for this output"@,
        )),
        *done matches AglDone::Other(d) ==> (r matches ShotDecision::Failed(e) && failed_with(
            e,
            "agl_screenshooter reported "@ + d@,
        )),
{
    match done {
        AglDone::Success => ShotDecision::Captured,
        AglDone::BadBuffer => {
            if !is_last {
                ShotDecision::TryNext
            } else {
                let mut m: Vec<char> = Vec::new();
                push_str("agl_screenshooter rejected a ", &mut m);
                push_decimal(width as u128, &mut m);
                push_str("x", &mut m);
                push_decimal(height as u128, &mut m);
                push_str(" buffer for this output", &mut m);
                ShotDecision::Failed(CaptureError::CaptureFailed(string_from_chars(m.as_slice())))
            }
        },
        AglDone::Other(d) => {
            let mut m: Vec<char> = Vec::new();
            push_str("agl_screenshooter reported ", &mut m);
            push_str(d.as_str(), &mut m);
            ShotDecision::Failed(CaptureError::CaptureFailed(string_from_chars(m.as_slice())))
        },
    }
}

// ---------------------------------------------------------------------------
// waiting on the compositor

/// Milliseconds to hand `poll` for `remaining_nanos` left before the
/// deadline: rounded up to a whole millisecond, capped at `i32::MAX`.
pub fn poll_timeout_ms(remaining_nanos: u128) -> (ms: i32)
    ensures
        ms as int == if (remaining_nanos + 999_999) / 1_000_000 > i32::MAX {
            i32::MAX as int
        } else {
            (remaining_nanos + 999_999) / 1_000_000
        },
        ms < i32::MAX ==> ms as int * 1_000_000 >= remaining_nanos,
        ms >= 0,
{
    let q: u128 = remaining_nanos / 1_000_000;
    let ceil: u128 = if remaining_nanos % 1_000_000 == 0 { q } else { q + 1 };
    assert(ceil == (remaining_nanos + 999_999) / 1_000_000);
    if ceil > i32::MAX as u128 {
        i32::MAX
    } else {
        ceil as i32
    }
}

/// What a wait on the compositor does next, after pending events were
/// dispatched.
#[derive(Debug, Clone, Copy, PartialEq, Eq, Structural)]
pub enum WaitAction {
    /// The awaited condition holds: the wait succeeds.
    Finish,
    /// The deadline has passed: the wait fails with the capture timeout.
    TimeOut,
    /// Flush, then poll the connection for at most this many milliseconds.
    Poll(i32),
}

/// One turn of a bounded wait: success once `done` holds, a timeout once no
/// time is left (`remaining_nanos` before the deadline), otherwise a poll that
/// never sleeps past the deadline by more than the rounding to a millisecond.
pub fn wait_step(done: bool, remaining_nanos: u128) -> (a: WaitAction)
    ensures
        done ==> a is Finish,
        !done && remaining_nanos == 0 ==> a is TimeOut,
        !done && remaining_nanos > 0 ==> (a matches WaitAction::Poll(ms) && ms as int == if (
        remaining_nanos + 999_999) / 1_000_000 > i32::MAX {
            i32::MAX as int
        } else {
            (remaining_nanos + 999_999) / 1_000_000
        }),
        a matches WaitAction::Poll(ms) ==> ms > 0 && (ms < i32::MAX ==> ms as int * 1_000_000
            >= remaining_nanos),
{
    if done {
        WaitAction::Finish
    } else if remaining_nanos == 0 {
        WaitAction::TimeOut
    } else {
        WaitAction::Poll(poll_timeout_ms(remaining_nanos))
    }
}

/// What a wait does after `poll` returned.
#[derive(Debug, Clone, Copy, PartialEq, Eq, Structural)]
pub enum PollAction {
    /// Nothing to read (the poll timed out or was interrupted): dispatch
    /// again and re-check the deadline.
    Redispatch,
    /// The connection is readable: read the events in.
    Read,
    /// The poll itself failed.
    Fail,
}

/// The decision on `poll`'s return value `rc`; `interrupted` tells whether a
/// failed poll was cut short by a signal.
pub fn poll_step(rc: i32, interrupted: bool) -> (a: PollAction)
    ensures
        rc == 0 ==> a is Redispatch,
        rc < 0 && interrupted ==> a is Redispatch,
        rc < 0 && !interrupted ==> a is Fail,
        rc > 0 ==> a is Read,
{
    if rc == 0 {
        PollAction::Redispatch
    } else if rc < 0 {
        if interrupted {
            PollAction::Redispatch
        } else {
            PollAction::Fail
        }
    } else {
        PollAction::Read
    }
}

} // verus!
