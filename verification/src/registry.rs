//! Globals relevant to screen capture, and the choice of capture backend.

use vstd::prelude::*;

use crate::text::{chars_eq, chars_of};

verus! {

/// A registry global: its name and advertised version.
#[derive(Debug, Clone, Copy, PartialEq, Eq, Structural)]
pub struct GlobalInfo {
    pub name: u32,
    pub version: u32,
}

/// The capture protocol a capture goes through.
#[derive(Debug, Clone, Copy, PartialEq, Eq, Structural)]
pub enum SelectedCapturebackend {
    AglScreenshooter,
    WestonScreenshooter,
    WlrScreencopy,
}

/// Globals relevant to screen capture, as advertised by the compositor.
///
/// A screenshot portal is a surfaceless client: it needs `wl_shm`, a capture
/// protocol and a `wl_output`, and never creates a surface, so no shell global
/// is recorded here.
#[derive(Debug, Clone, Copy, PartialEq, Eq, Structural)]
pub struct Capabilities {
    pub wl_shm: Option<GlobalInfo>,
    pub agl_screenshooter: Option<GlobalInfo>,
    pub weston_screenshooter: Option<GlobalInfo>,
    pub zwlr_screencopy_manager: Option<GlobalInfo>,
}

/// The backend a set of capabilities selects: weston-output-capture first
/// (the protocol the AGL compositor advertises), then the legacy
/// agl_screenshooter, then wlr-screencopy for wlroots compositors.
pub open spec fn spec_selected_backend(c: Capabilities) -> Option<SelectedCapturebackend> {
    if c.weston_screenshooter is Some {
        Some(SelectedCapturebackend::WestonScreenshooter)
    } else if c.agl_screenshooter is Some {
        Some(SelectedCapturebackend::AglScreenshooter)
    } else if c.zwlr_screencopy_manager is Some {
        Some(SelectedCapturebackend::WlrScreencopy)
    } else {
        None
    }
}

/// What a registry global is, as far as capture is concerned.
#[derive(Debug, Clone, Copy, PartialEq, Eq, Structural)]
pub enum GlobalKind {
    Shm,
    WestonCapture,
    WlrScreencopy,
    AglScreenshooter,
    Output,
    Other,
}

impl Capabilities {
    /// No capture-relevant global seen yet.
    pub fn new() -> (c: Capabilities)
        ensures
            c.wl_shm is None,
            c.agl_screenshooter is None,
            c.weston_screenshooter is None,
            c.zwlr_screencopy_manager is None,
    {
        Capabilities {
            wl_shm: None,
            agl_screenshooter: None,
            weston_screenshooter: None,
            zwlr_screencopy_manager: None,
        }
    }

    /// The capture backend to use with these globals.
    pub fn selected_capture_backend(&self) -> (b: Option<SelectedCapturebackend>)
        ensures
            b == spec_selected_backend(*self),
    {
        if self.weston_screenshooter.is_some() {
            Some(SelectedCapturebackend::WestonScreenshooter)
        } else if self.agl_screenshooter.is_some() {
            Some(SelectedCapturebackend::AglScreenshooter)
        } else if self.zwlr_screencopy_manager.is_some() {
            Some(SelectedCapturebackend::WlrScreencopy)
        } else {
            None
        }
    }

    /// Records one advertised global of the given kind; outputs and other
    /// globals leave the capabilities unchanged.
    pub fn record(&mut self, kind: GlobalKind, info: GlobalInfo)
        ensures
            final(self).wl_shm == (if kind is Shm { Some(info) } else { old(self).wl_shm }),
            final(self).weston_screenshooter == (if kind is WestonCapture {
                Some(info)
            } else {
                old(self).weston_screenshooter
            }),
            final(self).zwlr_screencopy_manager == (if kind is WlrScreencopy {
                Some(info)
            } else {
                old(self).zwlr_screencopy_manager
            }),
            final(self).agl_screenshooter == (if kind is AglScreenshooter {
                Some(info)
            } else {
                old(self).agl_screenshooter
            }),
    {
        match kind {
            GlobalKind::Shm => { self.wl_shm = Some(info); },
            GlobalKind::WestonCapture => { self.weston_screenshooter = Some(info); },
            GlobalKind::WlrScreencopy => { self.zwlr_screencopy_manager = Some(info); },
            GlobalKind::AglScreenshooter => { self.agl_screenshooter = Some(info); },
            GlobalKind::Output | GlobalKind::Other => {},
        }
    }
}

impl Default for Capabilities {
    fn default() -> (c: Capabilities)
        ensures
            c.wl_shm is None,
            c.agl_screenshooter is None,
            c.weston_screenshooter is None,
            c.zwlr_screencopy_manager is None,
    {
        Capabilities::new()
    }
}

/// What the registry interface name `interface` is.
pub open spec fn spec_global_kind(interface: Seq<char>) -> GlobalKind {
    if interface == "wl_shm"@ {
        GlobalKind::Shm
    } else if interface == "weston_capture_v1"@ {
        GlobalKind::WestonCapture
    } else if interface == "zwlr_screencopy_manager_v1"@ {
        GlobalKind::WlrScreencopy
    } else if interface == "agl_screenshooter"@ {
        GlobalKind::AglScreenshooter
    } else if interface == "wl_output"@ {
        GlobalKind::Output
    } else {
        GlobalKind::Other
    }
}

/// Classifies an advertised global by its interface name.
pub fn classify_global(interface: &str) -> (k: GlobalKind)
    ensures
        k == spec_global_kind(interface@),
{
    let i = chars_of(interface);
    if chars_eq(&i, &chars_of("wl_shm")) {
        GlobalKind::Shm
    } else if chars_eq(&i, &chars_of("weston_capture_v1")) {
        GlobalKind::WestonCapture
    } else if chars_eq(&i, &chars_of("zwlr_screencopy_manager_v1")) {
        GlobalKind::WlrScreencopy
    } else if chars_eq(&i, &chars_of("agl_screenshooter")) {
        GlobalKind::AglScreenshooter
    } else if chars_eq(&i, &chars_of("wl_output")) {
        GlobalKind::Output
    } else {
        GlobalKind::Other
    }
}

/// Backend precedence: whenever weston-output-capture is advertised it is
/// chosen; agl_screenshooter is chosen only without it; wlr-screencopy only
/// when neither AGL protocol is present; and some backend is chosen exactly
/// when at least one capture protocol is advertised. `wl_shm` plays no part.
pub proof fn lemma_backend_precedence(c: Capabilities)
    ensures
        c.weston_screenshooter is Some ==> spec_selected_backend(c) == Some(
            SelectedCapturebackend::WestonScreenshooter,
        ),
        spec_selected_backend(c) == Some(SelectedCapturebackend::AglScreenshooter) <==> (
        c.weston_screenshooter is None && c.agl_screenshooter is Some),
        spec_selected_backend(c) == Some(SelectedCapturebackend::WlrScreencopy) <==> (
        c.weston_screenshooter is None && c.agl_screenshooter is None
            && c.zwlr_screencopy_manager is Some),
        spec_selected_backend(c) is None <==> (c.weston_screenshooter is None
            && c.agl_screenshooter is None && c.zwlr_screencopy_manager is None),
        spec_selected_backend(c) == spec_selected_backend(Capabilities { wl_shm: None, ..c }),
{
}

} // verus!
