use xdg_desktop_portal_agl::registry::{classify_global, Capabilities, GlobalInfo, GlobalKind, SelectedCapturebackend};

fn info() -> GlobalInfo {
    GlobalInfo { name: 1, version: 1 }
}

#[test]
fn no_capture_globals_selects_nothing() {
    assert_eq!(Capabilities::new().selected_capture_backend(), None);
}

#[test]
fn weston_is_preferred_over_agl_and_wlr() {
    let mut caps = Capabilities::new();
    caps.weston_screenshooter = Some(info());
    caps.agl_screenshooter = Some(info());
    caps.zwlr_screencopy_manager = Some(info());
    assert_eq!(caps.selected_capture_backend(), Some(SelectedCapturebackend::WestonScreenshooter));
}

#[test]
fn agl_is_preferred_over_wlr_when_weston_absent() {
    let mut caps = Capabilities::new();
    caps.agl_screenshooter = Some(info());
    caps.zwlr_screencopy_manager = Some(info());
    assert_eq!(caps.selected_capture_backend(), Some(SelectedCapturebackend::AglScreenshooter));
}

#[test]
fn wlr_is_last_resort() {
    let mut caps = Capabilities::new();
    caps.zwlr_screencopy_manager = Some(info());
    assert_eq!(caps.selected_capture_backend(), Some(SelectedCapturebackend::WlrScreencopy));
}

#[test]
fn shm_alone_selects_nothing() {
    let mut caps = Capabilities::new();
    caps.record(GlobalKind::Shm, info());
    assert_eq!(caps.wl_shm, Some(info()));
    assert_eq!(caps.selected_capture_backend(), None);
}

#[test]
fn globals_are_classified_by_interface() {
    assert_eq!(classify_global("wl_shm"), GlobalKind::Shm);
    assert_eq!(classify_global("weston_capture_v1"), GlobalKind::WestonCapture);
    assert_eq!(classify_global("zwlr_screencopy_manager_v1"), GlobalKind::WlrScreencopy);
    assert_eq!(classify_global("agl_screenshooter"), GlobalKind::AglScreenshooter);
    assert_eq!(classify_global("wl_output"), GlobalKind::Output);
    assert_eq!(classify_global("xdg_wm_base"), GlobalKind::Other);
    let mut caps = Capabilities::new();
    caps.record(classify_global("agl_screenshooter"), GlobalInfo { name: 7, version: 2 });
    caps.record(classify_global("wl_output"), GlobalInfo { name: 8, version: 4 });
    assert_eq!(caps.agl_screenshooter, Some(GlobalInfo { name: 7, version: 2 }));
    assert_eq!(caps.selected_capture_backend(), Some(SelectedCapturebackend::AglScreenshooter));
}
