use xdg_desktop_portal_agl::capture::{
    agl_candidates, agl_plan, agl_shot_outcome, capture_source_from_name, poll_timeout_ms,
    source_candidates, AglDone, AttemptOutcome, BufferPlan, CaptureSource, CaptureState,
    ScreencopyEvent, ShotDecision, SourceEvent, WestonState, MAX_ATTEMPTS,
};
use xdg_desktop_portal_agl::capture::{poll_step, wait_step, PollAction, WaitAction};
use xdg_desktop_portal_agl::{CaptureError, PixelFormat};

fn failed(r: Result<BufferPlan, CaptureError>) -> String {
    match r {
        Err(CaptureError::CaptureFailed(m)) => m,
        other => panic!("unexpected {other:?}"),
    }
}

#[test]
fn screencopy_runs_offer_then_ready() {
    let mut s = CaptureState::Pending;
    assert!(!s.is_terminal());
    assert_eq!(failed(s.screencopy_plan()), "Failed to allocate buffer");
    s.apply(ScreencopyEvent::Buffer { format: 1, width: 4, height: 2, stride: 16 });
    let plan = s.screencopy_plan().unwrap();
    assert_eq!(plan, BufferPlan { width: 4, height: 2, stride: 16, format: PixelFormat::Xrgb8888, shm_format: 1, size: 32 });
    s.apply(ScreencopyEvent::Other);
    s.apply(ScreencopyEvent::Ready);
    assert!(s.is_terminal());
    let buf = s.screencopy_finish(vec![7; 32]).unwrap();
    assert_eq!((buf.width, buf.height, buf.stride, buf.format), (4, 2, 16, PixelFormat::Xrgb8888));
    assert_eq!(buf.data.len(), 32);
}

#[test]
fn screencopy_ready_without_offer_fails() {
    let mut s = CaptureState::Pending;
    s.apply(ScreencopyEvent::Ready);
    assert!(matches!(s, CaptureState::Failed));
    assert!(s.is_terminal());
    match s.screencopy_finish(vec![]) {
        Err(CaptureError::CaptureFailed(m)) => assert_eq!(m, "Capture failed"),
        other => panic!("unexpected {other:?}"),
    }
    let mut t = CaptureState::Pending;
    t.apply(ScreencopyEvent::Buffer { format: 0xDEAD, width: 1, height: 1, stride: 4 });
    assert!(matches!(t.screencopy_plan(), Err(CaptureError::UnsupportedFormat(PixelFormat::Unknown(0xDEAD)))));
    let mut u = CaptureState::Pending;
    u.apply(ScreencopyEvent::Buffer { format: 0, width: 65536, height: 65536, stride: 262144 });
    assert_eq!(failed(u.screencopy_plan()), "Buffer size overflow");
}

#[test]
fn weston_sources_and_events() {
    assert_eq!(capture_source_from_name("writeback"), Some(CaptureSource::Writeback));
    assert_eq!(capture_source_from_name("full-framebuffer"), Some(CaptureSource::FullFramebuffer));
    assert_eq!(capture_source_from_name("blending"), Some(CaptureSource::Blending));
    assert_eq!(capture_source_from_name("framebuffer"), Some(CaptureSource::Framebuffer));
    assert_eq!(capture_source_from_name("Writeback"), None);
    assert_eq!(source_candidates(None), vec![CaptureSource::Writeback, CaptureSource::Framebuffer]);
    assert_eq!(source_candidates(Some(CaptureSource::Blending)), vec![CaptureSource::Blending]);

    let mut s = WestonState::new();
    assert!(!s.probe_done());
    s.apply(SourceEvent::Format(0x34325258));
    assert!(!s.probe_done());
    s.apply(SourceEvent::Size { width: 3, height: 2 });
    assert!(s.probe_done() && s.source_accepted());
    let plan = s.plan_attempt(0).unwrap();
    assert_eq!(plan, BufferPlan { width: 3, height: 2, stride: 12, format: PixelFormat::Xrgb8888, shm_format: 1, size: 24 });
    assert_eq!(failed(s.plan_attempt(MAX_ATTEMPTS)), "weston capture exceeded retry limit");
    s.apply(SourceEvent::Retry);
    assert!(matches!(s.attempt_outcome(), AttemptOutcome::Retry));
    s.apply(SourceEvent::Complete);
    assert!(matches!(s.attempt_outcome(), AttemptOutcome::Captured));
    s.apply(SourceEvent::Failed(None));
    match s.attempt_outcome() {
        AttemptOutcome::Failed(CaptureError::CaptureFailed(m)) => assert_eq!(m, "weston capture failed: unspecified"),
        other => panic!("unexpected {other:?}"),
    }
}

#[test]
fn weston_rejects_unalignable_strides() {
    let mut s = WestonState::new();
    assert_eq!(failed(s.plan_attempt(0)), "no format from compositor");
    s.apply(SourceEvent::Format(0x36314752));
    assert_eq!(failed(s.plan_attempt(0)), "invalid capture size");
    s.apply(SourceEvent::Size { width: 3, height: 2 });
    assert_eq!(
        failed(s.plan_attempt(1)),
        "3x2 Rgb565 has a 6-byte stride, which weston-output-capture cannot align to 4 bytes without padding"
    );
    s.apply(SourceEvent::Format(0x12345678));
    assert!(matches!(s.plan_attempt(0), Err(CaptureError::UnsupportedFormat(PixelFormat::Unknown(0x12345678)))));
}

#[test]
fn agl_tries_mode_size_then_transposed() {
    assert_eq!(agl_candidates(800, 480, false).unwrap(), vec![(800, 480)]);
    assert_eq!(agl_candidates(800, 480, true).unwrap(), vec![(800, 480), (480, 800)]);
    assert!(matches!(agl_candidates(0, 480, true), Err(CaptureError::CaptureFailed(m)) if m == "output has unknown dimensions"));
    assert_eq!(agl_plan(800, 480).unwrap().size, 800 * 480 * 4);
    assert_eq!(failed(agl_plan(65536, 65536)), "buffer size overflow");
    assert!(matches!(agl_shot_outcome(&AglDone::Success, true, 1, 1), ShotDecision::Captured));
    assert!(matches!(agl_shot_outcome(&AglDone::BadBuffer, false, 1, 1), ShotDecision::TryNext));
    match agl_shot_outcome(&AglDone::BadBuffer, true, 480, 800) {
        ShotDecision::Failed(CaptureError::CaptureFailed(m)) => {
            assert_eq!(m, "agl_screenshooter rejected a 480x800 buffer for this output")
        }
        other => panic!("unexpected {other:?}"),
    }
    match agl_shot_outcome(&AglDone::Other("Value(OutOfMemory)".to_string()), false, 1, 1) {
        ShotDecision::Failed(CaptureError::CaptureFailed(m)) => assert_eq!(m, "agl_screenshooter reported Value(OutOfMemory)"),
        other => panic!("unexpected {other:?}"),
    }
}

#[test]
fn poll_timeouts_round_up() {
    assert_eq!(poll_timeout_ms(0), 0);
    assert_eq!(poll_timeout_ms(1), 1);
    assert_eq!(poll_timeout_ms(1_000_000), 1);
    assert_eq!(poll_timeout_ms(1_000_001), 2);
    assert_eq!(poll_timeout_ms(u128::MAX), i32::MAX);
}

#[test]
fn wait_finishes_times_out_or_polls_until_the_deadline() {
    assert_eq!(wait_step(true, 0), WaitAction::Finish);
    assert_eq!(wait_step(true, 5_000_000), WaitAction::Finish);
    assert_eq!(wait_step(false, 0), WaitAction::TimeOut);
    assert_eq!(wait_step(false, 1), WaitAction::Poll(1));
    assert_eq!(wait_step(false, 300_000_000), WaitAction::Poll(300));
    assert_eq!(wait_step(false, 300_000_001), WaitAction::Poll(301));
    assert_eq!(wait_step(false, u128::MAX), WaitAction::Poll(i32::MAX));
}

#[test]
fn poll_results_redispatch_read_or_fail() {
    assert_eq!(poll_step(0, false), PollAction::Redispatch);
    assert_eq!(poll_step(-1, true), PollAction::Redispatch);
    assert_eq!(poll_step(-1, false), PollAction::Fail);
    assert_eq!(poll_step(1, false), PollAction::Read);
    assert_eq!(poll_step(1, true), PollAction::Read);
}
