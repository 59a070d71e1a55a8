use page_capture::compositor::{CompositeImage, RawImage};
use page_capture::page_saver::SavePageAsImage;
use page_capture::planner::ViewportSpec;
use page_capture::session::{
    backoff_millis, backoff_window, Action, CaptureConfig, CaptureError, CaptureSession, Event, Phase,
    SurfaceError,
};

#[derive(Debug, Clone, PartialEq)]
enum Call {
    Navigate(String),
    WaitUntilLoaded,
    SetViewport(u32, u32),
    Measure,
    ScrollTo(u32),
    Wait(u64, u64),
    Capture(usize, u32, u32),
}

/// A page whose row `r` is coloured after `r`, rendered by a surface that
/// fails some captures.
struct SimulatedSurface {
    width: u32,
    content_height: u64,
    fail_tile: Option<usize>,
    failures_left: u32,
    calls: Vec<Call>,
}

impl SimulatedSurface {
    fn new(width: u32, content_height: u64) -> Self {
        SimulatedSurface { width, content_height, fail_tile: None, failures_left: 0, calls: Vec::new() }
    }

    fn remote_calls(&self) -> usize {
        self.calls.iter().filter(|c| !matches!(c, Call::Wait(_, _))).count()
    }
}

fn row_color(row: u32) -> [u8; 4] {
    [row as u8, (row >> 8) as u8, 7, 255]
}

fn render(width: u32, y: u32, height: u32) -> RawImage {
    let mut pixels = Vec::new();
    for row in y..y + height {
        for _ in 0..width {
            pixels.extend_from_slice(&row_color(row));
        }
    }
    RawImage { width, height, pixels }
}

fn perform(surface: &mut SimulatedSurface, action: Action) -> Result<Event, Result<CompositeImage, CaptureError>> {
    let event = match action {
        Action::Navigate(url) => {
            surface.calls.push(Call::Navigate(url));
            Event::Completed
        }
        Action::WaitUntilLoaded => {
            surface.calls.push(Call::WaitUntilLoaded);
            Event::Completed
        }
        Action::SetViewport { width, height } => {
            surface.calls.push(Call::SetViewport(width, height));
            Event::Completed
        }
        Action::MeasureHeight => {
            surface.calls.push(Call::Measure);
            Event::Measured(Some(surface.content_height))
        }
        Action::ScrollTo { y } => {
            surface.calls.push(Call::ScrollTo(y));
            Event::Completed
        }
        Action::Wait { min_millis, max_millis } => {
            surface.calls.push(Call::Wait(min_millis, max_millis));
            Event::Completed
        }
        Action::CaptureTile { index, y, width, height } => {
            surface.calls.push(Call::Capture(index, y, height));
            if surface.fail_tile == Some(index) && surface.failures_left > 0 {
                surface.failures_left -= 1;
                Event::SurfaceFailed(SurfaceError::Timeout)
            } else {
                Event::Captured(render(surface.width.min(width), y, height))
            }
        }
        Action::Finish(image) => return Err(Ok(image)),
        Action::Fail(e) => return Err(Err(e)),
        Action::Stop => panic!("session already over"),
    };
    Ok(event)
}

/// Runs a session to its end; cancels once `cancel_after` tiles are kept.
fn drive(
    surface: &mut SimulatedSurface,
    session: &mut CaptureSession,
    cancel_after: Option<usize>,
) -> Result<CompositeImage, CaptureError> {
    let mut action = session.start();
    loop {
        if cancel_after.map_or(false, |n| session.captured_count() >= n) {
            action = session.step(Event::Cancelled);
        }
        match perform(surface, action) {
            Ok(event) => action = session.step(event),
            Err(end) => return end,
        }
    }
}

fn session_for(width: u32, height: u32, config: CaptureConfig) -> CaptureSession {
    CaptureSession::new("https://example.com/".to_string(), ViewportSpec { width, height }, config)
}

fn no_settle() -> CaptureConfig {
    CaptureConfig { settle_millis: 0, ..CaptureConfig::default() }
}

fn assert_rows_follow_page(image: &CompositeImage, content_height: u32) {
    assert_eq!(image.height, content_height);
    let row_len = image.width as usize * 4;
    assert_eq!(image.pixels.len(), row_len * content_height as usize);
    for row in 0..content_height {
        let start = row as usize * row_len;
        for px in image.pixels[start..start + row_len].chunks(4) {
            assert_eq!(px, &row_color(row)[..]);
        }
    }
}

#[test]
fn session_captures_whole_page_in_order() {
    let mut surface = SimulatedSurface::new(3, 10);
    let mut session = session_for(3, 4, CaptureConfig::default());
    let image = drive(&mut surface, &mut session, None).unwrap();
    assert_rows_follow_page(&image, 10);
    assert_eq!(session.phase(), Phase::Done);
    assert_eq!(
        surface.calls,
        vec![
            Call::Navigate("https://example.com/".to_string()),
            Call::WaitUntilLoaded,
            Call::SetViewport(3, 4),
            Call::Measure,
            Call::ScrollTo(0),
            Call::Wait(50, 50),
            Call::Capture(0, 0, 4),
            Call::ScrollTo(4),
            Call::Wait(50, 50),
            Call::Capture(1, 4, 4),
            Call::ScrollTo(8),
            Call::Wait(50, 50),
            Call::Capture(2, 8, 2),
        ]
    );
}

#[test]
fn session_without_settle_delay_captures_right_after_scroll() {
    let mut surface = SimulatedSurface::new(2, 3);
    let mut session = session_for(2, 2, no_settle());
    let image = drive(&mut surface, &mut session, None).unwrap();
    assert_rows_follow_page(&image, 3);
    assert_eq!(surface.calls[4..].to_vec(), vec![Call::ScrollTo(0), Call::Capture(0, 0, 2), Call::ScrollTo(2), Call::Capture(1, 2, 1)]);
}

#[test]
fn session_recovers_after_two_failures_of_tile_two() {
    let mut clean_surface = SimulatedSurface::new(3, 18);
    let clean = drive(&mut clean_surface, &mut session_for(3, 4, CaptureConfig::default()), None).unwrap();

    let mut surface = SimulatedSurface::new(3, 18);
    surface.fail_tile = Some(2);
    surface.failures_left = 2;
    let image = drive(&mut surface, &mut session_for(3, 4, CaptureConfig::default()), None).unwrap();
    assert_eq!(image.pixels, clean.pixels);
    assert_eq!((image.width, image.height), (clean.width, clean.height));
    let attempts = surface.calls.iter().filter(|c| matches!(c, Call::Capture(2, _, _))).count();
    assert_eq!(attempts, 3);
    let backoffs: Vec<Call> =
        surface.calls.iter().filter(|c| matches!(c, Call::Wait(a, _) if *a != 50)).cloned().collect();
    assert_eq!(backoffs, vec![Call::Wait(160, 240), Call::Wait(320, 480)]);
}

#[test]
fn session_fails_when_tile_one_never_succeeds() {
    let mut surface = SimulatedSurface::new(3, 18);
    surface.fail_tile = Some(1);
    surface.failures_left = u32::MAX;
    let mut session = session_for(3, 4, CaptureConfig::default());
    let result = drive(&mut surface, &mut session, None);
    assert!(matches!(result, Err(CaptureError::TileCaptureFailed { index: 1, cause: SurfaceError::Timeout })));
    let attempts = surface.calls.iter().filter(|c| matches!(c, Call::Capture(1, _, _))).count();
    assert_eq!(attempts, 4);
    assert!(!surface.calls.iter().any(|c| matches!(c, Call::Capture(2, _, _))));
    assert_eq!(session.phase(), Phase::Failed);
    assert_eq!(session.captured_count(), 0);
}

#[test]
fn session_with_no_retries_fails_on_first_error() {
    let mut surface = SimulatedSurface::new(3, 8);
    surface.fail_tile = Some(0);
    surface.failures_left = 1;
    let config = CaptureConfig { max_retries: 0, ..CaptureConfig::default() };
    let result = drive(&mut surface, &mut session_for(3, 4, config), None);
    assert!(matches!(result, Err(CaptureError::TileCaptureFailed { index: 0, .. })));
}

#[test]
fn session_cancelled_after_first_of_five_tiles_makes_no_more_calls() {
    let mut surface = SimulatedSurface::new(3, 20);
    let mut session = session_for(3, 4, CaptureConfig::default());
    let result = drive(&mut surface, &mut session, Some(1));
    assert!(matches!(result, Err(CaptureError::Cancelled)));
    assert_eq!(surface.remote_calls(), 6);
    assert_eq!(surface.calls.last(), Some(&Call::Capture(0, 0, 4)));
    assert_eq!(session.phase(), Phase::Failed);
    assert!(matches!(session.step(Event::Completed), Action::Stop));
}

#[test]
fn session_finishes_empty_page_at_once() {
    let mut surface = SimulatedSurface::new(3, 0);
    let image = drive(&mut surface, &mut session_for(3, 4, CaptureConfig::default()), None).unwrap();
    assert_eq!((image.width, image.height), (3, 0));
    assert!(image.pixels.is_empty());
    assert_eq!(surface.remote_calls(), 4);
}

#[test]
fn session_fails_on_unreadable_height() {
    let mut session = session_for(3, 4, CaptureConfig::default());
    session.start();
    session.step(Event::Completed);
    session.step(Event::Completed);
    assert!(matches!(session.step(Event::Completed), Action::MeasureHeight));
    assert!(matches!(session.step(Event::Measured(None)), Action::Fail(CaptureError::MeasurementFailed(None))));
}

#[test]
fn session_fails_on_height_beyond_u32() {
    let mut session = session_for(3, 4, CaptureConfig::default());
    session.start();
    session.step(Event::Completed);
    session.step(Event::Completed);
    session.step(Event::Completed);
    let action = session.step(Event::Measured(Some(u32::MAX as u64 + 1)));
    assert!(matches!(action, Action::Fail(CaptureError::MeasurementFailed(None))));
}

#[test]
fn session_fails_when_navigation_fails() {
    let mut session = session_for(3, 4, CaptureConfig::default());
    assert!(matches!(session.start(), Action::Navigate(ref u) if u == "https://example.com/"));
    let action = session.step(Event::SurfaceFailed(SurfaceError::Crashed));
    assert!(matches!(action, Action::Fail(CaptureError::MeasurementFailed(Some(SurfaceError::Crashed)))));
    assert!(matches!(session.start(), Action::Stop));
}

#[test]
fn session_rejects_tile_of_wrong_height() {
    let mut session = session_for(2, 4, no_settle());
    session.start();
    session.step(Event::Completed);
    session.step(Event::Completed);
    session.step(Event::Completed);
    assert!(matches!(session.step(Event::Measured(Some(6))), Action::ScrollTo { y: 0 }));
    assert!(matches!(session.step(Event::Completed), Action::CaptureTile { index: 0, y: 0, width: 2, height: 4 }));
    let action = session.step(Event::Captured(render(2, 0, 3)));
    assert!(matches!(
        action,
        Action::Fail(CaptureError::GeometryMismatch { index: 0, expected_height: 4, actual_height: 3 })
    ));
}

#[test]
fn session_rejects_tile_of_wrong_width() {
    let mut session = session_for(2, 4, no_settle());
    session.start();
    session.step(Event::Completed);
    session.step(Event::Completed);
    session.step(Event::Completed);
    session.step(Event::Measured(Some(4)));
    session.step(Event::Completed);
    let action = session.step(Event::Captured(render(5, 0, 4)));
    assert!(matches!(action, Action::Fail(CaptureError::WidthMismatch { index: 0, expected: 2, actual: 5 })));
}

#[test]
fn session_retries_malformed_tile() {
    let mut session = session_for(2, 4, no_settle());
    session.start();
    session.step(Event::Completed);
    session.step(Event::Completed);
    session.step(Event::Completed);
    session.step(Event::Measured(Some(4)));
    session.step(Event::Completed);
    let bad = RawImage { width: 2, height: 4, pixels: vec![0; 5] };
    assert!(matches!(session.step(Event::Captured(bad)), Action::Wait { min_millis: 160, max_millis: 240 }));
    assert_eq!(session.phase(), Phase::BackingOff);
    assert!(matches!(session.step(Event::Completed), Action::ScrollTo { y: 0 }));
}

#[test]
fn session_fails_on_unexpected_event() {
    let mut session = session_for(2, 4, no_settle());
    session.start();
    let action = session.step(Event::Captured(render(2, 0, 4)));
    assert!(matches!(action, Action::Fail(CaptureError::UnexpectedEvent)));
}

#[test]
fn backoff_doubles_from_base() {
    let config = CaptureConfig::default();
    assert_eq!(backoff_millis(&config, 1), 200);
    assert_eq!(backoff_millis(&config, 2), 400);
    assert_eq!(backoff_millis(&config, 3), 800);
    assert_eq!(backoff_window(&config, 1), (160, 240));
    assert_eq!(backoff_window(&config, 3), (640, 960));
}

#[test]
fn backoff_saturates() {
    let config = CaptureConfig { backoff_base_millis: u64::MAX / 2, ..CaptureConfig::default() };
    assert_eq!(backoff_millis(&config, 3), u64::MAX);
    assert_eq!(backoff_window(&config, 3), (u64::MAX - u64::MAX / 5, u64::MAX));
}

#[test]
fn default_config_values() {
    let config = CaptureConfig::default();
    assert_eq!(config.max_retries, 3);
    assert_eq!(config.backoff_base_millis, 200);
    assert_eq!(config.backoff_factor, 2);
    assert_eq!(config.settle_millis, 50);
}

#[test]
fn saver_session_uses_its_viewport() {
    let mut saver = SavePageAsImage::new();
    saver.set_viewport(3, 4);
    let mut session = saver.full_page_session("https://example.com/", CaptureConfig::default());
    let mut surface = SimulatedSurface::new(3, 9);
    let image = drive(&mut surface, &mut session, None).unwrap();
    assert_rows_follow_page(&image, 9);
    assert_eq!(surface.calls[2], Call::SetViewport(3, 4));
}
