use pick_color::bridge::{
    pick_color_outcome, screenshot_outcome, submit_pick_request, submit_screenshot_request,
    PickColorOutcome, ScreenshotOutcome,
};
use pick_color::color::Rgba8;
use pick_color::geometry::LogicalPoint;
use pick_color::messages::{ColorPickToNiri, NiriToColorPick, NiriToScreenshot, ScreenshotToNiri};
use pick_color::outputs::{Output, Rect, Transform};
use pick_color::sampler::{finish, plan};
use pick_color::state::PickColorState;

#[test]
fn submitting_a_pick_request_reaches_the_core() {
    let (tx, rx) = calloop::channel::channel::<ColorPickToNiri>();
    assert!(submit_pick_request(&tx).is_ok());
    assert_eq!(rx.try_recv().unwrap(), ColorPickToNiri::PickColor);
}

#[test]
fn submitting_to_a_gone_core_is_an_internal_error() {
    let (tx, rx) = calloop::channel::channel::<ColorPickToNiri>();
    drop(rx);
    assert_eq!(submit_pick_request(&tx), Err(PickColorOutcome::InternalError));
}

#[test]
fn submitting_a_screenshot_request_carries_the_cursor_flag() {
    let (tx, rx) = calloop::channel::channel::<ScreenshotToNiri>();
    assert!(submit_screenshot_request(&tx, true).is_ok());
    assert_eq!(
        rx.try_recv().unwrap(),
        ScreenshotToNiri::TakeScreenshot { include_cursor: true }
    );
    drop(rx);
    assert_eq!(
        submit_screenshot_request(&tx, false),
        Err(ScreenshotOutcome::InternalError)
    );
}

#[test]
fn pick_color_outcomes_cover_the_error_taxonomy() {
    let px = Rgba8 { r: 12, g: 34, b: 56, a: 255 };
    assert_eq!(
        pick_color_outcome(Some(NiriToColorPick::ColorResult(Some(px)))),
        PickColorOutcome::Picked { r: 12, g: 34, b: 56 }
    );
    assert_eq!(
        pick_color_outcome(Some(NiriToColorPick::ColorResult(None))),
        PickColorOutcome::NoColorPicked
    );
    assert_eq!(pick_color_outcome(None), PickColorOutcome::InternalError);
}

#[test]
fn screenshot_outcomes_cover_the_error_taxonomy() {
    assert_eq!(
        screenshot_outcome(Some(NiriToScreenshot::ScreenshotResult(Some(
            "/tmp/shot.png".to_string()
        )))),
        ScreenshotOutcome::Saved { filename: "/tmp/shot.png".to_string() }
    );
    assert_eq!(
        screenshot_outcome(Some(NiriToScreenshot::ScreenshotResult(None))),
        ScreenshotOutcome::InternalError
    );
    assert_eq!(screenshot_outcome(None), ScreenshotOutcome::InternalError);
}

#[test]
fn round_trip_solid_red_at_known_pixel() {
    // Cursor at logical (100, 50) on an output with scale 2.0 and no
    // transform: the sample lands on physical pixel (200, 100). A frame
    // showing pure red there reads back (255, 0, 0, 255), and the bus
    // reply normalizes each channel to byte / 255.0.
    let outputs = vec![Output {
        geometry: Rect { x: 0, y: 0, w: 1920, h: 1080 },
        scale_120: 240,
        transform: Transform::Normal,
    }];
    let spot = plan(&outputs, LogicalPoint::from_pixels(100, 50)).unwrap();
    assert_eq!((spot.pixel.x, spot.pixel.y), (200, 100));

    // What the renderer reads back from the 1x1 viewport at that pixel.
    let readback = vec![255u8, 0, 0, 255];
    let sample = finish(Some(readback));

    let (tx, rx) = async_channel::unbounded::<NiriToColorPick>();
    let mut state = PickColorState::new();
    state.accept(tx);
    state.send_pending_reply(sample);

    let outcome = pick_color_outcome(rx.try_recv().ok());
    let (r, g, b) = match outcome {
        PickColorOutcome::Picked { r, g, b } => (r, g, b),
        _ => panic!("expected a picked color"),
    };
    let color = [r as f64 / 255.0, g as f64 / 255.0, b as f64 / 255.0];
    assert_eq!(color, [1.0, 0.0, 0.0]);
}
