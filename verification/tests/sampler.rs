use pick_color::color::Rgba8;
use pick_color::geometry::{LogicalPoint, PhysicalPoint};
use pick_color::outputs::{output_under, Output, Rect, Transform};
use pick_color::sampler::{finish, plan, relocate_elements};

fn output(x: i64, y: i64, w: i64, h: i64, scale_120: i64) -> Output {
    Output {
        geometry: Rect { x, y, w, h },
        scale_120,
        transform: Transform::Normal,
    }
}

#[test]
fn from_bytes_reads_exactly_four() {
    let px = Rgba8::from_bytes(&vec![10u8, 20, 30, 40]).unwrap();
    assert_eq!(px, Rgba8 { r: 10, g: 20, b: 30, a: 40 });
}

#[test]
fn from_bytes_rejects_other_sizes() {
    assert!(Rgba8::from_bytes(&vec![]).is_none());
    assert!(Rgba8::from_bytes(&vec![1u8, 2, 3]).is_none());
    assert!(Rgba8::from_bytes(&vec![1u8, 2, 3, 4, 5]).is_none());
}

#[test]
fn scale_two_maps_logical_100_50_to_physical_200_100() {
    let outputs = vec![output(0, 0, 1920, 1080, 240)];
    let p = LogicalPoint::from_pixels(100, 50);
    let spot = plan(&outputs, p).unwrap();
    assert_eq!(spot.output_index, 0);
    assert_eq!(spot.pixel.x, 200);
    assert_eq!(spot.pixel.y, 100);
    assert_eq!(spot.scale_120, 240);
    assert_eq!(spot.transform, Transform::Normal);
}

#[test]
fn conversion_rounds_to_nearest_not_truncates() {
    // 10.5 logical pixels at scale 1.0: 10.5 device pixels, which must
    // round away from zero to 11, not truncate to 10.
    let outputs = vec![output(0, 0, 100, 100, 120)];
    let p = LogicalPoint { x: 1260, y: 0 };
    let spot = plan(&outputs, p).unwrap();
    assert_eq!(spot.pixel.x, 11);
    assert_eq!(spot.pixel.y, 0);
}

#[test]
fn relocation_negates_the_target_pixel() {
    let outputs = vec![output(0, 0, 1920, 1080, 240)];
    let p = LogicalPoint::from_pixels(100, 50);
    let spot = plan(&outputs, p).unwrap();
    assert_eq!(spot.relocation.x, -spot.pixel.x);
    assert_eq!(spot.relocation.y, -spot.pixel.y);
}

#[test]
fn output_under_takes_first_containing_output() {
    // Two outputs side by side; the second also overlaps the first.
    let outputs = vec![output(0, 0, 100, 100, 120), output(50, 0, 100, 100, 240)];
    let p = LogicalPoint::from_pixels(60, 10);
    let (i, local) = output_under(&outputs, p).unwrap();
    assert_eq!(i, 0);
    assert_eq!(local.x, 60 * 120);
    assert_eq!(local.y, 10 * 120);

    let q = LogicalPoint::from_pixels(120, 10);
    let (j, local_q) = output_under(&outputs, q).unwrap();
    assert_eq!(j, 1);
    assert_eq!(local_q.x, 70 * 120);
    assert_eq!(local_q.y, 10 * 120);
}

#[test]
fn output_under_is_none_outside_every_output() {
    let outputs = vec![output(0, 0, 100, 100, 120), output(100, 0, 100, 100, 240)];
    assert!(output_under(&outputs, LogicalPoint::from_pixels(250, 10)).is_none());
    assert!(output_under(&outputs, LogicalPoint::from_pixels(10, 150)).is_none());
    assert!(output_under(&outputs, LogicalPoint::from_pixels(-1, 0)).is_none());
    assert!(plan(&outputs, LogicalPoint::from_pixels(250, 10)).is_none());
    assert!(plan(&vec![], LogicalPoint::from_pixels(0, 0)).is_none());
}

#[test]
fn output_local_position_subtracts_the_origin() {
    let outputs = vec![output(-50, 20, 100, 100, 120)];
    let p = LogicalPoint::from_pixels(-10, 30);
    let (i, local) = output_under(&outputs, p).unwrap();
    assert_eq!(i, 0);
    assert_eq!(local.x, 40 * 120);
    assert_eq!(local.y, 10 * 120);
}

#[test]
fn relocate_elements_translates_and_reverses_once() {
    let outputs = vec![output(0, 0, 1920, 1080, 240)];
    let spot = plan(&outputs, LogicalPoint::from_pixels(100, 50)).unwrap();
    let frame = vec![
        PhysicalPoint { x: 0, y: 0 },
        PhysicalPoint { x: 300, y: 120 },
        PhysicalPoint { x: 210, y: 90 },
    ];
    let relocated = relocate_elements(&frame, spot.relocation);
    assert_eq!(relocated.len(), 3);
    // Reversed order, each translated so physical (200, 100) lands at
    // the viewport origin.
    assert_eq!(relocated[0], PhysicalPoint { x: 10, y: -10 });
    assert_eq!(relocated[1], PhysicalPoint { x: 100, y: 20 });
    assert_eq!(relocated[2], PhysicalPoint { x: -200, y: -100 });
}

#[test]
fn finish_is_none_on_render_failure() {
    assert!(finish(None).is_none());
}

#[test]
fn finish_is_none_on_malformed_readback_size() {
    assert!(finish(Some(vec![])).is_none());
    assert!(finish(Some(vec![1u8, 2, 3])).is_none());
    assert!(finish(Some(vec![1u8, 2, 3, 4, 5])).is_none());
}

#[test]
fn finish_reads_one_pixel() {
    let px = finish(Some(vec![255u8, 0, 0, 255])).unwrap();
    assert_eq!(px, Rgba8 { r: 255, g: 0, b: 0, a: 255 });
}
