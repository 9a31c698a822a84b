use mandelsnot::command::{precedence, resolve, scales, Scale, Signals, ZoomCommand};
use mandelsnot::frame::{frame_commands, REGION_SIDE};
use mandelsnot::viewport::{Point, ViewRectangle};

// The tests below play the part of the viewer's host: they do the
// single-precision arithmetic of a frame and leave every decision to the
// library.

fn corners(view: &ViewRectangle) -> ([f32; 2], [f32; 2]) {
    (
        [f32::from_bits(view.min.x), f32::from_bits(view.min.y)],
        [f32::from_bits(view.max.x), f32::from_bits(view.max.y)],
    )
}

fn center(view: &ViewRectangle) -> [f32; 2] {
    let (min, max) = corners(view);
    [(min[0] + max[0]) / 2.0, (min[1] + max[1]) / 2.0]
}

fn extent(view: &ViewRectangle) -> [f32; 2] {
    let (min, max) = corners(view);
    [(max[0] - min[0]) / 2.0, (max[1] - min[1]) / 2.0]
}

fn rescale(half: f32, scale: Scale) -> f32 {
    match scale {
        Scale::Keep => half,
        Scale::Double => half * 2.0,
        Scale::Halve => half / 2.0,
    }
}

fn moved(view: &ViewRectangle, drag: [f32; 2], side: f32, by: (Scale, Scale)) -> ViewRectangle {
    let (min, max) = corners(view);
    let shift = [-(drag[0] / side * (max[0] - min[0])), drag[1] / side * (max[1] - min[1])];
    let middle = center(view);
    let middle = [middle[0] + shift[0], middle[1] + shift[1]];
    let half = extent(view);
    let half = [rescale(half[0], by.0), rescale(half[1], by.1)];
    ViewRectangle {
        min: Point { x: (middle[0] - half[0]).to_bits(), y: (middle[1] - half[1]).to_bits() },
        max: Point { x: (middle[0] + half[0]).to_bits(), y: (middle[1] + half[1]).to_bits() },
    }
}

fn frame(view: &mut ViewRectangle, pressed: &[ZoomCommand], drag: [f32; 2]) {
    let mut signals = Signals::none();
    for command in precedence() {
        if pressed.contains(&command) {
            signals.raise(command);
        }
    }
    let command = resolve(&signals);
    let next = moved(view, drag, f32::from(REGION_SIDE), scales(command));
    view.apply(command, next);
}

fn close(a: f32, b: f32) -> bool {
    (a - b).abs() <= 1e-6
}

#[test]
fn a_drag_of_a_tenth_of_the_region_moves_the_center_by_a_tenth_of_the_width() {
    let mut view = ViewRectangle::canonical();
    frame(&mut view, &[], [68.0, 0.0]);
    let middle = center(&view);
    assert!(close(middle[0], -0.4));
    assert_eq!(middle[1], 0.0);
    let half = extent(&view);
    assert!(close(half[0], 2.0));
    assert_eq!(half[1], 2.0);
}

#[test]
fn the_view_stays_proper_through_a_run_of_frames() {
    let mut view = ViewRectangle::canonical();
    let run: [(&[ZoomCommand], [f32; 2]); 8] = [
        (&[ZoomCommand::HalveWidth], [3.0, 4.0]),
        (&[ZoomCommand::HalveHeight], [0.0, 0.0]),
        (&[], [-250.0, 90.5]),
        (&[ZoomCommand::DoubleWidth, ZoomCommand::HalveWidth], [0.0, 0.0]),
        (&[ZoomCommand::DoubleHeight], [1.0, 1.0]),
        (&[ZoomCommand::Reset], [17.0, 0.0]),
        (&[ZoomCommand::HalveWidth, ZoomCommand::Reset], [0.0, -680.0]),
        (&[], [680.0, 680.0]),
    ];
    for (pressed, drag) in run {
        frame(&mut view, pressed, drag);
        assert!(view.is_proper());
    }
}

#[test]
fn halving_without_end_wears_the_width_away() {
    let mut view = ViewRectangle::canonical();
    frame(&mut view, &[], [170.0, 0.0]);
    let mut frames = 0;
    while view.is_proper() && frames < 1000 {
        frame(&mut view, &[ZoomCommand::HalveWidth], [0.0, 0.0]);
        frames += 1;
    }
    assert!(frames < 1000);
    assert!(!view.is_proper());
    frame(&mut view, &[ZoomCommand::Reset], [0.0, 0.0]);
    assert!(view.is_proper());
}

#[test]
fn pressing_o_after_pans_and_zooms_returns_to_the_start() {
    let mut view = ViewRectangle::canonical();
    frame(&mut view, &[ZoomCommand::HalveWidth], [12.0, -7.0]);
    frame(&mut view, &[ZoomCommand::DoubleHeight], [0.0, 30.0]);
    frame(&mut view, &[], [-100.0, 5.0]);
    assert_ne!(view, ViewRectangle::canonical());
    frame(&mut view, &[ZoomCommand::Reset], [40.0, 40.0]);
    assert_eq!(center(&view), [0.0, 0.0]);
    assert_eq!(extent(&view), [2.0, 2.0]);
    assert_eq!(view, ViewRectangle::canonical());
}

#[test]
fn double_width_and_reset_in_one_frame_double_the_width() {
    let mut view = ViewRectangle::canonical();
    frame(&mut view, &[ZoomCommand::Reset, ZoomCommand::DoubleWidth], [0.0, 0.0]);
    assert_eq!(center(&view), [0.0, 0.0]);
    assert_eq!(extent(&view), [4.0, 2.0]);
}

#[test]
fn double_width_then_halve_width_restores_the_canonical_view() {
    let mut view = ViewRectangle::canonical();
    frame(&mut view, &[ZoomCommand::DoubleWidth], [0.0, 0.0]);
    assert_eq!(extent(&view), [4.0, 2.0]);
    frame(&mut view, &[ZoomCommand::HalveWidth], [0.0, 0.0]);
    assert_eq!(extent(&view), [2.0, 2.0]);
    assert_eq!(center(&view), [0.0, 0.0]);
}

#[test]
fn a_frame_without_keys_keeps_the_extent_of_the_canonical_view() {
    let mut view = ViewRectangle::canonical();
    frame(&mut view, &[], [340.0, 170.0]);
    assert_eq!(extent(&view), [2.0, 2.0]);
    assert_eq!(center(&view), [-2.0, 1.0]);
}

#[test]
fn a_drag_is_measured_against_the_extent_before_the_zoom() {
    let mut view = ViewRectangle::canonical();
    frame(&mut view, &[ZoomCommand::DoubleWidth], [170.0, 0.0]);
    assert_eq!(center(&view), [-1.0, 0.0]);
    assert_eq!(extent(&view), [4.0, 2.0]);
}

#[test]
fn the_frame_after_a_reset_shows_the_canonical_view() {
    let mut view = ViewRectangle::canonical();
    frame(&mut view, &[ZoomCommand::HalveHeight], [5.0, 5.0]);
    frame(&mut view, &[ZoomCommand::Reset], [0.0, 0.0]);
    let commands = frame_commands(&view);
    let mut expected = Vec::new();
    for number in [-2.0f32, -2.0, 2.0, 2.0] {
        expected.extend_from_slice(&number.to_ne_bytes());
    }
    assert_eq!(commands.prepare.bytes, expected);
}
