use rotating_arms::arm::ArmPose;
use rotating_arms::geometry::{Point, Rgba, SUBPIXELS};
use rotating_arms::render::{draw_debug_text, emit, DrawCommand};

const PANEL: Rgba = Rgba { r: 128, g: 0, b: 0, a: 128 };
const WHITE: Rgba = Rgba { r: 255, g: 255, b: 255, a: 255 };
const RED: Rgba = Rgba { r: 255, g: 0, b: 0, a: 255 };

fn px(x: i64, y: i64) -> Point {
    Point { x: x * SUBPIXELS, y: y * SUBPIXELS }
}

fn is_overlay(c: &DrawCommand) -> bool {
    matches!(c, DrawCommand::FilledRect { .. } | DrawCommand::Text { .. })
}

fn pose() -> ArmPose {
    ArmPose { base: px(10, 10), tip: px(40, 10), width: 6, color: RED }
}

#[test]
fn emit_without_debug_lines() {
    let out = emit(&vec![pose()], &vec![], 800, 600);
    assert_eq!(out.len(), 3);
    assert!(!out.iter().any(is_overlay));
}

#[test]
fn emit_with_one_debug_line() {
    let out = emit(&vec![pose()], &vec!["hello".to_string()], 800, 600);
    let rects = out.iter().filter(|c| matches!(c, DrawCommand::FilledRect { .. })).count();
    let texts = out.iter().filter(|c| matches!(c, DrawCommand::Text { .. })).count();
    assert_eq!(rects, 1);
    assert_eq!(texts, 1);
    assert_eq!(out.len(), 5);
}

#[test]
fn arm_is_a_stroke_and_two_caps() {
    let out = emit(&vec![pose()], &vec![], 800, 600);
    assert_eq!(
        out,
        vec![
            DrawCommand::Line { from: px(10, 10), to: px(40, 10), width: 6 * SUBPIXELS, color: RED },
            DrawCommand::FilledCircle { center: px(10, 10), radius: 3 * SUBPIXELS, color: RED },
            DrawCommand::FilledCircle { center: px(40, 10), radius: 3 * SUBPIXELS, color: RED },
        ]
    );
}

#[test]
fn arms_come_in_order_before_the_overlay() {
    let second = ArmPose { base: px(40, 10), tip: px(40, 20), width: 5, color: WHITE };
    let out = emit(&vec![pose(), second], &vec!["x".to_string()], 100, 100);
    assert_eq!(out.len(), 8);
    assert!(matches!(out[0], DrawCommand::Line { color: RED, .. }));
    assert_eq!(out[3], DrawCommand::Line { from: px(40, 10), to: px(40, 20), width: 5 * SUBPIXELS, color: WHITE });
    // an odd width still gives a radius of exactly half of it
    assert_eq!(out[4], DrawCommand::FilledCircle { center: px(40, 10), radius: 5 * SUBPIXELS / 2, color: WHITE });
    assert!(matches!(out[6], DrawCommand::FilledRect { .. }));
    assert!(matches!(out[7], DrawCommand::Text { .. }));
}

#[test]
fn no_lines_no_overlay() {
    assert!(draw_debug_text(&vec![], 800, 600).is_empty());
}

#[test]
fn debug_panel_geometry() {
    let lines = vec!["first".to_string(), "second".to_string()];
    let out = draw_debug_text(&lines, 800, 600);
    // height: 2 * 8 + 2 * 18 + 1 * 5 = 57; top: 600 - 20 - 57 = 523
    assert_eq!(
        out,
        vec![
            DrawCommand::FilledRect { corner: px(20, 523), width: 760 * SUBPIXELS, height: 57 * SUBPIXELS, color: PANEL },
            DrawCommand::Text { at: px(28, 531), text: "first".to_string(), color: WHITE },
            DrawCommand::Text { at: px(28, 554), text: "second".to_string(), color: WHITE },
        ]
    );
}

#[test]
fn debug_panel_of_one_line() {
    let out = draw_debug_text(&vec!["only".to_string()], 100, 50);
    // height: 2 * 8 + 18 = 34; top: 50 - 20 - 34 = -4
    assert_eq!(out[0], DrawCommand::FilledRect { corner: px(20, -4), width: 60 * SUBPIXELS, height: 34 * SUBPIXELS, color: PANEL });
    assert_eq!(out[1], DrawCommand::Text { at: px(28, 4), text: "only".to_string(), color: WHITE });
}
