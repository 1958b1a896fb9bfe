use vstd::prelude::*;

use crate::arm::{ArmPose, MAX_EXTENT};
use crate::geometry::{Point, Rgba, SUBPIXELS};

verus! {

/// Space between the debug panel and the canvas edges, in pixels.
pub const MARGIN: i64 = 20;

/// Space between the debug panel's edges and its text, in pixels.
pub const PADDING: i64 = 8;

/// Gap between two lines of debug text, in pixels.
pub const LINE_HEIGHT: i64 = 5;

/// Size of the debug text, in pixels.
pub const FONT_SIZE: i64 = 18;

/// The largest canvas width or height, in pixels.
pub const MAX_CANVAS: i64 = 16777216;

/// The largest number of debug lines.
pub const MAX_LINES: usize = 1048576;

/// One drawing primitive. Positions and sizes are in sub-pixel units.
#[derive(Clone, Debug, PartialEq)]
pub enum DrawCommand {
    /// A straight stroke with square ends.
    Line { from: Point, to: Point, width: i64, color: Rgba },
    /// A filled disc.
    FilledCircle { center: Point, radius: i64, color: Rgba },
    /// A filled rectangle whose top left corner is `corner`.
    FilledRect { corner: Point, width: i64, height: i64, color: Rgba },
    /// A line of text of size `FONT_SIZE` whose top left corner is `at`.
    Text { at: Point, text: String, color: Rgba },
}

/// The colour of the debug panel: half-transparent dark red.
pub open spec fn panel_color_spec() -> Rgba {
    Rgba { r: 128, g: 0, b: 0, a: 128 }
}

/// The colour of the debug text: opaque white.
pub open spec fn text_color_spec() -> Rgba {
    Rgba { r: 255, g: 255, b: 255, a: 255 }
}

fn panel_color() -> (r: Rgba)
    ensures
        r == panel_color_spec(),
{
    Rgba { r: 128, g: 0, b: 0, a: 128 }
}

fn text_color() -> (r: Rgba)
    ensures
        r == text_color_spec(),
{
    Rgba { r: 255, g: 255, b: 255, a: 255 }
}

/// An arm is drawn as its stroke, then a disc of half its width at the
/// base and one at the tip, which round off the stroke's square ends.
pub open spec fn arm_commands(p: ArmPose) -> Seq<DrawCommand> {
    let radius = (p.width * SUBPIXELS / 2) as i64;
    seq![
        DrawCommand::Line {
            from: p.base,
            to: p.tip,
            width: (p.width * SUBPIXELS) as i64,
            color: p.color,
        },
        DrawCommand::FilledCircle { center: p.base, radius, color: p.color },
        DrawCommand::FilledCircle { center: p.tip, radius, color: p.color },
    ]
}

/// The commands of all arms, in the order of the arms.
pub open spec fn poses_commands(poses: Seq<ArmPose>) -> Seq<DrawCommand>
    decreases poses.len(),
{
    if poses.len() == 0 {
        seq![]
    } else {
        poses_commands(poses.drop_last()) + arm_commands(poses.last())
    }
}

/// Height in pixels of a debug panel that holds `n` lines.
pub open spec fn panel_height(n: int) -> int {
    2 * PADDING + n * FONT_SIZE + (n - 1) * LINE_HEIGHT
}

/// Top of a debug panel of `n` lines on a canvas `height` pixels high: the
/// panel sits `MARGIN` above the bottom edge.
pub open spec fn panel_top(n: int, height: int) -> int {
    height - MARGIN - panel_height(n)
}

/// The panel of the debug overlay, on a canvas of the given size in pixels.
pub open spec fn panel_rect(n: int, width: int, height: int) -> DrawCommand {
    DrawCommand::FilledRect {
        corner: Point { x: (MARGIN * SUBPIXELS) as i64, y: (panel_top(n, height) * SUBPIXELS) as i64 },
        width: ((width - 2 * MARGIN) * SUBPIXELS) as i64,
        height: (panel_height(n) * SUBPIXELS) as i64,
        color: panel_color_spec(),
    }
}

/// Line `i` of the debug overlay, inset by `PADDING` in the panel, one line
/// every `FONT_SIZE + LINE_HEIGHT` pixels downwards.
pub open spec fn text_line(lines: Seq<String>, height: int, i: int) -> DrawCommand {
    DrawCommand::Text {
        at: Point {
            x: ((MARGIN + PADDING) * SUBPIXELS) as i64,
            y: ((panel_top(lines.len() as int, height) + PADDING + (FONT_SIZE + LINE_HEIGHT) * i)
                * SUBPIXELS) as i64,
        },
        text: lines[i],
        color: text_color_spec(),
    }
}

/// The debug overlay: nothing without lines, else the panel and then each
/// line from top to bottom.
pub open spec fn debug_commands(lines: Seq<String>, width: int, height: int) -> Seq<DrawCommand> {
    if lines.len() == 0 {
        seq![]
    } else {
        seq![panel_rect(lines.len() as int, width, height)] + Seq::new(
            lines.len(),
            |i: int| text_line(lines, height, i),
        )
    }
}

/// What the drawing functions need of a canvas size and its debug lines.
pub open spec fn canvas_ok(lines: Seq<String>, width: int, height: int) -> bool {
    &&& 0 <= width <= MAX_CANVAS
    &&& 0 <= height <= MAX_CANVAS
    &&& lines.len() <= MAX_LINES
}

/// What `emit` needs of the poses it draws.
pub open spec fn poses_ok(poses: Seq<ArmPose>) -> bool {
    forall|i: int| 0 <= i < poses.len() ==> 0 <= #[trigger] poses[i].width <= MAX_EXTENT
}

/// The debug overlay for `lines` on a canvas of `width` by `height` pixels:
/// no command when there is no line; else one filled rectangle along the
/// bottom of the canvas, sized to hold every line, then one text command
/// per line.
pub fn draw_debug_text(lines: &Vec<String>, width: i64, height: i64) -> (r: Vec<DrawCommand>)
    requires
        canvas_ok(lines@, width as int, height as int),
    ensures
        r@ == debug_commands(lines@, width as int, height as int),
{
    let mut out: Vec<DrawCommand> = Vec::new();
    let n = lines.len();
    if n == 0 {
        return out;
    }
    let count = n as i64;
    let rect_height = PADDING * 2 + FONT_SIZE * count + LINE_HEIGHT * (count - 1);
    let rect_width = width - MARGIN * 2;
    let rect_x = MARGIN;
    let rect_y = height - MARGIN - rect_height;
    out.push(
        DrawCommand::FilledRect {
            corner: Point { x: rect_x * SUBPIXELS, y: rect_y * SUBPIXELS },
            width: rect_width * SUBPIXELS,
            height: rect_height * SUBPIXELS,
            color: panel_color(),
        },
    );
    let ghost texts = Seq::new(lines@.len(), |i: int| text_line(lines@, height as int, i));
    let mut i: usize = 0;
    while i < n
        invariant
            n == lines.len(),
            1 <= n <= MAX_LINES,
            canvas_ok(lines@, width as int, height as int),
            rect_y == panel_top(n as int, height as int),
            i <= n,
            out@ == seq![panel_rect(n as int, width as int, height as int)] + texts.take(i as int),
            texts == Seq::new(lines@.len(), |i: int| text_line(lines@, height as int, i)),
        decreases n - i,
    {
        let y = rect_y + PADDING + (FONT_SIZE + LINE_HEIGHT) * (i as i64);
        out.push(
            DrawCommand::Text {
                at: Point { x: (MARGIN + PADDING) * SUBPIXELS, y: y * SUBPIXELS },
                text: lines[i].clone(),
                color: text_color(),
            },
        );
        proof {
            assert(texts.take(i + 1) =~= texts.take(i as int).push(texts[i as int]));
        }
        i = i + 1;
    }
    assert(texts.take(n as int) =~= texts);
    out
}

/// The commands of one frame: for each pose in order its stroke and its
/// two end discs, then the debug overlay for `debug_lines` (nothing when
/// there is no line).
pub fn emit(poses: &Vec<ArmPose>, debug_lines: &Vec<String>, width: i64, height: i64) -> (r: Vec<
    DrawCommand,
>)
    requires
        poses_ok(poses@),
        canvas_ok(debug_lines@, width as int, height as int),
    ensures
        r@ == poses_commands(poses@) + debug_commands(debug_lines@, width as int, height as int),
{
    let mut out: Vec<DrawCommand> = Vec::new();
    let mut i: usize = 0;
    while i < poses.len()
        invariant
            poses_ok(poses@),
            i <= poses.len(),
            out@ == poses_commands(poses@.take(i as int)),
        decreases poses.len() - i,
    {
        let p = poses[i];
        let radius = p.width * SUBPIXELS / 2;
        out.push(DrawCommand::Line { from: p.base, to: p.tip, width: p.width * SUBPIXELS, color: p.color });
        out.push(DrawCommand::FilledCircle { center: p.base, radius, color: p.color });
        out.push(DrawCommand::FilledCircle { center: p.tip, radius, color: p.color });
        proof {
            assert(poses@.take(i + 1).drop_last() =~= poses@.take(i as int));
            assert(out@ =~= poses_commands(poses@.take(i + 1)));
        }
        i = i + 1;
    }
    assert(poses@.take(poses.len() as int) =~= poses@);
    let mut overlay = draw_debug_text(debug_lines, width, height);
    out.append(&mut overlay);
    out
}

} // verus!
