//! What a frame of the game is drawn with: an ordered list of commands for
//! whoever renders it.

use crate::fishable::{Fishable, TURBOFISH_HEIGHT, TURBOFISH_WIDTH};
use vstd::prelude::*;

verus! {

/// The name of the sprite that every fishable is drawn with.
pub const SPRITE_NAME: &'static str = "turbofish";

/// One command to the renderer.
#[derive(Clone, Copy, Debug, PartialEq, Eq)]
pub enum DrawCommand {
    /// A line between two points.
    Line { from: (i32, i32), to: (i32, i32) },
    /// Opens the batch of sprites.
    StartDraw,
    /// A sprite named [`SPRITE_NAME`] with its top left corner at `(x, y)`,
    /// turned by `rotation`, at `scale_percent` hundredths of its size.
    Sprite {
        x: i32,
        y: i32,
        rotation: i32,
        scale_percent: i32,
        flip_x: bool,
        flip_y: bool,
        color: i32,
    },
    /// Closes the batch of sprites.
    EndDraw,
}

/// Half of `width`, rounded towards zero.
pub open spec fn half(width: int) -> int {
    if width >= 0 {
        width / 2
    } else {
        -((-width) / 2)
    }
}

/// `length` at `percent` hundredths of its size, rounded down.
pub open spec fn scaled(length: int, percent: int) -> int {
    length * percent / 100
}

/// The line itself: from the middle of the window's upper edge straight down
/// to `depth`.
pub open spec fn rod(window_width: i32, depth: int) -> DrawCommand {
    DrawCommand::Line {
        from: (half(window_width as int) as i32, 0),
        to: (half(window_width as int) as i32, depth as i32),
    }
}

/// The x-position of a fishable's right edge.
pub open spec fn right_of(f: Fishable) -> int {
    f.position.0 + scaled(TURBOFISH_WIDTH as int, f.scale_percent as int)
}

/// The y-position of a fishable's lower edge.
pub open spec fn bottom_of(f: Fishable) -> int {
    f.position.1 + scaled(TURBOFISH_HEIGHT as int, f.scale_percent as int)
}

/// Whether the corners of a fishable's outline can be computed: the scale is
/// not negative, and the right and lower edges fit the coordinates' type.
/// Every fishable in play is drawable.
pub open spec fn drawable(f: Fishable) -> bool {
    &&& 0 <= f.scale_percent <= 1_000_000
    &&& right_of(f) <= i32::MAX
    &&& bottom_of(f) <= i32::MAX
}

/// The four lines round a fishable: the upper edge, the left edge, the lower
/// edge and the right edge.
pub open spec fn outline_of(f: Fishable) -> Seq<DrawCommand> {
    let tl = f.position;
    let tr = (right_of(f) as i32, f.position.1);
    let bl = (f.position.0, bottom_of(f) as i32);
    let br = (right_of(f) as i32, bottom_of(f) as i32);
    seq![
        DrawCommand::Line { from: tl, to: tr },
        DrawCommand::Line { from: tl, to: bl },
        DrawCommand::Line { from: bl, to: br },
        DrawCommand::Line { from: tr, to: br },
    ]
}

/// The sprite of a fishable. It is mirrored when the fishable moves left.
pub open spec fn sprite_of(f: Fishable) -> DrawCommand {
    DrawCommand::Sprite {
        x: f.position.0,
        y: f.position.1,
        rotation: 0,
        scale_percent: f.scale_percent,
        flip_x: f.velocity.0 < 0,
        flip_y: false,
        color: f.color,
    }
}

/// The outlines of all fishables, in their order.
pub open spec fn outlines(s: Seq<Fishable>) -> Seq<DrawCommand> {
    Seq::new(4 * s.len(), |k: int| outline_of(s[k / 4])[k % 4])
}

/// The sprites of all fishables, in their order.
pub open spec fn sprites(s: Seq<Fishable>) -> Seq<DrawCommand> {
    Seq::new(s.len(), |k: int| sprite_of(s[k]))
}

/// A whole frame: the line, the outline of every fishable, then the batch of
/// their sprites between its two brackets.
pub open spec fn frame(window_width: i32, depth: int, s: Seq<Fishable>) -> Seq<DrawCommand> {
    seq![rod(window_width, depth)] + outlines(s) + seq![DrawCommand::StartDraw] + sprites(s)
        + seq![DrawCommand::EndDraw]
}

/// The command for the line itself.
pub fn rod_command(window_width: i32, depth: i32) -> (c: DrawCommand)
    ensures
        c == rod(window_width, depth as int),
{
    let mid: i32 = window_width / 2;
    DrawCommand::Line { from: (mid, 0), to: (mid, depth) }
}

/// Appends the four lines round `f`.
pub fn push_outline(out: &mut Vec<DrawCommand>, f: &Fishable)
    requires
        drawable(*f),
    ensures
        final(out)@ == old(out)@ + outline_of(*f),
{
    let w: i32 = TURBOFISH_WIDTH * f.scale_percent / 100;
    let h: i32 = TURBOFISH_HEIGHT * f.scale_percent / 100;
    let tl = f.position;
    let tr = (tl.0 + w, tl.1);
    let bl = (tl.0, tl.1 + h);
    let br = (tl.0 + w, tl.1 + h);
    out.push(DrawCommand::Line { from: tl, to: tr });
    out.push(DrawCommand::Line { from: tl, to: bl });
    out.push(DrawCommand::Line { from: bl, to: br });
    out.push(DrawCommand::Line { from: tr, to: br });
    assert(out@ =~= old(out)@ + outline_of(*f));
}

/// The command for the sprite of `f`.
pub fn sprite_command(f: &Fishable) -> (c: DrawCommand)
    ensures
        c == sprite_of(*f),
{
    DrawCommand::Sprite {
        x: f.position.0,
        y: f.position.1,
        rotation: 0,
        scale_percent: f.scale_percent,
        flip_x: f.velocity.0 < 0,
        flip_y: false,
        color: f.color,
    }
}

/// The commands that draw a line of the given depth and the given fishables.
pub fn draw_frame(window_width: i32, depth: i32, fishables: &Vec<Fishable>) -> (out: Vec<DrawCommand>)
    requires
        forall|i: int| 0 <= i < fishables@.len() ==> drawable(#[trigger] fishables@[i]),
    ensures
        out@ == frame(window_width, depth as int, fishables@),
{
    let mut out: Vec<DrawCommand> = Vec::new();
    out.push(rod_command(window_width, depth));
    let n: usize = fishables.len();
    let mut i: usize = 0;
    while i < n
        invariant
            i <= n,
            n == fishables@.len(),
            forall|i: int| 0 <= i < fishables@.len() ==> drawable(#[trigger] fishables@[i]),
            out@ == seq![rod(window_width, depth as int)] + outlines(fishables@.take(i as int)),
        decreases n - i,
    {
        push_outline(&mut out, &fishables[i]);
        assert(out@ =~= seq![rod(window_width, depth as int)] + outlines(
            fishables@.take(i + 1),
        ));
        i = i + 1;
    }
    assert(fishables@.take(n as int) == fishables@);
    out.push(DrawCommand::StartDraw);
    let ghost head = out@;
    let mut j: usize = 0;
    while j < n
        invariant
            j <= n,
            n == fishables@.len(),
            out@ == head + sprites(fishables@.take(j as int)),
        decreases n - j,
    {
        out.push(sprite_command(&fishables[j]));
        assert(out@ =~= head + sprites(fishables@.take(j + 1)));
        j = j + 1;
    }
    assert(fishables@.take(n as int) == fishables@);
    out.push(DrawCommand::EndDraw);
    out
}

} // verus!
