//! Drawing commands.
//!
//! A renderer does not touch a canvas. It returns the list of commands that
//! paint one frame, and the host replays them on its 2D context in order.
//! Lengths are in canvas pixels, angles in degrees, colour levels run from
//! 0 to 255.

use vstd::prelude::*;
use crate::ratio::Ratio;

verus! {

/// A colour as three channel levels between 0 and 255.
#[derive(Clone, Copy, Debug, PartialEq, Eq, Structural)]
pub struct Color {
    pub red: Ratio,
    pub green: Ratio,
    pub blue: Ratio,
}

impl Color {
    /// `level` is a well-formed fraction between 0 and 255.
    pub open spec fn is_level(level: Ratio) -> bool {
        level.wf() && 0 <= level.num <= 255 * level.den
    }

    /// Every channel is a level between 0 and 255.
    pub open spec fn wf(self) -> bool {
        Color::is_level(self.red) && Color::is_level(self.green) && Color::is_level(self.blue)
    }

    /// The colour with whole channel levels.
    pub open spec fn spec_rgb(red: u8, green: u8, blue: u8) -> Color {
        Color {
            red: Ratio { num: red as i64, den: 1 },
            green: Ratio { num: green as i64, den: 1 },
            blue: Ratio { num: blue as i64, den: 1 },
        }
    }

    /// The grey whose three channels are all `level`.
    pub open spec fn spec_gray(level: Ratio) -> Color {
        Color { red: level, green: level, blue: level }
    }

    /// The colour with whole channel levels.
    pub fn rgb(red: u8, green: u8, blue: u8) -> (c: Color)
        ensures
            c == Color::spec_rgb(red, green, blue),
            c.wf(),
    {
        Color {
            red: Ratio::whole(red as i64),
            green: Ratio::whole(green as i64),
            blue: Ratio::whole(blue as i64),
        }
    }

    /// The grey whose three channels are all `level`.
    pub fn gray(level: Ratio) -> (c: Color)
        ensures
            c == Color::spec_gray(level),
            c.wf() == Color::is_level(level),
    {
        Color { red: level, green: level, blue: level }
    }
}

/// One step of painting a frame on a 2D canvas context.
#[derive(Clone, Copy, Debug, PartialEq, Eq, Structural)]
pub enum DrawCommand {
    /// Erase the rectangle from the origin to `(width, height)`.
    ClearRect { width: u32, height: u32 },
    /// Push the current transform and styles.
    Save,
    /// Pop the transform and styles pushed by the matching `Save`.
    Restore,
    /// Move the origin of the drawing frame.
    Translate { x: Ratio, y: Ratio },
    /// Scale the drawing frame.
    Scale { x: Ratio, y: Ratio },
    /// Turn the drawing frame clockwise.
    Rotate { degrees: Ratio },
    SetFillStyle { color: Color },
    SetStrokeStyle { color: Color },
    SetLineWidth { pixels: Ratio },
    /// Round the ends of stroked lines.
    SetLineCapRound,
    BeginPath,
    MoveTo { x: Ratio, y: Ratio },
    LineTo { x: Ratio, y: Ratio },
    /// Add a circular arc around `(x, y)` to the path.
    Arc {
        x: Ratio,
        y: Ratio,
        radius: Ratio,
        start_degrees: Ratio,
        end_degrees: Ratio,
        anticlockwise: bool,
    },
    Fill,
    Stroke,
}

impl DrawCommand {
    /// The command can be painted: its fractions are well formed, its
    /// colour is one, and the radius of an arc is not negative.
    pub open spec fn wf(self) -> bool {
        match self {
            DrawCommand::Translate { x, y } => x.wf() && y.wf(),
            DrawCommand::Scale { x, y } => x.wf() && y.wf(),
            DrawCommand::Rotate { degrees } => degrees.wf(),
            DrawCommand::SetFillStyle { color } => color.wf(),
            DrawCommand::SetStrokeStyle { color } => color.wf(),
            DrawCommand::SetLineWidth { pixels } => pixels.wf(),
            DrawCommand::MoveTo { x, y } => x.wf() && y.wf(),
            DrawCommand::LineTo { x, y } => x.wf() && y.wf(),
            DrawCommand::Arc { x, y, radius, start_degrees, end_degrees, anticlockwise } => x.wf()
                && y.wf() && radius.wf() && radius.num >= 0 && start_degrees.wf()
                && end_degrees.wf(),
            _ => true,
        }
    }
}

/// Every one of `commands` can be painted.
pub open spec fn paintable(commands: Seq<DrawCommand>) -> bool {
    forall|k: int| 0 <= k < commands.len() ==> (#[trigger] commands[k]).wf()
}

/// The commands of parts `0, 1, .., n - 1`, one part after the other.
pub open spec fn concat_range(n: nat, part: spec_fn(int) -> Seq<DrawCommand>) -> Seq<DrawCommand>
    decreases n,
{
    if n == 0 {
        Seq::empty()
    } else {
        concat_range((n - 1) as nat, part) + part(n - 1)
    }
}

/// `command` changes the drawing frame.
pub open spec fn is_transform(command: DrawCommand) -> bool {
    command is Translate || command is Scale || command is Rotate
}

/// The number of open `Save`s after `command`, where `depth` were open
/// before it. `None` says that the commands have touched what is not
/// theirs: a `Restore` came without a `Save` to match, or the drawing frame
/// was changed outside every `Save`.
pub open spec fn depth_after_command(depth: Option<nat>, command: DrawCommand) -> Option<nat> {
    match depth {
        None => None,
        Some(open) => if command is Save {
            Some(open + 1)
        } else if command is Restore {
            if open == 0 {
                None
            } else {
                Some((open - 1) as nat)
            }
        } else if is_transform(command) && open == 0 {
            None
        } else {
            Some(open)
        },
    }
}

/// The number of open `Save`s after the first `k` of `commands`, where
/// `start` were open before them.
pub open spec fn depth_after(commands: Seq<DrawCommand>, start: Option<nat>, k: nat) -> Option<nat>
    decreases k,
{
    if k == 0 {
        start
    } else {
        depth_after_command(depth_after(commands, start, (k - 1) as nat), commands[k - 1])
    }
}

/// The number of open `Save`s after all of `commands`.
pub open spec fn depth_at_end(commands: Seq<DrawCommand>, start: Option<nat>) -> Option<nat> {
    depth_after(commands, start, commands.len())
}

/// `commands` leave the drawing frame as they found it: every `Save` is
/// restored, no `Restore` comes without its `Save`, and the frame is moved,
/// scaled or turned only between a `Save` and its `Restore`.
pub open spec fn self_contained(commands: Seq<DrawCommand>) -> bool {
    depth_at_end(commands, Some(0nat)) == Some(0nat)
}

/// The first commands of a list are not touched by what follows them.
proof fn lemma_depth_prefix(
    a: Seq<DrawCommand>,
    b: Seq<DrawCommand>,
    start: Option<nat>,
    k: nat,
)
    requires
        k <= a.len(),
    ensures
        depth_after(a + b, start, k) == depth_after(a, start, k),
    decreases k,
{
    if k > 0 {
        lemma_depth_prefix(a, b, start, (k - 1) as nat);
        assert((a + b)[k - 1] == a[k - 1]);
    }
}

/// The commands after a list start at the depth at which the list ends.
proof fn lemma_depth_suffix(
    a: Seq<DrawCommand>,
    b: Seq<DrawCommand>,
    start: Option<nat>,
    k: nat,
)
    requires
        k <= b.len(),
    ensures
        depth_after(a + b, start, a.len() + k) == depth_after(b, depth_at_end(a, start), k),
    decreases k,
{
    if k == 0 {
        lemma_depth_prefix(a, b, start, a.len());
    } else {
        lemma_depth_suffix(a, b, start, (k - 1) as nat);
        assert((a + b)[a.len() + k - 1] == b[k - 1]);
    }
}

/// The depth after two lists in a row is the depth after the second,
/// started where the first ends.
pub proof fn lemma_depth_concat(a: Seq<DrawCommand>, b: Seq<DrawCommand>, start: Option<nat>)
    ensures
        depth_at_end(a + b, start) == depth_at_end(b, depth_at_end(a, start)),
{
    lemma_depth_suffix(a, b, start, b.len());
}

/// Parts that each keep the depth keep it together.
pub proof fn lemma_depth_concat_range(
    n: nat,
    part: spec_fn(int) -> Seq<DrawCommand>,
    depth: Option<nat>,
)
    requires
        forall|i: int| 0 <= i < n ==> depth_at_end(#[trigger] part(i), depth) == depth,
    ensures
        depth_at_end(concat_range(n, part), depth) == depth,
    decreases n,
{
    if n > 0 {
        lemma_depth_concat_range((n - 1) as nat, part, depth);
        lemma_depth_concat(concat_range((n - 1) as nat, part), part(n - 1), depth);
    }
}

/// Parts that can each be painted can be painted one after the other.
pub proof fn lemma_paintable_concat_range(n: nat, part: spec_fn(int) -> Seq<DrawCommand>)
    requires
        forall|i: int| 0 <= i < n ==> paintable(#[trigger] part(i)),
    ensures
        paintable(concat_range(n, part)),
    decreases n,
{
    if n > 0 {
        lemma_paintable_concat_range((n - 1) as nat, part);
        assert(paintable(part(n - 1)));
    }
}

} // verus!
