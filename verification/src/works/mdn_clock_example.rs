//! An analog clock.
//!
//! The face is drawn in a frame of its own, 375 units wide with the centre
//! at the origin and twelve o'clock along the x axis. Every tick and hand is
//! a line along the x axis of a frame turned to the right angle: angles are
//! rotations of the drawing frame, never recomputed end points.

use vstd::prelude::*;
use crate::draw::{
    concat_range, depth_after, depth_at_end, lemma_depth_concat, lemma_depth_concat_range,
    lemma_paintable_concat_range, paintable, self_contained, Color, DrawCommand,
};
use crate::ratio::Ratio;
use crate::time::TimeOfDay;
use crate::works::Surface;

verus! {

/// Width of the frame in which the face is drawn.
pub const FACE_UNITS: i64 = 375;

/// The canvas of the clock, a square of `size` pixels.
#[derive(Clone, Copy, Debug, PartialEq, Eq, Structural)]
pub struct Geometry {
    pub size: u16,
}

impl Geometry {
    /// The clock of the site: a canvas of 150 by 150 pixels.
    pub fn standard() -> (g: Geometry)
        ensures
            g == (Geometry { size: 150 }),
    {
        Geometry { size: 150 }
    }
}

/// The whole number `n` as a fraction.
pub open spec fn whole(n: int) -> Ratio {
    Ratio { num: n as i64, den: 1 }
}

/// Angle of the hour hand past twelve o'clock, in degrees: 30 for each hour
/// of the twelve, half a degree for each minute, and a hundred-and-twentieth
/// for each second.
pub open spec fn spec_hour_hand_angle(time: TimeOfDay) -> Ratio {
    Ratio { num: ((time.hour % 12) * 3600 + time.minute * 60 + time.second) as i64, den: 120 }
}

/// Angle of the minute hand, in degrees: 6 for each minute and a tenth for
/// each second.
pub open spec fn spec_minute_hand_angle(time: TimeOfDay) -> Ratio {
    Ratio { num: (time.minute * 60 + time.second) as i64, den: 10 }
}

/// Angle of the second hand, in degrees: 6 for each second.
pub open spec fn spec_second_hand_angle(time: TimeOfDay) -> Ratio {
    Ratio { num: (time.second * 6) as i64, den: 1 }
}

/// The commands that stroke a line along the x axis from `from` to `to`.
pub open spec fn spec_line(from: int, to: int) -> Seq<DrawCommand> {
    seq![
        DrawCommand::BeginPath,
        DrawCommand::MoveTo { x: whole(from), y: whole(0) },
        DrawCommand::LineTo { x: whole(to), y: whole(0) },
        DrawCommand::Stroke,
    ]
}

/// The commands that add a full circle of `radius` around `(x, 0)` to a
/// fresh path.
pub open spec fn spec_circle(x: int, radius: int) -> Seq<DrawCommand> {
    seq![
        DrawCommand::BeginPath,
        DrawCommand::Arc {
            x: whole(x),
            y: whole(0),
            radius: whole(radius),
            start_degrees: whole(0),
            end_degrees: whole(360),
            anticlockwise: true,
        },
    ]
}

/// The commands that clear the canvas and set up the frame of the face.
pub open spec fn spec_setup(g: Geometry) -> Seq<DrawCommand> {
    seq![
        DrawCommand::Save,
        DrawCommand::ClearRect { width: g.size as u32, height: g.size as u32 },
        DrawCommand::Translate {
            x: Ratio { num: g.size as i64, den: 2 },
            y: Ratio { num: g.size as i64, den: 2 },
        },
        DrawCommand::Scale {
            x: Ratio { num: g.size as i64, den: FACE_UNITS },
            y: Ratio { num: g.size as i64, den: FACE_UNITS },
        },
        DrawCommand::Rotate { degrees: whole(-90) },
        DrawCommand::SetStrokeStyle { color: Color::spec_rgb(0, 0, 0) },
        DrawCommand::SetFillStyle { color: Color::spec_rgb(255, 255, 255) },
        DrawCommand::SetLineWidth { pixels: whole(8) },
        DrawCommand::SetLineCapRound,
    ]
}

/// The commands of one hour tick: the frame turns by 30 degrees, then the
/// tick is stroked.
pub open spec fn spec_hour_tick() -> Seq<DrawCommand> {
    seq![DrawCommand::Rotate { degrees: whole(30) }] + spec_line(100, 120)
}

/// The commands of the twelve hour ticks.
pub open spec fn spec_hour_ticks() -> Seq<DrawCommand> {
    seq![DrawCommand::Save] + concat_range(12, |i: int| spec_hour_tick()) + seq![
        DrawCommand::Restore,
    ]
}

/// The commands of minute tick `i`: the tick is stroked unless an hour tick
/// stands in its place, then the frame turns by 6 degrees.
pub open spec fn spec_minute_tick(i: int) -> Seq<DrawCommand> {
    if i % 5 != 0 {
        spec_line(117, 120) + seq![DrawCommand::Rotate { degrees: whole(6) }]
    } else {
        seq![DrawCommand::Rotate { degrees: whole(6) }]
    }
}

/// The commands of the sixty minute ticks.
pub open spec fn spec_minute_ticks() -> Seq<DrawCommand> {
    seq![DrawCommand::Save, DrawCommand::SetLineWidth { pixels: whole(5) }] + concat_range(
        60,
        |i: int| spec_minute_tick(i),
    ) + seq![DrawCommand::Restore]
}

/// The commands of a hand at `angle`, `width` wide, from `from` behind the
/// centre to `to` before it.
pub open spec fn spec_hand(angle: Ratio, width: int, from: int, to: int) -> Seq<DrawCommand> {
    seq![
        DrawCommand::Save,
        DrawCommand::Rotate { degrees: angle },
        DrawCommand::SetLineWidth { pixels: whole(width) },
    ] + spec_line(from, to) + seq![DrawCommand::Restore]
}

/// The commands of the second hand at `angle`: a red line with a disc on
/// the centre and a ring near its tip.
pub open spec fn spec_second_hand(angle: Ratio) -> Seq<DrawCommand> {
    seq![
        DrawCommand::Save,
        DrawCommand::Rotate { degrees: angle },
        DrawCommand::SetStrokeStyle { color: Color::spec_rgb(212, 0, 0) },
        DrawCommand::SetFillStyle { color: Color::spec_rgb(212, 0, 0) },
        DrawCommand::SetLineWidth { pixels: whole(6) },
    ] + spec_line(-30, 83) + spec_circle(0, 10) + seq![DrawCommand::Fill] + spec_circle(95, 10)
        + seq![DrawCommand::Stroke, DrawCommand::Restore]
}

/// The commands of the circular frame round the face, and the `Restore`
/// that ends the picture.
pub open spec fn spec_rim() -> Seq<DrawCommand> {
    seq![
        DrawCommand::SetLineWidth { pixels: whole(14) },
        DrawCommand::SetStrokeStyle { color: Color::spec_rgb(50, 95, 162) },
    ] + spec_circle(0, 142) + seq![DrawCommand::Stroke, DrawCommand::Restore]
}

/// The picture of the clock at `time`: the ticks, the three hands, the rim.
pub open spec fn spec_frame(g: Geometry, time: TimeOfDay) -> Seq<DrawCommand> {
    spec_setup(g) + spec_hour_ticks() + spec_minute_ticks() + seq![
        DrawCommand::SetFillStyle { color: Color::spec_rgb(0, 0, 0) },
    ] + spec_hand(spec_hour_hand_angle(time), 14, -20, 80) + spec_hand(
        spec_minute_hand_angle(time),
        10,
        -28,
        112,
    ) + spec_second_hand(spec_second_hand_angle(time)) + spec_rim()
}

/// The picture of the clock while the time of day is not known: the canvas
/// cleared, and nothing on it.
pub open spec fn spec_blank(g: Geometry) -> Seq<DrawCommand> {
    seq![DrawCommand::ClearRect { width: g.size as u32, height: g.size as u32 }]
}

/// Angle of the hour hand past twelve o'clock, in degrees.
pub fn hour_hand_angle(time: TimeOfDay) -> (angle: Ratio)
    requires
        time.wf(),
    ensures
        angle == spec_hour_hand_angle(time),
        angle.wf(),
        0 <= angle.num < 360 * angle.den,
{
    let hour: i64 = (time.hour % 12) as i64;
    Ratio { num: hour * 3600 + (time.minute as i64) * 60 + time.second as i64, den: 120 }
}

/// Angle of the minute hand past twelve o'clock, in degrees.
pub fn minute_hand_angle(time: TimeOfDay) -> (angle: Ratio)
    requires
        time.wf(),
    ensures
        angle == spec_minute_hand_angle(time),
        angle.wf(),
        0 <= angle.num < 360 * angle.den,
{
    Ratio { num: (time.minute as i64) * 60 + time.second as i64, den: 10 }
}

/// Angle of the second hand past twelve o'clock, in degrees.
pub fn second_hand_angle(time: TimeOfDay) -> (angle: Ratio)
    requires
        time.wf(),
    ensures
        angle == spec_second_hand_angle(time),
        angle.wf(),
        0 <= angle.num < 360 * angle.den,
{
    Ratio { num: (time.second as i64) * 6, den: 1 }
}

/// Appends the commands that stroke a line along the x axis.
fn draw_line(commands: &mut Vec<DrawCommand>, from: i64, to: i64)
    ensures
        final(commands)@ == old(commands)@ + spec_line(from as int, to as int),
{
    commands.push(DrawCommand::BeginPath);
    commands.push(DrawCommand::MoveTo { x: Ratio::whole(from), y: Ratio::whole(0) });
    commands.push(DrawCommand::LineTo { x: Ratio::whole(to), y: Ratio::whole(0) });
    commands.push(DrawCommand::Stroke);
}

/// Appends the commands that add a full circle to a fresh path.
fn draw_circle(commands: &mut Vec<DrawCommand>, x: i64, radius: i64)
    ensures
        final(commands)@ == old(commands)@ + spec_circle(x as int, radius as int),
{
    commands.push(DrawCommand::BeginPath);
    commands.push(
        DrawCommand::Arc {
            x: Ratio::whole(x),
            y: Ratio::whole(0),
            radius: Ratio::whole(radius),
            start_degrees: Ratio::whole(0),
            end_degrees: Ratio::whole(360),
            anticlockwise: true,
        },
    );
}

/// Appends the commands that clear the canvas and set up the frame of the
/// face.
fn draw_setup(commands: &mut Vec<DrawCommand>, g: &Geometry)
    ensures
        final(commands)@ == old(commands)@ + spec_setup(*g),
{
    let size: i64 = g.size as i64;
    commands.push(DrawCommand::Save);
    commands.push(DrawCommand::ClearRect { width: g.size as u32, height: g.size as u32 });
    commands.push(
        DrawCommand::Translate {
            x: Ratio { num: size, den: 2 },
            y: Ratio { num: size, den: 2 },
        },
    );
    commands.push(
        DrawCommand::Scale {
            x: Ratio { num: size, den: FACE_UNITS },
            y: Ratio { num: size, den: FACE_UNITS },
        },
    );
    commands.push(DrawCommand::Rotate { degrees: Ratio::whole(-90) });
    commands.push(DrawCommand::SetStrokeStyle { color: Color::rgb(0, 0, 0) });
    commands.push(DrawCommand::SetFillStyle { color: Color::rgb(255, 255, 255) });
    commands.push(DrawCommand::SetLineWidth { pixels: Ratio::whole(8) });
    commands.push(DrawCommand::SetLineCapRound);
}

/// Appends the commands of the twelve hour ticks.
fn draw_hour_ticks(commands: &mut Vec<DrawCommand>)
    ensures
        final(commands)@ == old(commands)@ + spec_hour_ticks(),
{
    let ghost before: Seq<DrawCommand> = commands@;
    let ghost tick: spec_fn(int) -> Seq<DrawCommand> = |i: int| spec_hour_tick();
    commands.push(DrawCommand::Save);
    let mut i: u8 = 0;
    while i < 12
        invariant
            i <= 12,
            tick == (|i: int| spec_hour_tick()),
            commands@ == before + seq![DrawCommand::Save] + concat_range(i as nat, tick),
        decreases 12 - i,
    {
        commands.push(DrawCommand::Rotate { degrees: Ratio::whole(30) });
        draw_line(commands, 100, 120);
        assert(tick(i as int) == spec_hour_tick());
        i = i + 1;
    }
    commands.push(DrawCommand::Restore);
}

/// Appends the commands of the sixty minute ticks.
fn draw_minute_ticks(commands: &mut Vec<DrawCommand>)
    ensures
        final(commands)@ == old(commands)@ + spec_minute_ticks(),
{
    let ghost before: Seq<DrawCommand> = commands@;
    let ghost tick: spec_fn(int) -> Seq<DrawCommand> = |i: int| spec_minute_tick(i);
    commands.push(DrawCommand::Save);
    commands.push(DrawCommand::SetLineWidth { pixels: Ratio::whole(5) });
    let mut i: u8 = 0;
    while i < 60
        invariant
            i <= 60,
            tick == (|i: int| spec_minute_tick(i)),
            commands@ == before + seq![
                DrawCommand::Save,
                DrawCommand::SetLineWidth { pixels: whole(5) },
            ] + concat_range(i as nat, tick),
        decreases 60 - i,
    {
        if i % 5 != 0 {
            draw_line(commands, 117, 120);
        }
        commands.push(DrawCommand::Rotate { degrees: Ratio::whole(6) });
        assert(tick(i as int) == spec_minute_tick(i as int));
        i = i + 1;
    }
    commands.push(DrawCommand::Restore);
}

/// Appends the commands of a hand.
fn draw_hand(commands: &mut Vec<DrawCommand>, angle: Ratio, width: i64, from: i64, to: i64)
    ensures
        final(commands)@ == old(commands)@ + spec_hand(
            angle,
            width as int,
            from as int,
            to as int,
        ),
{
    commands.push(DrawCommand::Save);
    commands.push(DrawCommand::Rotate { degrees: angle });
    commands.push(DrawCommand::SetLineWidth { pixels: Ratio::whole(width) });
    draw_line(commands, from, to);
    commands.push(DrawCommand::Restore);
}

/// Appends the commands of the second hand.
fn draw_second_hand(commands: &mut Vec<DrawCommand>, angle: Ratio)
    ensures
        final(commands)@ == old(commands)@ + spec_second_hand(angle),
{
    commands.push(DrawCommand::Save);
    commands.push(DrawCommand::Rotate { degrees: angle });
    commands.push(DrawCommand::SetStrokeStyle { color: Color::rgb(212, 0, 0) });
    commands.push(DrawCommand::SetFillStyle { color: Color::rgb(212, 0, 0) });
    commands.push(DrawCommand::SetLineWidth { pixels: Ratio::whole(6) });
    draw_line(commands, -30, 83);
    draw_circle(commands, 0, 10);
    commands.push(DrawCommand::Fill);
    draw_circle(commands, 95, 10);
    commands.push(DrawCommand::Stroke);
    commands.push(DrawCommand::Restore);
}

/// Appends the commands of the rim and the `Restore` that ends the picture.
fn draw_rim(commands: &mut Vec<DrawCommand>)
    ensures
        final(commands)@ == old(commands)@ + spec_rim(),
{
    commands.push(DrawCommand::SetLineWidth { pixels: Ratio::whole(14) });
    commands.push(DrawCommand::SetStrokeStyle { color: Color::rgb(50, 95, 162) });
    draw_circle(commands, 0, 142);
    commands.push(DrawCommand::Stroke);
    commands.push(DrawCommand::Restore);
}

/// The picture of the clock at `time`.
pub fn draw(g: &Geometry, time: TimeOfDay) -> (commands: Vec<DrawCommand>)
    requires
        time.wf(),
    ensures
        commands@ == spec_frame(*g, time),
        paintable(commands@),
{
    proof {
        lemma_frame_paintable(*g, time);
    }
    let mut commands: Vec<DrawCommand> = Vec::new();
    draw_setup(&mut commands, g);
    draw_hour_ticks(&mut commands);
    draw_minute_ticks(&mut commands);
    commands.push(DrawCommand::SetFillStyle { color: Color::rgb(0, 0, 0) });
    draw_hand(&mut commands, hour_hand_angle(time), 14, -20, 80);
    draw_hand(&mut commands, minute_hand_angle(time), 10, -28, 112);
    draw_second_hand(&mut commands, second_hand_angle(time));
    draw_rim(&mut commands);
    commands
}

/// The picture of the clock while the time of day is not known.
pub fn draw_blank(g: &Geometry) -> (commands: Vec<DrawCommand>)
    ensures
        commands@ == spec_blank(*g),
        paintable(commands@),
{
    let mut commands: Vec<DrawCommand> = Vec::new();
    commands.push(DrawCommand::ClearRect { width: g.size as u32, height: g.size as u32 });
    commands
}

/// The canvas of the work, with square corners.
pub fn page_content(g: &Geometry) -> (surface: Surface)
    ensures
        surface == (Surface { width: g.size as u32, height: g.size as u32, corner_radius: 0 }),
{
    Surface { width: g.size as u32, height: g.size as u32, corner_radius: 0 }
}

/// A stroked line keeps the depth.
proof fn lemma_line_depth(from: int, to: int, depth: Option<nat>)
    ensures
        depth_at_end(spec_line(from, to), depth) == depth,
{
    reveal_with_fuel(depth_after, 5);
}

/// A circle added to the path keeps the depth.
proof fn lemma_circle_depth(x: int, radius: int, depth: Option<nat>)
    ensures
        depth_at_end(spec_circle(x, radius), depth) == depth,
{
    reveal_with_fuel(depth_after, 3);
}

/// The ticks of either kind keep the depth at which they are drawn.
proof fn lemma_ticks_depth(open: nat)
    requires
        open > 0,
    ensures
        depth_at_end(spec_hour_ticks(), Some(open)) == Some(open),
        depth_at_end(spec_minute_ticks(), Some(open)) == Some(open),
{
    let inside: Option<nat> = Some(open + 1);
    let turn_30 = seq![DrawCommand::Rotate { degrees: whole(30) }];
    let turn_6 = seq![DrawCommand::Rotate { degrees: whole(6) }];
    let restore = seq![DrawCommand::Restore];
    assert(depth_at_end(turn_30, inside) == inside) by {
        reveal_with_fuel(depth_after, 2);
    }
    assert(depth_at_end(turn_6, inside) == inside) by {
        reveal_with_fuel(depth_after, 2);
    }
    assert(depth_at_end(restore, inside) == Some(open)) by {
        reveal_with_fuel(depth_after, 2);
    }

    let hour_tick: spec_fn(int) -> Seq<DrawCommand> = |i: int| spec_hour_tick();
    let hour_head = seq![DrawCommand::Save];
    assert(depth_at_end(hour_head, Some(open)) == inside) by {
        reveal_with_fuel(depth_after, 2);
    }
    assert forall|i: int| depth_at_end(#[trigger] hour_tick(i), inside) == inside by {
        lemma_line_depth(100, 120, inside);
        lemma_depth_concat(turn_30, spec_line(100, 120), inside);
    }
    lemma_depth_concat_range(12, hour_tick, inside);
    lemma_depth_concat(hour_head, concat_range(12, hour_tick), Some(open));
    lemma_depth_concat(hour_head + concat_range(12, hour_tick), restore, Some(open));

    let minute_tick: spec_fn(int) -> Seq<DrawCommand> = |i: int| spec_minute_tick(i);
    let minute_head = seq![DrawCommand::Save, DrawCommand::SetLineWidth { pixels: whole(5) }];
    assert(depth_at_end(minute_head, Some(open)) == inside) by {
        reveal_with_fuel(depth_after, 3);
    }
    assert forall|i: int| depth_at_end(#[trigger] minute_tick(i), inside) == inside by {
        lemma_line_depth(117, 120, inside);
        lemma_depth_concat(spec_line(117, 120), turn_6, inside);
    }
    lemma_depth_concat_range(60, minute_tick, inside);
    lemma_depth_concat(minute_head, concat_range(60, minute_tick), Some(open));
    lemma_depth_concat(minute_head + concat_range(60, minute_tick), restore, Some(open));
}

/// A hand keeps the depth at which it is drawn.
proof fn lemma_hand_depth(angle: Ratio, width: int, from: int, to: int, open: nat)
    ensures
        depth_at_end(spec_hand(angle, width, from, to), Some(open)) == Some(open),
{
    let inside: Option<nat> = Some(open + 1);
    let head = seq![
        DrawCommand::Save,
        DrawCommand::Rotate { degrees: angle },
        DrawCommand::SetLineWidth { pixels: whole(width) },
    ];
    let restore = seq![DrawCommand::Restore];
    assert(depth_at_end(head, Some(open)) == inside) by {
        reveal_with_fuel(depth_after, 4);
    }
    assert(depth_at_end(restore, inside) == Some(open)) by {
        reveal_with_fuel(depth_after, 2);
    }
    lemma_line_depth(from, to, inside);
    lemma_depth_concat(head, spec_line(from, to), Some(open));
    lemma_depth_concat(head + spec_line(from, to), restore, Some(open));
}

/// The second hand keeps the depth at which it is drawn.
proof fn lemma_second_hand_depth(angle: Ratio, open: nat)
    ensures
        depth_at_end(spec_second_hand(angle), Some(open)) == Some(open),
{
    let inside: Option<nat> = Some(open + 1);
    let head = seq![
        DrawCommand::Save,
        DrawCommand::Rotate { degrees: angle },
        DrawCommand::SetStrokeStyle { color: Color::spec_rgb(212, 0, 0) },
        DrawCommand::SetFillStyle { color: Color::spec_rgb(212, 0, 0) },
        DrawCommand::SetLineWidth { pixels: whole(6) },
    ];
    let fill = seq![DrawCommand::Fill];
    let tail = seq![DrawCommand::Stroke, DrawCommand::Restore];
    assert(depth_at_end(head, Some(open)) == inside) by {
        reveal_with_fuel(depth_after, 6);
    }
    assert(depth_at_end(fill, inside) == inside) by {
        reveal_with_fuel(depth_after, 2);
    }
    assert(depth_at_end(tail, inside) == Some(open)) by {
        reveal_with_fuel(depth_after, 3);
    }
    lemma_line_depth(-30, 83, inside);
    lemma_circle_depth(0, 10, inside);
    lemma_circle_depth(95, 10, inside);
    let a = head + spec_line(-30, 83);
    let b = a + spec_circle(0, 10);
    let c = b + fill;
    let d = c + spec_circle(95, 10);
    lemma_depth_concat(head, spec_line(-30, 83), Some(open));
    lemma_depth_concat(a, spec_circle(0, 10), Some(open));
    lemma_depth_concat(b, fill, Some(open));
    lemma_depth_concat(c, spec_circle(95, 10), Some(open));
    lemma_depth_concat(d, tail, Some(open));
}

/// Setting up the frame of the face opens one `Save`.
proof fn lemma_setup_depth(g: Geometry)
    ensures
        depth_at_end(spec_setup(g), Some(0nat)) == Some(1nat),
{
    reveal_with_fuel(depth_after, 10);
}

/// The rim closes the `Save` of the face.
proof fn lemma_rim_depth()
    ensures
        depth_at_end(spec_rim(), Some(1nat)) == Some(0nat),
{
    let face: Option<nat> = Some(1nat);
    let head = seq![
        DrawCommand::SetLineWidth { pixels: whole(14) },
        DrawCommand::SetStrokeStyle { color: Color::spec_rgb(50, 95, 162) },
    ];
    let tail = seq![DrawCommand::Stroke, DrawCommand::Restore];
    assert(depth_at_end(head, face) == face) by {
        reveal_with_fuel(depth_after, 3);
    }
    assert(depth_at_end(tail, face) == Some(0nat)) by {
        reveal_with_fuel(depth_after, 3);
    }
    lemma_circle_depth(0, 142, face);
    lemma_depth_concat(head, spec_circle(0, 142), face);
    lemma_depth_concat(head + spec_circle(0, 142), tail, face);
}

/// The face up to its hands keeps the one `Save` of the setup open.
proof fn lemma_face_depth(g: Geometry)
    ensures
        depth_at_end(
            spec_setup(g) + spec_hour_ticks() + spec_minute_ticks() + seq![
                DrawCommand::SetFillStyle { color: Color::spec_rgb(0, 0, 0) },
            ],
            Some(0nat),
        ) == Some(1nat),
{
    let ground: Option<nat> = Some(0nat);
    let face: Option<nat> = Some(1nat);
    let fill_black = seq![DrawCommand::SetFillStyle { color: Color::spec_rgb(0, 0, 0) }];
    assert(depth_at_end(fill_black, face) == face) by {
        reveal_with_fuel(depth_after, 2);
    }
    lemma_setup_depth(g);
    lemma_ticks_depth(1);
    let a = spec_setup(g) + spec_hour_ticks();
    let b = a + spec_minute_ticks();
    lemma_depth_concat(spec_setup(g), spec_hour_ticks(), ground);
    lemma_depth_concat(a, spec_minute_ticks(), ground);
    lemma_depth_concat(b, fill_black, ground);
}

/// The picture of the clock leaves the drawing frame of the canvas as it
/// found it: the frame of the face, and every turn for a tick or a hand,
/// is undone.
pub proof fn lemma_frame_self_contained(g: Geometry, time: TimeOfDay)
    ensures
        self_contained(spec_frame(g, time)),
{
    let ground: Option<nat> = Some(0nat);
    let hour = spec_hand(spec_hour_hand_angle(time), 14, -20, 80);
    let minute = spec_hand(spec_minute_hand_angle(time), 10, -28, 112);
    let second = spec_second_hand(spec_second_hand_angle(time));
    let c = spec_setup(g) + spec_hour_ticks() + spec_minute_ticks() + seq![
        DrawCommand::SetFillStyle { color: Color::spec_rgb(0, 0, 0) },
    ];
    let d = c + hour;
    let e = d + minute;
    let f = e + second;
    lemma_face_depth(g);
    lemma_hand_depth(spec_hour_hand_angle(time), 14, -20, 80, 1);
    lemma_hand_depth(spec_minute_hand_angle(time), 10, -28, 112, 1);
    lemma_second_hand_depth(spec_second_hand_angle(time), 1);
    lemma_rim_depth();
    lemma_depth_concat(c, hour, ground);
    lemma_depth_concat(d, minute, ground);
    lemma_depth_concat(e, second, ground);
    lemma_depth_concat(f, spec_rim(), ground);
}

/// Every command of the picture can be painted.
pub proof fn lemma_frame_paintable(g: Geometry, time: TimeOfDay)
    requires
        time.wf(),
    ensures
        paintable(spec_frame(g, time)),
{
    let hour_tick: spec_fn(int) -> Seq<DrawCommand> = |i: int| spec_hour_tick();
    let minute_tick: spec_fn(int) -> Seq<DrawCommand> = |i: int| spec_minute_tick(i);
    assert forall|i: int| 0 <= i < 12 implies paintable(#[trigger] hour_tick(i)) by {}
    assert forall|i: int| 0 <= i < 60 implies paintable(#[trigger] minute_tick(i)) by {}
    lemma_paintable_concat_range(12, hour_tick);
    lemma_paintable_concat_range(60, minute_tick);
    assert(paintable(spec_setup(g)));
    assert(paintable(spec_hour_ticks()));
    assert(paintable(spec_minute_ticks()));
    assert(paintable(spec_hand(spec_hour_hand_angle(time), 14, -20, 80)));
    assert(paintable(spec_hand(spec_minute_hand_angle(time), 10, -28, 112)));
    assert(paintable(spec_second_hand(spec_second_hand_angle(time))));
    assert(paintable(spec_rim()));
}

/// The cleared canvas leaves the drawing frame as it found it.
pub proof fn lemma_blank_self_contained(g: Geometry)
    ensures
        self_contained(spec_blank(g)),
        paintable(spec_blank(g)),
{
    reveal_with_fuel(depth_after, 2);
}

} // verus!
