//! A square grid of dots whose radii pulse as a travelling wave.
//!
//! The wave has a period of one second. Each frame is computed from the
//! timestamp alone, so a frame that comes late shows the right picture for
//! its own time.

use vstd::prelude::*;
use crate::draw::{
    concat_range, depth_at_end, depth_after, lemma_depth_concat, lemma_depth_concat_range,
    lemma_paintable_concat_range, paintable, self_contained, Color, DrawCommand,
};
use crate::ratio::Ratio;
use crate::works::Surface;

verus! {

/// The period of the wave, in milliseconds.
pub const PERIOD_MILLIS: i64 = 1000;

/// The last millisecond of a period, at which the wave has travelled once
/// through a dot.
pub const LAST_MILLI: i64 = 999;

/// Radius of the canvas corners, in pixels.
pub const CORNER_RADIUS: u32 = 15;

/// The grid: `n_edge` by `n_edge` cells of `dot_size` pixels.
#[derive(Clone, Copy, Debug, PartialEq, Eq, Structural)]
pub struct Geometry {
    pub n_edge: u16,
    pub dot_size: u16,
}

impl Geometry {
    /// A grid has at least one cell, and a cell at least one pixel.
    pub open spec fn wf(self) -> bool {
        self.n_edge > 0 && self.dot_size > 0
    }

    /// Side of the canvas that the grid fills, in pixels.
    pub open spec fn spec_extent(self) -> int {
        self.n_edge * self.dot_size
    }

    /// Number of dots in the grid.
    pub open spec fn spec_dot_count(self) -> int {
        self.n_edge * self.n_edge
    }

    /// The grid of `n_edge` by `n_edge` cells of `dot_size` pixels, if there
    /// is such a grid.
    pub fn new(n_edge: u16, dot_size: u16) -> (g: Option<Geometry>)
        ensures
            g is Some <==> n_edge > 0 && dot_size > 0,
            g is Some ==> g->0 == (Geometry { n_edge, dot_size }),
    {
        if n_edge > 0 && dot_size > 0 {
            Some(Geometry { n_edge, dot_size })
        } else {
            None
        }
    }

    /// The grid of the site: 16 by 16 cells of 30 pixels.
    pub fn standard() -> (g: Geometry)
        ensures
            g == (Geometry { n_edge: 16, dot_size: 30 }),
            g.wf(),
    {
        Geometry { n_edge: 16, dot_size: 30 }
    }

    /// Side of the canvas that the grid fills, in pixels.
    pub fn extent(&self) -> (side: u32)
        ensures
            side == self.spec_extent(),
    {
        let n: u32 = self.n_edge as u32;
        let d: u32 = self.dot_size as u32;
        assert(n * d <= 0xffff * 0xffff) by (nonlinear_arith)
            requires
                0 <= n <= 0xffff,
                0 <= d <= 0xffff,
        ;
        n * d
    }

    /// Number of dots in the grid.
    pub fn dot_count(&self) -> (count: u32)
        ensures
            count == self.spec_dot_count(),
    {
        let n: u32 = self.n_edge as u32;
        assert(n * n <= 0xffff * 0xffff) by (nonlinear_arith)
            requires
                0 <= n <= 0xffff,
        ;
        n * n
    }
}

/// Denominator of a dot's wave position: the wave position is
/// `spec_wave_numerator / spec_wave_denominator`, a number in `[0, 1)`.
pub open spec fn spec_wave_denominator(g: Geometry) -> int {
    LAST_MILLI * g.n_edge
}

/// Numerator of the wave position of dot `i` at time `now`.
///
/// The wave position is the fractional part of
/// `(now mod 1000) / 999 + (i mod (n + 1)) / n`: the time within the period
/// plus the place of the dot on its diagonal. The remainder is never
/// negative, also for a time before the epoch.
pub open spec fn spec_wave_numerator(g: Geometry, i: int, now: int) -> int {
    (g.n_edge * (now % (PERIOD_MILLIS as int)) + LAST_MILLI * (i % (g.n_edge + 1))) % (
    LAST_MILLI * g.n_edge)
}

/// Radius of dot `i` at time `now`: the wave position times half the cell.
pub open spec fn spec_dot_radius(g: Geometry, i: int, now: int) -> Ratio {
    Ratio {
        num: (g.dot_size * spec_wave_numerator(g, i, now)) as i64,
        den: (2 * spec_wave_denominator(g)) as i64,
    }
}

/// Grey level of dot `i` at time `now`: 255 for a dot of radius 0, falling
/// linearly to 0 for a dot that fills half its cell.
pub open spec fn spec_dot_level(g: Geometry, i: int, now: int) -> Ratio {
    Ratio {
        num: (255 * (spec_wave_denominator(g) - spec_wave_numerator(g, i, now))) as i64,
        den: spec_wave_denominator(g) as i64,
    }
}

/// Horizontal centre of dot `i`: the middle of its cell.
pub open spec fn spec_dot_x(g: Geometry, i: int) -> Ratio {
    Ratio { num: (g.dot_size * (2 * (i % (g.n_edge as int)) + 1)) as i64, den: 2 }
}

/// Vertical centre of dot `i`: the middle of its cell.
pub open spec fn spec_dot_y(g: Geometry, i: int) -> Ratio {
    Ratio { num: (g.dot_size * (2 * (i / (g.n_edge as int)) + 1)) as i64, den: 2 }
}

/// The commands that paint dot `i` at time `now`.
pub open spec fn spec_dot(g: Geometry, i: int, now: int) -> Seq<DrawCommand> {
    seq![
        DrawCommand::SetFillStyle { color: Color::spec_gray(spec_dot_level(g, i, now)) },
        DrawCommand::BeginPath,
        DrawCommand::Arc {
            x: spec_dot_x(g, i),
            y: spec_dot_y(g, i),
            radius: spec_dot_radius(g, i, now),
            start_degrees: Ratio { num: 0, den: 1 },
            end_degrees: Ratio { num: 360, den: 1 },
            anticlockwise: true,
        },
        DrawCommand::Fill,
    ]
}

/// The dots of the frame at time `now`, by index.
pub open spec fn spec_dots(g: Geometry, now: int) -> spec_fn(int) -> Seq<DrawCommand> {
    |i: int| spec_dot(g, i, now)
}

/// The frame at time `now`: the canvas cleared, then every dot in row order.
pub open spec fn spec_frame(g: Geometry, now: int) -> Seq<DrawCommand> {
    seq![
        DrawCommand::ClearRect { width: g.spec_extent() as u32, height: g.spec_extent() as u32 },
    ] + concat_range(g.spec_dot_count() as nat, spec_dots(g, now))
}

/// What a wave numerator is made of stays within these bounds.
proof fn lemma_wave_bounds(g: Geometry, i: int, t: int)
    requires
        g.wf(),
        0 <= i,
        0 <= t < 1000,
    ensures
        0 <= g.n_edge * t <= 0xffff * 999,
        0 <= i % (g.n_edge + 1) <= g.n_edge,
        0 < 999 * g.n_edge <= 999 * 0xffff,
        0 <= (g.n_edge * t + 999 * (i % (g.n_edge + 1))) % (999 * g.n_edge) < 999 * g.n_edge,
{
    let n = g.n_edge as int;
    assert(0 <= n * t <= 0xffff * 999) by (nonlinear_arith)
        requires
            0 <= n <= 0xffff,
            0 <= t <= 999,
    ;
    vstd::arithmetic::div_mod::lemma_mod_bound(i, n + 1);
    vstd::arithmetic::div_mod::lemma_mod_bound(n * t + 999 * (i % (n + 1)), 999 * n);
}

/// Numerator of the wave position of dot `i` at time `now_millis`.
pub fn wave_numerator(g: &Geometry, i: u32, now_millis: i64) -> (numerator: i64)
    requires
        g.wf(),
    ensures
        numerator == spec_wave_numerator(*g, i as int, now_millis as int),
        0 <= numerator < spec_wave_denominator(*g),
{
    let n: i64 = g.n_edge as i64;
    let t: i64 = match now_millis.checked_rem_euclid(PERIOD_MILLIS) {
        Some(t) => t,
        None => 0,
    };
    proof {
        lemma_wave_bounds(*g, i as int, t as int);
    }
    let place: i64 = (i as i64) % (n + 1);
    (n * t + LAST_MILLI * place) % (LAST_MILLI * n)
}

/// Radius of dot `i` at time `now_millis`, in pixels.
pub fn dot_radius(g: &Geometry, i: u32, now_millis: i64) -> (radius: Ratio)
    requires
        g.wf(),
    ensures
        radius == spec_dot_radius(*g, i as int, now_millis as int),
        radius.wf(),
        0 <= radius.num < g.dot_size * spec_wave_denominator(*g),
{
    let d: i64 = g.dot_size as i64;
    let n: i64 = g.n_edge as i64;
    let w: i64 = wave_numerator(g, i, now_millis);
    assert(0 <= d * w < d * (999 * n) <= 0xffff * (999 * 0xffff)) by (nonlinear_arith)
        requires
            0 < d <= 0xffff,
            0 < n <= 0xffff,
            0 <= w < 999 * n,
    ;
    Ratio { num: d * w, den: 2 * (LAST_MILLI * n) }
}

/// Grey level of dot `i` at time `now_millis`, between 0 and 255.
pub fn dot_level(g: &Geometry, i: u32, now_millis: i64) -> (level: Ratio)
    requires
        g.wf(),
    ensures
        level == spec_dot_level(*g, i as int, now_millis as int),
        level.wf(),
        0 < level.num <= 255 * level.den,
{
    let n: i64 = g.n_edge as i64;
    let w: i64 = wave_numerator(g, i, now_millis);
    Ratio { num: 255 * (LAST_MILLI * n - w), den: LAST_MILLI * n }
}

/// Centre of dot `i`, in pixels from the top left corner.
pub fn dot_center(g: &Geometry, i: u32) -> (center: (Ratio, Ratio))
    requires
        g.wf(),
        i < g.spec_dot_count(),
    ensures
        center.0 == spec_dot_x(*g, i as int),
        center.1 == spec_dot_y(*g, i as int),
        center.0.wf(),
        center.1.wf(),
{
    let d: i64 = g.dot_size as i64;
    let n: i64 = g.n_edge as i64;
    let column: i64 = (i as i64) % n;
    let row: i64 = (i as i64) / n;
    proof {
        vstd::arithmetic::div_mod::lemma_mod_bound(i as int, n as int);
        vstd::arithmetic::div_mod::lemma_fundamental_div_mod(i as int, n as int);
        assert(0 <= row < n) by (nonlinear_arith)
            requires
                0 < n,
                0 <= i < n * n,
                i == n * row + column,
                0 <= column < n,
        ;
        assert(0 <= d * (2 * column + 1) <= 0xffff * (2 * 0xffff)) by (nonlinear_arith)
            requires
                0 < d <= 0xffff,
                0 <= column < 0xffff,
        ;
        assert(0 <= d * (2 * row + 1) <= 0xffff * (2 * 0xffff)) by (nonlinear_arith)
            requires
                0 < d <= 0xffff,
                0 <= row < 0xffff,
        ;
    }
    (Ratio { num: d * (2 * column + 1), den: 2 }, Ratio { num: d * (2 * row + 1), den: 2 })
}

/// The frame at time `now_millis`.
pub fn draw(g: &Geometry, now_millis: i64) -> (commands: Vec<DrawCommand>)
    requires
        g.wf(),
    ensures
        commands@ == spec_frame(*g, now_millis as int),
        paintable(commands@),
{
    proof {
        lemma_frame_paintable(*g, now_millis as int);
    }
    let side: u32 = g.extent();
    let count: u32 = g.dot_count();
    let mut commands: Vec<DrawCommand> = Vec::new();
    commands.push(DrawCommand::ClearRect { width: side, height: side });
    let ghost now: int = now_millis as int;
    let ghost head: Seq<DrawCommand> = commands@;
    let mut i: u32 = 0;
    while i < count
        invariant
            g.wf(),
            now == now_millis as int,
            count == g.spec_dot_count(),
            i <= count,
            head == seq![
                DrawCommand::ClearRect {
                    width: g.spec_extent() as u32,
                    height: g.spec_extent() as u32,
                },
            ],
            commands@ == head + concat_range(i as nat, spec_dots(*g, now)),
        decreases count - i,
    {
        let level: Ratio = dot_level(g, i, now_millis);
        let radius: Ratio = dot_radius(g, i, now_millis);
        let center: (Ratio, Ratio) = dot_center(g, i);
        let ghost before: Seq<DrawCommand> = commands@;
        commands.push(DrawCommand::SetFillStyle { color: Color::gray(level) });
        commands.push(DrawCommand::BeginPath);
        commands.push(
            DrawCommand::Arc {
                x: center.0,
                y: center.1,
                radius,
                start_degrees: Ratio::whole(0),
                end_degrees: Ratio::whole(360),
                anticlockwise: true,
            },
        );
        commands.push(DrawCommand::Fill);
        proof {
            assert(commands@ == before + spec_dot(*g, i as int, now));
            assert(spec_dots(*g, now)(i as int) == spec_dot(*g, i as int, now));
        }
        i = i + 1;
    }
    commands
}

/// The canvas of the work: as wide and as high as the grid, with rounded
/// corners.
pub fn page_content(g: &Geometry) -> (surface: Surface)
    ensures
        surface == (Surface {
            width: g.spec_extent() as u32,
            height: g.spec_extent() as u32,
            corner_radius: CORNER_RADIUS,
        }),
{
    let side: u32 = g.extent();
    Surface { width: side, height: side, corner_radius: CORNER_RADIUS }
}

/// The radius of a dot is the same one period later.
pub proof fn lemma_radius_periodic(g: Geometry, i: int, now: int)
    ensures
        spec_dot_radius(g, i, now) == spec_dot_radius(g, i, now + PERIOD_MILLIS),
{
}

/// The whole frame is the same one period later.
pub proof fn lemma_frame_periodic(g: Geometry, now: int)
    ensures
        spec_frame(g, now) == spec_frame(g, now + PERIOD_MILLIS),
{
    assert forall|i: int| #[trigger] spec_dots(g, now)(i) == spec_dots(g, now + PERIOD_MILLIS)(i) by {
        assert(spec_wave_numerator(g, i, now) == spec_wave_numerator(g, i, now + PERIOD_MILLIS));
    }
    assert(spec_dots(g, now) =~= spec_dots(g, now + PERIOD_MILLIS));
}

/// On the grid of the site, a dot's wave numerator, radius and grey level in
/// plain numbers.
pub proof fn lemma_standard_dot(i: int, now: int)
    ensures
        spec_wave_numerator(Geometry { n_edge: 16, dot_size: 30 }, i, now) == (16 * (now % 1000)
            + 999 * (i % 17)) % 15984,
        spec_dot_radius(Geometry { n_edge: 16, dot_size: 30 }, i, now) == (Ratio {
            num: (30 * ((16 * (now % 1000) + 999 * (i % 17)) % 15984)) as i64,
            den: 31968,
        }),
        spec_dot_level(Geometry { n_edge: 16, dot_size: 30 }, i, now) == (Ratio {
            num: (255 * (15984 - (16 * (now % 1000) + 999 * (i % 17)) % 15984)) as i64,
            den: 15984,
        }),
{
    let g = Geometry { n_edge: 16, dot_size: 30 };
    let n = g.n_edge as int;
    let d = g.dot_size as int;
    let w = (16 * (now % 1000) + 999 * (i % 17)) % 15984;
    assert(n * (now % 1000) == 16 * (now % 1000)) by (nonlinear_arith)
        requires
            n == 16,
    ;
    assert(spec_wave_numerator(g, i, now) == w);
    assert(d * w == 30 * w) by (nonlinear_arith)
        requires
            d == 30,
    ;
}

/// A frame leaves the drawing frame of the canvas as it found it.
pub proof fn lemma_frame_self_contained(g: Geometry, now: int)
    ensures
        self_contained(spec_frame(g, now)),
{
    let ground: Option<nat> = Some(0nat);
    let clear = seq![
        DrawCommand::ClearRect { width: g.spec_extent() as u32, height: g.spec_extent() as u32 },
    ];
    let dots = concat_range(g.spec_dot_count() as nat, spec_dots(g, now));
    assert(depth_at_end(clear, ground) == ground) by {
        reveal_with_fuel(depth_after, 2);
    }
    assert forall|i: int| depth_at_end(#[trigger] spec_dots(g, now)(i), ground) == ground by {
        reveal_with_fuel(depth_after, 5);
        assert(spec_dots(g, now)(i) == spec_dot(g, i, now));
    }
    lemma_depth_concat_range(g.spec_dot_count() as nat, spec_dots(g, now), ground);
    lemma_depth_concat(clear, dots, ground);
}

/// Every command of a frame can be painted: no radius is negative, and the
/// grey of a dot is a level between 0 and 255.
pub proof fn lemma_frame_paintable(g: Geometry, now: int)
    requires
        g.wf(),
    ensures
        paintable(spec_frame(g, now)),
{
    assert forall|i: int| 0 <= i < g.spec_dot_count() implies paintable(
        #[trigger] spec_dots(g, now)(i),
    ) by {
        let n = g.n_edge as int;
        let d = g.dot_size as int;
        let w = spec_wave_numerator(g, i, now);
        lemma_wave_bounds(g, i, now % 1000);
        vstd::arithmetic::div_mod::lemma_mod_bound(i, n);
        vstd::arithmetic::div_mod::lemma_fundamental_div_mod(i, n);
        let column = i % n;
        let row = i / n;
        assert(0 <= row < n) by (nonlinear_arith)
            requires
                0 < n,
                0 <= i < n * n,
                i == n * row + column,
                0 <= column < n,
        ;
        assert(0 <= d * w <= 0xffff * (999 * 0xffff)) by (nonlinear_arith)
            requires
                0 < d <= 0xffff,
                0 <= w < 999 * 0xffff,
        ;
        assert(0 <= d * (2 * column + 1) <= 0xffff * (2 * 0xffff)) by (nonlinear_arith)
            requires
                0 < d <= 0xffff,
                0 <= column < 0xffff,
        ;
        assert(0 <= d * (2 * row + 1) <= 0xffff * (2 * 0xffff)) by (nonlinear_arith)
            requires
                0 < d <= 0xffff,
                0 <= row < 0xffff,
        ;
        assert(spec_dots(g, now)(i) == spec_dot(g, i, now));
        assert(Color::is_level(spec_dot_level(g, i, now)));
    }
    lemma_paintable_concat_range(g.spec_dot_count() as nat, spec_dots(g, now));
}

} // verus!
