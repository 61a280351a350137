//! Seigaiha: staggered rows of overlapping discs, each with five chipped
//! rings that turn once in three seconds.
//!
//! Each frame is computed from the timestamp alone.

use vstd::prelude::*;
use crate::draw::{
    concat_range, depth_after, depth_at_end, lemma_depth_concat, lemma_depth_concat_range,
    lemma_paintable_concat_range, paintable, self_contained, Color, DrawCommand,
};
use crate::ratio::Ratio;
use crate::works::Surface;

verus! {

/// The time of one turn of the rings, in milliseconds.
pub const PERIOD_MILLIS: i64 = 3000;

/// Number of rings on a disc.
pub const RINGS: u8 = 5;

/// The canvas and the number of discs across it.
#[derive(Clone, Copy, Debug, PartialEq, Eq, Structural)]
pub struct Geometry {
    pub canvas_width: u16,
    pub canvas_height: u16,
    pub n_circle: u16,
}

impl Geometry {
    /// There is at least one disc across the canvas.
    pub open spec fn wf(self) -> bool {
        self.n_circle > 0
    }

    /// Diameter of a disc: the canvas width shared among the discs, in whole
    /// pixels.
    pub open spec fn spec_circle_size(self) -> int {
        self.canvas_width as int / self.n_circle as int
    }

    /// Discs in a row: one more than fit, so that the pattern reaches both
    /// edges.
    pub open spec fn spec_columns(self) -> int {
        self.n_circle + 1
    }

    /// Rows of discs: they lie a quarter of a disc apart.
    pub open spec fn spec_rows(self) -> int {
        4 * self.n_circle + 1
    }

    /// Number of discs in a frame.
    pub open spec fn spec_dot_count(self) -> int {
        self.spec_rows() * self.spec_columns()
    }

    /// The pattern of `n_circle` discs across a canvas of `canvas_width` by
    /// `canvas_height` pixels, if there is such a pattern.
    pub fn new(canvas_width: u16, canvas_height: u16, n_circle: u16) -> (g: Option<Geometry>)
        ensures
            g is Some <==> n_circle > 0,
            g is Some ==> g->0 == (Geometry { canvas_width, canvas_height, n_circle }),
    {
        if n_circle > 0 {
            Some(Geometry { canvas_width, canvas_height, n_circle })
        } else {
            None
        }
    }

    /// The pattern of the site: eight discs across a canvas of 480 by 480
    /// pixels.
    pub fn standard() -> (g: Geometry)
        ensures
            g == (Geometry { canvas_width: 480, canvas_height: 480, n_circle: 8 }),
            g.wf(),
    {
        Geometry { canvas_width: 480, canvas_height: 480, n_circle: 8 }
    }

    /// Diameter of a disc, in pixels.
    pub fn circle_size(&self) -> (size: u16)
        requires
            self.wf(),
        ensures
            size == self.spec_circle_size(),
    {
        self.canvas_width / self.n_circle
    }

    /// Number of discs in a frame.
    pub fn dot_count(&self) -> (count: u64)
        ensures
            count == self.spec_dot_count(),
    {
        let rows: u64 = 4 * (self.n_circle as u64) + 1;
        let columns: u64 = self.n_circle as u64 + 1;
        assert(rows * columns <= 0x4_0000 * 0x1_0000) by (nonlinear_arith)
            requires
                0 <= rows <= 0x4_0000,
                0 <= columns <= 0x1_0000,
        ;
        rows * columns
    }
}

/// Horizontal centre of disc `i`: discs lie one diameter apart, and every
/// second row is shifted by half a diameter.
pub open spec fn spec_dot_x(g: Geometry, i: int) -> Ratio {
    let column = i % g.spec_columns();
    let row = i / g.spec_columns();
    let shift: int = if row % 2 == 1 {
        1
    } else {
        0
    };
    Ratio { num: (g.spec_circle_size() * (2 * column + shift)) as i64, den: 2 }
}

/// Vertical centre of disc `i`: rows lie a quarter of a diameter apart, the
/// first a quarter of a diameter below the top edge.
pub open spec fn spec_dot_y(g: Geometry, i: int) -> Ratio {
    Ratio { num: (g.spec_circle_size() * (i / g.spec_columns() + 1)) as i64, den: 4 }
}

/// Radius of a disc: half its diameter.
pub open spec fn spec_dot_radius(g: Geometry) -> Ratio {
    Ratio { num: g.spec_circle_size() as i64, den: 2 }
}

/// Width of the line that draws a ring: a sixteenth of a diameter.
pub open spec fn spec_line_width(g: Geometry) -> Ratio {
    Ratio { num: g.spec_circle_size() as i64, den: 16 }
}

/// Denominator of the angles of the rings, which are in degrees.
pub open spec fn spec_angle_denominator(g: Geometry) -> int {
    25 * g.spec_columns()
}

/// The angle at which the innermost ring of disc `i` starts at time `now`,
/// in degrees: `(now mod 3000) / 3000` of a full turn, plus
/// `(i mod (n + 2)) / (n + 1)` of a half turn for the place of the disc.
/// The remainder is never negative, also for a time before the epoch.
pub open spec fn spec_chip_angle(g: Geometry, i: int, now: int) -> Ratio {
    Ratio {
        num: (3 * g.spec_columns() * (now % (PERIOD_MILLIS as int)) + 4500 * (i % (g.n_circle
            + 2))) as i64,
        den: spec_angle_denominator(g) as i64,
    }
}

/// The angle at which ring `j` of disc `i` starts: 30 degrees further for
/// each ring outwards.
pub open spec fn spec_chip_start(g: Geometry, i: int, j: int, now: int) -> Ratio {
    Ratio {
        num: (spec_chip_angle(g, i, now).num + 750 * g.spec_columns() * j) as i64,
        den: spec_angle_denominator(g) as i64,
    }
}

/// The angle at which ring `j` of disc `i` ends: 324 degrees, nine tenths of
/// a turn, after its start.
pub open spec fn spec_chip_end(g: Geometry, i: int, j: int, now: int) -> Ratio {
    Ratio {
        num: (spec_chip_start(g, i, j, now).num + 8100 * g.spec_columns()) as i64,
        den: spec_angle_denominator(g) as i64,
    }
}

/// Radius of ring `j`: `j` quarters of the radius of the disc.
pub open spec fn spec_chip_radius(g: Geometry, j: int) -> Ratio {
    Ratio { num: (g.spec_circle_size() * j) as i64, den: 8 }
}

/// The commands that stroke ring `j` of disc `i` at time `now`.
pub open spec fn spec_chip(g: Geometry, i: int, j: int, now: int) -> Seq<DrawCommand> {
    seq![
        DrawCommand::BeginPath,
        DrawCommand::Arc {
            x: spec_dot_x(g, i),
            y: spec_dot_y(g, i),
            radius: spec_chip_radius(g, j),
            start_degrees: spec_chip_start(g, i, j, now),
            end_degrees: spec_chip_end(g, i, j, now),
            anticlockwise: false,
        },
        DrawCommand::Stroke,
    ]
}

/// The rings of disc `i` at time `now`, by index.
pub open spec fn spec_chips(g: Geometry, i: int, now: int) -> spec_fn(int) -> Seq<DrawCommand> {
    |j: int| spec_chip(g, i, j, now)
}

/// The commands that fill disc `i` and set the line for its rings.
pub open spec fn spec_disc(g: Geometry, i: int) -> Seq<DrawCommand> {
    seq![
        DrawCommand::SetFillStyle { color: Color::spec_rgb(255, 255, 255) },
        DrawCommand::BeginPath,
        DrawCommand::Arc {
            x: spec_dot_x(g, i),
            y: spec_dot_y(g, i),
            radius: spec_dot_radius(g),
            start_degrees: Ratio { num: 0, den: 1 },
            end_degrees: Ratio { num: 360, den: 1 },
            anticlockwise: true,
        },
        DrawCommand::Fill,
        DrawCommand::SetLineWidth { pixels: spec_line_width(g) },
        DrawCommand::SetStrokeStyle { color: Color::spec_rgb(59, 93, 160) },
    ]
}

/// The commands that paint disc `i` at time `now`: the white disc, then its
/// rings from the innermost outwards.
pub open spec fn spec_dot(g: Geometry, i: int, now: int) -> Seq<DrawCommand> {
    spec_disc(g, i) + concat_range(RINGS as nat, spec_chips(g, i, now))
}

/// The discs of the frame at time `now`, by index.
pub open spec fn spec_dots(g: Geometry, now: int) -> spec_fn(int) -> Seq<DrawCommand> {
    |i: int| spec_dot(g, i, now)
}

/// The frame at time `now`: the canvas cleared, then every disc in row
/// order, so that lower rows overlap the rows above them.
pub open spec fn spec_frame(g: Geometry, now: int) -> Seq<DrawCommand> {
    seq![
        DrawCommand::ClearRect { width: g.canvas_width as u32, height: g.canvas_height as u32 },
    ] + concat_range(g.spec_dot_count() as nat, spec_dots(g, now))
}

/// Column and row of disc `i` lie within the pattern.
proof fn lemma_place_bounds(g: Geometry, i: int)
    requires
        g.wf(),
        0 <= i < g.spec_dot_count(),
    ensures
        0 <= i % g.spec_columns() < g.spec_columns(),
        0 <= i / g.spec_columns() < g.spec_rows(),
{
    let columns = g.spec_columns();
    let rows = g.spec_rows();
    let column = i % columns;
    let row = i / columns;
    vstd::arithmetic::div_mod::lemma_mod_bound(i, columns);
    vstd::arithmetic::div_mod::lemma_fundamental_div_mod(i, columns);
    assert(0 <= row < rows) by (nonlinear_arith)
        requires
            0 < columns,
            0 <= i < rows * columns,
            i == columns * row + column,
            0 <= column < columns,
    ;
}

/// Centre of disc `i`, in pixels from the top left corner.
pub fn dot_center(g: &Geometry, i: u64) -> (center: (Ratio, Ratio))
    requires
        g.wf(),
        i < g.spec_dot_count(),
    ensures
        center.0 == spec_dot_x(*g, i as int),
        center.1 == spec_dot_y(*g, i as int),
        center.0.wf(),
        center.1.wf(),
{
    let size: i64 = g.circle_size() as i64;
    let columns: i64 = g.n_circle as i64 + 1;
    proof {
        lemma_place_bounds(*g, i as int);
        assert(g.spec_dot_count() <= 0x4_0000 * 0x1_0000) by (nonlinear_arith)
            requires
                g.spec_dot_count() == g.spec_rows() * g.spec_columns(),
                0 <= g.spec_rows() <= 0x4_0000,
                0 <= g.spec_columns() <= 0x1_0000,
        ;
    }
    let column: i64 = (i as i64) % columns;
    let row: i64 = (i as i64) / columns;
    let shift: i64 = if row % 2 == 1 {
        1
    } else {
        0
    };
    proof {
        assert(0 <= size * (2 * column + shift) <= 0xffff * 0x2_0001) by (nonlinear_arith)
            requires
                0 <= size <= 0xffff,
                0 <= 2 * column + shift <= 0x2_0001,
        ;
        assert(0 <= size * (row + 1) <= 0xffff * 0x4_0001) by (nonlinear_arith)
            requires
                0 <= size <= 0xffff,
                0 <= row + 1 <= 0x4_0001,
        ;
    }
    (Ratio { num: size * (2 * column + shift), den: 2 }, Ratio { num: size * (row + 1), den: 4 })
}

/// The angle at which the innermost ring of disc `i` starts at time
/// `now_millis`, in degrees.
pub fn chip_angle(g: &Geometry, i: u64, now_millis: i64) -> (angle: Ratio)
    requires
        g.wf(),
    ensures
        angle == spec_chip_angle(*g, i as int, now_millis as int),
        angle.wf(),
        0 <= angle.num < 540 * angle.den,
{
    let columns: i64 = g.n_circle as i64 + 1;
    let t: i64 = match now_millis.checked_rem_euclid(PERIOD_MILLIS) {
        Some(t) => t,
        None => 0,
    };
    let place: u64 = i % (g.n_circle as u64 + 2);
    proof {
        assert(0 <= 3 * columns * t <= 8997 * columns) by (nonlinear_arith)
            requires
                0 <= columns,
                0 <= t <= 2999,
        ;
    }
    Ratio { num: 3 * columns * t + 4500 * (place as i64), den: 25 * columns }
}

/// The angles at which ring `j` of a disc starts and ends, in degrees, where
/// the innermost ring of the disc starts at `angle`.
fn chip_span(g: &Geometry, angle: Ratio, j: u8) -> (span: (Ratio, Ratio))
    requires
        g.wf(),
        j < RINGS,
        angle.den == spec_angle_denominator(*g),
        0 <= angle.num < 540 * angle.den,
    ensures
        span.0 == (Ratio {
            num: (angle.num + 750 * g.spec_columns() * j) as i64,
            den: angle.den,
        }),
        span.1 == (Ratio {
            num: (span.0.num + 8100 * g.spec_columns()) as i64,
            den: angle.den,
        }),
{
    let columns: i64 = g.n_circle as i64 + 1;
    let ring: i64 = j as i64;
    proof {
        assert(0 <= 750 * columns * ring <= 750 * 0x1_0000 * 4) by (nonlinear_arith)
            requires
                0 <= columns <= 0x1_0000,
                0 <= ring <= 4,
        ;
    }
    let start: i64 = angle.num + 750 * columns * ring;
    (Ratio { num: start, den: angle.den }, Ratio { num: start + 8100 * columns, den: angle.den })
}

/// Appends the commands that paint disc `i` at time `now_millis`.
fn draw_dot(g: &Geometry, i: u64, now_millis: i64, commands: &mut Vec<DrawCommand>)
    requires
        g.wf(),
        i < g.spec_dot_count(),
    ensures
        final(commands)@ == old(commands)@ + spec_dot(*g, i as int, now_millis as int),
{
    let ghost now: int = now_millis as int;
    let ghost before: Seq<DrawCommand> = commands@;
    let size: i64 = g.circle_size() as i64;
    let center: (Ratio, Ratio) = dot_center(g, i);
    let angle: Ratio = chip_angle(g, i, now_millis);
    commands.push(DrawCommand::SetFillStyle { color: Color::rgb(255, 255, 255) });
    commands.push(DrawCommand::BeginPath);
    commands.push(
        DrawCommand::Arc {
            x: center.0,
            y: center.1,
            radius: Ratio { num: size, den: 2 },
            start_degrees: Ratio::whole(0),
            end_degrees: Ratio::whole(360),
            anticlockwise: true,
        },
    );
    commands.push(DrawCommand::Fill);
    commands.push(DrawCommand::SetLineWidth { pixels: Ratio { num: size, den: 16 } });
    commands.push(DrawCommand::SetStrokeStyle { color: Color::rgb(59, 93, 160) });
    assert(commands@ == before + spec_disc(*g, i as int));
    let mut j: u8 = 0;
    while j < RINGS
        invariant
            g.wf(),
            j <= RINGS,
            now == now_millis as int,
            size == g.spec_circle_size(),
            0 <= size <= 0xffff,
            center.0 == spec_dot_x(*g, i as int),
            center.1 == spec_dot_y(*g, i as int),
            angle == spec_chip_angle(*g, i as int, now),
            0 <= angle.num < 540 * angle.den,
            commands@ == before + spec_disc(*g, i as int) + concat_range(
                j as nat,
                spec_chips(*g, i as int, now),
            ),
        decreases RINGS - j,
    {
        let ghost so_far: Seq<DrawCommand> = commands@;
        let span: (Ratio, Ratio) = chip_span(g, angle, j);
        let ring: i64 = j as i64;
        assert(0 <= size * ring <= 0xffff * 4) by (nonlinear_arith)
            requires
                0 <= size <= 0xffff,
                0 <= ring <= 4,
        ;
        commands.push(DrawCommand::BeginPath);
        commands.push(
            DrawCommand::Arc {
                x: center.0,
                y: center.1,
                radius: Ratio { num: size * ring, den: 8 },
                start_degrees: span.0,
                end_degrees: span.1,
                anticlockwise: false,
            },
        );
        commands.push(DrawCommand::Stroke);
        proof {
            assert(commands@ == so_far + spec_chip(*g, i as int, j as int, now));
            assert(spec_chips(*g, i as int, now)(j as int) == spec_chip(
                *g,
                i as int,
                j as int,
                now,
            ));
        }
        j = j + 1;
    }
}

/// The frame at time `now_millis`.
pub fn draw(g: &Geometry, now_millis: i64) -> (commands: Vec<DrawCommand>)
    requires
        g.wf(),
    ensures
        commands@ == spec_frame(*g, now_millis as int),
        paintable(commands@),
{
    proof {
        lemma_frame_paintable(*g, now_millis as int);
    }
    let count: u64 = g.dot_count();
    let mut commands: Vec<DrawCommand> = Vec::new();
    commands.push(
        DrawCommand::ClearRect { width: g.canvas_width as u32, height: g.canvas_height as u32 },
    );
    let ghost now: int = now_millis as int;
    let ghost head: Seq<DrawCommand> = commands@;
    let mut i: u64 = 0;
    while i < count
        invariant
            g.wf(),
            now == now_millis as int,
            count == g.spec_dot_count(),
            i <= count,
            head == seq![
                DrawCommand::ClearRect {
                    width: g.canvas_width as u32,
                    height: g.canvas_height as u32,
                },
            ],
            commands@ == head + concat_range(i as nat, spec_dots(*g, now)),
        decreases count - i,
    {
        draw_dot(g, i, now_millis, &mut commands);
        assert(spec_dots(*g, now)(i as int) == spec_dot(*g, i as int, now));
        i = i + 1;
    }
    commands
}

/// The canvas of the work, with square corners.
pub fn page_content(g: &Geometry) -> (surface: Surface)
    ensures
        surface == (Surface {
            width: g.canvas_width as u32,
            height: g.canvas_height as u32,
            corner_radius: 0,
        }),
{
    Surface { width: g.canvas_width as u32, height: g.canvas_height as u32, corner_radius: 0 }
}

/// The angle of a ring is the same one period later.
pub proof fn lemma_chip_angle_periodic(g: Geometry, i: int, now: int)
    ensures
        spec_chip_angle(g, i, now) == spec_chip_angle(g, i, now + PERIOD_MILLIS),
{
}

/// The whole frame is the same one period later.
pub proof fn lemma_frame_periodic(g: Geometry, now: int)
    ensures
        spec_frame(g, now) == spec_frame(g, now + PERIOD_MILLIS),
{
    let later = now + PERIOD_MILLIS;
    assert forall|i: int| #[trigger] spec_dots(g, now)(i) == spec_dots(g, later)(i) by {
        lemma_chip_angle_periodic(g, i, now);
        assert forall|j: int| #[trigger]
            spec_chips(g, i, now)(j) == spec_chips(g, i, later)(j) by {}
        assert(spec_chips(g, i, now) =~= spec_chips(g, i, later));
    }
    assert(spec_dots(g, now) =~= spec_dots(g, later));
}

/// On the pattern of the site, the angle of a ring in plain numbers.
pub proof fn lemma_standard_chip_angle(i: int, now: int)
    ensures
        spec_chip_angle(
            Geometry { canvas_width: 480, canvas_height: 480, n_circle: 8 },
            i,
            now,
        ) == (Ratio { num: (27 * (now % 3000) + 4500 * (i % 10)) as i64, den: 225 }),
{
    let g = Geometry { canvas_width: 480, canvas_height: 480, n_circle: 8 };
    let columns = g.spec_columns();
    assert(3 * columns * (now % 3000) == 27 * (now % 3000)) by (nonlinear_arith)
        requires
            columns == 9,
    ;
}

/// A frame leaves the drawing frame of the canvas as it found it.
pub proof fn lemma_frame_self_contained(g: Geometry, now: int)
    ensures
        self_contained(spec_frame(g, now)),
{
    let ground: Option<nat> = Some(0nat);
    let clear = seq![
        DrawCommand::ClearRect { width: g.canvas_width as u32, height: g.canvas_height as u32 },
    ];
    let dots = concat_range(g.spec_dot_count() as nat, spec_dots(g, now));
    assert(depth_at_end(clear, ground) == ground) by {
        reveal_with_fuel(depth_after, 2);
    }
    assert forall|i: int| depth_at_end(#[trigger] spec_dots(g, now)(i), ground) == ground by {
        let rings = concat_range(RINGS as nat, spec_chips(g, i, now));
        assert(depth_at_end(spec_disc(g, i), ground) == ground) by {
            reveal_with_fuel(depth_after, 7);
        }
        assert forall|j: int| depth_at_end(#[trigger] spec_chips(g, i, now)(j), ground)
            == ground by {
            reveal_with_fuel(depth_after, 4);
            assert(spec_chips(g, i, now)(j) == spec_chip(g, i, j, now));
        }
        lemma_depth_concat_range(RINGS as nat, spec_chips(g, i, now), ground);
        lemma_depth_concat(spec_disc(g, i), rings, ground);
        assert(spec_dots(g, now)(i) == spec_disc(g, i) + rings);
    }
    lemma_depth_concat_range(g.spec_dot_count() as nat, spec_dots(g, now), ground);
    lemma_depth_concat(clear, dots, ground);
}

/// The diameter of a disc is a number of pixels that fits the canvas.
proof fn lemma_circle_size_bounds(g: Geometry)
    requires
        g.wf(),
    ensures
        0 <= g.spec_circle_size() <= 0xffff,
{
    let width = g.canvas_width as int;
    let n = g.n_circle as int;
    vstd::arithmetic::div_mod::lemma_div_pos_is_pos(width, n);
    vstd::arithmetic::div_mod::lemma_div_is_ordered_by_denominator(width, 1, n);
}

/// Every command of a frame can be painted: no radius is negative.
pub proof fn lemma_frame_paintable(g: Geometry, now: int)
    requires
        g.wf(),
    ensures
        paintable(spec_frame(g, now)),
{
    let size = g.spec_circle_size();
    let columns = g.spec_columns();
    lemma_circle_size_bounds(g);
    assert(g.spec_dot_count() <= 0x4_0000 * 0x1_0000) by (nonlinear_arith)
        requires
            g.spec_dot_count() == g.spec_rows() * g.spec_columns(),
            0 <= g.spec_rows() <= 0x4_0000,
            0 <= g.spec_columns() <= 0x1_0000,
    ;
    assert forall|i: int| 0 <= i < g.spec_dot_count() implies paintable(
        #[trigger] spec_dots(g, now)(i),
    ) by {
        lemma_place_bounds(g, i);
        let column = i % columns;
        let row = i / columns;
        let shift: int = if row % 2 == 1 {
            1
        } else {
            0
        };
        assert(0 <= size * (2 * column + shift) <= 0xffff * 0x2_0001) by (nonlinear_arith)
            requires
                0 <= size <= 0xffff,
                0 <= 2 * column + shift <= 0x2_0001,
        ;
        assert(0 <= size * (row + 1) <= 0xffff * 0x4_0001) by (nonlinear_arith)
            requires
                0 <= size <= 0xffff,
                0 <= row + 1 <= 0x4_0001,
        ;
        assert(paintable(spec_disc(g, i)));
        assert forall|j: int| 0 <= j < RINGS implies paintable(
            #[trigger] spec_chips(g, i, now)(j),
        ) by {
            assert(0 <= size * j <= 0xffff * 4) by (nonlinear_arith)
                requires
                    0 <= size <= 0xffff,
                    0 <= j <= 4,
            ;
            assert(spec_chips(g, i, now)(j) == spec_chip(g, i, j, now));
        }
        lemma_paintable_concat_range(RINGS as nat, spec_chips(g, i, now));
        assert(spec_dots(g, now)(i) == spec_disc(g, i) + concat_range(
            RINGS as nat,
            spec_chips(g, i, now),
        ));
    }
    lemma_paintable_concat_range(g.spec_dot_count() as nat, spec_dots(g, now));
}

} // verus!
