//! The showcased works: their names in a URL, and which animation each one
//! mounts.

pub mod dm_seigaiha;
pub mod dm_waving_dots_square;
pub mod mdn_clock_example;

pub use crate::state::set_slug;

use vstd::prelude::*;
use crate::draw::{paintable, self_contained, DrawCommand};
use crate::text::str_eq;
use crate::time::{spec_time_of_day, time_of_day, TimeOfDay};

verus! {

/// Names a work in a URL.
#[derive(Clone, Copy, Debug, PartialEq, Eq, PartialOrd, Structural)]
pub enum Slug {
    /// The index of the works.
    Root,
    MdnClockExample,
    DmWavingDotsSquare,
    DmSeigaiha,
}

impl Slug {
    /// The path segment that stands for the slug: its name in kebab case.
    pub open spec fn spec_segment(self) -> Seq<char> {
        match self {
            Slug::Root => "root"@,
            Slug::MdnClockExample => "mdn-clock-example"@,
            Slug::DmWavingDotsSquare => "dm-waving-dots-square"@,
            Slug::DmSeigaiha => "dm-seigaiha"@,
        }
    }

    /// The slug that `segment` stands for, if it stands for one.
    pub open spec fn spec_from_segment(segment: Seq<char>) -> Option<Slug> {
        if segment == "root"@ {
            Some(Slug::Root)
        } else if segment == "mdn-clock-example"@ {
            Some(Slug::MdnClockExample)
        } else if segment == "dm-waving-dots-square"@ {
            Some(Slug::DmWavingDotsSquare)
        } else if segment == "dm-seigaiha"@ {
            Some(Slug::DmSeigaiha)
        } else {
            None
        }
    }

    /// The slug that `segment` stands for; `None` for any other text.
    pub fn from_string_segment(segment: &str) -> (slug: Option<Slug>)
        ensures
            slug == Slug::spec_from_segment(segment@),
    {
        if str_eq(segment, "root") {
            Some(Slug::Root)
        } else if str_eq(segment, "mdn-clock-example") {
            Some(Slug::MdnClockExample)
        } else if str_eq(segment, "dm-waving-dots-square") {
            Some(Slug::DmWavingDotsSquare)
        } else if str_eq(segment, "dm-seigaiha") {
            Some(Slug::DmSeigaiha)
        } else {
            None
        }
    }

    /// The path segment that stands for the slug.
    pub fn into_string_segment(self) -> (segment: &'static str)
        ensures
            segment@ == self.spec_segment(),
    {
        match self {
            Slug::Root => "root",
            Slug::MdnClockExample => "mdn-clock-example",
            Slug::DmWavingDotsSquare => "dm-waving-dots-square",
            Slug::DmSeigaiha => "dm-seigaiha",
        }
    }
}

/// No two slugs share a path segment, and no segment is empty.
pub proof fn lemma_segments_distinct()
    ensures
        forall|a: Slug, b: Slug| a.spec_segment() == b.spec_segment() ==> a == b,
        forall|a: Slug| a.spec_segment().len() > 0,
{
    reveal_strlit("root");
    reveal_strlit("mdn-clock-example");
    reveal_strlit("dm-waving-dots-square");
    reveal_strlit("dm-seigaiha");
    assert("root"@.len() == 4);
    assert("mdn-clock-example"@.len() == 17);
    assert("dm-waving-dots-square"@.len() == 21);
    assert("dm-seigaiha"@.len() == 11);
}

/// Decoding the segment of a slug gives the slug back.
pub proof fn lemma_slug_round_trip(slug: Slug)
    ensures
        Slug::spec_from_segment(slug.spec_segment()) == Some(slug),
{
    lemma_segments_distinct();
    assert(Slug::Root.spec_segment() == "root"@);
    assert(Slug::MdnClockExample.spec_segment() == "mdn-clock-example"@);
    assert(Slug::DmWavingDotsSquare.spec_segment() == "dm-waving-dots-square"@);
    assert(Slug::DmSeigaiha.spec_segment() == "dm-seigaiha"@);
}

/// A segment that decodes to a slug is the segment of that slug.
pub proof fn lemma_segment_round_trip(segment: Seq<char>)
    ensures
        Slug::spec_from_segment(segment) matches Some(slug) ==> slug.spec_segment() == segment,
{
}

/// The canvas that a work asks the page to mount.
#[derive(Clone, Copy, Debug, PartialEq, Eq, Structural)]
pub struct Surface {
    pub width: u32,
    pub height: u32,
    /// Radius of the rounded corners, in pixels; 0 for square corners.
    pub corner_radius: u32,
}

/// An animation and the geometry it draws with.
#[derive(Clone, Copy, Debug, PartialEq, Eq, Structural)]
pub enum Renderer {
    MdnClockExample(mdn_clock_example::Geometry),
    DmWavingDotsSquare(dm_waving_dots_square::Geometry),
    DmSeigaiha(dm_seigaiha::Geometry),
}

impl Renderer {
    /// The geometry is one that the animation can draw with. A clock fits
    /// every canvas.
    pub open spec fn wf(self) -> bool {
        match self {
            Renderer::MdnClockExample(_) => true,
            Renderer::DmWavingDotsSquare(g) => g.wf(),
            Renderer::DmSeigaiha(g) => g.wf(),
        }
    }

    /// Whether the geometry is one that the animation can draw with.
    pub fn can_draw(&self) -> (can: bool)
        ensures
            can == self.wf(),
    {
        match self {
            Renderer::MdnClockExample(_) => true,
            Renderer::DmWavingDotsSquare(g) => g.n_edge > 0 && g.dot_size > 0,
            Renderer::DmSeigaiha(g) => g.n_circle > 0,
        }
    }

    /// The animation shows the time of day, so that its frames depend on the
    /// time zone of the host.
    pub open spec fn spec_shows_time_of_day(self) -> bool {
        self is MdnClockExample
    }

    /// The frame at `now` milliseconds since the epoch, where `local` is the
    /// time of day of that moment. The clock only clears its canvas while
    /// the time of day is not known; the other animations do not look at it.
    pub open spec fn spec_frame(self, now: int, local: Option<TimeOfDay>) -> Seq<DrawCommand> {
        match self {
            Renderer::MdnClockExample(g) => match local {
                Some(time) => mdn_clock_example::spec_frame(g, time),
                None => mdn_clock_example::spec_blank(g),
            },
            Renderer::DmWavingDotsSquare(g) => dm_waving_dots_square::spec_frame(g, now),
            Renderer::DmSeigaiha(g) => dm_seigaiha::spec_frame(g, now),
        }
    }

    /// The time of day that the animation shows at `now` milliseconds since
    /// the epoch, where the clocks stand `offset` seconds ahead of
    /// Greenwich: none for an animation that shows no time of day.
    pub open spec fn spec_time_shown(self, now: int, offset: int) -> Option<TimeOfDay> {
        if self.spec_shows_time_of_day() {
            spec_time_of_day(now, offset)
        } else {
            None
        }
    }

    /// The frame at `now` milliseconds since the epoch, where the clocks
    /// stand `offset` seconds ahead of Greenwich.
    pub open spec fn spec_frame_at(self, now: int, offset: int) -> Seq<DrawCommand> {
        self.spec_frame(now, self.spec_time_shown(now, offset))
    }

    /// The canvas that the animation draws on.
    pub open spec fn spec_surface(self) -> Surface {
        match self {
            Renderer::MdnClockExample(g) => Surface {
                width: g.size as u32,
                height: g.size as u32,
                corner_radius: 0,
            },
            Renderer::DmWavingDotsSquare(g) => Surface {
                width: g.spec_extent() as u32,
                height: g.spec_extent() as u32,
                corner_radius: dm_waving_dots_square::CORNER_RADIUS,
            },
            Renderer::DmSeigaiha(g) => Surface {
                width: g.canvas_width as u32,
                height: g.canvas_height as u32,
                corner_radius: 0,
            },
        }
    }

    /// Whether the frames of the animation depend on the time of day.
    pub fn shows_time_of_day(&self) -> (shows: bool)
        ensures
            shows == self.spec_shows_time_of_day(),
    {
        match self {
            Renderer::MdnClockExample(_) => true,
            _ => false,
        }
    }

    /// The frame at `now_millis`, where `local` is the time of day of that
    /// moment.
    pub fn draw(&self, now_millis: i64, local: Option<TimeOfDay>) -> (commands: Vec<DrawCommand>)
        requires
            self.wf(),
            local is Some ==> local->0.wf(),
        ensures
            commands@ == self.spec_frame(now_millis as int, local),
            paintable(commands@),
    {
        match self {
            Renderer::MdnClockExample(g) => match local {
                Some(time) => mdn_clock_example::draw(g, time),
                None => mdn_clock_example::draw_blank(g),
            },
            Renderer::DmWavingDotsSquare(g) => dm_waving_dots_square::draw(g, now_millis),
            Renderer::DmSeigaiha(g) => dm_seigaiha::draw(g, now_millis),
        }
    }

    /// The frame at `now_millis`, where the clocks stand `offset_seconds`
    /// ahead of Greenwich.
    pub fn draw_at(&self, now_millis: i64, offset_seconds: i32) -> (commands: Vec<DrawCommand>)
        requires
            self.wf(),
        ensures
            commands@ == self.spec_frame_at(now_millis as int, offset_seconds as int),
            paintable(commands@),
    {
        let local: Option<TimeOfDay> = if self.shows_time_of_day() {
            time_of_day(now_millis, offset_seconds)
        } else {
            None
        };
        self.draw(now_millis, local)
    }

    /// The canvas that the animation draws on.
    pub fn surface(&self) -> (surface: Surface)
        ensures
            surface == self.spec_surface(),
    {
        match self {
            Renderer::MdnClockExample(g) => mdn_clock_example::page_content(g),
            Renderer::DmWavingDotsSquare(g) => dm_waving_dots_square::page_content(g),
            Renderer::DmSeigaiha(g) => dm_seigaiha::page_content(g),
        }
    }
}

/// What the page of the works shows.
#[derive(Clone, Copy, Debug, PartialEq, Eq, Structural)]
pub enum WorkContent {
    /// The index of the works, which is plain text.
    Root,
    /// A canvas with an animation mounted on it.
    Animation(Renderer),
}

/// What the page of the works shows for `slug`.
pub open spec fn spec_page_content(slug: Slug) -> WorkContent {
    match slug {
        Slug::Root => WorkContent::Root,
        Slug::MdnClockExample => WorkContent::Animation(
            Renderer::MdnClockExample(mdn_clock_example::Geometry { size: 150 }),
        ),
        Slug::DmWavingDotsSquare => WorkContent::Animation(
            Renderer::DmWavingDotsSquare(
                dm_waving_dots_square::Geometry { n_edge: 16, dot_size: 30 },
            ),
        ),
        Slug::DmSeigaiha => WorkContent::Animation(
            Renderer::DmSeigaiha(
                dm_seigaiha::Geometry { canvas_width: 480, canvas_height: 480, n_circle: 8 },
            ),
        ),
    }
}

/// What the page of the works shows for `slug`: the index, or the animation
/// of the work with the geometry of the site.
pub fn page_content(slug: Slug) -> (content: WorkContent)
    ensures
        content == spec_page_content(slug),
        content matches WorkContent::Animation(renderer) ==> renderer.wf(),
{
    match slug {
        Slug::Root => WorkContent::Root,
        Slug::MdnClockExample => WorkContent::Animation(
            Renderer::MdnClockExample(mdn_clock_example::Geometry::standard()),
        ),
        Slug::DmWavingDotsSquare => WorkContent::Animation(
            Renderer::DmWavingDotsSquare(dm_waving_dots_square::Geometry::standard()),
        ),
        Slug::DmSeigaiha => WorkContent::Animation(
            Renderer::DmSeigaiha(dm_seigaiha::Geometry::standard()),
        ),
    }
}

/// Whatever the animation and the moment, a frame leaves the drawing frame
/// of the canvas as it found it, so that nothing leaks from one frame into
/// the next.
pub proof fn lemma_frame_self_contained(renderer: Renderer, now: int, local: Option<TimeOfDay>)
    ensures
        self_contained(renderer.spec_frame(now, local)),
{
    match renderer {
        Renderer::MdnClockExample(g) => match local {
            Some(time) => {
                mdn_clock_example::lemma_frame_self_contained(g, time);
            },
            None => {
                mdn_clock_example::lemma_blank_self_contained(g);
            },
        },
        Renderer::DmWavingDotsSquare(g) => {
            dm_waving_dots_square::lemma_frame_self_contained(g, now);
        },
        Renderer::DmSeigaiha(g) => {
            dm_seigaiha::lemma_frame_self_contained(g, now);
        },
    }
}

/// The frames of an animation that does not show the time of day are the
/// same in every time zone.
pub proof fn lemma_frame_without_time_of_day(
    renderer: Renderer,
    now: int,
    here: Option<TimeOfDay>,
    there: Option<TimeOfDay>,
)
    requires
        !renderer.spec_shows_time_of_day(),
    ensures
        renderer.spec_frame(now, here) == renderer.spec_frame(now, there),
{
}

/// Every command of a frame can be painted.
pub proof fn lemma_frame_paintable(renderer: Renderer, now: int, local: Option<TimeOfDay>)
    requires
        renderer.wf(),
        local is Some ==> local->0.wf(),
    ensures
        paintable(renderer.spec_frame(now, local)),
{
    match renderer {
        Renderer::MdnClockExample(g) => match local {
            Some(time) => {
                mdn_clock_example::lemma_frame_paintable(g, time);
            },
            None => {
                mdn_clock_example::lemma_blank_self_contained(g);
            },
        },
        Renderer::DmWavingDotsSquare(g) => {
            dm_waving_dots_square::lemma_frame_paintable(g, now);
        },
        Renderer::DmSeigaiha(g) => {
            dm_seigaiha::lemma_frame_paintable(g, now);
        },
    }
}

} // verus!
