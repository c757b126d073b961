//! The embedded view: its resolution, the size it is shown at, and the
//! input it is handed each frame.
use vstd::prelude::*;
use crate::geometry::{Pos, Rect, STEPS_PER_POINT};
use crate::input::{FrameInput, InputEvent, InputView, translated_events};

verus! {

/// Display density, in pixels per point, is counted in steps of
/// `1 / DENSITY_STEPS`: a density of one pixel per point is `DENSITY_STEPS`.
pub const DENSITY_STEPS: i64 = 256;

/// Width of the embedded view when it is created, in pixels.
pub const INITIAL_WIDTH: u32 = 640;

/// Height of the embedded view when it is created, in pixels.
pub const INITIAL_HEIGHT: u32 = 480;

/// Size in pixels of the image the embedded interface is rendered into.
#[derive(Clone, Copy, Debug, PartialEq, Eq, Structural)]
pub struct Resolution {
    pub width: u32,
    pub height: u32,
}

/// `pixels` pixels divided by the density `pixels_per_point`, in position
/// steps, rounded down.
pub open spec fn extent(pixels: int, pixels_per_point: int) -> int {
    pixels * STEPS_PER_POINT * DENSITY_STEPS / pixels_per_point
}

/// An extent is never negative and never more than the pixel count at the
/// lowest density.
pub proof fn lemma_extent_bounds(pixels: int, pixels_per_point: int)
    requires
        0 <= pixels,
        1 <= pixels_per_point,
    ensures
        0 <= extent(pixels, pixels_per_point) <= pixels * STEPS_PER_POINT * DENSITY_STEPS,
{
    let n = pixels * STEPS_PER_POINT * DENSITY_STEPS;
    assert(0 <= n / pixels_per_point <= n) by (nonlinear_arith)
        requires
            0 <= n,
            1 <= pixels_per_point,
    ;
}

/// `pixels` pixels shown at `pixels_per_point` (in density steps), as a
/// length in position steps, rounded down.
pub fn extent_in_steps(pixels: u32, pixels_per_point: u32) -> (r: i64)
    requires
        pixels_per_point > 0,
    ensures
        r == extent(pixels as int, pixels_per_point as int),
        0 <= r <= pixels * STEPS_PER_POINT * DENSITY_STEPS,
{
    proof {
        lemma_extent_bounds(pixels as int, pixels_per_point as int);
        assert(STEPS_PER_POINT * DENSITY_STEPS == 65536);
        assert(pixels * 65536 <= 0xffff_ffffint * 65536) by (nonlinear_arith)
            requires
                pixels <= 0xffff_ffffint,
        ;
    }
    let n: i64 = pixels as i64 * (STEPS_PER_POINT * DENSITY_STEPS);
    n / (pixels_per_point as i64)
}

impl Resolution {
    /// The rectangle an interface rendered at this resolution owns on a
    /// display of density `pixels_per_point`: from the origin to the
    /// resolution divided by the density.
    pub open spec fn screen(self, pixels_per_point: int) -> Rect {
        Rect {
            min: Pos { x: 0, y: 0 },
            max: Pos {
                x: extent(self.width as int, pixels_per_point) as i64,
                y: extent(self.height as int, pixels_per_point) as i64,
            },
        }
    }

    /// The resolution divided by the density fits the position type.
    pub proof fn lemma_screen_size(self, pixels_per_point: int)
        requires
            pixels_per_point >= 1,
        ensures
            self.screen(pixels_per_point).min == (Pos { x: 0, y: 0 }),
            self.screen(pixels_per_point).width() == extent(self.width as int, pixels_per_point),
            self.screen(pixels_per_point).height() == extent(
                self.height as int,
                pixels_per_point,
            ),
    {
        lemma_extent_bounds(self.width as int, pixels_per_point);
        lemma_extent_bounds(self.height as int, pixels_per_point);
    }

    /// The rectangle from the origin to this resolution divided by the
    /// density `pixels_per_point`.
    pub fn screen_rect(&self, pixels_per_point: u32) -> (r: Rect)
        requires
            pixels_per_point > 0,
        ensures
            r == self.screen(pixels_per_point as int),
            r.min == (Pos { x: 0, y: 0 }),
            r.width() == extent(self.width as int, pixels_per_point as int),
            r.height() == extent(self.height as int, pixels_per_point as int),
    {
        Rect::from_size(
            extent_in_steps(self.width, pixels_per_point),
            extent_in_steps(self.height, pixels_per_point),
        )
    }
}

/// The state of an embedded view that lasts from frame to frame.
#[derive(Clone, Copy, Debug, PartialEq, Eq, Structural)]
pub struct Viewer {
    pub resolution: Resolution,
}

impl Viewer {
    /// The view with its resolution changed to `resolution`.
    pub open spec fn resized(self, resolution: Resolution) -> Viewer {
        Viewer { resolution, ..self }
    }

    /// What a frame hands the embedded interface: the resolution to render
    /// at, and its input, which owns the resolution divided by the density
    /// and has pointer positions relative to `origin`.
    pub open spec fn frame(self, input: InputView, origin: Pos, pixels_per_point: int) -> (
        Resolution,
        InputView,
    ) {
        (self.resolution, input.translated(origin, self.resolution.screen(pixels_per_point)))
    }

    /// A view at the initial resolution.
    pub fn new() -> (r: Viewer)
        ensures
            r.resolution == (Resolution { width: INITIAL_WIDTH, height: INITIAL_HEIGHT }),
    {
        Viewer { resolution: Resolution { width: INITIAL_WIDTH, height: INITIAL_HEIGHT } }
    }

    /// Changes the resolution; any value is taken as it is.
    pub fn set_resolution(&mut self, resolution: Resolution)
        ensures
            *final(self) == old(self).resized(resolution),
    {
        self.resolution = resolution;
    }

    /// Size in position steps of the area the rendered image is shown in:
    /// the resolution divided by the density `pixels_per_point`.
    pub fn display_size(&self, pixels_per_point: u32) -> (r: (i64, i64))
        requires
            pixels_per_point > 0,
        ensures
            r.0 == extent(self.resolution.width as int, pixels_per_point as int),
            r.1 == extent(self.resolution.height as int, pixels_per_point as int),
    {
        (
            extent_in_steps(self.resolution.width, pixels_per_point),
            extent_in_steps(self.resolution.height, pixels_per_point),
        )
    }

    /// Prepares one frame of the embedded interface, shown with its top left
    /// corner at `origin`: rewrites `input` as the interface receives it and
    /// returns the resolution to render at.
    pub fn prepare_frame(&self, input: &mut FrameInput, origin: Pos, pixels_per_point: u32) -> (r:
        Resolution)
        requires
            old(input)@.in_range(),
            origin.in_range(),
            pixels_per_point > 0,
        ensures
            (r, final(input)@) == self.frame(old(input)@, origin, pixels_per_point as int),
    {
        let screen = self.resolution.screen_rect(pixels_per_point);
        input.translate(origin, screen);
        self.resolution
    }
}

/// In a translated batch every pointer position equals the position it had
/// minus the origin, and every other field of every event is unchanged.
pub proof fn lemma_translation_subtracts_origin(events: Seq<InputEvent>, origin: Pos)
    requires
        forall|i: int| 0 <= i < events.len() ==> (#[trigger] events[i]).in_range(),
        origin.in_range(),
    ensures
        translated_events(events, origin).len() == events.len(),
        forall|i: int|
            0 <= i < events.len() ==> match events[i].pointer_pos() {
                Some(p) => {
                    &&& (#[trigger] translated_events(events, origin)[i]).pointer_pos() matches Some(
                        q,
                    )
                    &&& q.x == p.x - origin.x
                    &&& q.y == p.y - origin.y
                    &&& translated_events(events, origin)[i].with_pointer_pos(p) == events[i]
                },
                None => translated_events(events, origin)[i] == events[i],
            },
{
    assert forall|i: int| 0 <= i < events.len() implies match events[i].pointer_pos() {
        Some(p) => {
            &&& (#[trigger] translated_events(events, origin)[i]).pointer_pos() matches Some(q)
            &&& q.x == p.x - origin.x
            &&& q.y == p.y - origin.y
            &&& translated_events(events, origin)[i].with_pointer_pos(p) == events[i]
        },
        None => translated_events(events, origin)[i] == events[i],
    } by {
        assert(events[i].in_range());
    }
}

/// The screen rectangle a frame hands the embedded interface starts at the
/// origin, measures the resolution divided by the density, and does not
/// depend on where the view is shown.
pub proof fn lemma_screen_ignores_origin(
    viewer: Viewer,
    input: InputView,
    a: Pos,
    b: Pos,
    pixels_per_point: int,
)
    requires
        pixels_per_point >= 1,
    ensures
        viewer.frame(input, a, pixels_per_point).1.screen_rect == viewer.frame(
            input,
            b,
            pixels_per_point,
        ).1.screen_rect,
        viewer.frame(input, a, pixels_per_point).1.screen_rect matches Some(r) && r.min == (Pos {
            x: 0,
            y: 0,
        }) && r.width() == extent(viewer.resolution.width as int, pixels_per_point) && r.height()
            == extent(viewer.resolution.height as int, pixels_per_point),
{
    viewer.resolution.lemma_screen_size(pixels_per_point);
}

/// After the resolution changes, the next frame renders at exactly the new
/// resolution and hands the interface a screen of the new resolution
/// divided by the density, whatever the resolution was before.
pub proof fn lemma_resize_takes_effect(
    viewer: Viewer,
    resolution: Resolution,
    input: InputView,
    origin: Pos,
    pixels_per_point: int,
)
    requires
        pixels_per_point >= 1,
    ensures
        viewer.resized(resolution).frame(input, origin, pixels_per_point).0 == resolution,
        viewer.resized(resolution).frame(input, origin, pixels_per_point).1.screen_rect matches Some(
            r,
        ) && r.min == (Pos { x: 0, y: 0 }) && r.width() == extent(
            resolution.width as int,
            pixels_per_point,
        ) && r.height() == extent(resolution.height as int, pixels_per_point),
{
    resolution.lemma_screen_size(pixels_per_point);
}

} // verus!
