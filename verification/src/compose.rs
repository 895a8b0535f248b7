//! Per-frame UI composition: the clock, the paint jobs and the frame state.
//!
//! The composer re-declares a fixed widget tree every frame — informational
//! panels and one interactive window — against the input accumulated so far.
//! Composition is idempotent in content: with no input event in between, two
//! compositions paint the same geometry. It is not pure: it advances the
//! process-wide UI clock once per call, which is why the engine calls it
//! exactly once per rendered frame.

use vstd::prelude::*;
use crate::geometry::Size;
use crate::input::{InputAccumulator, InputEvent};

verus! {

/// Vertices in one textured quad.
pub const QUAD_VERTICES: u32 = 4;
/// Indices in one textured quad (two triangles).
pub const QUAD_INDICES: u32 = 6;
/// Buttons declared on the central informational panel.
pub const PANEL_BUTTONS: u32 = 3;
/// Quads in the central panel: its backdrop plus one quad per button.
pub const PANEL_QUADS: u32 = PANEL_BUTTONS + 1;
/// Quads in the interactive window: its frame plus its single button.
pub const WINDOW_QUADS: u32 = 2;
/// The texture slot of the UI's font atlas, referenced by every paint job.
pub const ATLAS_TEXTURE: u64 = 0;
/// Vertices the central panel's quads need.
pub const PANEL_VERTICES: u32 = PANEL_QUADS * QUAD_VERTICES;
/// Indices the central panel's quads need.
pub const PANEL_INDICES: u32 = PANEL_QUADS * QUAD_INDICES;
/// Vertices the interactive window's quads need.
pub const WINDOW_VERTICES: u32 = WINDOW_QUADS * QUAD_VERTICES;
/// Indices the interactive window's quads need.
pub const WINDOW_INDICES: u32 = WINDOW_QUADS * QUAD_INDICES;

/// One batch of draw data produced by the UI layer for a region of the
/// target: a clip rectangle, vertex and index counts, and the texture the
/// batch samples from.
#[derive(Clone, Copy, PartialEq, Eq, Structural, Debug)]
pub struct PaintJob {
    pub clip_x: u32,
    pub clip_y: u32,
    pub clip_width: u32,
    pub clip_height: u32,
    pub vertex_count: u32,
    pub index_count: u32,
    pub texture: u64,
}

/// The paint job of the central panel: clipped to the whole target.
pub open spec fn panel_job(size: Size) -> PaintJob {
    PaintJob {
        clip_x: 0,
        clip_y: 0,
        clip_width: size.width,
        clip_height: size.height,
        vertex_count: PANEL_VERTICES,
        index_count: PANEL_INDICES,
        texture: ATLAS_TEXTURE,
    }
}

/// The paint job of the interactive window, drawn after — and therefore on
/// top of — the panel.
pub open spec fn window_job(size: Size) -> PaintJob {
    PaintJob {
        clip_x: 0,
        clip_y: 0,
        clip_width: size.width,
        clip_height: size.height,
        vertex_count: WINDOW_VERTICES,
        index_count: WINDOW_INDICES,
        texture: ATLAS_TEXTURE,
    }
}

/// What one composition paints, as a function of the input accumulated so
/// far and the current window size alone. An idle UI — one that no event
/// has reached yet — paints nothing; once any event has arrived the fixed
/// widget tree is painted: the central panel first, the window on top.
pub open spec fn ui_jobs(events: Seq<InputEvent>, size: Size) -> Seq<PaintJob> {
    if events.len() == 0 {
        Seq::<PaintJob>::empty()
    } else {
        seq![panel_job(size), window_job(size)]
    }
}

/// The UI layer's process-wide clock, advanced exactly once per composed
/// frame, in microseconds.
#[derive(Clone, Copy, PartialEq, Eq, Structural, Debug)]
pub struct UiClock {
    pub elapsed_micros: u64,
}

/// The clock after one frame tick at time `now`: it never runs backwards.
pub open spec fn clock_after(c: UiClock, now: u64) -> UiClock {
    UiClock { elapsed_micros: if now > c.elapsed_micros { now } else { c.elapsed_micros } }
}

/// Everything one frame hands from composition to rendering: the ordered
/// paint jobs, the texture atlas they reference, and the timing and scale
/// metadata of the tick. Created fresh each frame and discarded after it.
#[derive(Debug)]
pub struct UiFrameState {
    pub paint_jobs: Vec<PaintJob>,
    pub texture_version: u64,
    pub scale_factor_milli: u32,
    pub elapsed_micros: u64,
}

/// The immediate-mode UI layer as the engine sees it: the accumulated
/// input, the frame clock, the window's scale factor and the current
/// version of the texture atlas.
pub struct UiComposer {
    pub input: InputAccumulator,
    pub clock: UiClock,
    pub scale_factor_milli: u32,
    pub texture_version: u64,
}

/// The composer after one composition at time `now`: only the clock moves;
/// the accumulated input, scale factor and atlas stay as they were.
pub open spec fn spec_composed(c: UiComposer, now: u64) -> UiComposer {
    UiComposer { clock: clock_after(c.clock, now), ..c }
}

impl UiComposer {
    pub fn new(scale_factor_milli: u32) -> (c: UiComposer)
        ensures
            c.input.events@ == Seq::<InputEvent>::empty(),
            c.clock.elapsed_micros == 0,
            c.scale_factor_milli == scale_factor_milli,
    {
        UiComposer {
            input: InputAccumulator::new(),
            clock: UiClock { elapsed_micros: 0 },
            scale_factor_milli,
            texture_version: ATLAS_TEXTURE,
        }
    }

    /// Begin a frame, declare the fixed widget tree against the input
    /// accumulated so far, end the frame, and return its paint jobs with
    /// the tick's metadata. Advances the clock exactly once.
    pub fn compose(&mut self, size: Size, now_micros: u64) -> (frame: UiFrameState)
        ensures
            *final(self) == spec_composed(*old(self), now_micros),
            frame.paint_jobs@ == ui_jobs(old(self).input.events@, size),
            frame.texture_version == old(self).texture_version,
            frame.scale_factor_milli == old(self).scale_factor_milli,
            frame.elapsed_micros == final(self).clock.elapsed_micros,
    {
        if now_micros > self.clock.elapsed_micros {
            self.clock.elapsed_micros = now_micros;
        }
        let mut paint_jobs: Vec<PaintJob> = Vec::new();
        if self.input.events.len() > 0 {
            paint_jobs.push(PaintJob {
                clip_x: 0,
                clip_y: 0,
                clip_width: size.width,
                clip_height: size.height,
                vertex_count: PANEL_VERTICES,
                index_count: PANEL_INDICES,
                texture: ATLAS_TEXTURE,
            });
            paint_jobs.push(PaintJob {
                clip_x: 0,
                clip_y: 0,
                clip_width: size.width,
                clip_height: size.height,
                vertex_count: WINDOW_VERTICES,
                index_count: WINDOW_INDICES,
                texture: ATLAS_TEXTURE,
            });
            proof {
                assert(paint_jobs@ =~= ui_jobs(old(self).input.events@, size));
            }
        } else {
            proof {
                assert(paint_jobs@ =~= ui_jobs(old(self).input.events@, size));
            }
        }
        UiFrameState {
            paint_jobs,
            texture_version: self.texture_version,
            scale_factor_milli: self.scale_factor_milli,
            elapsed_micros: self.clock.elapsed_micros,
        }
    }
}

/// Law: composing twice with no input event in between paints identical
/// geometry both times — the jobs depend on the accumulated input and the
/// window size alone — while elapsed time is monotonically non-decreasing
/// across the two ticks.
pub proof fn lemma_compose_idempotent(c: UiComposer, size: Size, t1: u64, t2: u64)
    ensures
        ({
            let c1 = spec_composed(c, t1);
            let c2 = spec_composed(c1, t2);
            &&& ui_jobs(c1.input.events@, size) == ui_jobs(c.input.events@, size)
            &&& c.clock.elapsed_micros <= c1.clock.elapsed_micros
            &&& c1.clock.elapsed_micros <= c2.clock.elapsed_micros
        }),
{
}

/// The vertices all jobs of a frame need in the GPU-visible vertex buffer.
pub open spec fn total_vertices(jobs: Seq<PaintJob>) -> int
    decreases jobs.len(),
{
    if jobs.len() == 0 {
        0
    } else {
        total_vertices(jobs.drop_last()) + jobs.last().vertex_count
    }
}

/// The indices all jobs of a frame need in the GPU-visible index buffer.
pub open spec fn total_indices(jobs: Seq<PaintJob>) -> int
    decreases jobs.len(),
{
    if jobs.len() == 0 {
        0
    } else {
        total_indices(jobs.drop_last()) + jobs.last().index_count
    }
}

pub proof fn lemma_totals_take_succ(jobs: Seq<PaintJob>, i: int)
    requires
        0 <= i < jobs.len(),
    ensures
        total_vertices(jobs.take(i + 1)) == total_vertices(jobs.take(i)) + jobs[i].vertex_count,
        total_indices(jobs.take(i + 1)) == total_indices(jobs.take(i)) + jobs[i].index_count,
{
    assert(jobs.take(i + 1).drop_last() =~= jobs.take(i));
    assert(jobs.take(i + 1).last() == jobs[i]);
}

pub proof fn lemma_totals_nonneg(jobs: Seq<PaintJob>)
    ensures
        total_vertices(jobs) >= 0,
        total_indices(jobs) >= 0,
    decreases jobs.len(),
{
    if jobs.len() > 0 {
        lemma_totals_nonneg(jobs.drop_last());
    }
}

pub proof fn lemma_totals_take_le(jobs: Seq<PaintJob>, i: int)
    requires
        0 <= i <= jobs.len(),
    ensures
        total_vertices(jobs.take(i)) <= total_vertices(jobs),
        total_indices(jobs.take(i)) <= total_indices(jobs),
    decreases jobs.len() - i,
{
    if i == jobs.len() {
        assert(jobs.take(i) =~= jobs);
    } else {
        lemma_totals_take_succ(jobs, i);
        lemma_totals_take_le(jobs, i + 1);
    }
}

/// What one composition can ever ask of the buffers: the fixed widget tree
/// is two jobs of constant counts, so its totals are small.
pub proof fn lemma_ui_jobs_totals(events: Seq<InputEvent>, size: Size)
    ensures
        0 <= total_vertices(ui_jobs(events, size)) <= PANEL_VERTICES + WINDOW_VERTICES,
        0 <= total_indices(ui_jobs(events, size)) <= PANEL_INDICES + WINDOW_INDICES,
{
    let jobs = ui_jobs(events, size);
    if events.len() == 0 {
        assert(total_vertices(jobs) == 0);
        assert(total_indices(jobs) == 0);
    } else {
        let first = seq![panel_job(size)];
        assert(jobs.drop_last() =~= first);
        assert(first.drop_last() =~= Seq::<PaintJob>::empty());
        assert(total_vertices(Seq::<PaintJob>::empty()) == 0);
        assert(total_indices(Seq::<PaintJob>::empty()) == 0);
        assert(total_vertices(first) == PANEL_VERTICES);
        assert(total_indices(first) == PANEL_INDICES);
        assert(total_vertices(jobs) == PANEL_VERTICES + WINDOW_VERTICES);
        assert(total_indices(jobs) == PANEL_INDICES + WINDOW_INDICES);
    }
}

} // verus!
