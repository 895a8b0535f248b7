//! Composition idempotence, the frame clock, and buffer upload and encoding.

use render_shell::compose::{
    PaintJob, UiComposer, ATLAS_TEXTURE, PANEL_INDICES, PANEL_VERTICES, WINDOW_INDICES,
    WINDOW_VERTICES,
};
use render_shell::error::EngineError;
use render_shell::geometry::{ScreenDescriptor, Size};
use render_shell::input::{InputAccumulator, InputBridge, InputEvent};
use render_shell::presentation::{PresentationChain, PresentationDescriptor};
use render_shell::render::{background, sum_indices, sum_vertices, FrameRenderer};

fn job(vertex_count: u32, index_count: u32) -> PaintJob {
    PaintJob {
        clip_x: 0,
        clip_y: 0,
        clip_width: 100,
        clip_height: 100,
        vertex_count,
        index_count,
        texture: ATLAS_TEXTURE,
    }
}

#[test]
fn compose_twice_without_input_is_idempotent_in_content() {
    let mut composer = UiComposer::new(1000);
    let bridge = InputBridge::new();
    bridge.forward(&mut composer.input, InputEvent::Other);

    let size = Size::new(640, 480);
    let first = composer.compose(size, 5_000);
    let second = composer.compose(size, 9_000);
    assert_eq!(first.paint_jobs, second.paint_jobs);
    assert!(first.elapsed_micros <= second.elapsed_micros);
    assert_eq!(first.elapsed_micros, 5_000);
    assert_eq!(second.elapsed_micros, 9_000);
}

#[test]
fn clock_never_runs_backwards() {
    let mut composer = UiComposer::new(1000);
    let size = Size::new(640, 480);
    let first = composer.compose(size, 7_000);
    // A stale timestamp does not rewind the clock.
    let second = composer.compose(size, 3_000);
    assert_eq!(first.elapsed_micros, 7_000);
    assert_eq!(second.elapsed_micros, 7_000);
}

#[test]
fn idle_ui_paints_nothing_and_active_ui_paints_panel_then_window() {
    let mut composer = UiComposer::new(1000);
    let size = Size::new(640, 480);
    let idle = composer.compose(size, 1);
    assert!(idle.paint_jobs.is_empty());

    let bridge = InputBridge::new();
    bridge.forward(&mut composer.input, InputEvent::Other);
    let active = composer.compose(size, 2);
    assert_eq!(active.paint_jobs.len(), 2);
    assert_eq!(active.paint_jobs[0].vertex_count, PANEL_VERTICES);
    assert_eq!(active.paint_jobs[0].index_count, PANEL_INDICES);
    assert_eq!(active.paint_jobs[1].vertex_count, WINDOW_VERTICES);
    assert_eq!(active.paint_jobs[1].index_count, WINDOW_INDICES);
    assert_eq!(active.paint_jobs[0].clip_width, 640);
    assert_eq!(active.paint_jobs[0].clip_height, 480);
}

#[test]
fn input_bridge_forwards_in_delivery_order() {
    let mut accumulator = InputAccumulator::new();
    let bridge = InputBridge::new();
    bridge.forward(&mut accumulator, InputEvent::Other);
    bridge.forward(&mut accumulator, InputEvent::CloseRequested);
    bridge.forward(&mut accumulator, InputEvent::Resized(Size::new(1, 2)));
    assert_eq!(
        accumulator.events,
        vec![
            InputEvent::Other,
            InputEvent::CloseRequested,
            InputEvent::Resized(Size::new(1, 2)),
        ]
    );
}

#[test]
fn paint_job_totals_are_exact() {
    let jobs = vec![job(16, 24), job(8, 12), job(1, 3)];
    assert_eq!(sum_vertices(&jobs), 25);
    assert_eq!(sum_indices(&jobs), 39);
    let empty: Vec<PaintJob> = vec![];
    assert_eq!(sum_vertices(&empty), 0);
    assert_eq!(sum_indices(&empty), 0);
}

#[test]
fn upload_grows_buffers_and_retains_them() {
    let mut renderer = FrameRenderer::new();
    let screen = ScreenDescriptor::of(Size::new(640, 480), 1000);

    let big = render_shell::compose::UiFrameState {
        paint_jobs: vec![job(100, 150), job(20, 30)],
        texture_version: 0,
        scale_factor_milli: 1000,
        elapsed_micros: 1,
    };
    renderer.upload(&big, &screen);
    assert_eq!(renderer.vertex_capacity, 120);
    assert_eq!(renderer.index_capacity, 180);

    let small = render_shell::compose::UiFrameState {
        paint_jobs: vec![job(10, 15)],
        texture_version: 0,
        scale_factor_milli: 1000,
        elapsed_micros: 2,
    };
    renderer.upload(&small, &screen);
    // Shrinking is optional; this renderer retains capacity to avoid churn.
    assert_eq!(renderer.vertex_capacity, 120);
    assert_eq!(renderer.index_capacity, 180);
}

#[test]
fn encode_draws_jobs_in_composition_order() {
    let mut renderer = FrameRenderer::new();
    let size = Size::new(640, 480);
    let screen = ScreenDescriptor::of(size, 1000);
    let frame = render_shell::compose::UiFrameState {
        paint_jobs: vec![job(4, 6), job(8, 12), job(12, 18)],
        texture_version: 0,
        scale_factor_milli: 1000,
        elapsed_micros: 1,
    };
    renderer.upload(&frame, &screen);

    let chain = PresentationChain::create(PresentationDescriptor::initial(size));
    let buffer = renderer
        .encode_and_submit(&chain, &frame, &screen, background(), size)
        .unwrap();
    assert_eq!(buffer.jobs, frame.paint_jobs);
    assert_eq!(buffer.clear_color, background());
    assert_eq!(buffer.target_width, 640);
    assert_eq!(buffer.target_height, 480);

    // A stale chain encodes nothing.
    let err = renderer
        .encode_and_submit(&chain, &frame, &screen, background(), Size::new(1, 1))
        .unwrap_err();
    assert_eq!(err, EngineError::PresentationStale);
}
