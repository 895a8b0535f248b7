//! End-to-end scenarios of the event loop lifecycle.

use render_shell::engine::{Engine, LoopFlow, RedrawOutcome};
use render_shell::geometry::Size;
use render_shell::input::InputEvent;
use render_shell::render::background;

fn start(width: u32, height: u32) -> Engine {
    Engine::new(Size::new(width, height), 1000).expect("startup must succeed at a positive size")
}

#[test]
fn baseline_first_redraw_clears_to_background() {
    let mut engine = start(800, 600);
    let outcome = engine.redraw(16_000);
    assert_eq!(outcome, RedrawOutcome::Submitted);
    assert_eq!(engine.submissions.len(), 1);
    let buffer = &engine.submissions[0];
    assert_eq!(buffer.clear_color, background());
    assert_eq!(buffer.jobs.len(), 0);
    assert_eq!(buffer.target_width, 800);
    assert_eq!(buffer.target_height, 600);
}

#[test]
fn resize_mid_run_renders_at_new_size() {
    let mut engine = start(800, 600);
    let first = engine.redraw(1_000);
    assert_eq!(first, RedrawOutcome::Submitted);
    assert_eq!(engine.submissions[0].target_width, 800);

    let flow = engine.process_event(InputEvent::Resized(Size::new(400, 300)));
    assert_eq!(flow, LoopFlow::Continue);
    assert_eq!(engine.chain.descriptor.width, 400);
    assert_eq!(engine.chain.descriptor.height, 300);

    let second = engine.redraw(2_000);
    assert_eq!(second, RedrawOutcome::Submitted);
    assert_eq!(engine.submissions.len(), 2);
    assert_eq!(engine.submissions[1].target_width, 400);
    assert_eq!(engine.submissions[1].target_height, 300);
}

#[test]
fn close_event_stops_all_submission() {
    let mut engine = start(800, 600);
    engine.redraw(1_000);
    let flow = engine.process_event(InputEvent::CloseRequested);
    assert_eq!(flow, LoopFlow::Exit);
    let outcome = engine.redraw(2_000);
    assert_eq!(outcome, RedrawOutcome::Skipped);
    let again = engine.redraw(3_000);
    assert_eq!(again, RedrawOutcome::Skipped);
    assert_eq!(engine.submissions.len(), 1);
}

#[test]
fn escape_press_terminates_like_close() {
    let mut engine = start(800, 600);
    engine.redraw(1_000);
    let flow = engine.process_event(InputEvent::EscapeKey { pressed: true });
    assert_eq!(flow, LoopFlow::Exit);
    let outcome = engine.redraw(2_000);
    assert_eq!(outcome, RedrawOutcome::Skipped);
    assert_eq!(engine.submissions.len(), 1);
}

#[test]
fn escape_release_does_not_terminate() {
    let mut engine = start(800, 600);
    let flow = engine.process_event(InputEvent::EscapeKey { pressed: false });
    assert_eq!(flow, LoopFlow::Continue);
    let outcome = engine.redraw(1_000);
    assert_eq!(outcome, RedrawOutcome::Submitted);
    assert_eq!(engine.submissions.len(), 1);
}

#[test]
fn other_events_are_noops_but_forwarded() {
    let mut engine = start(800, 600);
    let flow = engine.process_event(InputEvent::Other);
    assert_eq!(flow, LoopFlow::Continue);
    assert_eq!(engine.composer.input.events.len(), 1);
    assert_eq!(engine.size, Size::new(800, 600));
    // The UI has now seen input, so the fixed widget tree is painted.
    engine.redraw(1_000);
    assert_eq!(engine.submissions[0].jobs.len(), 2);
}

#[test]
fn fatal_init_at_zero_size() {
    let r = Engine::new(Size::new(0, 600), 1000);
    assert!(matches!(r, Err(render_shell::error::EngineError::FatalInit)));
    let r2 = Engine::new(Size::new(800, 0), 1000);
    assert!(matches!(r2, Err(render_shell::error::EngineError::FatalInit)));
}
