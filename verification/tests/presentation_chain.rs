//! The presentation chain across resizes, staleness and recovery.

use render_shell::engine::{Engine, RedrawOutcome};
use render_shell::error::EngineError;
use render_shell::geometry::Size;
use render_shell::input::InputEvent;
use render_shell::presentation::{PresentationChain, PresentationDescriptor};

#[test]
fn descriptor_settles_at_last_delivered_size() {
    let mut engine = Engine::new(Size::new(800, 600), 1000).unwrap();
    for (w, h) in [(1024, 768), (640, 480), (400, 300)] {
        engine.process_event(InputEvent::Resized(Size::new(w, h)));
    }
    assert_eq!(engine.chain.descriptor.width, 400);
    assert_eq!(engine.chain.descriptor.height, 300);
    assert!(engine.chain.usable);
    assert_eq!(engine.size, Size::new(400, 300));
}

#[test]
fn zero_size_marks_chain_unusable_but_keeps_descriptor() {
    let mut engine = Engine::new(Size::new(800, 600), 1000).unwrap();
    engine.process_event(InputEvent::Resized(Size::new(0, 300)));
    assert!(!engine.chain.usable);
    assert_eq!(engine.chain.descriptor.width, 800);
    assert_eq!(engine.chain.descriptor.height, 600);
    assert_eq!(engine.size, Size::new(0, 300));
}

#[test]
fn acquire_succeeds_only_at_matching_positive_size() {
    let size = Size::new(320, 200);
    let chain = PresentationChain::create(PresentationDescriptor::initial(size));
    let target = chain.acquire_frame(size).unwrap();
    assert_eq!(target.width, 320);
    assert_eq!(target.height, 200);

    // Stale against a size the descriptor does not match.
    let err = chain.acquire_frame(Size::new(640, 400)).unwrap_err();
    assert_eq!(err, EngineError::PresentationStale);

    // Unusable after surface loss, even at the matching size.
    let mut lost = chain;
    lost.invalidate();
    assert_eq!(lost.acquire_frame(size).unwrap_err(), EngineError::PresentationStale);
}

#[test]
fn lost_surface_recovers_by_resize_and_retry() {
    let mut engine = Engine::new(Size::new(800, 600), 1000).unwrap();
    engine.chain.invalidate();
    let outcome = engine.redraw(1_000);
    assert_eq!(outcome, RedrawOutcome::Recovered);
    assert_eq!(engine.submissions.len(), 1);
    assert_eq!(engine.submissions[0].target_width, 800);
    assert!(engine.chain.usable);
}

#[test]
fn zero_size_window_skips_rendering_without_failing() {
    let mut engine = Engine::new(Size::new(800, 600), 1000).unwrap();
    engine.process_event(InputEvent::Resized(Size::new(0, 0)));
    let outcome = engine.redraw(1_000);
    assert_eq!(outcome, RedrawOutcome::Skipped);
    assert_eq!(engine.submissions.len(), 0);

    // A positive size arrives again: rendering resumes.
    engine.process_event(InputEvent::Resized(Size::new(200, 100)));
    let outcome = engine.redraw(2_000);
    assert_eq!(outcome, RedrawOutcome::Submitted);
    assert_eq!(engine.submissions.len(), 1);
    assert_eq!(engine.submissions[0].target_width, 200);
}

#[test]
fn error_descriptions_name_the_failure() {
    assert_eq!(EngineError::FatalInit.describe(), "no compatible graphics device or surface");
    assert_eq!(EngineError::PresentationStale.describe(), "presentation chain is stale");
}
