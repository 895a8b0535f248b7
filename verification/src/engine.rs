//! The engine: one window's presentation lifecycle as a state machine.
//!
//! The platform loop delivers events and redraw requests; the engine
//! decides. An input event is forwarded to the UI layer exactly once and,
//! for a resize, the presentation chain is re-created before the next
//! frame; a close request or a pressed Escape terminates the engine; a
//! redraw composes the UI once, uploads it, and submits one command buffer
//! — recovering from a stale chain by one forced resize-and-retry, and
//! skipping the render step entirely at a zero window size or after
//! termination.

use vstd::prelude::*;
use crate::geometry::{ScreenDescriptor, Size};
use crate::input::{InputBridge, InputEvent};
use crate::compose::{PaintJob, UiComposer, UiFrameState, lemma_ui_jobs_totals, spec_composed, ui_jobs};
use crate::presentation::{chain_step, PresentationChain, PresentationDescriptor};
use crate::render::{background, spec_background, CommandBuffer, FrameRenderer};
use crate::error::EngineError;

verus! {

/// Whether the engine still accepts frames. `Terminated` is final: no
/// device or chain operation may happen after entry.
#[derive(Clone, Copy, PartialEq, Eq, Structural, Debug)]
pub enum EngineStatus {
    Ready,
    Terminated,
}

/// What the platform loop should do after one delivered event.
#[derive(Clone, Copy, PartialEq, Eq, Structural, Debug)]
pub enum LoopFlow {
    Continue,
    Exit,
}

/// How one redraw request ended.
#[derive(Clone, Copy, PartialEq, Eq, Structural, Debug)]
pub enum RedrawOutcome {
    /// The frame was submitted at the first acquisition.
    Submitted,
    /// The first acquisition failed; one forced resize-and-retry submitted
    /// the frame.
    Recovered,
    /// No command buffer was submitted: the engine is terminated or the
    /// window has a zero dimension.
    Skipped,
}

/// One more command buffer was submitted: the record grew by exactly that
/// buffer — clearing to the background color, drawing `jobs` in order onto
/// a target of the given dimensions — and nothing already submitted
/// changed.
pub open spec fn submitted_one(
    pre: Seq<CommandBuffer>,
    post: Seq<CommandBuffer>,
    jobs: Seq<PaintJob>,
    width: u32,
    height: u32,
) -> bool {
    &&& post.len() == pre.len() + 1
    &&& (forall|i: int| 0 <= i < pre.len() ==> post[i] == pre[i])
    &&& post.last().clear_color == spec_background()
    &&& post.last().jobs@ == jobs
    &&& post.last().target_width == width
    &&& post.last().target_height == height
}

/// The whole shell: current window size, the exclusively owned
/// presentation chain, the UI layer, the renderer, and the record of every
/// command buffer submitted so far, in submission order.
pub struct Engine {
    pub size: Size,
    pub chain: PresentationChain,
    pub bridge: InputBridge,
    pub composer: UiComposer,
    pub renderer: FrameRenderer,
    pub status: EngineStatus,
    /// The frame composed and uploaded by the last `update`, awaiting
    /// `render`; consumed conceptually, discarded at the next `update`.
    pub current_frame: Option<UiFrameState>,
    pub submissions: Vec<CommandBuffer>,
}

impl Engine {
    /// The engine invariant: the chain's descriptor always holds a
    /// positive size, whatever the window reports.
    pub open spec fn wf(self) -> bool {
        self.chain.descriptor.wf()
    }

    /// An `update` has composed and uploaded a frame that the renderer's
    /// buffers fit, so `render` may encode it.
    pub open spec fn frame_ready(self) -> bool {
        match self.current_frame {
            Some(frame) => self.renderer.fits(frame),
            None => false,
        }
    }

    /// The paint jobs of the frame awaiting `render`.
    pub open spec fn current_jobs(self) -> Seq<PaintJob> {
        match self.current_frame {
            Some(frame) => frame.paint_jobs@,
            None => Seq::<PaintJob>::empty(),
        }
    }

    /// Bring the shell up at the window's starting size. Fails fatally —
    /// there is no degraded mode — exactly when no initial surface can
    /// exist, that is, when a dimension of the window is zero.
    pub fn new(window_size: Size, scale_factor_milli: u32) -> (r: Result<Engine, EngineError>)
        ensures
            r is Ok <==> window_size.spec_positive(),
            r matches Ok(e) ==> {
                &&& e.wf()
                &&& e.size == window_size
                &&& e.chain.descriptor == PresentationDescriptor::spec_initial(window_size)
                &&& e.chain.usable
                &&& e.composer.input.events@ == Seq::<InputEvent>::empty()
                &&& e.composer.clock.elapsed_micros == 0
                &&& e.composer.scale_factor_milli == scale_factor_milli
                &&& e.status is Ready
                &&& e.current_frame is None
                &&& e.submissions@ == Seq::<CommandBuffer>::empty()
            },
            r matches Err(err) ==> err is FatalInit,
    {
        if !window_size.positive() {
            return Err(EngineError::FatalInit);
        }
        let descriptor = PresentationDescriptor::initial(window_size);
        let chain = PresentationChain::create(descriptor);
        Ok(Engine {
            size: window_size,
            chain,
            bridge: InputBridge::new(),
            composer: UiComposer::new(scale_factor_milli),
            renderer: FrameRenderer::new(),
            status: EngineStatus::Ready,
            current_frame: None,
            submissions: Vec::new(),
        })
    }

    /// Apply one observed window size: record it and re-create the chain
    /// against it — or, at a zero size, only mark the chain unusable, so
    /// that no frame is acquired until a positive size arrives.
    pub fn resize(&mut self, new_size: Size)
        requires
            old(self).wf(),
        ensures
            final(self).wf(),
            final(self).size == new_size,
            final(self).chain == chain_step(old(self).chain, new_size),
            final(self).bridge == old(self).bridge,
            final(self).composer == old(self).composer,
            final(self).renderer == old(self).renderer,
            final(self).status == old(self).status,
            final(self).current_frame == old(self).current_frame,
            final(self).submissions == old(self).submissions,
    {
        self.size = new_size;
        if new_size.positive() {
            self.chain.resize(new_size);
        } else {
            self.chain.invalidate();
        }
    }

    /// Take one platform event: forward it to the UI layer's accumulator
    /// exactly once, in delivery order, and apply a resize at once. Every
    /// other event kind is a legitimate no-op here, not a fault.
    pub fn input(&mut self, event: InputEvent)
        requires
            old(self).wf(),
        ensures
            final(self).wf(),
            final(self).composer.input.events@ == old(self).composer.input.events@.push(event),
            final(self).composer.clock == old(self).composer.clock,
            final(self).composer.scale_factor_milli == old(self).composer.scale_factor_milli,
            final(self).composer.texture_version == old(self).composer.texture_version,
            event matches InputEvent::Resized(s) ==> {
                &&& final(self).size == s
                &&& final(self).chain == chain_step(old(self).chain, s)
            },
            !(event is Resized) ==> {
                &&& final(self).size == old(self).size
                &&& final(self).chain == old(self).chain
            },
            final(self).status == old(self).status,
            final(self).renderer == old(self).renderer,
            final(self).current_frame == old(self).current_frame,
            final(self).submissions == old(self).submissions,
    {
        self.bridge.forward(&mut self.composer.input, event);
        if let InputEvent::Resized(new_size) = event {
            self.resize(new_size);
        }
    }

    /// The loop's decision on one delivered event: forward it as `input`
    /// does, then terminate on a close request or on a *pressed* Escape
    /// key — a release of Escape continues — and tell the loop whether to
    /// exit. Termination is final.
    pub fn process_event(&mut self, event: InputEvent) -> (flow: LoopFlow)
        requires
            old(self).wf(),
        ensures
            final(self).wf(),
            final(self).composer.input.events@ == old(self).composer.input.events@.push(event),
            event matches InputEvent::Resized(s) ==> {
                &&& final(self).size == s
                &&& final(self).chain == chain_step(old(self).chain, s)
            },
            !(event is Resized) ==> {
                &&& final(self).size == old(self).size
                &&& final(self).chain == old(self).chain
            },
            flow is Exit <==> (event is CloseRequested
                || event matches InputEvent::EscapeKey { pressed: true }),
            final(self).status is Terminated <==> (old(self).status is Terminated
                || event is CloseRequested
                || event matches InputEvent::EscapeKey { pressed: true }),
            final(self).composer.clock == old(self).composer.clock,
            final(self).renderer == old(self).renderer,
            final(self).current_frame == old(self).current_frame,
            final(self).submissions == old(self).submissions,
    {
        self.input(event);
        let exit = match event {
            InputEvent::CloseRequested => true,
            InputEvent::EscapeKey { pressed } => pressed,
            _ => false,
        };
        if exit {
            self.status = EngineStatus::Terminated;
            LoopFlow::Exit
        } else {
            LoopFlow::Continue
        }
    }

    /// The first half of one frame: advance the UI clock once, compose the
    /// widget tree against the input accumulated so far, and upload the
    /// frame's draw data and texture atlas, leaving the frame ready to
    /// encode.
    pub fn update(&mut self, now_micros: u64)
        requires
            old(self).wf(),
        ensures
            final(self).wf(),
            final(self).frame_ready(),
            final(self).composer == spec_composed(old(self).composer, now_micros),
            final(self).current_jobs() == ui_jobs(old(self).composer.input.events@, old(self).size),
            final(self).current_frame matches Some(frame) ==> {
                &&& frame.elapsed_micros == final(self).composer.clock.elapsed_micros
                &&& frame.scale_factor_milli == old(self).composer.scale_factor_milli
                &&& frame.texture_version == old(self).composer.texture_version
            },
            final(self).size == old(self).size,
            final(self).chain == old(self).chain,
            final(self).status == old(self).status,
            final(self).submissions == old(self).submissions,
    {
        proof {
            lemma_ui_jobs_totals(self.composer.input.events@, self.size);
        }
        let now_size = self.size;
        let frame = self.composer.compose(now_size, now_micros);
        let screen = ScreenDescriptor::of(now_size, self.composer.scale_factor_milli);
        self.renderer.upload(&frame, &screen);
        self.current_frame = Some(frame);
    }

    /// The second half of one frame: acquire the current image, encode one
    /// command buffer clearing it to the background color and drawing the
    /// uploaded frame's paint jobs in order, and submit it. Fails — and
    /// changes nothing — exactly when the chain cannot serve the window's
    /// current size; the remedy is a forced resize and one retry.
    pub fn render(&mut self) -> (r: Result<(), EngineError>)
        requires
            old(self).frame_ready(),
        ensures
            r is Ok <==> old(self).chain.spec_can_acquire(old(self).size),
            r is Ok ==> {
                &&& submitted_one(
                    old(self).submissions@,
                    final(self).submissions@,
                    old(self).current_jobs(),
                    old(self).chain.descriptor.width,
                    old(self).chain.descriptor.height,
                )
                &&& final(self).size == old(self).size
                &&& final(self).chain == old(self).chain
                &&& final(self).status == old(self).status
                &&& final(self).composer == old(self).composer
                &&& final(self).renderer == old(self).renderer
                &&& final(self).current_frame == old(self).current_frame
            },
            r is Err ==> *final(self) == *old(self),
            r matches Err(e) ==> e is PresentationStale,
    {
        let clear_color = background();
        let screen = ScreenDescriptor::of(self.size, self.composer.scale_factor_milli);
        let outcome = match &self.current_frame {
            Some(frame) => self.renderer.encode_and_submit(
                &self.chain,
                frame,
                &screen,
                clear_color,
                self.size,
            ),
            None => {
                proof {
                    assert(false);
                }
                Err(EngineError::PresentationStale)
            },
        };
        match outcome {
            Ok(buffer) => {
                self.submissions.push(buffer);
                Ok(())
            },
            Err(e) => Err(e),
        }
    }

    /// One redraw request, as the platform loop drives it: nothing at all
    /// after termination; otherwise compose and upload once, then submit —
    /// recovering from a failed acquisition by one forced re-creation of
    /// the chain at the current size and one retry, which succeeds if and
    /// only if the window size is positive. A zero-size window skips the
    /// render step instead of failing.
    pub fn redraw(&mut self, now_micros: u64) -> (outcome: RedrawOutcome)
        requires
            old(self).wf(),
        ensures
            final(self).wf(),
            old(self).status is Terminated ==> {
                &&& *final(self) == *old(self)
                &&& outcome is Skipped
            },
            old(self).status is Ready ==> {
                &&& final(self).status is Ready
                &&& final(self).composer == spec_composed(old(self).composer, now_micros)
                &&& final(self).size == old(self).size
                &&& old(self).size.spec_positive() ==> {
                    &&& submitted_one(
                        old(self).submissions@,
                        final(self).submissions@,
                        ui_jobs(old(self).composer.input.events@, old(self).size),
                        old(self).size.width,
                        old(self).size.height,
                    )
                    &&& final(self).chain.usable
                    &&& final(self).chain.descriptor.width == old(self).size.width
                    &&& final(self).chain.descriptor.height == old(self).size.height
                    &&& (outcome is Submitted <==> old(self).chain.spec_can_acquire(old(self).size))
                    &&& (outcome is Recovered <==> !old(self).chain.spec_can_acquire(old(self).size))
                }
                &&& !old(self).size.spec_positive() ==> {
                    &&& final(self).submissions@ == old(self).submissions@
                    &&& !final(self).chain.usable
                    &&& outcome is Skipped
                }
            },
    {
        match self.status {
            EngineStatus::Terminated => RedrawOutcome::Skipped,
            EngineStatus::Ready => {
                self.update(now_micros);
                match self.render() {
                    Ok(()) => RedrawOutcome::Submitted,
                    Err(_) => {
                        // Forced re-creation at the current size, then one retry.
                        let retry_size = self.size;
                        self.resize(retry_size);
                        if retry_size.positive() {
                            let retried = self.render();
                            proof {
                                assert(retried is Ok);
                            }
                            RedrawOutcome::Recovered
                        } else {
                            RedrawOutcome::Skipped
                        }
                    },
                }
            },
        }
    }
}

} // verus!
