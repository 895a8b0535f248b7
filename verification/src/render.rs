//! Per-frame rendering: buffer upload, command encoding and submission.
//!
//! Rendering is two-phase. `upload` sizes the GPU-visible vertex and index
//! buffers to fit the frame's paint jobs and records the texture atlas;
//! `encode_and_submit` acquires the current presentable image, records one
//! command buffer that clears it to the given color and draws every paint
//! job in composition order — later jobs on top of earlier ones — and
//! submits it.

use vstd::prelude::*;
use crate::geometry::{ScreenDescriptor, Size};
use crate::compose::{PaintJob, UiFrameState, total_indices, total_vertices, lemma_totals_nonneg, lemma_totals_take_le, lemma_totals_take_succ};
use crate::presentation::PresentationChain;
use crate::error::EngineError;

verus! {

/// The color the target is cleared to before the UI is drawn, with each
/// channel in 0..=255. The shell always clears to opaque blue.
#[derive(Clone, Copy, PartialEq, Eq, Structural, Debug)]
pub struct ClearColor {
    pub red: u8,
    pub green: u8,
    pub blue: u8,
    pub alpha: u8,
}

/// The fixed background color: opaque blue.
pub open spec fn spec_background() -> ClearColor {
    ClearColor { red: 0, green: 0, blue: 255, alpha: 255 }
}

pub fn background() -> (c: ClearColor)
    ensures
        c == spec_background(),
{
    ClearColor { red: 0, green: 0, blue: 255, alpha: 255 }
}

/// The record of one submitted command buffer: what it cleared to, the
/// paint jobs it drew in order, and the dimensions of the target it drew
/// into.
#[derive(Debug)]
pub struct CommandBuffer {
    pub clear_color: ClearColor,
    pub jobs: Vec<PaintJob>,
    pub target_width: u32,
    pub target_height: u32,
}

/// Sum of the vertex counts of a frame's paint jobs.
pub fn sum_vertices(jobs: &Vec<PaintJob>) -> (total: u64)
    requires
        total_vertices(jobs@) <= u64::MAX,
    ensures
        total == total_vertices(jobs@),
{
    let mut total: u64 = 0;
    let mut i: usize = 0;
    proof {
        assert(jobs@.take(0) =~= Seq::<PaintJob>::empty());
        assert(total_vertices(Seq::<PaintJob>::empty()) == 0);
    }
    while i < jobs.len()
        invariant
            0 <= i <= jobs@.len(),
            total == total_vertices(jobs@.take(i as int)),
            total_vertices(jobs@) <= u64::MAX,
        decreases jobs@.len() - i,
    {
        proof {
            lemma_totals_take_succ(jobs@, i as int);
            lemma_totals_take_le(jobs@, i + 1);
            lemma_totals_nonneg(jobs@.take(i + 1));
        }
        total = total + jobs[i].vertex_count as u64;
        i = i + 1;
    }
    proof {
        assert(jobs@.take(jobs@.len() as int) =~= jobs@);
    }
    total
}

/// Sum of the index counts of a frame's paint jobs.
pub fn sum_indices(jobs: &Vec<PaintJob>) -> (total: u64)
    requires
        total_indices(jobs@) <= u64::MAX,
    ensures
        total == total_indices(jobs@),
{
    let mut total: u64 = 0;
    let mut i: usize = 0;
    proof {
        assert(jobs@.take(0) =~= Seq::<PaintJob>::empty());
        assert(total_indices(Seq::<PaintJob>::empty()) == 0);
    }
    while i < jobs.len()
        invariant
            0 <= i <= jobs@.len(),
            total == total_indices(jobs@.take(i as int)),
            total_indices(jobs@) <= u64::MAX,
        decreases jobs@.len() - i,
    {
        proof {
            lemma_totals_take_succ(jobs@, i as int);
            lemma_totals_take_le(jobs@, i + 1);
            lemma_totals_nonneg(jobs@.take(i + 1));
        }
        total = total + jobs[i].index_count as u64;
        i = i + 1;
    }
    proof {
        assert(jobs@.take(jobs@.len() as int) =~= jobs@);
    }
    total
}

/// The renderer's persistent GPU-side state: how large the vertex and
/// index buffers currently are, which texture atlas version has been
/// uploaded, and the screen descriptor of the last upload.
pub struct FrameRenderer {
    pub vertex_capacity: u64,
    pub index_capacity: u64,
    pub uploaded_texture_version: u64,
    pub uploaded_screen: ScreenDescriptor,
}

impl FrameRenderer {
    /// Whether the buffers and atlas currently uploaded fit this frame, so
    /// it can be encoded.
    pub open spec fn fits(self, frame: UiFrameState) -> bool {
        &&& self.vertex_capacity >= total_vertices(frame.paint_jobs@)
        &&& self.index_capacity >= total_indices(frame.paint_jobs@)
        &&& self.uploaded_texture_version == frame.texture_version
    }

    pub fn new() -> (r: FrameRenderer)
        ensures
            r.vertex_capacity == 0,
            r.index_capacity == 0,
            r.uploaded_texture_version == 0,
    {
        FrameRenderer {
            vertex_capacity: 0,
            index_capacity: 0,
            uploaded_texture_version: 0,
            uploaded_screen: ScreenDescriptor {
                physical_width: 0,
                physical_height: 0,
                scale_factor_milli: 0,
            },
        }
    }

    /// Write the frame's texture atlas and vertex/index data into
    /// GPU-visible buffers sized to fit. Buffers grow when the frame needs
    /// more room and are retained at their size when it needs less, to
    /// avoid churn.
    pub fn upload(&mut self, frame: &UiFrameState, screen: &ScreenDescriptor)
        requires
            total_vertices(frame.paint_jobs@) <= u64::MAX,
            total_indices(frame.paint_jobs@) <= u64::MAX,
        ensures
            final(self).fits(*frame),
            final(self).vertex_capacity == if total_vertices(frame.paint_jobs@) > old(self).vertex_capacity {
                total_vertices(frame.paint_jobs@) as u64
            } else {
                old(self).vertex_capacity
            },
            final(self).index_capacity == if total_indices(frame.paint_jobs@) > old(self).index_capacity {
                total_indices(frame.paint_jobs@) as u64
            } else {
                old(self).index_capacity
            },
            final(self).vertex_capacity >= old(self).vertex_capacity,
            final(self).index_capacity >= old(self).index_capacity,
            final(self).uploaded_texture_version == frame.texture_version,
            final(self).uploaded_screen == *screen,
    {
        let need_vertices = sum_vertices(&frame.paint_jobs);
        let need_indices = sum_indices(&frame.paint_jobs);
        if need_vertices > self.vertex_capacity {
            self.vertex_capacity = need_vertices;
        }
        if need_indices > self.index_capacity {
            self.index_capacity = need_indices;
        }
        self.uploaded_texture_version = frame.texture_version;
        self.uploaded_screen = *screen;
    }

    /// Acquire the current presentable image from the chain, record one
    /// command buffer that clears it to `clear_color` and draws every
    /// paint job of the frame in order, and submit it. Fails with a
    /// presentation error — and submits nothing — exactly when acquisition
    /// fails against the window's current size.
    pub fn encode_and_submit(
        &self,
        chain: &PresentationChain,
        frame: &UiFrameState,
        screen: &ScreenDescriptor,
        clear_color: ClearColor,
        window: Size,
    ) -> (r: Result<CommandBuffer, EngineError>)
        requires
            self.fits(*frame),
        ensures
            r is Ok <==> chain.spec_can_acquire(window),
            r matches Ok(buffer) ==> {
                &&& buffer.clear_color == clear_color
                &&& buffer.jobs@ == frame.paint_jobs@
                &&& buffer.target_width == chain.descriptor.width
                &&& buffer.target_height == chain.descriptor.height
            },
            r matches Err(e) ==> e is PresentationStale,
    {
        let target = match chain.acquire_frame(window) {
            Ok(t) => t,
            Err(e) => {
                return Err(e);
            },
        };
        let mut drawn: Vec<PaintJob> = Vec::new();
        let mut i: usize = 0;
        proof {
            assert(drawn@ =~= frame.paint_jobs@.take(0));
        }
        while i < frame.paint_jobs.len()
            invariant
                0 <= i <= frame.paint_jobs@.len(),
                drawn@ == frame.paint_jobs@.take(i as int),
            decreases frame.paint_jobs@.len() - i,
        {
            drawn.push(frame.paint_jobs[i]);
            proof {
                assert(drawn@ =~= frame.paint_jobs@.take(i + 1));
            }
            i = i + 1;
        }
        proof {
            assert(frame.paint_jobs@.take(frame.paint_jobs@.len() as int) =~= frame.paint_jobs@);
        }
        Ok(CommandBuffer {
            clear_color,
            jobs: drawn,
            target_width: target.width,
            target_height: target.height,
        })
    }
}

} // verus!
