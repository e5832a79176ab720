//! One render-context pass per frame, in the fixed order: serialize the
//! snapshot for upload, assemble (or reuse) the bind group, then advance the
//! compute stage and decide the dispatch. A dispatch is only ever issued
//! against a bind group built from this frame's texture — a stale or absent
//! bind group structurally yields no dispatch, and the stage then holds its
//! state so no phase is ever skipped.

use vstd::prelude::*;

use crate::bindgroup::{ensure_spec, BindGroupAssembler, BindOutcome, ResourceHandles};
use crate::codec::{encode_snapshot, is_upload_of, UploadPayload};
use crate::domain::SimulationDomain;
use crate::layout::layout_of;
use crate::pipeline::PipelineCache;
use crate::snapshot::SimulationSnapshot;
use crate::stage::{dispatch_of, step_state, ComputeStage, FrameAction};

verus! {

/// Everything one render-context pass produced: the serialized buffers to
/// write, what the assembler did, and the stage's decision.
#[derive(Clone, PartialEq, Eq, Debug)]
pub struct FrameOutput {
    pub payload: UploadPayload,
    pub bind_outcome: BindOutcome,
    pub action: FrameAction,
}

/// Runs the render context for one frame over a snapshot handed across from
/// the simulation context by value.
///
/// The payload is always produced, full-length for every binding; the
/// returned dispatch, if any, is for the state the stage now stands in and
/// binds this frame's texture. While no bind group can stand (texture
/// missing or just replaced without its buffers), the stage does not
/// advance, so the init phase can never be skipped past.
pub fn render_frame(
    stage: &mut ComputeStage,
    assembler: &mut BindGroupAssembler,
    cache: &PipelineCache,
    domain: &SimulationDomain,
    snapshot: &SimulationSnapshot,
    handles: &ResourceHandles,
) -> (r: FrameOutput)
    requires
        domain.wf(),
        old(stage).consistent_with(*cache),
        old(assembler).wf(),
        old(assembler).next_serial < u64::MAX,
    ensures
        is_upload_of(r.payload, *snapshot, *domain),
        r.payload.time@.len() == layout_of(*domain).time.byte_size,
        r.payload.cursor@.len() == layout_of(*domain).cursor.byte_size,
        r.payload.bodies@.len() == layout_of(*domain).bodies.byte_size,
        r.payload.landmarks@.len() == layout_of(*domain).landmarks.byte_size,
        *final(assembler) == ensure_spec(*old(assembler), *handles).0,
        r.bind_outcome == ensure_spec(*old(assembler), *handles).1,
        final(assembler).wf(),
        final(stage).consistent_with(*cache),
        final(assembler).current is Some ==> {
            &&& final(stage).state == step_state(old(stage).state, cache.init.readiness, cache.update.readiness)
            &&& r.action.dispatch == dispatch_of(final(stage).state, *domain)
        },
        final(assembler).current is None ==> *final(stage) == *old(stage) && r.action.dispatch
            is None,
        r.action.dispatch is Some ==> (final(assembler).current matches Some(bg)
            && handles.texture == Some(bg.texture)),
        r.action.init_failed <==> cache.init.readiness is Failed,
        r.action.update_failed <==> cache.update.readiness is Failed,
{
    let payload = encode_snapshot(snapshot, domain);
    let bind_outcome = assembler.ensure(handles);
    let action = if assembler.current.is_some() {
        stage.frame(cache, domain)
    } else {
        FrameAction {
            dispatch: Option::None,
            init_failed: matches!(cache.init.readiness, crate::pipeline::Readiness::Failed),
            update_failed: matches!(cache.update.readiness, crate::pipeline::Readiness::Failed),
        }
    };
    FrameOutput { payload, bind_outcome, action }
}

} // verus!
