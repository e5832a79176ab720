//! The compute stage state machine: Loading until the init pipeline is
//! ready, Init until the update pipeline is ready, then Update for good.
//! Each frame it yields at most one dispatch command over the full
//! simulation domain; in Loading it dispatches nothing, and a failed
//! pipeline is never dispatched and never transitioned into.

use vstd::prelude::*;

use crate::domain::{ceil_div, SimulationDomain};
use crate::pipeline::{PipelineCache, PipelineKind, Readiness};

verus! {

/// Where the stage is in its life cycle. `Loading` is initial; `Update` is
/// terminal, entered once and held.
#[derive(Clone, Copy, PartialEq, Eq, Structural, Debug)]
pub enum StageState {
    Loading,
    Init,
    Update,
}

/// One dispatch of one pipeline over the tiled simulation domain.
#[derive(Clone, Copy, PartialEq, Eq, Structural, Debug)]
pub struct DispatchCommand {
    pub pipeline: PipelineKind,
    pub groups_x: u32,
    pub groups_y: u32,
    pub groups_z: u32,
}

/// The transition table. From `Loading`, move to `Init` exactly when the
/// init pipeline reports `Ready`; from `Init`, move to `Update` exactly when
/// the update pipeline reports `Ready`; `Update` is held forever. A `Failed`
/// report is terminal for its variant, so the machine never advances past a
/// failed pipeline.
pub open spec fn step_state(s: StageState, init_r: Readiness, update_r: Readiness) -> StageState {
    match s {
        StageState::Loading => if init_r is Ready {
            StageState::Init
        } else {
            StageState::Loading
        },
        StageState::Init => if update_r is Ready {
            StageState::Update
        } else {
            StageState::Init
        },
        StageState::Update => StageState::Update,
    }
}

/// Which pipeline a frame in the given state dispatches: none while loading,
/// the init variant in `Init`, the update variant in `Update`.
pub open spec fn dispatched_kind(s: StageState) -> Option<PipelineKind> {
    match s {
        StageState::Loading => None,
        StageState::Init => Some(PipelineKind::Init),
        StageState::Update => Some(PipelineKind::Update),
    }
}

/// The dispatch a frame in state `s` issues over `domain`: the state's
/// pipeline, tiled `ceil(width/tile) x ceil(height/tile) x 1`.
pub open spec fn dispatch_of(s: StageState, domain: SimulationDomain) -> Option<DispatchCommand> {
    match dispatched_kind(s) {
        Option::None => Option::None,
        Option::Some(kind) => Option::Some(
            DispatchCommand {
                pipeline: kind,
                groups_x: ceil_div(domain.texture_width as int, domain.tile_size as int) as u32,
                groups_y: ceil_div(domain.texture_height as int, domain.tile_size as int) as u32,
                groups_z: 1,
            },
        ),
    }
}

/// What one frame of the compute stage decided: the dispatch to issue, if
/// any, and whether either pipeline variant stands failed (surfaced every
/// frame as a persistent warning, never retried).
#[derive(Clone, Copy, PartialEq, Eq, Structural, Debug)]
pub struct FrameAction {
    pub dispatch: Option<DispatchCommand>,
    pub init_failed: bool,
    pub update_failed: bool,
}

/// The compute stage. Persists across frames; reads the pipeline cache by
/// shared reference only.
#[derive(Clone, Copy, PartialEq, Eq, Structural, Debug)]
pub struct ComputeStage {
    pub state: StageState,
}

impl ComputeStage {
    /// The stage never got ahead of the cache: it only sits in a state whose
    /// pipeline has compiled.
    pub open spec fn consistent_with(self, cache: PipelineCache) -> bool {
        &&& self.state is Init ==> cache.init.readiness is Ready
        &&& self.state is Update ==> cache.update.readiness is Ready
    }

    /// A fresh stage: loading, nothing dispatched yet.
    pub fn new() -> (r: ComputeStage)
        ensures
            r.state is Loading,
    {
        ComputeStage { state: StageState::Loading }
    }

    /// Advances one frame: transitions on the recorded readiness, then
    /// yields the new state's dispatch over the domain. Nothing is ever
    /// dispatched while loading, and a dispatched pipeline is always one the
    /// cache records as `Ready`.
    pub fn frame(&mut self, cache: &PipelineCache, domain: &SimulationDomain) -> (r: FrameAction)
        requires
            domain.wf(),
            old(self).consistent_with(*cache),
        ensures
            final(self).state == step_state(old(self).state, cache.init.readiness, cache.update.readiness),
            final(self).consistent_with(*cache),
            r.dispatch == dispatch_of(final(self).state, *domain),
            (r.dispatch matches Some(cmd) && cmd.pipeline is Init) ==> cache.init.readiness is Ready,
            (r.dispatch matches Some(cmd) && cmd.pipeline is Update) ==> cache.update.readiness is Ready,
            r.init_failed <==> cache.init.readiness is Failed,
            r.update_failed <==> cache.update.readiness is Failed,
    {
        self.state = match self.state {
            StageState::Loading => {
                if matches!(cache.init.readiness, Readiness::Ready) {
                    StageState::Init
                } else {
                    StageState::Loading
                }
            },
            StageState::Init => {
                if matches!(cache.update.readiness, Readiness::Ready) {
                    StageState::Update
                } else {
                    StageState::Init
                }
            },
            StageState::Update => StageState::Update,
        };
        let dispatch = match self.state {
            StageState::Loading => Option::None,
            StageState::Init | StageState::Update => {
                let (groups_x, groups_y, groups_z) = domain.workgroup_grid();
                let kind = if matches!(self.state, StageState::Init) {
                    PipelineKind::Init
                } else {
                    PipelineKind::Update
                };
                Option::Some(DispatchCommand { pipeline: kind, groups_x, groups_y, groups_z })
            },
        };
        FrameAction {
            dispatch,
            init_failed: matches!(cache.init.readiness, Readiness::Failed),
            update_failed: matches!(cache.update.readiness, Readiness::Failed),
        }
    }
}

/// The state after a whole scripted run: one `(init, update)` readiness pair
/// per frame, starting from `Loading`.
pub open spec fn state_after(polls: Seq<(Readiness, Readiness)>) -> StageState
    decreases polls.len(),
{
    if polls.len() == 0 {
        StageState::Loading
    } else {
        step_state(state_after(polls.drop_last()), polls.last().0, polls.last().1)
    }
}

/// The machine leaves `Loading` exactly when the init pipeline first
/// reports `Ready`: a run still stands in `Loading` precisely while no poll
/// so far has.
pub proof fn lemma_loading_until_init_ready(polls: Seq<(Readiness, Readiness)>)
    ensures
        state_after(polls) is Loading <==> (forall|i: int|
            0 <= i < polls.len() ==> !((#[trigger] polls[i]).0 is Ready)),
    decreases polls.len(),
{
    if polls.len() > 0 {
        lemma_loading_until_init_ready(polls.drop_last());
        assert(forall|i: int|
            0 <= i < polls.len() - 1 ==> polls.drop_last()[i] == #[trigger] polls[i]);
    }
}

/// Ordering guarantee: however readiness arrives, a run that stands in
/// `Update` — and so dispatches the update pipeline — passed through a frame
/// that stood in `Init` and dispatched the init pipeline first.
pub proof fn lemma_init_dispatched_before_update(polls: Seq<(Readiness, Readiness)>)
    requires
        state_after(polls) is Update,
    ensures
        exists|j: int| 0 <= j < polls.len() && state_after(#[trigger] polls.take(j + 1)) is Init,
    decreases polls.len(),
{
    let prev = state_after(polls.drop_last());
    if prev is Init {
        assert(polls.take(polls.len() - 1) =~= polls.drop_last());
        assert(state_after(polls.take(polls.len() - 2 + 1)) is Init);
    } else {
        assert(prev is Update);
        lemma_init_dispatched_before_update(polls.drop_last());
        let j = choose|j: int|
            0 <= j < polls.drop_last().len() && state_after(
                #[trigger] polls.drop_last().take(j + 1),
            ) is Init;
        assert(polls.drop_last().take(j + 1) =~= polls.take(j + 1));
        assert(state_after(polls.take(j + 1)) is Init);
    }
}

} // verus!
