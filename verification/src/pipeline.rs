//! The pipeline cache: the readiness of the two compute pipeline variants,
//! and the descriptions — bind-group layout and pipeline descriptors — that
//! the application compiles them from.
//!
//! Compilation itself happens off the critical path, on the GPU side. The
//! cache only records what the per-frame readiness poll reported, and makes
//! a reported terminal state (`Ready` or `Failed`) stick: once a variant has
//! compiled or failed, no later poll can change that.

use vstd::prelude::*;

use crate::domain::SimulationDomain;
use crate::layout::{
    BufferLayout, BODIES_BINDING, CURSOR_BINDING, LANDMARKS_BINDING, TEXTURE_BINDING, TIME_BINDING,
};

verus! {

/// Compilation state of one pipeline variant, as last polled. `Ready` and
/// `Failed` are terminal; `Failed` is surfaced every frame and never retried.
#[derive(Clone, Copy, PartialEq, Eq, Structural, Debug)]
pub enum Readiness {
    Pending,
    Ready,
    Failed,
}

/// The two compute entry points: `Init` writes the texture's starting state
/// once, `Update` advances it every frame after that.
#[derive(Clone, Copy, PartialEq, Eq, Structural, Debug)]
pub enum PipelineKind {
    Init,
    Update,
}

/// What one bind-group slot holds.
#[derive(Clone, Copy, PartialEq, Eq, Structural, Debug)]
pub enum BindingKind {
    /// The read-write RGBA8 storage texture; it has no byte size here.
    StorageTexture,
    /// A uniform buffer with the given minimum byte size.
    UniformBuffer { min_byte_size: u64 },
}

/// One entry of the bind-group layout, visible to the compute stage only.
#[derive(Clone, Copy, PartialEq, Eq, Structural, Debug)]
pub struct LayoutEntry {
    pub binding_index: u32,
    pub kind: BindingKind,
}

/// What one pipeline variant is compiled from: its entry point, against the
/// shared bind-group layout, with the shader's compile-time array bounds
/// pinned to the domain's capacities.
#[derive(Clone, Copy, PartialEq, Eq, Structural, Debug)]
pub struct PipelineDescriptor {
    pub entry_point: PipelineKind,
    pub body_capacity: u32,
    pub landmark_capacity: u32,
}

/// The five bind-group layout entries the registry prescribes, in binding
/// order: the storage texture, then one uniform per sized field with that
/// field's byte size as the minimum binding size.
pub open spec fn layout_entries_of(layout: BufferLayout) -> Seq<LayoutEntry> {
    seq![
        LayoutEntry { binding_index: TEXTURE_BINDING, kind: BindingKind::StorageTexture },
        LayoutEntry {
            binding_index: TIME_BINDING,
            kind: BindingKind::UniformBuffer { min_byte_size: layout.time.byte_size },
        },
        LayoutEntry {
            binding_index: CURSOR_BINDING,
            kind: BindingKind::UniformBuffer { min_byte_size: layout.cursor.byte_size },
        },
        LayoutEntry {
            binding_index: BODIES_BINDING,
            kind: BindingKind::UniformBuffer { min_byte_size: layout.bodies.byte_size },
        },
        LayoutEntry {
            binding_index: LANDMARKS_BINDING,
            kind: BindingKind::UniformBuffer { min_byte_size: layout.landmarks.byte_size },
        },
    ]
}

/// Builds the bind-group layout description from the registry.
pub fn bind_group_layout_entries(layout: &BufferLayout) -> (r: Vec<LayoutEntry>)
    ensures
        r@ == layout_entries_of(*layout),
{
    let mut out: Vec<LayoutEntry> = Vec::new();
    out.push(LayoutEntry { binding_index: TEXTURE_BINDING, kind: BindingKind::StorageTexture });
    out.push(
        LayoutEntry {
            binding_index: TIME_BINDING,
            kind: BindingKind::UniformBuffer { min_byte_size: layout.time.byte_size },
        },
    );
    out.push(
        LayoutEntry {
            binding_index: CURSOR_BINDING,
            kind: BindingKind::UniformBuffer { min_byte_size: layout.cursor.byte_size },
        },
    );
    out.push(
        LayoutEntry {
            binding_index: BODIES_BINDING,
            kind: BindingKind::UniformBuffer { min_byte_size: layout.bodies.byte_size },
        },
    );
    out.push(
        LayoutEntry {
            binding_index: LANDMARKS_BINDING,
            kind: BindingKind::UniformBuffer { min_byte_size: layout.landmarks.byte_size },
        },
    );
    proof {
        assert(out@ =~= layout_entries_of(*layout));
    }
    out
}

impl PipelineKind {
    /// The shader entry point name this variant is compiled against.
    pub fn entry_point_name(&self) -> (r: &'static str)
        ensures
            self is Init ==> r@ == "init"@,
            self is Update ==> r@ == "update"@,
    {
        match self {
            PipelineKind::Init => "init",
            PipelineKind::Update => "update",
        }
    }

    /// The descriptor this variant is compiled from for the given domain:
    /// its entry point, with the shader-side array bounds set to exactly the
    /// domain's capacities (the layout registry sizes the buffers from the
    /// same values, which is what keeps the two sides in agreement).
    pub fn descriptor(&self, domain: &SimulationDomain) -> (r: PipelineDescriptor)
        ensures
            r.entry_point == *self,
            r.body_capacity == domain.body_capacity,
            r.landmark_capacity == domain.landmark_capacity,
    {
        PipelineDescriptor {
            entry_point: *self,
            body_capacity: domain.body_capacity,
            landmark_capacity: domain.landmark_capacity,
        }
    }
}

/// What a poll may turn an already recorded state into: a pending variant
/// takes whatever was observed; a terminal state never changes.
pub open spec fn advanced(recorded: Readiness, observed: Readiness) -> Readiness {
    if recorded is Pending {
        observed
    } else {
        recorded
    }
}

/// One queued pipeline variant: the opaque id the GPU-side compilation
/// queue handed back for it, and its compilation state as last recorded.
#[derive(Clone, Copy, PartialEq, Eq, Structural, Debug)]
pub struct PipelineHandle {
    pub id: u64,
    pub readiness: Readiness,
}

/// The two pipeline handles. Owned by one place; the compute stage reads
/// them by shared reference only.
#[derive(Clone, Copy, PartialEq, Eq, Structural, Debug)]
pub struct PipelineCache {
    pub init: PipelineHandle,
    pub update: PipelineHandle,
}

impl PipelineCache {
    /// A cache over two freshly queued compilations: both variants pending,
    /// nothing heard back yet.
    pub fn new(init_id: u64, update_id: u64) -> (r: PipelineCache)
        ensures
            r.init.id == init_id,
            r.update.id == update_id,
            r.init.readiness is Pending,
            r.update.readiness is Pending,
    {
        PipelineCache {
            init: PipelineHandle { id: init_id, readiness: Readiness::Pending },
            update: PipelineHandle { id: update_id, readiness: Readiness::Pending },
        }
    }

    /// Non-blocking readiness query for one variant.
    pub fn readiness(&self, kind: PipelineKind) -> (r: Readiness)
        ensures
            kind is Init ==> r == self.init.readiness,
            kind is Update ==> r == self.update.readiness,
    {
        match kind {
            PipelineKind::Init => self.init.readiness,
            PipelineKind::Update => self.update.readiness,
        }
    }

    /// Records one frame's poll of both variants. Terminal states stick: a
    /// variant already `Ready` or `Failed` keeps that state whatever the
    /// poll reported, so a failure is never silently retried. The handle
    /// ids never change.
    pub fn record_poll(&mut self, init_observed: Readiness, update_observed: Readiness)
        ensures
            final(self).init.readiness == advanced(old(self).init.readiness, init_observed),
            final(self).update.readiness == advanced(old(self).update.readiness, update_observed),
            final(self).init.id == old(self).init.id,
            final(self).update.id == old(self).update.id,
    {
        if matches!(self.init.readiness, Readiness::Pending) {
            self.init.readiness = init_observed;
        }
        if matches!(self.update.readiness, Readiness::Pending) {
            self.update.readiness = update_observed;
        }
    }
}

} // verus!
