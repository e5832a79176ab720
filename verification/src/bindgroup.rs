//! Lazy, resize-aware assembly of the single bind group. The assembler
//! builds once every required resource exists, reuses the built group while
//! the texture handle is unchanged, and discards it the moment the texture
//! is replaced — it never holds a stale texture across a resize.
//!
//! GPU objects appear here only as opaque numeric handles; the application
//! creates the real bind group when (and only when) the assembler reports a
//! rebuild.

use vstd::prelude::*;

verus! {

/// The handles of the resources a bind group is built from, as far as they
/// exist this frame. The texture arrives asynchronously and is replaced on
/// resize; the four buffers are created at startup.
#[derive(Clone, Copy, PartialEq, Eq, Structural, Debug)]
pub struct ResourceHandles {
    pub texture: Option<u64>,
    pub time_buffer: Option<u64>,
    pub cursor_buffer: Option<u64>,
    pub bodies_buffer: Option<u64>,
    pub landmarks_buffer: Option<u64>,
}

impl ResourceHandles {
    /// Everything a bind group needs exists.
    pub open spec fn complete(self) -> bool {
        &&& self.texture is Some
        &&& self.time_buffer is Some
        &&& self.cursor_buffer is Some
        &&& self.bodies_buffer is Some
        &&& self.landmarks_buffer is Some
    }
}

/// One assembled bind group: which resources it binds, and a serial number
/// that identifies the allocation (a rebuild gets a fresh serial, a reuse
/// keeps it).
#[derive(Clone, Copy, PartialEq, Eq, Structural, Debug)]
pub struct BindGroupResource {
    pub texture: u64,
    pub time_buffer: u64,
    pub cursor_buffer: u64,
    pub bodies_buffer: u64,
    pub landmarks_buffer: u64,
    pub serial: u64,
}

/// What one assembly pass did.
#[derive(Clone, Copy, PartialEq, Eq, Structural, Debug)]
pub enum BindOutcome {
    /// Some required resource does not exist yet; no bind group stands.
    NotReady,
    /// The existing bind group binds the current texture; nothing was done.
    Reused,
    /// A bind group was built against the current resources.
    Rebuilt,
    /// The texture went away; the old bind group was discarded.
    Cleared,
}

/// Owner of the current bind group. Only this type ever replaces it.
#[derive(Clone, Copy, PartialEq, Eq, Structural, Debug)]
pub struct BindGroupAssembler {
    pub current: Option<BindGroupResource>,
    pub next_serial: u64,
}

/// The state and outcome one assembly pass leaves behind. With no texture
/// there is no bind group. With a texture, an existing group built against
/// that same texture is kept as is; otherwise a new group is built if every
/// resource exists, and any group built against a replaced texture is
/// discarded.
pub open spec fn ensure_spec(a: BindGroupAssembler, h: ResourceHandles) -> (
    BindGroupAssembler,
    BindOutcome,
) {
    match h.texture {
        Option::None => (
            BindGroupAssembler { current: Option::None, next_serial: a.next_serial },
            if a.current is Some {
                BindOutcome::Cleared
            } else {
                BindOutcome::NotReady
            },
        ),
        Option::Some(texture) => {
            if a.current matches Some(bg) && bg.texture == texture {
                (a, BindOutcome::Reused)
            } else if h.complete() {
                (
                    BindGroupAssembler {
                        current: Option::Some(
                            BindGroupResource {
                                texture,
                                time_buffer: h.time_buffer->0,
                                cursor_buffer: h.cursor_buffer->0,
                                bodies_buffer: h.bodies_buffer->0,
                                landmarks_buffer: h.landmarks_buffer->0,
                                serial: a.next_serial,
                            },
                        ),
                        next_serial: (a.next_serial + 1) as u64,
                    },
                    BindOutcome::Rebuilt,
                )
            } else {
                (
                    BindGroupAssembler { current: Option::None, next_serial: a.next_serial },
                    if a.current is Some {
                        BindOutcome::Cleared
                    } else {
                        BindOutcome::NotReady
                    },
                )
            }
        },
    }
}

impl BindGroupAssembler {
    /// Serials identify allocations: the standing group's serial was issued
    /// before the next one to be handed out.
    pub open spec fn wf(self) -> bool {
        self.current matches Some(bg) ==> bg.serial < self.next_serial
    }

    /// A fresh assembler: no bind group yet, serials from zero.
    pub fn new() -> (r: BindGroupAssembler)
        ensures
            r.current is None,
            r.next_serial == 0,
            r.wf(),
    {
        BindGroupAssembler { current: Option::None, next_serial: 0 }
    }

    /// One assembly pass over the resources that exist this frame. The
    /// resulting bind group, if any, always binds the texture handed in this
    /// very frame — a group built against a replaced texture never survives.
    pub fn ensure(&mut self, handles: &ResourceHandles) -> (r: BindOutcome)
        requires
            old(self).wf(),
            old(self).next_serial < u64::MAX,
        ensures
            *final(self) == ensure_spec(*old(self), *handles).0,
            r == ensure_spec(*old(self), *handles).1,
            final(self).wf(),
            final(self).current matches Some(bg) ==> handles.texture == Some(bg.texture),
            r is Reused ==> *final(self) == *old(self),
    {
        match handles.texture {
            Option::None => {
                let had = self.current.is_some();
                self.current = Option::None;
                if had {
                    BindOutcome::Cleared
                } else {
                    BindOutcome::NotReady
                }
            },
            Option::Some(texture) => {
                let matches_current = match &self.current {
                    Option::Some(bg) => bg.texture == texture,
                    Option::None => false,
                };
                if matches_current {
                    BindOutcome::Reused
                } else {
                    match (
                        &handles.time_buffer,
                        &handles.cursor_buffer,
                        &handles.bodies_buffer,
                        &handles.landmarks_buffer,
                    ) {
                        (
                            Option::Some(time_buffer),
                            Option::Some(cursor_buffer),
                            Option::Some(bodies_buffer),
                            Option::Some(landmarks_buffer),
                        ) => {
                            self.current = Option::Some(
                                BindGroupResource {
                                    texture,
                                    time_buffer: *time_buffer,
                                    cursor_buffer: *cursor_buffer,
                                    bodies_buffer: *bodies_buffer,
                                    landmarks_buffer: *landmarks_buffer,
                                    serial: self.next_serial,
                                },
                            );
                            self.next_serial = self.next_serial + 1;
                            BindOutcome::Rebuilt
                        },
                        _ => {
                            let had = self.current.is_some();
                            self.current = Option::None;
                            if had {
                                BindOutcome::Cleared
                            } else {
                                BindOutcome::NotReady
                            }
                        },
                    }
                }
            },
        }
    }
}

/// Idempotence: a second assembly pass over unchanged handles leaves the
/// assembler exactly as the first left it — same bind group, same serials,
/// so no reallocation — and, when the resources are complete, reports that
/// the standing group was reused.
pub proof fn lemma_ensure_idempotent(a: BindGroupAssembler, h: ResourceHandles)
    ensures
        ensure_spec(ensure_spec(a, h).0, h).0 == ensure_spec(a, h).0,
        h.complete() ==> ensure_spec(ensure_spec(a, h).0, h).1 is Reused,
        !(ensure_spec(ensure_spec(a, h).0, h).1 is Rebuilt),
{
}

} // verus!
