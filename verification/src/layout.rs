//! The buffer layout registry: for every GPU-visible binding, the byte size
//! and element stride the compute shader expects. Derived once from the
//! simulation domain; a disagreement with an allocated buffer is a fatal
//! configuration error.

use vstd::prelude::*;

use crate::domain::{ConfigError, SimulationDomain};

verus! {

/// Binding slot of the storage texture (not sized in bytes).
pub const TEXTURE_BINDING: u32 = 0;

/// Binding slot of the elapsed-seconds uniform.
pub const TIME_BINDING: u32 = 1;

/// Binding slot of the cursor-body uniform.
pub const CURSOR_BINDING: u32 = 2;

/// Binding slot of the tracked-bodies array.
pub const BODIES_BINDING: u32 = 3;

/// Binding slot of the fixed-landmarks array.
pub const LANDMARKS_BINDING: u32 = 4;

/// Byte size of the elapsed-seconds uniform: one 32-bit float.
pub const TIME_BYTES: u64 = 4;

/// Byte size of the cursor-body uniform: a 2D position, two 32-bit floats.
pub const CURSOR_BYTES: u64 = 8;

/// Byte stride of one array element: a 3-component 32-bit float position
/// followed by a 32-bit selection flag, 16-byte aligned.
pub const ELEMENT_STRIDE: u64 = 16;

/// How one logical field maps onto GPU memory.
#[derive(Clone, Copy, PartialEq, Eq, Structural, Debug)]
pub struct FieldLayout {
    pub binding_index: u32,
    pub byte_size: u64,
    pub stride: u64,
}

/// The complete registry: every sized binding the shader consumes. The
/// storage texture occupies `TEXTURE_BINDING` and carries no byte size here.
#[derive(Clone, Copy, PartialEq, Eq, Structural, Debug)]
pub struct BufferLayout {
    pub time: FieldLayout,
    pub cursor: FieldLayout,
    pub bodies: FieldLayout,
    pub landmarks: FieldLayout,
}

/// Byte sizes of the four uniform buffers as the application allocated them,
/// keyed by field in binding order.
#[derive(Clone, Copy, PartialEq, Eq, Structural, Debug)]
pub struct AllocatedSizes {
    pub time_bytes: u64,
    pub cursor_bytes: u64,
    pub bodies_bytes: u64,
    pub landmarks_bytes: u64,
}

/// The registry a well-formed domain determines.
pub open spec fn layout_of(domain: SimulationDomain) -> BufferLayout {
    BufferLayout {
        time: FieldLayout { binding_index: TIME_BINDING, byte_size: TIME_BYTES, stride: TIME_BYTES },
        cursor: FieldLayout {
            binding_index: CURSOR_BINDING,
            byte_size: CURSOR_BYTES,
            stride: CURSOR_BYTES,
        },
        bodies: FieldLayout {
            binding_index: BODIES_BINDING,
            byte_size: (domain.body_capacity as u64 * ELEMENT_STRIDE) as u64,
            stride: ELEMENT_STRIDE,
        },
        landmarks: FieldLayout {
            binding_index: LANDMARKS_BINDING,
            byte_size: (domain.landmark_capacity as u64 * ELEMENT_STRIDE) as u64,
            stride: ELEMENT_STRIDE,
        },
    }
}

impl BufferLayout {
    /// Derives the registry from the domain. Pure data: computed once at
    /// startup and never mutated.
    pub fn from_domain(domain: &SimulationDomain) -> (r: BufferLayout)
        ensures
            r == layout_of(*domain),
    {
        BufferLayout {
            time: FieldLayout {
                binding_index: TIME_BINDING,
                byte_size: TIME_BYTES,
                stride: TIME_BYTES,
            },
            cursor: FieldLayout {
                binding_index: CURSOR_BINDING,
                byte_size: CURSOR_BYTES,
                stride: CURSOR_BYTES,
            },
            bodies: FieldLayout {
                binding_index: BODIES_BINDING,
                byte_size: domain.body_capacity as u64 * ELEMENT_STRIDE,
                stride: ELEMENT_STRIDE,
            },
            landmarks: FieldLayout {
                binding_index: LANDMARKS_BINDING,
                byte_size: domain.landmark_capacity as u64 * ELEMENT_STRIDE,
                stride: ELEMENT_STRIDE,
            },
        }
    }
}

/// Each array field's byte size is exactly its capacity times its element
/// stride, for every domain.
pub proof fn lemma_array_byte_sizes(domain: SimulationDomain)
    ensures
        layout_of(domain).bodies.byte_size == domain.body_capacity * layout_of(
            domain,
        ).bodies.stride,
        layout_of(domain).landmarks.byte_size == domain.landmark_capacity * layout_of(
            domain,
        ).landmarks.stride,
{
}

/// All four allocated buffers carry exactly the byte sizes the registry
/// derives.
pub open spec fn sizes_match(layout: BufferLayout, actual: AllocatedSizes) -> bool {
    &&& actual.time_bytes == layout.time.byte_size
    &&& actual.cursor_bytes == layout.cursor.byte_size
    &&& actual.bodies_bytes == layout.bodies.byte_size
    &&& actual.landmarks_bytes == layout.landmarks.byte_size
}

/// Startup check that the GPU buffers were sized from this same registry.
/// Succeeds exactly when every binding agrees; otherwise reports the first
/// disagreeing binding, in binding order, with both byte counts.
pub fn validate_allocation(layout: &BufferLayout, actual: &AllocatedSizes) -> (r: Result<
    (),
    ConfigError,
>)
    ensures
        r is Ok <==> sizes_match(*layout, *actual),
        actual.time_bytes != layout.time.byte_size ==> r == Result::<(), ConfigError>::Err(
            ConfigError::SizeMismatch {
                binding_index: layout.time.binding_index,
                expected_bytes: layout.time.byte_size,
                actual_bytes: actual.time_bytes,
            },
        ),
        (actual.time_bytes == layout.time.byte_size && actual.cursor_bytes
            != layout.cursor.byte_size) ==> r == Result::<(), ConfigError>::Err(
            ConfigError::SizeMismatch {
                binding_index: layout.cursor.binding_index,
                expected_bytes: layout.cursor.byte_size,
                actual_bytes: actual.cursor_bytes,
            },
        ),
        (actual.time_bytes == layout.time.byte_size && actual.cursor_bytes
            == layout.cursor.byte_size && actual.bodies_bytes != layout.bodies.byte_size) ==> r
            == Result::<(), ConfigError>::Err(
            ConfigError::SizeMismatch {
                binding_index: layout.bodies.binding_index,
                expected_bytes: layout.bodies.byte_size,
                actual_bytes: actual.bodies_bytes,
            },
        ),
        (actual.time_bytes == layout.time.byte_size && actual.cursor_bytes
            == layout.cursor.byte_size && actual.bodies_bytes == layout.bodies.byte_size
            && actual.landmarks_bytes != layout.landmarks.byte_size) ==> r == Result::<
            (),
            ConfigError,
        >::Err(
            ConfigError::SizeMismatch {
                binding_index: layout.landmarks.binding_index,
                expected_bytes: layout.landmarks.byte_size,
                actual_bytes: actual.landmarks_bytes,
            },
        ),
{
    if actual.time_bytes != layout.time.byte_size {
        Err(
            ConfigError::SizeMismatch {
                binding_index: layout.time.binding_index,
                expected_bytes: layout.time.byte_size,
                actual_bytes: actual.time_bytes,
            },
        )
    } else if actual.cursor_bytes != layout.cursor.byte_size {
        Err(
            ConfigError::SizeMismatch {
                binding_index: layout.cursor.binding_index,
                expected_bytes: layout.cursor.byte_size,
                actual_bytes: actual.cursor_bytes,
            },
        )
    } else if actual.bodies_bytes != layout.bodies.byte_size {
        Err(
            ConfigError::SizeMismatch {
                binding_index: layout.bodies.binding_index,
                expected_bytes: layout.bodies.byte_size,
                actual_bytes: actual.bodies_bytes,
            },
        )
    } else if actual.landmarks_bytes != layout.landmarks.byte_size {
        Err(
            ConfigError::SizeMismatch {
                binding_index: layout.landmarks.binding_index,
                expected_bytes: layout.landmarks.byte_size,
                actual_bytes: actual.landmarks_bytes,
            },
        )
    } else {
        Ok(())
    }
}

} // verus!
