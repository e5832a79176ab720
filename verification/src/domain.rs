//! The immutable simulation configuration and the workgroup tiling derived
//! from it.

use vstd::prelude::*;

verus! {

/// Largest accepted capacity for either array buffer. It keeps every byte
/// size derived from a capacity (16 bytes per element) within `usize` even on
/// a 32-bit target, so serialized payloads can always be allocated.
pub const MAX_ARRAY_CAPACITY: u32 = 0x0FFF_FFFF;

/// Immutable configuration fixed at startup: the storage texture extent, the
/// workgroup tile edge, and the capacities of the two array buffers (tracked
/// bodies and fixed landmarks). Everything else the library computes is
/// derived from these values.
#[derive(Clone, Copy, PartialEq, Eq, Structural, Debug)]
pub struct SimulationDomain {
    pub texture_width: u32,
    pub texture_height: u32,
    pub tile_size: u32,
    pub body_capacity: u32,
    pub landmark_capacity: u32,
}

/// A configuration that cannot describe a runnable simulation. These errors
/// are fatal: they stop initialization, they are never retried per frame.
#[derive(Clone, Copy, PartialEq, Eq, Structural, Debug)]
pub enum ConfigError {
    /// The storage texture would have a zero-sized extent.
    ZeroExtent,
    /// Workgroups cannot tile the texture with a zero tile edge.
    ZeroTileSize,
    /// A capacity exceeds `MAX_ARRAY_CAPACITY`.
    CapacityTooLarge,
    /// A GPU buffer was allocated with a byte size other than the one the
    /// layout registry derives for its binding.
    SizeMismatch { binding_index: u32, expected_bytes: u64, actual_bytes: u64 },
}

/// Quotient of `a / b` rounded towards positive infinity.
pub open spec fn ceil_div(a: int, b: int) -> int
    recommends
        b > 0,
{
    (a + b - 1) / b
}

/// The ceiling quotient covers the dividend (`q * b >= a`), is the least
/// multiple to do so, and never exceeds a non-negative dividend.
pub proof fn lemma_ceil_div_bounds(a: int, b: int)
    requires
        0 <= a,
        1 <= b,
    ensures
        0 <= ceil_div(a, b) <= a,
        ceil_div(a, b) * b >= a,
        a > 0 ==> (ceil_div(a, b) - 1) * b < a,
{
    let q = ceil_div(a, b);
    let r = (a + b - 1) % b;
    vstd::arithmetic::div_mod::lemma_fundamental_div_mod(a + b - 1, b);
    vstd::arithmetic::div_mod::lemma_mod_bound(a + b - 1, b);
    assert(a + b - 1 == b * q + r);
    assert(b * q == a + b - 1 - r);
    assert(b * q >= a) by {
        assert(r <= b - 1);
    }
    assert(q >= 0) by (nonlinear_arith)
        requires
            b >= 1,
            b * q >= a,
            a >= 0,
    ;
    assert(q <= a) by (nonlinear_arith)
        requires
            b >= 1,
            a >= 0,
            b * q <= a + b - 1,
    ;
    assert(q * b == b * q) by (nonlinear_arith);
    if a > 0 {
        assert((q - 1) * b == b * q - b) by (nonlinear_arith);
    }
}

impl SimulationDomain {
    /// A domain the rest of the library can work from: non-empty texture,
    /// non-zero tile, capacities small enough that every derived byte size
    /// fits the machine.
    pub open spec fn wf(self) -> bool {
        &&& 0 < self.texture_width
        &&& 0 < self.texture_height
        &&& 0 < self.tile_size
        &&& self.body_capacity <= MAX_ARRAY_CAPACITY
        &&& self.landmark_capacity <= MAX_ARRAY_CAPACITY
    }

    /// Validates a configuration at startup. Returns the domain exactly when
    /// it is well formed; otherwise the first failing check, in the order
    /// extent, tile size, capacities.
    pub fn new(
        texture_width: u32,
        texture_height: u32,
        tile_size: u32,
        body_capacity: u32,
        landmark_capacity: u32,
    ) -> (r: Result<SimulationDomain, ConfigError>)
        ensures
            ({
                let d = SimulationDomain {
                    texture_width,
                    texture_height,
                    tile_size,
                    body_capacity,
                    landmark_capacity,
                };
                &&& r matches Ok(ok) ==> ok == d && d.wf()
                &&& r is Ok <==> d.wf()
                &&& (texture_width == 0 || texture_height == 0) ==> r == Result::<
                    SimulationDomain,
                    ConfigError,
                >::Err(ConfigError::ZeroExtent)
                &&& (texture_width > 0 && texture_height > 0 && tile_size == 0) ==> r == Result::<
                    SimulationDomain,
                    ConfigError,
                >::Err(ConfigError::ZeroTileSize)
                &&& (texture_width > 0 && texture_height > 0 && tile_size > 0 && !d.wf()) ==> r
                    == Result::<SimulationDomain, ConfigError>::Err(ConfigError::CapacityTooLarge)
            }),
    {
        if texture_width == 0 || texture_height == 0 {
            Err(ConfigError::ZeroExtent)
        } else if tile_size == 0 {
            Err(ConfigError::ZeroTileSize)
        } else if body_capacity > MAX_ARRAY_CAPACITY || landmark_capacity > MAX_ARRAY_CAPACITY {
            Err(ConfigError::CapacityTooLarge)
        } else {
            Ok(
                SimulationDomain {
                    texture_width,
                    texture_height,
                    tile_size,
                    body_capacity,
                    landmark_capacity,
                },
            )
        }
    }

    /// Number of workgroups along one axis: the least count of `tile_size`
    /// tiles that covers `extent` texels. Exact divisibility is not assumed;
    /// the shader no-ops on out-of-bounds texels of the last partial tile.
    pub fn workgroup_count(extent: u32, tile_size: u32) -> (r: u32)
        requires
            0 < tile_size,
        ensures
            r == ceil_div(extent as int, tile_size as int),
            r * tile_size >= extent,
            extent > 0 ==> (r - 1) * tile_size < extent,
    {
        proof {
            lemma_ceil_div_bounds(extent as int, tile_size as int);
        }
        let wide: u64 = (extent as u64 + tile_size as u64 - 1) / (tile_size as u64);
        wide as u32
    }

    /// The full dispatch grid over the texture: ceiling-tiled in x and y, one
    /// layer in z.
    pub fn workgroup_grid(&self) -> (r: (u32, u32, u32))
        requires
            self.wf(),
        ensures
            r.0 == ceil_div(self.texture_width as int, self.tile_size as int),
            r.1 == ceil_div(self.texture_height as int, self.tile_size as int),
            r.2 == 1,
            r.0 * self.tile_size >= self.texture_width,
            r.1 * self.tile_size >= self.texture_height,
    {
        (
            Self::workgroup_count(self.texture_width, self.tile_size),
            Self::workgroup_count(self.texture_height, self.tile_size),
            1,
        )
    }
}

} // verus!
