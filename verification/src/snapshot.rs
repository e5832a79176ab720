//! Immutable per-frame snapshots of the simulation, and the extractor that
//! builds one from the live values while truncating deterministically to the
//! configured capacities.
//!
//! Positions and the elapsed time are carried as IEEE-754 single-precision
//! bit patterns. The caller projects world coordinates into viewport space
//! and converts each component with `f32::to_bits`; the library never
//! reinterprets the bits, so the serialized buffers are bit-for-bit what the
//! caller sampled.

use vstd::prelude::*;

use crate::domain::SimulationDomain;

verus! {

/// One tracked object at one instant: a 3-component position (each component
/// the bit pattern of an `f32`) and its selection flag.
#[derive(Clone, Copy, PartialEq, Eq, Structural, Debug)]
pub struct BodySnapshot {
    pub x_bits: u32,
    pub y_bits: u32,
    pub z_bits: u32,
    pub selected: bool,
}

/// The all-zero body used to pad array buffers past the live entries:
/// position at the origin, not selected.
pub open spec fn zero_body() -> BodySnapshot {
    BodySnapshot { x_bits: 0, y_bits: 0, z_bits: 0, selected: false }
}

impl BodySnapshot {
    /// The padding element as an executable value.
    pub fn zeroed() -> (r: BodySnapshot)
        ensures
            r == zero_body(),
    {
        BodySnapshot { x_bits: 0, y_bits: 0, z_bits: 0, selected: false }
    }
}

/// Everything the compute shader reads about one frame, captured at a single
/// instant: elapsed seconds (as `f32` bits), the cursor-controlled body, the
/// tracked bodies, and the fixed landmarks. Handed between the simulation
/// and render contexts by value only.
#[derive(Clone, PartialEq, Eq, Debug)]
pub struct SimulationSnapshot {
    pub elapsed_bits: u32,
    pub cursor: BodySnapshot,
    pub bodies: Vec<BodySnapshot>,
    pub landmarks: Vec<BodySnapshot>,
}

/// The stable prefix of `s` holding at most `cap` entries.
pub open spec fn truncated_to(s: Seq<BodySnapshot>, cap: nat) -> Seq<BodySnapshot> {
    if s.len() <= cap {
        s
    } else {
        s.take(cap as int)
    }
}

impl SimulationSnapshot {
    /// A snapshot the upload stage can serialize for this domain: neither
    /// array exceeds its configured capacity.
    pub open spec fn fits(self, domain: SimulationDomain) -> bool {
        &&& self.bodies@.len() <= domain.body_capacity
        &&& self.landmarks@.len() <= domain.landmark_capacity
    }
}

/// Copies the first `cap` entries (or all, if fewer) of `src` into a fresh
/// vector: the deterministic truncation of the extractor.
fn take_prefix(src: &Vec<BodySnapshot>, cap: u32) -> (r: Vec<BodySnapshot>)
    ensures
        r@ == truncated_to(src@, cap as nat),
{
    let count: usize = if src.len() > cap as usize {
        cap as usize
    } else {
        src.len()
    };
    let mut out: Vec<BodySnapshot> = Vec::new();
    let mut i: usize = 0;
    while i < count
        invariant
            i <= count,
            count <= src@.len(),
            count == if src@.len() <= cap as nat {
                src@.len() as int
            } else {
                cap as int
            },
            out@ == src@.take(i as int),
        decreases count - i,
    {
        out.push(src[i]);
        proof {
            assert(out@ =~= src@.take(i + 1));
        }
        i = i + 1;
    }
    proof {
        assert(out@ =~= truncated_to(src@, cap as nat));
    }
    out
}

/// Builds the frame's snapshot from the live values. Every field of the
/// result reflects the same instant: the caller samples positions, selection
/// flags and the clock once and hands them in together. Truncates each array
/// to its capacity deterministically (stable prefix) instead of failing; the
/// returned flag reports that degraded extraction, once per occurrence.
pub fn extract_snapshot(
    domain: &SimulationDomain,
    elapsed_bits: u32,
    cursor: BodySnapshot,
    bodies: &Vec<BodySnapshot>,
    landmarks: &Vec<BodySnapshot>,
) -> (r: (SimulationSnapshot, bool))
    ensures
        r.0.elapsed_bits == elapsed_bits,
        r.0.cursor == cursor,
        r.0.bodies@ == truncated_to(bodies@, domain.body_capacity as nat),
        r.0.landmarks@ == truncated_to(landmarks@, domain.landmark_capacity as nat),
        r.0.fits(*domain),
        r.1 <==> (bodies@.len() > domain.body_capacity || landmarks@.len()
            > domain.landmark_capacity),
{
    let degraded = bodies.len() > domain.body_capacity as usize || landmarks.len()
        > domain.landmark_capacity as usize;
    let snapshot = SimulationSnapshot {
        elapsed_bits,
        cursor,
        bodies: take_prefix(bodies, domain.body_capacity),
        landmarks: take_prefix(landmarks, domain.landmark_capacity),
    };
    (snapshot, degraded)
}

} // verus!
