//! Serialization of a snapshot into the exact byte layout the shader reads,
//! and the inverse used to audit it. All multi-byte values are little-endian;
//! each array element occupies `ELEMENT_STRIDE` bytes (three position words,
//! then the selection flag as a 32-bit word). Array buffers are always
//! written full-length: live entries first, zero elements after them.

use vstd::prelude::*;

use crate::domain::{SimulationDomain, MAX_ARRAY_CAPACITY};
use crate::layout::{layout_of, CURSOR_BYTES, ELEMENT_STRIDE, TIME_BYTES};
use crate::snapshot::{zero_body, BodySnapshot, SimulationSnapshot};

verus! {

/// The four bytes of `x`, least significant first.
pub open spec fn u32_le_bytes(x: u32) -> Seq<u8> {
    seq![
        (x & 0xff) as u8,
        ((x >> 8) & 0xff) as u8,
        ((x >> 16) & 0xff) as u8,
        ((x >> 24) & 0xff) as u8,
    ]
}

/// The word a four-byte little-endian window denotes.
pub open spec fn u32_of_le_bytes(s: Seq<u8>) -> u32
    recommends
        s.len() == 4,
{
    ((s[0] as u32) | ((s[1] as u32) << 8) | ((s[2] as u32) << 16) | ((s[3] as u32) << 24)) as u32
}

/// Reading back the four bytes of a word recovers the word.
pub proof fn lemma_u32_le_round_trip(x: u32)
    ensures
        u32_of_le_bytes(u32_le_bytes(x)) == x,
{
    let s = u32_le_bytes(x);
    assert(s[0] == (x & 0xff) as u8);
    assert(s[1] == ((x >> 8) & 0xff) as u8);
    assert(s[2] == ((x >> 16) & 0xff) as u8);
    assert(s[3] == ((x >> 24) & 0xff) as u8);
    assert((((x & 0xff) as u8 as u32) | (((x >> 8) & 0xff) as u8 as u32) << 8 | (((x >> 16)
        & 0xff) as u8 as u32) << 16 | (((x >> 24) & 0xff) as u8 as u32) << 24) as u32 == x)
        by (bit_vector);
}

/// The 32-bit word that carries a selection flag: 1 when selected, else 0.
pub open spec fn flag_word(selected: bool) -> u32 {
    if selected {
        1
    } else {
        0
    }
}

/// The `ELEMENT_STRIDE` bytes of one array element.
pub open spec fn body_le_bytes(b: BodySnapshot) -> Seq<u8> {
    u32_le_bytes(b.x_bits) + u32_le_bytes(b.y_bits) + u32_le_bytes(b.z_bits) + u32_le_bytes(
        flag_word(b.selected),
    )
}

/// The element a 16-byte window denotes. A selection word is read as
/// selected exactly when it is non-zero.
pub open spec fn body_of_le_bytes(s: Seq<u8>) -> BodySnapshot
    recommends
        s.len() == 16,
{
    BodySnapshot {
        x_bits: u32_of_le_bytes(s.subrange(0, 4)),
        y_bits: u32_of_le_bytes(s.subrange(4, 8)),
        z_bits: u32_of_le_bytes(s.subrange(8, 12)),
        selected: u32_of_le_bytes(s.subrange(12, 16)) != 0,
    }
}

/// Reading back the bytes of one element recovers the element.
pub proof fn lemma_body_round_trip(b: BodySnapshot)
    ensures
        body_of_le_bytes(body_le_bytes(b)) == b,
{
    let s = body_le_bytes(b);
    assert(s.subrange(0, 4) =~= u32_le_bytes(b.x_bits));
    assert(s.subrange(4, 8) =~= u32_le_bytes(b.y_bits));
    assert(s.subrange(8, 12) =~= u32_le_bytes(b.z_bits));
    assert(s.subrange(12, 16) =~= u32_le_bytes(flag_word(b.selected)));
    lemma_u32_le_round_trip(b.x_bits);
    lemma_u32_le_round_trip(b.y_bits);
    lemma_u32_le_round_trip(b.z_bits);
    lemma_u32_le_round_trip(flag_word(b.selected));
}

/// The array a buffer of `cap` elements holds for a live list `s`: the first
/// `cap` live entries, then zero elements up to `cap`.
pub open spec fn padded_to(s: Seq<BodySnapshot>, cap: nat) -> Seq<BodySnapshot> {
    Seq::new(
        cap,
        |i: int|
            if i < s.len() {
                s[i]
            } else {
                zero_body()
            },
    )
}

/// The bytes of a whole element array, element after element.
pub open spec fn bodies_le_bytes(s: Seq<BodySnapshot>) -> Seq<u8>
    decreases s.len(),
{
    if s.len() == 0 {
        Seq::empty()
    } else {
        body_le_bytes(s[0]) + bodies_le_bytes(s.skip(1))
    }
}

/// An element array serializes to `ELEMENT_STRIDE` bytes per element.
pub proof fn lemma_bodies_le_bytes_len(s: Seq<BodySnapshot>)
    ensures
        bodies_le_bytes(s).len() == ELEMENT_STRIDE * s.len(),
    decreases s.len(),
{
    if s.len() > 0 {
        lemma_bodies_le_bytes_len(s.skip(1));
    }
}

/// Appending one element appends exactly its bytes.
pub proof fn lemma_bodies_le_bytes_push(s: Seq<BodySnapshot>, b: BodySnapshot)
    ensures
        bodies_le_bytes(s.push(b)) =~= bodies_le_bytes(s) + body_le_bytes(b),
    decreases s.len(),
{
    if s.len() == 0 {
        assert(s.push(b)[0] == b);
        assert(s.push(b).skip(1) =~= Seq::<BodySnapshot>::empty());
        assert(bodies_le_bytes(s.push(b)) =~= body_le_bytes(b) + bodies_le_bytes(
            Seq::<BodySnapshot>::empty(),
        ));
        assert(bodies_le_bytes(s) =~= Seq::<u8>::empty());
    } else {
        assert(s.push(b)[0] == s[0]);
        assert(s.push(b).skip(1) =~= s.skip(1).push(b));
        lemma_bodies_le_bytes_push(s.skip(1), b);
        assert(bodies_le_bytes(s.push(b)) =~= body_le_bytes(s[0]) + (bodies_le_bytes(s.skip(1))
            + body_le_bytes(b)));
    }
}

/// The 16-byte window at element `i` of a serialized array holds exactly the
/// bytes of element `i`.
pub proof fn lemma_bodies_le_bytes_index(s: Seq<BodySnapshot>, i: int)
    requires
        0 <= i < s.len(),
    ensures
        bodies_le_bytes(s).subrange(16 * i, 16 * i + 16) =~= body_le_bytes(s[i]),
    decreases s.len(),
{
    lemma_bodies_le_bytes_len(s);
    lemma_bodies_le_bytes_len(s.skip(1));
    if i == 0 {
        assert(bodies_le_bytes(s).subrange(0, 16) =~= body_le_bytes(s[0]));
    } else {
        lemma_bodies_le_bytes_index(s.skip(1), i - 1);
        assert(bodies_le_bytes(s).subrange(16 * i, 16 * i + 16) =~= bodies_le_bytes(
            s.skip(1),
        ).subrange(16 * (i - 1), 16 * (i - 1) + 16));
        assert(s.skip(1)[i - 1] == s[i]);
    }
}

/// Appends the four little-endian bytes of `x`.
fn push_u32_le(out: &mut Vec<u8>, x: u32)
    ensures
        final(out)@ == old(out)@ + u32_le_bytes(x),
{
    out.push((x & 0xff) as u8);
    out.push(((x >> 8) & 0xff) as u8);
    out.push(((x >> 16) & 0xff) as u8);
    out.push(((x >> 24) & 0xff) as u8);
    proof {
        assert(out@ =~= old(out)@ + u32_le_bytes(x));
    }
}

/// The word at `off`, read little-endian.
fn read_u32_le(bytes: &Vec<u8>, off: usize) -> (r: u32)
    requires
        off + 4 <= bytes@.len(),
    ensures
        r == u32_of_le_bytes(bytes@.subrange(off as int, off as int + 4)),
{
    let n = bytes.len();
    assert(off + 4 <= n);
    let b0 = bytes[off];
    let b1 = bytes[off + 1];
    let b2 = bytes[off + 2];
    let b3 = bytes[off + 3];
    proof {
        let w = bytes@.subrange(off as int, off as int + 4);
        assert(w[0] == b0 && w[1] == b1 && w[2] == b2 && w[3] == b3);
    }
    (b0 as u32) | ((b1 as u32) << 8) | ((b2 as u32) << 16) | ((b3 as u32) << 24)
}

/// Appends the 16 bytes of one array element.
fn push_body(out: &mut Vec<u8>, b: BodySnapshot)
    ensures
        final(out)@ == old(out)@ + body_le_bytes(b),
{
    push_u32_le(out, b.x_bits);
    push_u32_le(out, b.y_bits);
    push_u32_le(out, b.z_bits);
    push_u32_le(
        out,
        if b.selected {
            1
        } else {
            0
        },
    );
    proof {
        assert(out@ =~= old(out)@ + body_le_bytes(b));
    }
}

/// The element whose window starts at `off`.
fn read_body(bytes: &Vec<u8>, off: usize) -> (r: BodySnapshot)
    requires
        off + 16 <= bytes@.len(),
    ensures
        r == body_of_le_bytes(bytes@.subrange(off as int, off as int + 16)),
{
    let n = bytes.len();
    assert(off + 16 <= n);
    let x_bits = read_u32_le(bytes, off);
    let y_bits = read_u32_le(bytes, off + 4);
    let z_bits = read_u32_le(bytes, off + 8);
    let flag = read_u32_le(bytes, off + 12);
    proof {
        let w = bytes@.subrange(off as int, off as int + 16);
        assert(w.subrange(0, 4) =~= bytes@.subrange(off as int, off as int + 4));
        assert(w.subrange(4, 8) =~= bytes@.subrange(off as int + 4, off as int + 8));
        assert(w.subrange(8, 12) =~= bytes@.subrange(off as int + 8, off as int + 12));
        assert(w.subrange(12, 16) =~= bytes@.subrange(off as int + 12, off as int + 16));
    }
    BodySnapshot { x_bits, y_bits, z_bits, selected: flag != 0 }
}

/// Serializes the elapsed-seconds uniform: one word.
pub fn encode_time(elapsed_bits: u32) -> (r: Vec<u8>)
    ensures
        r@ == u32_le_bytes(elapsed_bits),
        r@.len() == TIME_BYTES,
{
    let mut out: Vec<u8> = Vec::new();
    push_u32_le(&mut out, elapsed_bits);
    out
}

/// The eight bytes of the cursor-body uniform: its 2D viewport position. The
/// third component and the selection flag are not part of this binding.
pub open spec fn cursor_le_bytes(c: BodySnapshot) -> Seq<u8> {
    u32_le_bytes(c.x_bits) + u32_le_bytes(c.y_bits)
}

/// Serializes the cursor-body uniform.
pub fn encode_cursor(cursor: BodySnapshot) -> (r: Vec<u8>)
    ensures
        r@ == cursor_le_bytes(cursor),
        r@.len() == CURSOR_BYTES,
{
    let mut out: Vec<u8> = Vec::new();
    push_u32_le(&mut out, cursor.x_bits);
    push_u32_le(&mut out, cursor.y_bits);
    proof {
        assert(out@ =~= cursor_le_bytes(cursor));
    }
    out
}

/// Serializes one array buffer full-length: the first `cap` live elements of
/// `list` (all of them, if fewer), then zero elements up to `cap`. The result
/// is always exactly `cap` elements long, whatever the live count.
pub fn encode_body_array(list: &Vec<BodySnapshot>, cap: u32) -> (r: Vec<u8>)
    requires
        cap <= MAX_ARRAY_CAPACITY,
    ensures
        r@ == bodies_le_bytes(padded_to(list@, cap as nat)),
        r@.len() == ELEMENT_STRIDE * cap,
{
    let ghost padded = padded_to(list@, cap as nat);
    let mut out: Vec<u8> = Vec::new();
    let mut i: usize = 0;
    while i < cap as usize
        invariant
            i <= cap,
            cap <= MAX_ARRAY_CAPACITY,
            padded == padded_to(list@, cap as nat),
            out@ == bodies_le_bytes(padded.take(i as int)),
            out@.len() == ELEMENT_STRIDE * i,
        decreases cap - i,
    {
        let b = if i < list.len() {
            list[i]
        } else {
            BodySnapshot::zeroed()
        };
        proof {
            assert(padded.take(i + 1) =~= padded.take(i as int).push(padded[i as int]));
            assert(b == padded[i as int]);
            lemma_bodies_le_bytes_push(padded.take(i as int), padded[i as int]);
            lemma_bodies_le_bytes_len(padded.take(i + 1));
        }
        push_body(&mut out, b);
        i = i + 1;
    }
    proof {
        assert(padded.take(cap as int) =~= padded);
    }
    out
}

/// The serialized form of one frame: one byte vector per sized binding, each
/// written whole at offset zero.
#[derive(Clone, PartialEq, Eq, Debug)]
pub struct UploadPayload {
    pub time: Vec<u8>,
    pub cursor: Vec<u8>,
    pub bodies: Vec<u8>,
    pub landmarks: Vec<u8>,
}

/// `p` is exactly the serialization of `snap` under the layout `domain`
/// derives.
pub open spec fn is_upload_of(
    p: UploadPayload,
    snap: SimulationSnapshot,
    domain: SimulationDomain,
) -> bool {
    &&& p.time@ == u32_le_bytes(snap.elapsed_bits)
    &&& p.cursor@ == cursor_le_bytes(snap.cursor)
    &&& p.bodies@ == bodies_le_bytes(padded_to(snap.bodies@, domain.body_capacity as nat))
    &&& p.landmarks@ == bodies_le_bytes(
        padded_to(snap.landmarks@, domain.landmark_capacity as nat),
    )
}

/// Serializes a whole snapshot. Every returned vector has exactly the byte
/// size the layout registry assigns to its binding, so a full-buffer write at
/// offset zero fits a buffer allocated from the same registry.
pub fn encode_snapshot(snap: &SimulationSnapshot, domain: &SimulationDomain) -> (r: UploadPayload)
    requires
        domain.wf(),
    ensures
        is_upload_of(r, *snap, *domain),
        r.time@.len() == layout_of(*domain).time.byte_size,
        r.cursor@.len() == layout_of(*domain).cursor.byte_size,
        r.bodies@.len() == layout_of(*domain).bodies.byte_size,
        r.landmarks@.len() == layout_of(*domain).landmarks.byte_size,
{
    UploadPayload {
        time: encode_time(snap.elapsed_bits),
        cursor: encode_cursor(snap.cursor),
        bodies: encode_body_array(&snap.bodies, domain.body_capacity),
        landmarks: encode_body_array(&snap.landmarks, domain.landmark_capacity),
    }
}

/// The first `count` elements a serialized array buffer denotes.
pub open spec fn decoded_body_array(bytes: Seq<u8>, count: nat) -> Seq<BodySnapshot> {
    Seq::new(count, |i: int| body_of_le_bytes(bytes.subrange(16 * i, 16 * i + 16)))
}

/// Reads the first `count` elements back out of a serialized array buffer.
pub fn decode_body_array(bytes: &Vec<u8>, count: usize) -> (r: Vec<BodySnapshot>)
    requires
        16 * count <= bytes@.len(),
    ensures
        r@ == decoded_body_array(bytes@, count as nat),
{
    let n = bytes.len();
    let mut out: Vec<BodySnapshot> = Vec::new();
    let mut i: usize = 0;
    while i < count
        invariant
            i <= count,
            16 * count <= n <= usize::MAX,
            n == bytes@.len(),
            out@ == decoded_body_array(bytes@, i as nat),
        decreases count - i,
    {
        let b = read_body(bytes, 16 * i);
        out.push(b);
        proof {
            assert(out@ =~= decoded_body_array(bytes@, (i + 1) as nat));
        }
        i = i + 1;
    }
    out
}

/// Deserializes a payload with knowledge of the same layout and of the live
/// counts it was produced with. Returns a snapshot exactly when every vector
/// has its binding's byte size and both counts are within capacity; the
/// cursor comes back with its serialized 2D position, a zero third component
/// and an unset flag.
pub fn decode_snapshot(
    payload: &UploadPayload,
    domain: &SimulationDomain,
    body_count: usize,
    landmark_count: usize,
) -> (r: Option<SimulationSnapshot>)
    requires
        domain.wf(),
    ensures
        r is Some <==> {
            &&& payload.time@.len() == TIME_BYTES
            &&& payload.cursor@.len() == CURSOR_BYTES
            &&& payload.bodies@.len() == layout_of(*domain).bodies.byte_size
            &&& payload.landmarks@.len() == layout_of(*domain).landmarks.byte_size
            &&& body_count <= domain.body_capacity
            &&& landmark_count <= domain.landmark_capacity
        },
        r matches Some(s) ==> {
            &&& s.elapsed_bits == u32_of_le_bytes(payload.time@)
            &&& s.cursor == (BodySnapshot {
                x_bits: u32_of_le_bytes(payload.cursor@.subrange(0, 4)),
                y_bits: u32_of_le_bytes(payload.cursor@.subrange(4, 8)),
                z_bits: 0,
                selected: false,
            })
            &&& s.bodies@ == decoded_body_array(payload.bodies@, body_count as nat)
            &&& s.landmarks@ == decoded_body_array(payload.landmarks@, landmark_count as nat)
        },
{
    if payload.time.len() as u64 != TIME_BYTES {
        return None;
    }
    if payload.cursor.len() as u64 != CURSOR_BYTES {
        return None;
    }
    if payload.bodies.len() as u64 != domain.body_capacity as u64 * ELEMENT_STRIDE {
        return None;
    }
    if payload.landmarks.len() as u64 != domain.landmark_capacity as u64 * ELEMENT_STRIDE {
        return None;
    }
    if body_count as u64 > domain.body_capacity as u64 {
        return None;
    }
    if landmark_count as u64 > domain.landmark_capacity as u64 {
        return None;
    }
    let elapsed_bits = read_u32_le(&payload.time, 0);
    let x_bits = read_u32_le(&payload.cursor, 0);
    let y_bits = read_u32_le(&payload.cursor, 4);
    proof {
        assert(payload.time@.subrange(0, 4) =~= payload.time@);
    }
    let cursor = BodySnapshot { x_bits, y_bits, z_bits: 0, selected: false };
    let bodies = decode_body_array(&payload.bodies, body_count);
    let landmarks = decode_body_array(&payload.landmarks, landmark_count);
    Some(SimulationSnapshot { elapsed_bits, cursor, bodies, landmarks })
}

/// Reading back as many elements as were live recovers them exactly: the
/// zero padding never leaks into the decoded array.
pub proof fn lemma_decoded_padded_prefix(s: Seq<BodySnapshot>, cap: nat)
    requires
        s.len() <= cap,
    ensures
        decoded_body_array(bodies_le_bytes(padded_to(s, cap)), s.len()) =~= s,
{
    let padded = padded_to(s, cap);
    let bytes = bodies_le_bytes(padded);
    assert forall|i: int| 0 <= i < s.len() implies decoded_body_array(bytes, s.len())[i]
        == s[i] by {
        lemma_bodies_le_bytes_index(padded, i);
        lemma_body_round_trip(s[i]);
        assert(padded[i] == s[i]);
    }
}

/// Round trip: serializing a snapshot under a layout and deserializing with
/// knowledge of the same layout and live counts recovers the original values
/// bit for bit. Stated for snapshots within capacity whose cursor carries
/// only the 2D position that binding stores (zero third component, unset
/// flag).
pub proof fn lemma_snapshot_round_trip(
    p: UploadPayload,
    snap: SimulationSnapshot,
    domain: SimulationDomain,
)
    requires
        is_upload_of(p, snap, domain),
        snap.fits(domain),
        snap.cursor.z_bits == 0,
        !snap.cursor.selected,
    ensures
        u32_of_le_bytes(p.time@) == snap.elapsed_bits,
        (BodySnapshot {
            x_bits: u32_of_le_bytes(p.cursor@.subrange(0, 4)),
            y_bits: u32_of_le_bytes(p.cursor@.subrange(4, 8)),
            z_bits: 0,
            selected: false,
        }) == snap.cursor,
        decoded_body_array(p.bodies@, snap.bodies@.len()) =~= snap.bodies@,
        decoded_body_array(p.landmarks@, snap.landmarks@.len()) =~= snap.landmarks@,
{
    lemma_u32_le_round_trip(snap.elapsed_bits);
    assert(p.cursor@.subrange(0, 4) =~= u32_le_bytes(snap.cursor.x_bits));
    assert(p.cursor@.subrange(4, 8) =~= u32_le_bytes(snap.cursor.y_bits));
    lemma_u32_le_round_trip(snap.cursor.x_bits);
    lemma_u32_le_round_trip(snap.cursor.y_bits);
    lemma_decoded_padded_prefix(snap.bodies@, domain.body_capacity as nat);
    lemma_decoded_padded_prefix(snap.landmarks@, domain.landmark_capacity as nat);
}

} // verus!
