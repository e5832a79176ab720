use gpu_compute::codec::{
    decode_body_array, decode_snapshot, encode_body_array, encode_cursor, encode_snapshot,
    encode_time,
};
use gpu_compute::domain::SimulationDomain;
use gpu_compute::snapshot::{BodySnapshot, SimulationSnapshot};

fn domain(bodies: u32, landmarks: u32) -> SimulationDomain {
    SimulationDomain::new(1280, 640, 8, bodies, landmarks).expect("valid domain")
}

fn body(x: f32, y: f32, z: f32, selected: bool) -> BodySnapshot {
    BodySnapshot { x_bits: x.to_bits(), y_bits: y.to_bits(), z_bits: z.to_bits(), selected }
}

fn f32_at(bytes: &[u8], off: usize) -> f32 {
    f32::from_le_bytes([bytes[off], bytes[off + 1], bytes[off + 2], bytes[off + 3]])
}

fn i32_at(bytes: &[u8], off: usize) -> i32 {
    i32::from_le_bytes([bytes[off], bytes[off + 1], bytes[off + 2], bytes[off + 3]])
}

#[test]
fn time_serializes_little_endian() {
    assert_eq!(encode_time(1.0f32.to_bits()), vec![0x00, 0x00, 0x80, 0x3f]);
    assert_eq!(encode_time(12.5f32.to_bits()), vec![0x00, 0x00, 0x48, 0x41]);
}

#[test]
fn cursor_serializes_its_2d_position() {
    let bytes = encode_cursor(body(1.0, -2.0, 7.0, true));
    assert_eq!(bytes.len(), 8);
    assert_eq!(f32_at(&bytes, 0), 1.0);
    assert_eq!(f32_at(&bytes, 4), -2.0);
}

#[test]
fn one_element_occupies_sixteen_bytes() {
    let list = vec![body(1.0, 2.0, 3.0, true)];
    let bytes = encode_body_array(&list, 1);
    assert_eq!(bytes.len(), 16);
    assert_eq!(f32_at(&bytes, 0), 1.0);
    assert_eq!(f32_at(&bytes, 4), 2.0);
    assert_eq!(f32_at(&bytes, 8), 3.0);
    assert_eq!(i32_at(&bytes, 12), 1);
}

#[test]
fn short_arrays_are_padded_with_zero_elements() {
    let list = vec![body(1.0, 2.0, 3.0, false)];
    let bytes = encode_body_array(&list, 3);
    assert_eq!(bytes.len(), 48);
    assert_eq!(i32_at(&bytes, 12), 0);
    assert!(bytes[16..].iter().all(|&b| b == 0));
}

#[test]
fn empty_arrays_serialize_to_all_zeroes() {
    let bytes = encode_body_array(&Vec::new(), 4);
    assert_eq!(bytes.len(), 64);
    assert!(bytes.iter().all(|&b| b == 0));
}

#[test]
fn oversized_arrays_are_truncated_to_capacity() {
    // three entries past capacity: the buffer still holds exactly `capacity`
    // elements, the first `capacity` live ones
    let capacity = 10u32;
    let list: Vec<BodySnapshot> =
        (0..capacity + 3).map(|i| body(i as f32, 0.0, 0.0, i % 2 == 1)).collect();
    let bytes = encode_body_array(&list, capacity);
    assert_eq!(bytes.len(), capacity as usize * 16);
    for i in 0..capacity as usize {
        assert_eq!(f32_at(&bytes, 16 * i), i as f32);
        assert_eq!(i32_at(&bytes, 16 * i + 12), (i % 2) as i32);
    }
}

#[test]
fn snapshot_payload_has_the_layout_sizes() {
    let d = domain(10, 6);
    let snap = SimulationSnapshot {
        elapsed_bits: 12.5f32.to_bits(),
        cursor: body(640.0, 320.0, 0.0, false),
        bodies: vec![body(1.0, 2.0, 0.0, false)],
        landmarks: Vec::new(),
    };
    let payload = encode_snapshot(&snap, &d);
    assert_eq!(payload.time.len(), 4);
    assert_eq!(payload.cursor.len(), 8);
    assert_eq!(payload.bodies.len(), 160);
    assert_eq!(payload.landmarks.len(), 96);
}

#[test]
fn decoding_reads_back_the_live_elements() {
    let list = vec![body(1.5, -2.25, 0.0, true), body(3.0, 4.0, 5.0, false)];
    let bytes = encode_body_array(&list, 6);
    let back = decode_body_array(&bytes, 2);
    assert_eq!(back, list);
}

struct Lcg(u64);

impl Lcg {
    fn next_u32(&mut self) -> u32 {
        self.0 = self.0.wrapping_mul(6364136223846793005).wrapping_add(1442695040888963407);
        (self.0 >> 32) as u32
    }

    fn next_body(&mut self) -> BodySnapshot {
        BodySnapshot {
            x_bits: self.next_u32(),
            y_bits: self.next_u32(),
            z_bits: self.next_u32(),
            selected: self.next_u32() % 2 == 1,
        }
    }
}

#[test]
fn round_trip_recovers_random_snapshots_bit_for_bit() {
    let d = domain(10, 6);
    let mut rng = Lcg(0x9e3779b97f4a7c15);
    for _ in 0..50 {
        let body_count = (rng.next_u32() % 11) as usize;
        let landmark_count = (rng.next_u32() % 7) as usize;
        let snap = SimulationSnapshot {
            elapsed_bits: rng.next_u32(),
            cursor: BodySnapshot {
                x_bits: rng.next_u32(),
                y_bits: rng.next_u32(),
                z_bits: 0,
                selected: false,
            },
            bodies: (0..body_count).map(|_| rng.next_body()).collect(),
            landmarks: (0..landmark_count).map(|_| rng.next_body()).collect(),
        };
        let payload = encode_snapshot(&snap, &d);
        let back = decode_snapshot(&payload, &d, body_count, landmark_count)
            .expect("well-sized payload decodes");
        assert_eq!(back, snap);
    }
}

#[test]
fn decoding_rejects_a_payload_of_the_wrong_size() {
    let d = domain(10, 6);
    let snap = SimulationSnapshot {
        elapsed_bits: 0,
        cursor: body(0.0, 0.0, 0.0, false),
        bodies: Vec::new(),
        landmarks: Vec::new(),
    };
    let mut payload = encode_snapshot(&snap, &d);
    payload.bodies.pop();
    assert!(decode_snapshot(&payload, &d, 0, 0).is_none());
}

#[test]
fn decoding_rejects_counts_past_capacity() {
    let d = domain(10, 6);
    let snap = SimulationSnapshot {
        elapsed_bits: 0,
        cursor: body(0.0, 0.0, 0.0, false),
        bodies: Vec::new(),
        landmarks: Vec::new(),
    };
    let payload = encode_snapshot(&snap, &d);
    assert!(decode_snapshot(&payload, &d, 11, 0).is_none());
    assert!(decode_snapshot(&payload, &d, 0, 7).is_none());
    assert!(decode_snapshot(&payload, &d, 10, 6).is_some());
}
