use gpu_compute::domain::{ConfigError, SimulationDomain, MAX_ARRAY_CAPACITY};

fn domain(w: u32, h: u32, tile: u32, bodies: u32, landmarks: u32) -> SimulationDomain {
    SimulationDomain::new(w, h, tile, bodies, landmarks).expect("valid domain")
}

#[test]
fn accepts_a_valid_configuration() {
    let d = domain(1280, 640, 8, 10, 6);
    assert_eq!(d.texture_width, 1280);
    assert_eq!(d.texture_height, 640);
    assert_eq!(d.tile_size, 8);
    assert_eq!(d.body_capacity, 10);
    assert_eq!(d.landmark_capacity, 6);
}

#[test]
fn rejects_zero_width() {
    let r = SimulationDomain::new(0, 640, 8, 10, 6);
    assert_eq!(r, Err(ConfigError::ZeroExtent));
}

#[test]
fn rejects_zero_height() {
    let r = SimulationDomain::new(1280, 0, 8, 10, 6);
    assert_eq!(r, Err(ConfigError::ZeroExtent));
}

#[test]
fn rejects_zero_tile_size() {
    let r = SimulationDomain::new(1280, 640, 0, 10, 6);
    assert_eq!(r, Err(ConfigError::ZeroTileSize));
}

#[test]
fn rejects_overlarge_capacity() {
    let r = SimulationDomain::new(1280, 640, 8, MAX_ARRAY_CAPACITY + 1, 6);
    assert_eq!(r, Err(ConfigError::CapacityTooLarge));
    let r = SimulationDomain::new(1280, 640, 8, 10, MAX_ARRAY_CAPACITY + 1);
    assert_eq!(r, Err(ConfigError::CapacityTooLarge));
}

#[test]
fn accepts_largest_capacity() {
    let d = domain(1, 1, 1, MAX_ARRAY_CAPACITY, MAX_ARRAY_CAPACITY);
    assert_eq!(d.body_capacity, MAX_ARRAY_CAPACITY);
}

#[test]
fn workgroup_count_divides_exactly() {
    assert_eq!(SimulationDomain::workgroup_count(1280, 8), 160);
}

#[test]
fn workgroup_count_rounds_up() {
    assert_eq!(SimulationDomain::workgroup_count(1281, 8), 161);
    assert_eq!(SimulationDomain::workgroup_count(1, 8), 1);
    assert_eq!(SimulationDomain::workgroup_count(7, 8), 1);
    assert_eq!(SimulationDomain::workgroup_count(9, 8), 2);
}

#[test]
fn workgroup_grid_covers_the_texture() {
    let d = domain(1280, 641, 8, 10, 6);
    let (gx, gy, gz) = d.workgroup_grid();
    assert_eq!((gx, gy, gz), (160, 81, 1));
    assert!(gx * d.tile_size >= d.texture_width);
    assert!(gy * d.tile_size >= d.texture_height);
}
