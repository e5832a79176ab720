use gpu_compute::bindgroup::{BindGroupAssembler, ResourceHandles};
use gpu_compute::domain::SimulationDomain;
use gpu_compute::frame::render_frame;
use gpu_compute::pipeline::{PipelineCache, PipelineKind, Readiness};
use gpu_compute::snapshot::{extract_snapshot, BodySnapshot, SimulationSnapshot};
use gpu_compute::stage::StageState;

fn body(x: f32, y: f32, z: f32, selected: bool) -> BodySnapshot {
    BodySnapshot { x_bits: x.to_bits(), y_bits: y.to_bits(), z_bits: z.to_bits(), selected }
}

fn f32_at(bytes: &[u8], off: usize) -> f32 {
    f32::from_le_bytes([bytes[off], bytes[off + 1], bytes[off + 2], bytes[off + 3]])
}

fn i32_at(bytes: &[u8], off: usize) -> i32 {
    i32::from_le_bytes([bytes[off], bytes[off + 1], bytes[off + 2], bytes[off + 3]])
}

fn complete_handles(texture: u64) -> ResourceHandles {
    ResourceHandles {
        texture: Some(texture),
        time_buffer: Some(21),
        cursor_buffer: Some(22),
        bodies_buffer: Some(23),
        landmarks_buffer: Some(24),
    }
}

#[test]
fn extraction_truncates_and_reports_degradation() {
    let d = SimulationDomain::new(1280, 640, 8, 10, 6).expect("valid domain");
    let bodies: Vec<BodySnapshot> = (0..13).map(|i| body(i as f32, 0.0, 0.0, false)).collect();
    let landmarks: Vec<BodySnapshot> = (0..6).map(|i| body(0.0, i as f32, 0.0, false)).collect();
    let cursor = body(5.0, 5.0, 0.0, false);
    let (snap, degraded) = extract_snapshot(&d, 1.0f32.to_bits(), cursor, &bodies, &landmarks);
    assert!(degraded);
    assert_eq!(snap.bodies.len(), 10);
    assert_eq!(snap.bodies[..], bodies[..10]);
    assert_eq!(snap.landmarks.len(), 6);
    assert_eq!(snap.cursor, cursor);
    assert_eq!(snap.elapsed_bits, 1.0f32.to_bits());

    let (snap, degraded) = extract_snapshot(&d, 0, cursor, &landmarks, &landmarks);
    assert!(!degraded);
    assert_eq!(snap.bodies.len(), 6);
}

#[test]
fn end_to_end_scenario_writes_the_expected_bytes() {
    let d = SimulationDomain::new(1280, 640, 8, 10, 6).expect("valid domain");
    let bodies = vec![
        body(1.0, 2.0, 0.0, false),
        body(3.0, 4.0, 0.0, true),
        body(5.0, 6.0, 0.0, false),
    ];
    let landmarks = Vec::new();
    let cursor = body(640.0, 320.0, 0.0, false);
    let (snap, degraded) = extract_snapshot(&d, 12.5f32.to_bits(), cursor, &bodies, &landmarks);
    assert!(!degraded);

    let mut cache = PipelineCache::new(101, 102);
    let mut stage = gpu_compute::stage::ComputeStage::new();
    let mut assembler = BindGroupAssembler::new();
    let handles = complete_handles(7);

    // frame 1: pipelines still pending; upload happens, nothing dispatches
    cache.record_poll(Readiness::Pending, Readiness::Pending);
    let out = render_frame(&mut stage, &mut assembler, &cache, &d, &snap, &handles);
    assert!(out.action.dispatch.is_none());
    assert_eq!(stage.state, StageState::Loading);

    // the serialized bodies buffer: element 1 selected as i32 one, its
    // position bytes decoding to (3.0, 4.0, 0.0)
    let bytes = &out.payload.bodies;
    assert_eq!(bytes.len(), 160);
    assert_eq!(i32_at(bytes, 16 + 12), 1);
    assert_eq!(f32_at(bytes, 16), 3.0);
    assert_eq!(f32_at(bytes, 20), 4.0);
    assert_eq!(f32_at(bytes, 24), 0.0);
    assert_eq!(i32_at(bytes, 12), 0);
    assert_eq!(i32_at(bytes, 2 * 16 + 12), 0);
    assert!(bytes[3 * 16..].iter().all(|&b| b == 0));
    assert_eq!(f32_at(&out.payload.time, 0), 12.5);
    assert_eq!(f32_at(&out.payload.cursor, 0), 640.0);
    assert_eq!(f32_at(&out.payload.cursor, 4), 320.0);
    assert_eq!(out.payload.landmarks.len(), 96);
    assert!(out.payload.landmarks.iter().all(|&b| b == 0));

    // frame 2: init ready; the init pipeline dispatches over the full domain
    cache.record_poll(Readiness::Ready, Readiness::Pending);
    let out = render_frame(&mut stage, &mut assembler, &cache, &d, &snap, &handles);
    let cmd = out.action.dispatch.expect("init dispatch");
    assert_eq!(cmd.pipeline, PipelineKind::Init);
    assert_eq!((cmd.groups_x, cmd.groups_y, cmd.groups_z), (160, 80, 1));

    // frame 3: update ready; steady state from here on
    cache.record_poll(Readiness::Ready, Readiness::Ready);
    let out = render_frame(&mut stage, &mut assembler, &cache, &d, &snap, &handles);
    let cmd = out.action.dispatch.expect("update dispatch");
    assert_eq!(cmd.pipeline, PipelineKind::Update);
    assert_eq!(stage.state, StageState::Update);
}

#[test]
fn no_dispatch_without_a_bind_group() {
    let d = SimulationDomain::new(1280, 640, 8, 10, 6).expect("valid domain");
    let snap = SimulationSnapshot {
        elapsed_bits: 0,
        cursor: body(0.0, 0.0, 0.0, false),
        bodies: Vec::new(),
        landmarks: Vec::new(),
    };
    let mut cache = PipelineCache::new(101, 102);
    cache.record_poll(Readiness::Ready, Readiness::Ready);
    let mut stage = gpu_compute::stage::ComputeStage::new();
    let mut assembler = BindGroupAssembler::new();
    let mut handles = complete_handles(7);
    handles.texture = None;

    // with no texture the stage must hold, so init is not skipped past
    let out = render_frame(&mut stage, &mut assembler, &cache, &d, &snap, &handles);
    assert!(out.action.dispatch.is_none());
    assert_eq!(stage.state, StageState::Loading);

    // once the texture exists, the ordinary progression resumes
    let handles = complete_handles(7);
    let out = render_frame(&mut stage, &mut assembler, &cache, &d, &snap, &handles);
    let cmd = out.action.dispatch.expect("init dispatch");
    assert_eq!(cmd.pipeline, PipelineKind::Init);
}

#[test]
fn a_resize_rebuilds_the_bind_group_before_the_next_dispatch() {
    let d = SimulationDomain::new(1280, 640, 8, 10, 6).expect("valid domain");
    let snap = SimulationSnapshot {
        elapsed_bits: 0,
        cursor: body(0.0, 0.0, 0.0, false),
        bodies: Vec::new(),
        landmarks: Vec::new(),
    };
    let mut cache = PipelineCache::new(101, 102);
    cache.record_poll(Readiness::Ready, Readiness::Ready);
    let mut stage = gpu_compute::stage::ComputeStage::new();
    let mut assembler = BindGroupAssembler::new();

    render_frame(&mut stage, &mut assembler, &cache, &d, &snap, &complete_handles(7));
    let out = render_frame(&mut stage, &mut assembler, &cache, &d, &snap, &complete_handles(9));
    assert!(out.action.dispatch.is_some());
    let bg = assembler.current.expect("bind group stands");
    assert_eq!(bg.texture, 9);
}
