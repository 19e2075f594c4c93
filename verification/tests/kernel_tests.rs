use cad2robot_core::kernel::{first_three_or_origin, step_text};
use cad2robot_core::{CoreError, StubKernel};

#[test]
fn stub_kernel_hands_out_handles_from_one() {
    let mut kernel = StubKernel::new();
    assert_eq!(kernel.next_handle(), 1);
    let fake_step = b"ISO-10303-21; ... minimal ...";
    let h1 = kernel.load_step(fake_step).expect("stub should accept non-empty input");
    let h2 = kernel.load_step(fake_step).expect("stub should accept non-empty input");
    assert_eq!(h1, 1);
    assert_eq!(h2, 2);
    assert_eq!(kernel.next_handle(), 3);
}

#[test]
fn stub_kernel_refuses_empty_step() {
    let mut kernel = StubKernel::new();
    match kernel.load_step(b"") {
        Err(CoreError::StepParse(m)) => assert_eq!(m, "empty STEP"),
        other => panic!("expected a STEP parse error, got {:?}", other),
    }
    assert_eq!(kernel.next_handle(), 1);
    assert_eq!(kernel.load_step(b"x").unwrap(), 1);
}

#[test]
fn stub_kernel_tree_is_one_stub_body() {
    let mut kernel = StubKernel::new();
    let h = kernel.load_step(b"ISO-10303-21;").unwrap();
    let tree = kernel.get_assembly_tree(h).unwrap();
    assert_eq!(tree.len(), 1);
    assert_eq!(tree[0].handle, h);
    assert_eq!(tree[0].name, "stub_body_from_step");
    assert!(tree[0].children.is_empty());
    assert_eq!(kernel.next_handle(), 2);
}

#[test]
fn stub_kernel_fine_mesh_is_a_unit_cube() {
    let mut kernel = StubKernel::new();
    let h = kernel.load_step(b"ISO-10303-21;").unwrap();
    let tess = kernel.tessellate(h, false).unwrap();
    assert!(!tess.positions.is_empty());
    assert!(!tess.indices.is_empty());
    assert_eq!(tess.positions.len(), 24);
    assert_eq!(tess.normals.len(), 24);
    assert_eq!(tess.indices.len(), 36);
    let coords: Vec<f32> = tess.positions.iter().map(|b| f32::from_bits(*b)).collect();
    assert_eq!(&coords[18..21], &[1.0, 1.0, 1.0]);
    assert!(coords.iter().all(|c| *c == 0.0 || *c == 1.0));
    assert!(tess.indices.iter().all(|i| *i < 8));
}

#[test]
fn stub_kernel_coarse_mesh_is_a_tetrahedron() {
    let mut kernel = StubKernel::new();
    let h = kernel.load_step(b"ISO-10303-21;").unwrap();
    let tess = kernel.tessellate(h, true).unwrap();
    let coords: Vec<f32> = tess.positions.iter().map(|b| f32::from_bits(*b)).collect();
    assert_eq!(
        coords,
        vec![0., 0., 0., 2., 0., 0., 1., 2., 0., 1., 1., 2.]
    );
    assert_eq!(tess.normals, vec![0u32; 12]);
    assert_eq!(tess.indices, vec![0, 1, 2, 0, 1, 3, 0, 2, 3, 1, 2, 3]);
    kernel.dispose(h);
    assert_eq!(kernel.next_handle(), 2);
}

#[test]
fn step_text_accepts_utf8_only() {
    assert_eq!(step_text("ISO-10303-21; \u{e9}".as_bytes()).unwrap(), "ISO-10303-21; \u{e9}");
    match step_text(&[0x49, 0xff, 0x53]) {
        Err(CoreError::StepParse(m)) => assert_eq!(m, "STEP data is not valid UTF-8"),
        other => panic!("expected a STEP parse error, got {:?}", other),
    }
}

#[test]
fn core_error_messages() {
    assert_eq!(CoreError::Kernel("boom".to_string()).message(), "kernel error: boom");
    assert_eq!(CoreError::StepParse("bad".to_string()).message(), "STEP parsing failed: bad");
    assert_eq!(CoreError::InvalidHandle.message(), "invalid handle");
    assert_eq!(CoreError::InvalidScale.message(), "scale factor must be > 0");
    assert_eq!(CoreError::NotImplemented("joints").message(), "not implemented: joints");
    let io = std::io::Error::new(std::io::ErrorKind::Other, "disk full");
    assert_eq!(CoreError::from(io).message(), "I/O error: disk full");
    let json = serde_json::from_str::<u32>("nope").unwrap_err();
    let text = json.to_string();
    assert_eq!(CoreError::from(json).message(), format!("serialization error: {}", text));
}

#[test]
fn stub_kernel_basic_ingest_and_tess() {
    let mut kernel = StubKernel::new();
    // A tiny non-empty "STEP" blob is enough for the stub
    let fake_step = b"ISO-10303-21; ... minimal ...";
    let h = kernel.load_step(fake_step).expect("stub should accept non-empty input");

    let vol = f64::from_bits(kernel.get_volume(h).unwrap());
    assert!(vol > 0.0);

    // Linear deflection 0.5 asks for the fine mesh.
    let linear_deflection = 0.5f64;
    let tess = kernel.tessellate(h, linear_deflection > 1.0).unwrap();
    assert!(!tess.positions.is_empty());
    assert!(!tess.indices.is_empty());
}

#[test]
fn stub_kernel_volume_and_center_of_mass() {
    let mut kernel = StubKernel::new();
    let h = kernel.load_step(b"x").unwrap();
    assert_eq!(f64::from_bits(kernel.get_volume(h).unwrap()), 1000.0);
    let com = kernel.get_center_of_mass(h).unwrap();
    assert_eq!(com.map(f64::from_bits), [0.0, 0.0, 0.0]);
    assert_eq!(kernel.next_handle(), 2);
}

#[test]
fn center_of_mass_takes_three_coordinates_or_the_origin() {
    let v: Vec<u64> = [1.5f64, -2.0, 3.25, 9.0].iter().map(|c| c.to_bits()).collect();
    assert_eq!(first_three_or_origin(&v).map(f64::from_bits), [1.5, -2.0, 3.25]);
    let short: Vec<u64> = vec![7.0f64.to_bits(), 8.0f64.to_bits()];
    assert_eq!(first_three_or_origin(&short), [0, 0, 0]);
    assert_eq!(first_three_or_origin(&Vec::new()), [0, 0, 0]);
}

#[test]
fn tessellation_failure_reports_the_engine_text() {
    let e = occt_wasm::OcctError::Memory("no space".to_string());
    match cad2robot_core::kernel::tessellation_failure(e) {
        CoreError::Kernel(m) => assert_eq!(m, "tessellate: memory error: no space"),
        other => panic!("expected a kernel error, got {:?}", other),
    }
}
