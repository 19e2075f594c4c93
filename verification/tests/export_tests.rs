use cad2robot_core::text::decimal_text;
use cad2robot_core::urdf::{description_package_name, link_package_name, robot_name_from_stem};
use cad2robot_core::{convert_urdf, generate_minimal_urdf, mesh_to_stl_bytes, version};
use cad2robot_core::{MeshSnapshot, StubKernel};

fn expected_minimal_urdf(package_name: &str, base_link_name: &str, scale: f64, mass: f64, com: [f64; 3]) -> String {
    format!(
        r#"<?xml version="1.0" ?>
<robot name="{base_link_name}">
  <!-- Generated by cad2robot web UI / convert -->
  <!-- scale_factor applied: {scale} (mm → m) -->
  <!-- TODO(PR3+): full kinematic tree, joints, accurate inertia, multiple links -->

  <link name="{base_link_name}">
    <inertial>
      <origin xyz="{cx:.6} {cy:.6} {cz:.6}" rpy="0 0 0" />
      <mass value="{mass:.6}" />
      <!-- Placeholder inertia - will be replaced by proper tensor -->
      <inertia ixx="0.1" ixy="0.0" ixz="0.0" iyy="0.1" iyz="0.0" izz="0.1" />
    </inertial>

    <visual>
      <geometry>
        <mesh filename="package://{package_name}/meshes/{base_link_name}_visual.stl" />
      </geometry>
    </visual>

    <collision>
      <geometry>
        <mesh filename="package://{package_name}/meshes/{base_link_name}_collision.stl" />
      </geometry>
    </collision>
  </link>

</robot>
"#,
        base_link_name = base_link_name,
        package_name = package_name,
        scale = scale,
        cx = com[0],
        cy = com[1],
        cz = com[2],
        mass = mass,
    )
}

#[test]
fn minimal_urdf_matches_the_template() {
    let expected = expected_minimal_urdf("arm_description", "arm", 0.001, 7.8, [0.5, -1.25, 0.0]);
    let got = generate_minimal_urdf("arm_description", "arm", "0.001", "7.800000", "0.500000", "-1.250000", "0.000000");
    assert_eq!(got, expected);
    assert!(got.contains("package://arm_description/meshes/arm_visual.stl"));
    assert!(got.contains("package://arm_description/meshes/arm_collision.stl"));
}

#[test]
fn convert_urdf_names_robot_after_the_file() {
    let got = convert_urdf("my_arm", "my_arm_description", "0.001", "0.007800", "0.000000", "0.000000", "0.000000");
    assert!(got.starts_with("<?xml version=\"1.0\" ?>\n<robot name=\"my_arm\">\n  <!-- Generated by cad2robot convert -->\n"));
    assert!(got.contains("  <!-- TODO: full kinematic tree, joints, accurate inertia, multiple links (PR3+) -->\n"));
    assert!(got.contains("<link name=\"base_link\">"));
    assert!(got.contains("<mass value=\"0.007800\" />"));
    assert!(got.contains("package://my_arm_description/meshes/base_link_visual.stl"));
    assert!(got.contains("package://my_arm_description/meshes/base_link_collision.stl"));
    assert!(got.ends_with("  </link>\n\n</robot>\n"));
}

#[test]
fn package_and_robot_names() {
    assert_eq!(link_package_name("base link"), "base_link_description");
    assert_eq!(link_package_name("a-b.c"), "a-b.c_description");
    assert_eq!(robot_name_from_stem("my robot-arm.v2"), "my_robot_arm_v2");
    assert_eq!(description_package_name("robot"), "robot_description");
    assert_eq!(robot_name_from_stem("br\u{e4}ke arm"), "br\u{e4}ke_arm");
}

#[test]
fn version_string() {
    assert_eq!(version(), "cad2robot-wasm 0.1 (PR2 spike + occt native)");
}

#[test]
fn decimal_numerals() {
    assert_eq!(decimal_text(0), "0");
    assert_eq!(decimal_text(7), "7");
    assert_eq!(decimal_text(42), "42");
    assert_eq!(decimal_text(1000), "1000");
    assert_eq!(decimal_text(u32::MAX), "4294967295");
}

#[test]
fn stl_of_the_stub_tetrahedron() {
    let mut kernel = StubKernel::new();
    let h = kernel.load_step(b"ISO-10303-21;").unwrap();
    let mesh = kernel.tessellate(h, true).unwrap();
    let bytes = mesh_to_stl_bytes(&mesh);
    assert_eq!(bytes.len(), 84 + 50 * 4);
    assert_eq!(&bytes[..20], b"CAD2Robot binary STL");
    assert!(bytes[20..80].iter().all(|b| *b == 0));
    assert_eq!(&bytes[80..84], &4u32.to_le_bytes());
    // First triangle: corners 0, 1, 2.
    let rec = &bytes[84..134];
    assert!(rec[..12].iter().all(|b| *b == 0));
    let mut expected = Vec::new();
    for v in [[0f32, 0., 0.], [2., 0., 0.], [1., 2., 0.]] {
        for c in v {
            expected.extend_from_slice(&c.to_le_bytes());
        }
    }
    assert_eq!(&rec[12..48], &expected[..]);
    assert_eq!(&rec[48..50], &[0, 0]);
    // Last triangle: corners 1, 2, 3.
    let last = &bytes[234..284];
    assert_eq!(&last[12..16], &2f32.to_le_bytes());
    assert_eq!(&last[36..48], &[1f32.to_le_bytes(), 1f32.to_le_bytes(), 2f32.to_le_bytes()].concat()[..]);
}

#[test]
fn stl_writes_coordinates_little_endian() {
    let mesh = MeshSnapshot {
        positions: vec![0x0102_0304, 0xA0B0_C0D0, 7, 9, 9, 9],
        normals: vec![0; 6],
        indices: vec![1, 0, 1, 0],
    };
    let bytes = mesh_to_stl_bytes(&mesh);
    assert_eq!(bytes.len(), 134);
    assert_eq!(&bytes[80..84], &[1, 0, 0, 0]);
    let rec = &bytes[84..134];
    assert_eq!(&rec[12..24], &[9, 0, 0, 0, 9, 0, 0, 0, 9, 0, 0, 0]);
    assert_eq!(&rec[24..36], &[4, 3, 2, 1, 0xD0, 0xC0, 0xB0, 0xA0, 7, 0, 0, 0]);
}

#[test]
fn stl_of_an_empty_mesh_is_header_and_zero_count() {
    let mesh = MeshSnapshot { positions: vec![], normals: vec![], indices: vec![] };
    let bytes = mesh_to_stl_bytes(&mesh);
    assert_eq!(bytes.len(), 84);
    assert_eq!(&bytes[80..84], &[0, 0, 0, 0]);
}

#[test]
fn stl_ignores_indices_after_the_last_triangle() {
    let positions = vec![1, 2, 3, 4, 5, 6, 7, 8, 9];
    let with_rest = MeshSnapshot { positions: positions.clone(), normals: vec![0; 9], indices: vec![2, 0, 1, 1, 99] };
    let whole = MeshSnapshot { positions, normals: vec![0; 9], indices: vec![2, 0, 1] };
    assert_eq!(mesh_to_stl_bytes(&with_rest), mesh_to_stl_bytes(&whole));
}
