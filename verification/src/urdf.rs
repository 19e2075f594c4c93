//! URDF text and the package names it refers to.
use vstd::prelude::*;

verus! {

/// `s` with every space, and when `separators` also every '-' and '.', turned into '_'.
pub open spec fn underscored(s: Seq<char>, separators: bool) -> Seq<char> {
    s.map_values(|c: char| if c == ' ' || (separators && (c == '-' || c == '.')) { '_' } else { c })
}

fn underscore(s: &str, separators: bool) -> (r: String)
    ensures
        r@ == underscored(s@, separators),
{
    broadcast use vstd::string::group_string_axioms;
    let mut out = String::new();
    for c in iter: s.chars()
        invariant
            iter.seq() == s@,
            out@ == underscored(s@.take(iter.index()), separators),
    {
        let ghost before = out@;
        if c == ' ' || (separators && (c == '-' || c == '.')) {
            out.push('_');
        } else {
            out.push(c);
        }
        assert(out@ =~= underscored(s@.take(iter.index() + 1), separators));
    }
    assert(s@.take(s@.len() as int) =~= s@);
    out
}


/// Name of the ROS package that holds a robot's description: the name and "_description".
pub fn description_package_name(robot_name: &str) -> (r: String)
    ensures
        r@ == robot_name@ + "_description"@,
{
    String::from_str(robot_name).concat("_description")
}

/// Package name for a link exported from the web view: spaces become '_',
/// then "_description" follows.
pub fn link_package_name(base_link_name: &str) -> (r: String)
    ensures
        r@ == underscored(base_link_name@, false) + "_description"@,
{
    let name = underscore(base_link_name, false);
    description_package_name(name.as_str())
}

/// Robot name derived from a STEP file's stem: spaces, '-' and '.' become '_'.
pub fn robot_name_from_stem(stem: &str) -> (r: String)
    ensures
        r@ == underscored(stem@, true),
{
    underscore(stem, true)
}

/// Version string and health check of the browser bindings.
pub fn version() -> (r: String)
    ensures
        r@ == "cad2robot-wasm 0.1 (PR2 spike + occt native)"@,
{
    String::from_str("cad2robot-wasm 0.1 (PR2 spike + occt native)")
}

/// A single-link URDF document.
///
/// `robot` names the robot, `generator` and `note` fill the two comment lines
/// under the scale comment, `link` names the link, `pkg` the package holding
/// the meshes `{link}_visual.stl` and `{link}_collision.stl`. The numbers come
/// as the decimal text to print: `scale`, `mass`, and the centre of mass `cx`,
/// `cy`, `cz`. The inertia is a fixed placeholder.
pub open spec fn urdf_document(
    robot: Seq<char>,
    generator: Seq<char>,
    note: Seq<char>,
    link: Seq<char>,
    pkg: Seq<char>,
    scale: Seq<char>,
    mass: Seq<char>,
    cx: Seq<char>,
    cy: Seq<char>,
    cz: Seq<char>,
) -> Seq<char> {
    "<?xml version=\"1.0\" ?>\n<robot name=\""@ + robot + "\">\n  <!-- Generated by cad2robot "@
        + generator + " -->\n  <!-- scale_factor applied: "@ + scale + " (mm \u{2192} m) -->\n  <!-- "@
        + note + " -->\n\n  <link name=\""@ + link + "\">\n    <inertial>\n      "@ + "<origin xyz=\""@ + cx
        + " "@ + cy + " "@ + cz + "\" rpy=\"0 0 0\" />"@ + "\n      "@ + "<mass value=\""@ + mass
        + "\" />"@ + "\n      <!-- Placeholder inertia - will be replaced by proper tensor -->\n      <inertia ixx=\"0.1\" ixy=\"0.0\" ixz=\"0.0\" iyy=\"0.1\" iyz=\"0.0\" izz=\"0.1\" />\n    </inertial>\n\n    <visual>\n      <geometry>\n        <mesh filename=\""@
        + "package://"@ + pkg + "/meshes/"@ + link + "_visual.stl"@
        + "\" />\n      </geometry>\n    </visual>\n\n    <collision>\n      <geometry>\n        <mesh filename=\""@
        + "package://"@ + pkg + "/meshes/"@ + link + "_collision.stl"@
        + "\" />\n      </geometry>\n    </collision>\n  </link>\n\n</robot>\n"@
}

fn build_urdf(
    robot: &str,
    generator: &str,
    note: &str,
    link: &str,
    pkg: &str,
    scale: &str,
    mass: &str,
    cx: &str,
    cy: &str,
    cz: &str,
) -> (r: String)
    ensures
        r@ == urdf_document(robot@, generator@, note@, link@, pkg@, scale@, mass@, cx@, cy@, cz@),
{
    let mut s = String::from_str("<?xml version=\"1.0\" ?>\n<robot name=\"");
    s.append(robot);
    s.append("\">\n  <!-- Generated by cad2robot ");
    s.append(generator);
    s.append(" -->\n  <!-- scale_factor applied: ");
    s.append(scale);
    s.append(" (mm \u{2192} m) -->\n  <!-- ");
    s.append(note);
    s.append(" -->\n\n  <link name=\"");
    s.append(link);
    s.append("\">\n    <inertial>\n      ");
    s.append("<origin xyz=\"");
    s.append(cx);
    s.append(" ");
    s.append(cy);
    s.append(" ");
    s.append(cz);
    s.append("\" rpy=\"0 0 0\" />");
    s.append("\n      ");
    s.append("<mass value=\"");
    s.append(mass);
    s.append("\" />");
    s.append("\n      <!-- Placeholder inertia - will be replaced by proper tensor -->\n      <inertia ixx=\"0.1\" ixy=\"0.0\" ixz=\"0.0\" iyy=\"0.1\" iyz=\"0.0\" izz=\"0.1\" />\n    </inertial>\n\n    <visual>\n      <geometry>\n        <mesh filename=\"");
    s.append("package://");
    s.append(pkg);
    s.append("/meshes/");
    s.append(link);
    s.append("_visual.stl");
    s.append("\" />\n      </geometry>\n    </visual>\n\n    <collision>\n      <geometry>\n        <mesh filename=\"");
    s.append("package://");
    s.append(pkg);
    s.append("/meshes/");
    s.append(link);
    s.append("_collision.stl");
    s.append("\" />\n      </geometry>\n    </collision>\n  </link>\n\n</robot>\n");
    s
}

/// Generates a minimal single-link URDF for early prototyping and Isaac Sim:
/// the robot and its one link are both named `base_link_name`, and the meshes
/// live in package `package_name`.
///
/// The numbers come as the text to print: `scale` as written for the scale
/// factor, `mass` and the centre of mass `cx`, `cy`, `cz` with six decimals.
pub fn generate_minimal_urdf(
    package_name: &str,
    base_link_name: &str,
    scale: &str,
    mass: &str,
    cx: &str,
    cy: &str,
    cz: &str,
) -> (r: String)
    ensures
        r@ == urdf_document(
            base_link_name@,
            "web UI / convert"@,
            "TODO(PR3+): full kinematic tree, joints, accurate inertia, multiple links"@,
            base_link_name@,
            package_name@,
            scale@,
            mass@,
            cx@,
            cy@,
            cz@,
        ),
{
    build_urdf(
        base_link_name,
        "web UI / convert",
        "TODO(PR3+): full kinematic tree, joints, accurate inertia, multiple links",
        base_link_name,
        package_name,
        scale,
        mass,
        cx,
        cy,
        cz,
    )
}

/// The URDF that the command line `convert` writes: the robot is named after
/// the STEP file, its one link is "base_link", and the meshes live in package
/// `package_name`. Numbers come as the text to print, as for
/// `generate_minimal_urdf`.
pub fn convert_urdf(
    robot_name: &str,
    package_name: &str,
    scale: &str,
    mass: &str,
    cx: &str,
    cy: &str,
    cz: &str,
) -> (r: String)
    ensures
        r@ == urdf_document(
            robot_name@,
            "convert"@,
            "TODO: full kinematic tree, joints, accurate inertia, multiple links (PR3+)"@,
            "base_link"@,
            package_name@,
            scale@,
            mass@,
            cx@,
            cy@,
            cz@,
        ),
{
    build_urdf(
        robot_name,
        "convert",
        "TODO: full kinematic tree, joints, accurate inertia, multiple links (PR3+)",
        "base_link",
        package_name,
        scale,
        mass,
        cx,
        cy,
        cz,
    )
}


/// Where a package keeps a mesh file: "package://{pkg}/meshes/{file}".
pub open spec fn mesh_uri(pkg: Seq<char>, link: Seq<char>, suffix: Seq<char>) -> Seq<char> {
    "package://"@ + pkg + "/meshes/"@ + link + suffix
}

/// `piece` stands somewhere in `doc`.
pub open spec fn occurs_in(piece: Seq<char>, doc: Seq<char>) -> bool {
    exists|i: int| 0 <= i <= doc.len() - piece.len() && #[trigger] doc.subrange(i, i + piece.len()) == piece
}

proof fn lemma_occurs_between(a: Seq<char>, piece: Seq<char>, b: Seq<char>)
    ensures
        occurs_in(piece, a + piece + b),
{
    let doc = a + piece + b;
    assert(doc.subrange(a.len() as int, (a.len() + piece.len()) as int) =~= piece);
}

/// A generated URDF points its visual geometry at "{link}_visual.stl" and its
/// collision geometry at "{link}_collision.stl", both in the package's meshes folder.
pub proof fn lemma_urdf_references_meshes(
    robot: Seq<char>,
    generator: Seq<char>,
    note: Seq<char>,
    link: Seq<char>,
    pkg: Seq<char>,
    scale: Seq<char>,
    mass: Seq<char>,
    cx: Seq<char>,
    cy: Seq<char>,
    cz: Seq<char>,
)
    ensures
        occurs_in(
            mesh_uri(pkg, link, "_visual.stl"@),
            urdf_document(robot, generator, note, link, pkg, scale, mass, cx, cy, cz),
        ),
        occurs_in(
            mesh_uri(pkg, link, "_collision.stl"@),
            urdf_document(robot, generator, note, link, pkg, scale, mass, cx, cy, cz),
        ),
{
    let doc = urdf_document(robot, generator, note, link, pkg, scale, mass, cx, cy, cz);
    let visual = mesh_uri(pkg, link, "_visual.stl"@);
    let collision = mesh_uri(pkg, link, "_collision.stl"@);
    let head = "<?xml version=\"1.0\" ?>\n<robot name=\""@ + robot + "\">\n  <!-- Generated by cad2robot "@
        + generator + " -->\n  <!-- scale_factor applied: "@ + scale + " (mm \u{2192} m) -->\n  <!-- "@
        + note + " -->\n\n  <link name=\""@ + link + "\">\n    <inertial>\n      "@ + "<origin xyz=\""@ + cx
        + " "@ + cy + " "@ + cz + "\" rpy=\"0 0 0\" />"@ + "\n      "@ + "<mass value=\""@ + mass
        + "\" />"@ + "\n      <!-- Placeholder inertia - will be replaced by proper tensor -->\n      <inertia ixx=\"0.1\" ixy=\"0.0\" ixz=\"0.0\" iyy=\"0.1\" iyz=\"0.0\" izz=\"0.1\" />\n    </inertial>\n\n    <visual>\n      <geometry>\n        <mesh filename=\""@;
    let middle = "\" />\n      </geometry>\n    </visual>\n\n    <collision>\n      <geometry>\n        <mesh filename=\""@;
    let tail = "\" />\n      </geometry>\n    </collision>\n  </link>\n\n</robot>\n"@;
    assert(doc =~= head + visual + (middle + collision + tail));
    assert(doc =~= (head + visual + middle) + collision + tail);
    lemma_occurs_between(head, visual, middle + collision + tail);
    lemma_occurs_between(head + visual + middle, collision, tail);
}

/// Sanitising a name keeps its length and every other character in place, and
/// leaves no space (and, for stems, no '-' or '.') behind.
pub proof fn lemma_underscored(s: Seq<char>, separators: bool)
    ensures
        underscored(s, separators).len() == s.len(),
        forall|i: int|
            0 <= i < s.len() ==> {
                let c = #[trigger] underscored(s, separators)[i];
                &&& c != ' '
                &&& separators ==> c != '-' && c != '.'
                &&& (s[i] != ' ' && !(separators && (s[i] == '-' || s[i] == '.'))) ==> c == s[i]
            },
{
}

/// A generated URDF puts the link's inertial origin at the given centre of
/// mass, `<origin xyz="{cx} {cy} {cz}" rpy="0 0 0" />`, and its mass in
/// `<mass value="{mass}" />`, exactly as the given texts read.
pub proof fn lemma_urdf_inertial(
    robot: Seq<char>,
    generator: Seq<char>,
    note: Seq<char>,
    link: Seq<char>,
    pkg: Seq<char>,
    scale: Seq<char>,
    mass: Seq<char>,
    cx: Seq<char>,
    cy: Seq<char>,
    cz: Seq<char>,
)
    ensures
        occurs_in(
            "<origin xyz=\""@ + cx + " "@ + cy + " "@ + cz + "\" rpy=\"0 0 0\" />"@,
            urdf_document(robot, generator, note, link, pkg, scale, mass, cx, cy, cz),
        ),
        occurs_in(
            "<mass value=\""@ + mass + "\" />"@,
            urdf_document(robot, generator, note, link, pkg, scale, mass, cx, cy, cz),
        ),
{
    let doc = urdf_document(robot, generator, note, link, pkg, scale, mass, cx, cy, cz);
    let origin = "<origin xyz=\""@ + cx + " "@ + cy + " "@ + cz + "\" rpy=\"0 0 0\" />"@;
    let mass_line = "<mass value=\""@ + mass + "\" />"@;
    let head = "<?xml version=\"1.0\" ?>\n<robot name=\""@ + robot + "\">\n  <!-- Generated by cad2robot "@
        + generator + " -->\n  <!-- scale_factor applied: "@ + scale + " (mm \u{2192} m) -->\n  <!-- "@
        + note + " -->\n\n  <link name=\""@ + link + "\">\n    <inertial>\n      "@;
    let between = "\n      "@;
    let tail = "\n      <!-- Placeholder inertia - will be replaced by proper tensor -->\n      <inertia ixx=\"0.1\" ixy=\"0.0\" ixz=\"0.0\" iyy=\"0.1\" iyz=\"0.0\" izz=\"0.1\" />\n    </inertial>\n\n    <visual>\n      <geometry>\n        <mesh filename=\""@
        + "package://"@ + pkg + "/meshes/"@ + link + "_visual.stl"@
        + "\" />\n      </geometry>\n    </visual>\n\n    <collision>\n      <geometry>\n        <mesh filename=\""@
        + "package://"@ + pkg + "/meshes/"@ + link + "_collision.stl"@
        + "\" />\n      </geometry>\n    </collision>\n  </link>\n\n</robot>\n"@;
    assert(doc =~= head + origin + (between + mass_line + tail));
    assert(doc =~= (head + origin + between) + mass_line + tail);
    lemma_occurs_between(head, origin, between + mass_line + tail);
    lemma_occurs_between(head + origin + between, mass_line, tail);
}

} // verus!
