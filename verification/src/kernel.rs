//! Geometry kernels: the handle tables behind STEP ingestion.
//!
//! Two kernels: `StubKernel`, which always works and hands out fixed geometry
//! (good for early tests), and `OcctKernel`, backed by OpenCascade through
//! `occt_wasm`, whose public handles index a table of the kernel's shapes.
use vstd::prelude::*;
use crate::error::CoreError;
use vstd::string::to_string_from_display_ensures;
use crate::model::{MeshSnapshot, MeshView, lemma_well_formed_corners_in_range};
use occt_wasm::OcctKernel as OcctEngine;

verus! {

/// Stable handle type returned by a kernel.
pub type KernelHandle = u32;

/// High-level description of a body/part coming from the STEP assembly.
#[derive(Debug)]
pub struct AssemblyNode {
    pub handle: KernelHandle,
    pub name: String,
    pub children: Vec<AssemblyNode>,
}

/// A one-node assembly tree: the given handle and name, no children.
pub open spec fn single_node_tree(tree: Seq<AssemblyNode>, handle: KernelHandle, name: Seq<char>) -> bool {
    &&& tree.len() == 1
    &&& tree[0].handle == handle
    &&& tree[0].name@ == name
    &&& tree[0].children@.len() == 0
}

/// Bit pattern of the binary32 value 1.0.
pub const F32_ONE: u32 = 0x3F80_0000;

/// Bit pattern of the binary32 value 2.0.
pub const F32_TWO: u32 = 0x4000_0000;

/// The coarse collision proxy of the stub: a tetrahedron, four triangles.
pub open spec fn stub_coarse_mesh() -> MeshView {
    MeshView {
        positions: seq![0, 0, 0, F32_TWO, 0, 0, F32_ONE, F32_TWO, 0, F32_ONE, F32_ONE, F32_TWO],
        normals: Seq::new(12, |i: int| 0u32),
        indices: seq![0, 1, 2, 0, 1, 3, 0, 2, 3, 1, 2, 3],
    }
}

/// The fine mesh of the stub: a unit cube, twelve triangles.
pub open spec fn stub_fine_mesh() -> MeshView {
    MeshView {
        positions: seq![
            0, 0, 0, F32_ONE, 0, 0, F32_ONE, F32_ONE, 0, 0, F32_ONE, 0,
            0, 0, F32_ONE, F32_ONE, 0, F32_ONE, F32_ONE, F32_ONE, F32_ONE, 0, F32_ONE, F32_ONE,
        ],
        normals: Seq::new(24, |i: int| 0u32),
        indices: seq![
            0, 1, 2, 0, 2, 3, 4, 5, 6, 4, 6, 7,
            0, 1, 5, 0, 5, 4, 2, 3, 7, 2, 7, 6,
            0, 3, 7, 0, 7, 4, 1, 2, 6, 1, 6, 5,
        ],
    }
}

/// Bit pattern of the binary64 value 1000.0: the stub's volume (one litre in mm^3).
pub const STUB_VOLUME: u64 = 0x408F_4000_0000_0000;

/// A call on a stub kernel, as far as its handle counter is concerned: a load
/// of a non-empty blob, which is accepted, or any other call (an empty blob's
/// refused load, a tree, a tessellation, a query, a dispose).
pub enum StubCall {
    AcceptedLoad,
    Other,
}

/// What one call does to the stub's counter (`StubKernel@`): an accepted load
/// adds one, any other call leaves it.
pub open spec fn stub_next(counter: int, call: StubCall) -> int {
    match call {
        StubCall::AcceptedLoad => counter + 1,
        StubCall::Other => counter,
    }
}

/// The counter after `calls` on a fresh stub, which starts at 1.
pub open spec fn stub_counter(calls: Seq<StubCall>) -> int
    decreases calls.len(),
{
    if calls.len() == 0 {
        1
    } else {
        stub_next(stub_counter(calls.drop_last()), calls.last())
    }
}

/// How many of `calls` are accepted loads.
pub open spec fn accepted_loads(calls: Seq<StubCall>) -> int
    decreases calls.len(),
{
    if calls.len() == 0 {
        0
    } else {
        accepted_loads(calls.drop_last()) + if calls.last() is AcceptedLoad {
            1int
        } else {
            0int
        }
    }
}

/// Fallback kernel that always works: every non-empty STEP blob is accepted
/// and gets a fresh handle; the geometry is fixed.
pub struct StubKernel {
    next_handle: KernelHandle,
}

impl View for StubKernel {
    type V = KernelHandle;

    /// The handle that the next accepted STEP blob will get.
    closed spec fn view(&self) -> KernelHandle {
        self.next_handle
    }
}

impl StubKernel {
    /// A kernel that has handed out nothing yet; its first handle is 1.
    pub fn new() -> (k: Self)
        ensures
            k@ == 1,
    {
        StubKernel { next_handle: 1 }
    }

    /// The handle that the next accepted STEP blob will get.
    pub fn next_handle(&self) -> (h: KernelHandle)
        ensures
            h == self@,
    {
        self.next_handle
    }

    /// Loads a STEP blob: an empty one is refused, any other gets the next handle.
    pub fn load_step(&mut self, bytes: &[u8]) -> (r: Result<KernelHandle, CoreError>)
        requires
            bytes@.len() == 0 || old(self)@ < u32::MAX,
        ensures
            bytes@.len() == 0 ==> final(self)@ == old(self)@ && (r matches Err(
                CoreError::StepParse(m),
            ) && m@ == "empty STEP"@),
            bytes@.len() != 0 ==> final(self)@ == old(self)@ + 1 && r == Ok::<
                KernelHandle,
                CoreError,
            >(old(self)@),
            final(self)@ == stub_next(
                old(self)@ as int,
                if bytes@.len() == 0 {
                    StubCall::Other
                } else {
                    StubCall::AcceptedLoad
                },
            ),
    {
        if bytes.len() == 0 {
            return Err(CoreError::StepParse(String::from_str("empty STEP")));
        }
        let h = self.next_handle;
        self.next_handle = self.next_handle + 1;
        Ok(h)
    }

    /// The assembly under a handle: one body named "stub_body_from_step".
    pub fn get_assembly_tree(&mut self, root: KernelHandle) -> (r: Result<
        Vec<AssemblyNode>,
        CoreError,
    >)
        ensures
            final(self)@ == old(self)@,
            r matches Ok(tree) && single_node_tree(tree@, root, "stub_body_from_step"@),
    {
        let node = AssemblyNode {
            handle: root,
            name: String::from_str("stub_body_from_step"),
            children: Vec::new(),
        };
        let tree = vec![node];
        Ok(tree)
    }

    /// Tessellates a shape: a unit cube (twelve triangles) for a fine mesh, a
    /// tetrahedron (four triangles) when `coarse`, which is what a linear
    /// deflection above 1.0 asks for. Both are well formed.
    pub fn tessellate(&mut self, handle: KernelHandle, coarse: bool) -> (r: Result<
        MeshSnapshot,
        CoreError,
    >)
        ensures
            final(self)@ == old(self)@,
            r matches Ok(mesh) && mesh@ == (if coarse {
                stub_coarse_mesh()
            } else {
                stub_fine_mesh()
            }) && mesh@.well_formed(),
    {
        if coarse {
            let mesh = MeshSnapshot {
                positions: vec![0, 0, 0, F32_TWO, 0, 0, F32_ONE, F32_TWO, 0, F32_ONE, F32_ONE, F32_TWO],
                normals: vec![0u32; 12],
                indices: vec![0, 1, 2, 0, 1, 3, 0, 2, 3, 1, 2, 3],
            };
            assert(mesh@.positions =~= stub_coarse_mesh().positions);
            assert(mesh@.normals =~= stub_coarse_mesh().normals);
            assert(mesh@.indices =~= stub_coarse_mesh().indices);
            return Ok(mesh);
        }
        let mesh = MeshSnapshot {
            positions: vec![
                0, 0, 0, F32_ONE, 0, 0, F32_ONE, F32_ONE, 0, 0, F32_ONE, 0,
                0, 0, F32_ONE, F32_ONE, 0, F32_ONE, F32_ONE, F32_ONE, F32_ONE, 0, F32_ONE, F32_ONE,
            ],
            normals: vec![0u32; 24],
            indices: vec![
                0, 1, 2, 0, 2, 3, 4, 5, 6, 4, 6, 7,
                0, 1, 5, 0, 5, 4, 2, 3, 7, 2, 7, 6,
                0, 3, 7, 0, 7, 4, 1, 2, 6, 1, 6, 5,
            ],
        };
        assert(mesh@.positions =~= stub_fine_mesh().positions);
        assert(mesh@.normals =~= stub_fine_mesh().normals);
        assert(mesh@.indices =~= stub_fine_mesh().indices);
        Ok(mesh)
    }

    /// Volume in kernel units (binary64 bits): always 1000, one litre in mm^3.
    pub fn get_volume(&mut self, handle: KernelHandle) -> (r: Result<u64, CoreError>)
        ensures
            final(self)@ == old(self)@,
            r == Ok::<u64, CoreError>(STUB_VOLUME),
    {
        Ok(STUB_VOLUME)
    }

    /// Centre of mass in kernel units (binary64 bits): always the origin.
    pub fn get_center_of_mass(&mut self, handle: KernelHandle) -> (r: Result<[u64; 3], CoreError>)
        ensures
            final(self)@ == old(self)@,
            r matches Ok(c) && c@ == seq![0u64, 0u64, 0u64],
    {
        let c: [u64; 3] = [0, 0, 0];
        assert(c@ =~= seq![0u64, 0u64, 0u64]);
        Ok(c)
    }

    /// Releases a handle: the stub holds nothing, so nothing changes.
    pub fn dispose(&mut self, handle: KernelHandle)
        ensures
            final(self)@ == old(self)@,
    {
    }
}

} // verus!

verus! {

/// `occt_wasm::OcctKernel` (here `OcctEngine`): an OpenCascade instance running in a WASM sandbox.
#[verifier::external_type_specification]
#[verifier::external_body]
pub struct ExOcctEngine(OcctEngine);

/// `occt_wasm::ShapeHandle`: an opaque reference to a shape in that sandbox.
#[verifier::external_type_specification]
#[verifier::external_body]
pub struct ExShapeHandle(occt_wasm::ShapeHandle);

/// `occt_wasm::OcctError`: what an OpenCascade call reports on failure.
#[verifier::external_type_specification]
#[verifier::external_body]
pub struct ExOcctError(occt_wasm::OcctError);

/// `OcctEngine::new`: decompresses and compiles the embedded module.
/// Nothing is claimed of the outcome: it depends on the host.
pub assume_specification[ OcctEngine::new ]() -> occt_wasm::OcctResult<OcctEngine>;

/// The shapes an OpenCascade engine holds alive: as occt_wasm documents its
/// handles, one is valid from the call that creates it until it is released
/// (or the engine is dropped).
pub uninterp spec fn live_shapes(engine: OcctEngine) -> Set<occt_wasm::ShapeHandle>;

/// The shape an engine in a given state creates when it reads STEP text.
pub uninterp spec fn occt_import(engine: OcctEngine, data: Seq<char>) -> occt_wasm::ShapeHandle;

/// The volume (binary64 bits) an engine in a given state computes for a shape.
pub uninterp spec fn occt_volume(engine: OcctEngine, shape: occt_wasm::ShapeHandle) -> u64;

/// The centre-of-mass coordinates (binary64 bits) an engine in a given state
/// computes for a shape.
pub uninterp spec fn occt_center_of_mass(engine: OcctEngine, shape: occt_wasm::ShapeHandle) -> Seq<u64>;

/// `OcctEngine::import_step`: reads STEP text into a new shape.
/// Claimed of it: a shape it hands back is the one the engine, in the state it
/// was in, makes of that text (`occt_import`), and it is alive afterwards.
/// Nothing is claimed of whether it succeeds, nor of other shapes.
pub assume_specification[ OcctEngine::import_step ](
    kernel: &mut OcctEngine,
    data: &str,
) -> (r: occt_wasm::OcctResult<occt_wasm::ShapeHandle>)
    ensures
        r matches Ok(s) ==> s == occt_import(*old(kernel), data@),
        r matches Ok(s) ==> live_shapes(*final(kernel)).contains(s),
;

/// `OcctEngine::release`: frees a shape inside the sandbox.
/// Claimed of it: when it reports success, the shape is no longer alive.
/// Nothing is claimed of whether it succeeds, nor of other shapes.
pub assume_specification[ OcctEngine::release ](
    kernel: &mut OcctEngine,
    id: occt_wasm::ShapeHandle,
) -> (r: occt_wasm::OcctResult<()>)
    ensures
        r is Ok ==> !live_shapes(*final(kernel)).contains(id),
;

/// `occt_wasm::OcctKernel::get_volume`: the volume of a shape in kernel units,
/// handed back as its binary64 bit pattern. Claimed of it: a value it hands back
/// is what the engine, in the state it was in, computes for that shape
/// (`occt_volume`). Nothing is claimed of whether it succeeds.
#[verifier::external_body]
fn engine_volume(engine: &mut OcctEngine, shape: occt_wasm::ShapeHandle) -> (r: occt_wasm::OcctResult<u64>)
    ensures
        r matches Ok(v) ==> v == occt_volume(*old(engine), shape),
{
    engine.get_volume(shape).map(|v| v.to_bits())
}

/// `occt_wasm::OcctKernel::get_center_of_mass`: the coordinates of a shape's
/// centre of mass, each handed back as its binary64 bit pattern. Claimed of it:
/// what it hands back is what the engine, in the state it was in, computes for
/// that shape (`occt_center_of_mass`). Nothing is claimed of whether it
/// succeeds, nor of how many coordinates come back.
#[verifier::external_body]
fn engine_center_of_mass(engine: &mut OcctEngine, shape: occt_wasm::ShapeHandle) -> (r: occt_wasm::OcctResult<Vec<u64>>)
    ensures
        r matches Ok(v) ==> v@ == occt_center_of_mass(*old(engine), shape),
{
    engine.get_center_of_mass(shape).map(|v| v.into_iter().map(|c| c.to_bits()).collect())
}

/// The first three coordinates of `v`, or the origin when it has fewer.
pub open spec fn first_three(v: Seq<u64>) -> Seq<u64> {
    if v.len() >= 3 {
        v.subrange(0, 3)
    } else {
        seq![0u64, 0u64, 0u64]
    }
}

/// The first three coordinates of a centre of mass, or the origin when fewer came back.
pub fn first_three_or_origin(v: &Vec<u64>) -> (c: [u64; 3])
    ensures
        c@ == first_three(v@),
        v@.len() >= 3 ==> c@ == v@.subrange(0, 3),
        v@.len() < 3 ==> c@ == seq![0u64, 0u64, 0u64],
{
    if v.len() >= 3 {
        let c: [u64; 3] = [v[0], v[1], v[2]];
        assert(c@ =~= v@.subrange(0, 3));
        c
    } else {
        let c: [u64; 3] = [0, 0, 0];
        assert(c@ =~= seq![0u64, 0u64, 0u64]);
        c
    }
}

/// `text` is `prefix` followed by what the outside error `e` displays as.
pub open spec fn failure_text(text: Seq<char>, prefix: Seq<char>, e: occt_wasm::OcctError) -> bool {
    exists|t: String|
        to_string_from_display_ensures::<occt_wasm::OcctError>(&e, t) && text == prefix + t@
}

/// `text` reports some outside error under `prefix`: the prefix, then that
/// error's display text.
pub open spec fn reported(text: Seq<char>, prefix: Seq<char>) -> bool {
    exists|e: occt_wasm::OcctError| #[trigger] failure_text(text, prefix, e)
}

/// A kernel failure reported under `prefix`, followed by the outside error's text.
fn kernel_failure(prefix: &str, e: occt_wasm::OcctError) -> (err: CoreError)
    ensures
        err matches CoreError::Kernel(m) && failure_text(m@, prefix@, e),
{
    let detail = e.to_string();
    let m = String::from_str(prefix).concat(detail.as_str());
    CoreError::Kernel(m)
}

/// The error of a failed tessellation, as the kernel reports it: "tessellate: "
/// followed by the outside error's text.
pub fn tessellation_failure(e: occt_wasm::OcctError) -> (err: CoreError)
    ensures
        err matches CoreError::Kernel(m) && failure_text(m@, "tessellate: "@, e),
{
    kernel_failure("tessellate: ", e)
}

/// The error of a failed import, as the kernel reports it.
fn import_failure(e: occt_wasm::OcctError) -> (err: CoreError)
    ensures
        err matches CoreError::StepParse(m) && failure_text(m@, "occt import_step failed: "@, e),
{
    let detail = e.to_string();
    let m = String::from_str("occt import_step failed: ").concat(detail.as_str());
    CoreError::StepParse(m)
}

/// Production kernel backed by OpenCascade (`occt_wasm`).
///
/// It keeps the table of every shape it has imported, in import order (its
/// view). Public handles are 1-based positions in it: the first import gets
/// handle 1, handle `h` names entry `h - 1`, and 0 names nothing.
pub struct OcctKernel {
    inner: OcctEngine,
    shapes: Vec<occt_wasm::ShapeHandle>,
}

impl View for OcctKernel {
    type V = Seq<occt_wasm::ShapeHandle>;

    /// The shape table, in import order.
    closed spec fn view(&self) -> Seq<occt_wasm::ShapeHandle> {
        self.shapes@
    }
}

/// Checks that STEP data is UTF-8 text, as the OpenCascade reader needs.
pub fn step_text(bytes: &[u8]) -> (r: Result<&str, CoreError>)
    ensures
        r is Ok <==> vstd::utf8::valid_utf8(bytes@),
        r matches Ok(t) ==> vstd::string::StringSliceAdditionalSpecFns::spec_bytes(t) == bytes@,
        r matches Ok(t) ==> t@ == vstd::utf8::decode_utf8(bytes@),
        r matches Err(e) ==> e matches CoreError::StepParse(m) && m@
            == "STEP data is not valid UTF-8"@,
{
    broadcast use vstd::utf8::encode_utf8_decode_utf8;

    match crate::text::utf8_text(bytes) {
        Some(t) => Ok(t),
        None => Err(CoreError::StepParse(String::from_str("STEP data is not valid UTF-8"))),
    }
}

impl OcctKernel {
    /// The OpenCascade engine this kernel drives.
    pub closed spec fn engine_state(&self) -> OcctEngine {
        self.inner
    }

    /// Handle `h` names an entry of the table: `1 <= h <= len`.
    pub open spec fn has_handle(&self, h: KernelHandle) -> bool {
        1 <= h <= self@.len()
    }

    /// Starts OpenCascade with an empty shape table.
    pub fn new() -> (r: Result<Self, CoreError>)
        ensures
            r matches Ok(k) ==> k@.len() == 0,
            r matches Err(e) ==> e matches CoreError::Kernel(m) && reported(
                m@,
                "failed to init OcctKernel: "@,
            ),
    {
        OcctKernel::from_engine(OcctEngine::new())
    }

    /// Wraps the outcome of starting OpenCascade: a started engine gets an
    /// empty shape table; a failure is reported as a kernel error.
    pub fn from_engine(started: occt_wasm::OcctResult<OcctEngine>) -> (r: Result<Self, CoreError>)
        ensures
            match started {
                Ok(engine) => r matches Ok(k) && k.engine_state() == engine && k@.len() == 0,
                Err(e) => r matches Err(CoreError::Kernel(m)) && failure_text(
                    m@,
                    "failed to init OcctKernel: "@,
                    e,
                ),
            },
    {
        match started {
            Ok(inner) => Ok(OcctKernel { inner, shapes: Vec::new() }),
            Err(e) => Err(kernel_failure("failed to init OcctKernel: ", e)),
        }
    }

    /// The engine, for the calls that take floating-point arguments.
    pub fn engine_mut(&mut self) -> (e: &mut OcctEngine)
        ensures
            *e == old(self).engine_state(),
            final(self).engine_state() == *final(e),
            final(self)@ == old(self)@,
    {
        &mut self.inner
    }

    /// The shape behind a public handle, or `InvalidHandle` when the table has no such entry.
    pub fn to_shape(&self, h: KernelHandle) -> (r: Result<occt_wasm::ShapeHandle, CoreError>)
        ensures
            self.has_handle(h) ==> r == Ok::<occt_wasm::ShapeHandle, CoreError>(self@[h - 1]),
            !self.has_handle(h) ==> r matches Err(CoreError::InvalidHandle),
    {
        if h >= 1 && (h as usize) <= self.shapes.len() {
            Ok(self.shapes[(h - 1) as usize])
        } else {
            Err(CoreError::InvalidHandle)
        }
    }

    /// Records the outcome of an import: an imported shape joins the end of the
    /// table and its 1-based position becomes its public handle; a failure is
    /// reported as a STEP parse error and leaves the table as it was.
    pub fn record_import(&mut self, imported: occt_wasm::OcctResult<occt_wasm::ShapeHandle>) -> (r: Result<
        KernelHandle,
        CoreError,
    >)
        ensures
            final(self).engine_state() == old(self).engine_state(),
            match imported {
                Ok(s) => final(self)@ == old(self)@.push(s) && r == Ok::<KernelHandle, CoreError>(
                    (old(self)@.len() + 1) as KernelHandle,
                ),
                Err(e) => final(self)@ == old(self)@ && (r matches Err(CoreError::StepParse(m))
                    && failure_text(m@, "occt import_step failed: "@, e)),
            },
    {
        match imported {
            Ok(shape) => {
                self.shapes.push(shape);
                Ok(self.shapes.len() as KernelHandle)
            },
            Err(e) => Err(import_failure(e)),
        }
    }

    /// Loads STEP bytes: refused unless UTF-8, then handed to OpenCascade; an
    /// imported shape joins the table, alive in the engine, and gets its 1-based
    /// position as handle.
    pub fn load_step(&mut self, bytes: &[u8]) -> (r: Result<KernelHandle, CoreError>)
        ensures
            !vstd::utf8::valid_utf8(bytes@) ==> *final(self) == *old(self) && (r matches Err(
                CoreError::StepParse(m),
            ) && m@ == "STEP data is not valid UTF-8"@),
            r matches Ok(h) ==> h == (old(self)@.len() + 1) as KernelHandle && final(self)@.len()
                == old(self)@.len() + 1 && final(self)@.drop_last() == old(self)@ && live_shapes(
                final(self).engine_state(),
            ).contains(final(self)@.last()) && final(self)@.last() == occt_import(
                old(self).engine_state(),
                vstd::utf8::decode_utf8(bytes@),
            ),
            r matches Err(_) ==> final(self)@ == old(self)@,
            (vstd::utf8::valid_utf8(bytes@) && r is Err) ==> (r matches Err(CoreError::StepParse(m))
                && reported(m@, "occt import_step failed: "@)),
    {
        let data = match step_text(bytes) {
            Ok(t) => t,
            Err(e) => return Err(e),
        };
        let imported = self.inner.import_step(data);
        let r = self.record_import(imported);
        assert(r is Ok ==> final(self)@.drop_last() =~= old(self)@);
        r
    }

    /// The assembly under a handle: one node named "shape_" and the handle in decimal.
    pub fn get_assembly_tree(&mut self, root: KernelHandle) -> (r: Result<
        Vec<AssemblyNode>,
        CoreError,
    >)
        ensures
            *final(self) == *old(self),
            old(self).has_handle(root) ==> (r matches Ok(tree) && single_node_tree(
                tree@,
                root,
                "shape_"@ + crate::text::decimal(root as nat),
            )),
            !old(self).has_handle(root) ==> r matches Err(CoreError::InvalidHandle),
    {
        match self.to_shape(root) {
            Ok(_) => {},
            Err(e) => return Err(e),
        }
        let name = String::from_str("shape_").concat(crate::text::decimal_text(root).as_str());
        let node = AssemblyNode { handle: root, name, children: Vec::new() };
        Ok(vec![node])
    }

    /// Volume of the shape behind a handle, in kernel units (binary64 bits), as
    /// OpenCascade computes it. An unknown handle is refused without asking it.
    pub fn get_volume(&mut self, handle: KernelHandle) -> (r: Result<u64, CoreError>)
        ensures
            final(self)@ == old(self)@,
            !old(self).has_handle(handle) ==> *final(self) == *old(self) && r matches Err(
                CoreError::InvalidHandle,
            ),
            (old(self).has_handle(handle) && r is Err) ==> (r matches Err(CoreError::Kernel(m))
                && reported(m@, "get_volume: "@)),
            (old(self).has_handle(handle) && r is Ok) ==> r == Ok::<u64, CoreError>(
                occt_volume(old(self).engine_state(), old(self)@[handle - 1]),
            ),
    {
        let shape = match self.to_shape(handle) {
            Ok(s) => s,
            Err(e) => return Err(e),
        };
        match engine_volume(&mut self.inner, shape) {
            Ok(v) => Ok(v),
            Err(e) => Err(kernel_failure("get_volume: ", e)),
        }
    }

    /// Centre of mass of the shape behind a handle, in kernel units (binary64
    /// bits): the first three coordinates OpenCascade reports, or the origin
    /// when it reports fewer. An unknown handle is refused without asking it.
    pub fn get_center_of_mass(&mut self, handle: KernelHandle) -> (r: Result<[u64; 3], CoreError>)
        ensures
            final(self)@ == old(self)@,
            !old(self).has_handle(handle) ==> *final(self) == *old(self) && r matches Err(
                CoreError::InvalidHandle,
            ),
            (old(self).has_handle(handle) && r is Err) ==> (r matches Err(CoreError::Kernel(m))
                && reported(m@, "get_center_of_mass: "@)),
            (old(self).has_handle(handle) && r is Ok) ==> (r matches Ok(c) && c@ == first_three(
                occt_center_of_mass(old(self).engine_state(), old(self)@[handle - 1]),
            )),
    {
        let shape = match self.to_shape(handle) {
            Ok(s) => s,
            Err(e) => return Err(e),
        };
        match engine_center_of_mass(&mut self.inner, shape) {
            Ok(v) => Ok(first_three_or_origin(&v)),
            Err(e) => Err(kernel_failure("get_center_of_mass: ", e)),
        }
    }

    /// Releases the shape behind a handle inside OpenCascade. On success that
    /// shape is no longer alive in the engine; a failure is reported as
    /// "release: " and the engine's text. The table keeps its slot, so no
    /// handle is reused and other handles stay valid. A handle the table does
    /// not have is refused and changes nothing, OpenCascade included.
    pub fn dispose(&mut self, handle: KernelHandle) -> (r: Result<(), CoreError>)
        ensures
            final(self)@ == old(self)@,
            !old(self).has_handle(handle) ==> *final(self) == *old(self) && r matches Err(
                CoreError::InvalidHandle,
            ),
            (old(self).has_handle(handle) && r is Ok) ==> !live_shapes(
                final(self).engine_state(),
            ).contains(old(self)@[handle - 1]),
            (old(self).has_handle(handle) && r is Err) ==> (r matches Err(CoreError::Kernel(m))
                && reported(m@, "release: "@)),
    {
        let shape = match self.to_shape(handle) {
            Ok(s) => s,
            Err(e) => return Err(e),
        };
        match self.inner.release(shape) {
            Ok(()) => Ok(()),
            Err(e) => Err(kernel_failure("release: ", e)),
        }
    }
}

} // verus!

verus! {

/// The stub's collision proxy is simpler than its visual mesh (four triangles
/// against twelve), and both are well formed, so both can be exported to STL.
pub proof fn lemma_stub_meshes()
    ensures
        stub_coarse_mesh().triangle_count() == 4,
        stub_fine_mesh().triangle_count() == 12,
        stub_coarse_mesh().well_formed(),
        stub_fine_mesh().well_formed(),
        stub_coarse_mesh().corners_in_range(),
        stub_fine_mesh().corners_in_range(),
{
    let c = stub_coarse_mesh();
    let f = stub_fine_mesh();
    assert(c.well_formed());
    assert(f.well_formed());
    lemma_well_formed_corners_in_range(c);
    lemma_well_formed_corners_in_range(f);
}

proof fn lemma_stub_counter_counts(calls: Seq<StubCall>)
    ensures
        stub_counter(calls) == 1 + accepted_loads(calls),
        accepted_loads(calls) >= 0,
    decreases calls.len(),
{
    if calls.len() > 0 {
        lemma_stub_counter_counts(calls.drop_last());
    }
}

proof fn lemma_accepted_loads_grow(calls: Seq<StubCall>, i: int, j: int)
    requires
        0 <= i <= j <= calls.len(),
    ensures
        accepted_loads(calls.take(i)) <= accepted_loads(calls.take(j)),
    decreases j - i,
{
    if i < j {
        lemma_accepted_loads_grow(calls, i, j - 1);
        assert(calls.take(j).drop_last() =~= calls.take(j - 1));
    }
}

/// Handles of the stub. A fresh stub (`new`) starts its counter at 1; an
/// accepted load returns the counter and adds one; every other call leaves it
/// (the `ensures` of each `StubKernel` method). So in any sequence of calls on
/// a fresh stub, the accepted load at position `i` gets handle
/// `stub_counter(calls.take(i))`, which is one more than the number of
/// accepted loads before it: the k-th accepted load gets handle k. Handles are
/// never 0, and a later accepted load (at `j`) gets a larger handle.
pub proof fn lemma_stub_handles(calls: Seq<StubCall>, i: int, j: int)
    requires
        0 <= i < j < calls.len(),
        calls[i] is AcceptedLoad,
    ensures
        stub_counter(calls.take(i)) == 1 + accepted_loads(calls.take(i)),
        stub_counter(calls.take(i)) >= 1,
        stub_counter(calls.take(i)) < stub_counter(calls.take(j)),
{
    lemma_stub_counter_counts(calls.take(i));
    lemma_stub_counter_counts(calls.take(j));
    lemma_stub_counter_counts(calls.take(i + 1));
    assert(calls.take(i + 1).drop_last() =~= calls.take(i));
    assert(calls.take(i + 1).last() == calls[i]);
    lemma_accepted_loads_grow(calls, i + 1, j);
}

/// A successful load adds exactly one entry to the table: the handle it
/// returns is the table's new length, never 0, and resolves (through
/// `to_shape`) to the new shape; every older handle still names the shape it
/// named before. Handles are `u32`, so this holds while the table had fewer
/// than `u32::MAX` entries before the load.
pub proof fn lemma_loaded_handle_resolves(
    before: Seq<occt_wasm::ShapeHandle>,
    after: Seq<occt_wasm::ShapeHandle>,
    h: KernelHandle,
)
    requires
        before.len() < u32::MAX,
        h == (before.len() + 1) as KernelHandle,
        after.len() == before.len() + 1,
        after.drop_last() == before,
    ensures
        1 <= h <= after.len(),
        h == after.len(),
        after[h - 1] == after.last(),
        forall|g: int| 1 <= g <= before.len() ==> #[trigger] after[g - 1] == before[g - 1],
{
    assert forall|g: int| 1 <= g <= before.len() implies #[trigger] after[g - 1] == before[g - 1] by {
        assert(after.drop_last()[g - 1] == after[g - 1]);
    }
}

/// A handle that `load_step` returns names the shape it loaded: when the table
/// grew by one entry and the load returned `h` (its new length), `h` is a valid
/// handle, `to_shape(h)` resolves to the newest entry, every handle valid
/// before stays valid and names the same shape, and handle 0 never names one.
pub proof fn lemma_load_then_resolve(before: OcctKernel, after: OcctKernel, h: KernelHandle)
    requires
        before@.len() < u32::MAX,
        h == (before@.len() + 1) as KernelHandle,
        after@.len() == before@.len() + 1,
        after@.drop_last() == before@,
    ensures
        after.has_handle(h),
        after@[h - 1] == after@.last(),
        !after.has_handle(0),
        forall|g: KernelHandle|
            before.has_handle(g) ==> after.has_handle(g) && after@[g - 1] == before@[g - 1],
{
    assert forall|g: KernelHandle| before.has_handle(g) implies after.has_handle(g) && after@[g
        - 1] == before@[g - 1] by {
        assert(after@.drop_last()[g - 1] == after@[g - 1]);
    }
}

/// Coordinate `axis` (0 for x, 1 for y, 2 for z) of vertex `v` of a mesh.
pub open spec fn coord(m: MeshView, v: int, axis: int) -> u32 {
    m.positions[3 * v + axis]
}

/// The coordinates (x, y, z) of vertex `v` of a mesh.
pub open spec fn vertex_of(m: MeshView, v: int) -> (u32, u32, u32) {
    (m.positions[3 * v], m.positions[3 * v + 1], m.positions[3 * v + 2])
}

/// The three vertex numbers of triangle `t` of a mesh.
pub open spec fn triangle_of(m: MeshView, t: int) -> (u32, u32, u32) {
    (m.indices[3 * t], m.indices[3 * t + 1], m.indices[3 * t + 2])
}

/// All three corners of triangle `t` have coordinate `axis` equal to `side`.
pub open spec fn triangle_on_face(m: MeshView, t: int, axis: int, side: u32) -> bool {
    &&& coord(m, m.indices[3 * t] as int, axis) == side
    &&& coord(m, m.indices[3 * t + 1] as int, axis) == side
    &&& coord(m, m.indices[3 * t + 2] as int, axis) == side
}

/// Two different triangles of `m` lie on the face where coordinate `axis` is `side`.
pub open spec fn face_carries_two(m: MeshView, axis: int, side: u32) -> bool {
    exists|t1: int, t2: int|
        0 <= t1 < t2 < m.triangle_count() && #[trigger] triangle_on_face(m, t1, axis, side)
            && #[trigger] triangle_on_face(m, t2, axis, side)
}

proof fn lemma_below_eight(v: int)
    requires
        0 <= v < 8,
    ensures
        v == 0 || v == 1 || v == 2 || v == 3 || v == 4 || v == 5 || v == 6 || v == 7,
{
}

proof fn lemma_below_twelve(t: int)
    requires
        0 <= t < 12,
    ensures
        t == 0 || t == 1 || t == 2 || t == 3 || t == 4 || t == 5 || t == 6 || t == 7 || t == 8
            || t == 9 || t == 10 || t == 11,
{
}

/// The stub's fine mesh is the unit cube: eight vertices, each a corner of
/// [0, 1]^3 (coordinates 0.0 or 1.0), no two alike, so together all eight
/// corners; each of its twelve triangles has three different corners on one
/// face of the cube; and each of the six faces carries two different triangles.
pub proof fn lemma_stub_fine_mesh_is_unit_cube()
    ensures
        stub_fine_mesh().vertex_count() == 8,
        stub_fine_mesh().triangle_count() == 12,
        forall|v: int, axis: int|
            0 <= v < 8 && 0 <= axis < 3 ==> #[trigger] coord(stub_fine_mesh(), v, axis) == 0
                || coord(stub_fine_mesh(), v, axis) == F32_ONE,
        forall|a: int, b: int|
            0 <= a < b < 8 ==> #[trigger] vertex_of(stub_fine_mesh(), a) != #[trigger] vertex_of(
                stub_fine_mesh(),
                b,
            ),
        forall|t: int|
            0 <= t < 12 ==> {
                let c = #[trigger] triangle_of(stub_fine_mesh(), t);
                &&& c.0 != c.1
                &&& c.0 != c.2
                &&& c.1 != c.2
                &&& exists|axis: int, side: u32|
                    0 <= axis < 3 && #[trigger] triangle_on_face(stub_fine_mesh(), t, axis, side)
            },
        forall|axis: int, side: u32|
            0 <= axis < 3 && (side == 0 || side == F32_ONE) ==> #[trigger] face_carries_two(
                stub_fine_mesh(),
                axis,
                side,
            ),
{
    let m = stub_fine_mesh();
    assert forall|v: int, axis: int| 0 <= v < 8 && 0 <= axis < 3 implies #[trigger] coord(
        m,
        v,
        axis,
    ) == 0 || coord(m, v, axis) == F32_ONE by {
        lemma_below_eight(v);
    }
    assert forall|a: int, b: int| 0 <= a < b < 8 implies #[trigger] vertex_of(m, a)
        != #[trigger] vertex_of(m, b) by {
        lemma_below_eight(a);
        lemma_below_eight(b);
    }
    assert forall|t: int| 0 <= t < 12 implies {
        let c = #[trigger] triangle_of(m, t);
        &&& c.0 != c.1
        &&& c.0 != c.2
        &&& c.1 != c.2
        &&& exists|axis: int, side: u32| 0 <= axis < 3 && #[trigger] triangle_on_face(m, t, axis, side)
    } by {
        lemma_below_twelve(t);
        if t == 0 || t == 1 {
            assert(triangle_on_face(m, t, 2, 0));
        } else if t == 2 || t == 3 {
            assert(triangle_on_face(m, t, 2, F32_ONE));
        } else if t == 4 || t == 5 {
            assert(triangle_on_face(m, t, 1, 0));
        } else if t == 6 || t == 7 {
            assert(triangle_on_face(m, t, 1, F32_ONE));
        } else if t == 8 || t == 9 {
            assert(triangle_on_face(m, t, 0, 0));
        } else {
            assert(triangle_on_face(m, t, 0, F32_ONE));
        }
    }
    assert forall|axis: int, side: u32| 0 <= axis < 3 && (side == 0 || side == F32_ONE) implies #[trigger] face_carries_two(
        m,
        axis,
        side,
    ) by {
        let base: int = if axis == 2 {
            if side == 0 { 0 } else { 2 }
        } else if axis == 1 {
            if side == 0 { 4 } else { 6 }
        } else {
            if side == 0 { 8 } else { 10 }
        };
        assert(axis == 0 || axis == 1 || axis == 2);
        assert(triangle_on_face(m, base, axis, side));
        assert(triangle_on_face(m, base + 1, axis, side));
    }
}

} // verus!
