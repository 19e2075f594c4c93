# cad2robot_core

Core of a STEP to URDF toolkit, written in Verus. The library's own code in
`src/` is verified against its contracts; the calls into OpenCascade
(`occt_wasm`) and a few std functions go through trusted specifications whose
doc comments say what is claimed of them.

- `src/model.rs`: the robot model (links, joints, inertials, meshes). Real
  numbers are kept as IEEE-754 bit patterns; mesh well-formedness.
- `src/kernel.rs`: the stub kernel and the OpenCascade kernel (`occt_wasm`):
  handle tables, assembly trees, stub meshes.
- `src/stl.rs`: binary STL bytes of a mesh, with the file layout proved.
- `src/urdf.rs`: URDF text and package names.
- `src/error.rs`, `src/text.rs`: the error type and small text helpers.
- `app/`: the command line, the browser bindings, serde copies of the model
  and everything that computes with floating point (scaling, masses,
  formatting numbers).
- `tests/`: tests of the library through its public interface.
