//! Binary STL (little endian) export of a mesh snapshot.
use vstd::prelude::*;
use crate::model::{MeshSnapshot, MeshView};

verus! {

/// The four little-endian bytes of `v`.
pub open spec fn le_bytes(v: u32) -> Seq<u8> {
    seq![
        (v % 256) as u8,
        ((v / 256) % 256) as u8,
        ((v / 65536) % 256) as u8,
        ((v / 16777216) % 256) as u8,
    ]
}

/// The number that four little-endian bytes stand for.
pub open spec fn le_value(b: Seq<u8>) -> int {
    b[0] + 256 * b[1] + 65536 * b[2] + 16777216 * b[3]
}

/// `n` zero bytes.
pub open spec fn zeros(n: nat) -> Seq<u8> {
    Seq::new(n, |i: int| 0u8)
}

/// The title at the start of the header: "CAD2Robot binary STL" in ASCII.
pub open spec fn stl_title() -> Seq<u8> {
    seq![67u8, 65, 68, 50, 82, 111, 98, 111, 116, 32, 98, 105, 110, 97, 114, 121, 32, 83, 84, 76]
}

/// The 80-byte header: the title, padded with zero bytes.
pub open spec fn stl_header() -> Seq<u8> {
    stl_title() + zeros(60)
}

/// The three coordinates of vertex `v`, as stored.
pub open spec fn stl_vertex(positions: Seq<u32>, v: u32) -> Seq<u8> {
    le_bytes(positions[3 * v]) + le_bytes(positions[3 * v + 1]) + le_bytes(positions[3 * v + 2])
}

/// The 50-byte record of triangle `t`: a zero normal, its three corners, a zero attribute.
pub open spec fn stl_facet(m: MeshView, t: int) -> Seq<u8> {
    zeros(12) + stl_vertex(m.positions, m.indices[3 * t]) + stl_vertex(
        m.positions,
        m.indices[3 * t + 1],
    ) + stl_vertex(m.positions, m.indices[3 * t + 2]) + zeros(2)
}

/// The records of the first `n` triangles, in order.
pub open spec fn stl_facets(m: MeshView, n: nat) -> Seq<u8>
    decreases n,
{
    if n == 0 {
        Seq::empty()
    } else {
        stl_facets(m, (n - 1) as nat) + stl_facet(m, n - 1)
    }
}

/// The whole file: header, triangle count (modulo 2^32, as a `u32` holds it), records.
pub open spec fn stl_document(m: MeshView) -> Seq<u8> {
    stl_header() + le_bytes(m.triangle_count() as u32) + stl_facets(m, m.triangle_count())
}

fn push_le_bytes(out: &mut Vec<u8>, v: u32)
    ensures
        final(out)@ == old(out)@ + le_bytes(v),
{
    out.push((v % 256) as u8);
    out.push((v / 256 % 256) as u8);
    out.push((v / 65536 % 256) as u8);
    out.push((v / 16777216 % 256) as u8);
}

fn push_zeros(out: &mut Vec<u8>, n: usize)
    ensures
        final(out)@ == old(out)@ + zeros(n as nat),
{
    let ghost start = out@;
    let mut i: usize = 0;
    while i < n
        invariant
            i <= n,
            out@ == start + zeros(i as nat),
        decreases n - i,
    {
        out.push(0u8);
        i = i + 1;
        assert(out@ =~= start + zeros(i as nat));
    }
}

fn push_vertex(out: &mut Vec<u8>, positions: &Vec<u32>, v: u32)
    requires
        3 * v + 2 < positions@.len(),
    ensures
        final(out)@ == old(out)@ + stl_vertex(positions@, v),
{
    let len = positions.len();
    assert(3 * v + 2 < len);
    let base = v as usize * 3;
    push_le_bytes(out, positions[base]);
    push_le_bytes(out, positions[base + 1]);
    push_le_bytes(out, positions[base + 2]);
    assert(out@ =~= old(out)@ + stl_vertex(positions@, v));
}

fn push_facet(out: &mut Vec<u8>, mesh: &MeshSnapshot, t: usize)
    requires
        mesh@.corners_in_range(),
        t < mesh@.triangle_count(),
    ensures
        final(out)@ == old(out)@ + stl_facet(mesh@, t as int),
{
    let ghost m = mesh@;
    let ghost s0 = old(out)@;
    let len = mesh.indices.len();
    assert(3 * t + 2 < len);
    let a = mesh.indices[3 * t];
    let b = mesh.indices[3 * t + 1];
    let c = mesh.indices[3 * t + 2];
    assert(3 * a + 2 < m.positions.len()) by {
        assert(m.indices[3 * t as int] == a);
    }
    assert(3 * b + 2 < m.positions.len()) by {
        assert(m.indices[3 * t + 1] == b);
    }
    assert(3 * c + 2 < m.positions.len()) by {
        assert(m.indices[3 * t + 2] == c);
    }
    push_zeros(out, 12);
    let ghost s1 = out@;
    push_vertex(out, &mesh.positions, a);
    let ghost s2 = out@;
    push_vertex(out, &mesh.positions, b);
    let ghost s3 = out@;
    push_vertex(out, &mesh.positions, c);
    let ghost s4 = out@;
    push_zeros(out, 2);
    proof {
        let va = stl_vertex(m.positions, a);
        let vb = stl_vertex(m.positions, b);
        let vc = stl_vertex(m.positions, c);
        assert(s2 == s0 + zeros(12) + va);
        assert(s3 =~= s0 + (zeros(12) + va + vb));
        assert(s4 =~= s0 + (zeros(12) + va + vb + vc));
        assert(out@ =~= s0 + (zeros(12) + va + vb + vc + zeros(2)));
    }
}

/// Converts a mesh snapshot to binary STL bytes.
///
/// The coordinates are written exactly as the snapshot holds them (scale them
/// first); each triangle gets a zero normal, which viewers recompute.
pub fn mesh_to_stl_bytes(mesh: &MeshSnapshot) -> (bytes: Vec<u8>)
    requires
        mesh@.corners_in_range(),
    ensures
        bytes@ == stl_document(mesh@),
{
    let ghost m = mesh@;
    let mut out: Vec<u8> = Vec::new();
    let title: [u8; 20] = [67, 65, 68, 50, 82, 111, 98, 111, 116, 32, 98, 105, 110, 97, 114, 121, 32, 83, 84, 76];
    let mut i: usize = 0;
    while i < 20
        invariant
            i <= 20,
            title@ == stl_title(),
            out@ == stl_title().take(i as int),
        decreases 20 - i,
    {
        out.push(title[i]);
        i = i + 1;
        assert(out@ =~= stl_title().take(i as int));
    }
    assert(out@ =~= stl_title());
    push_zeros(&mut out, 60);
    let n = mesh.indices.len() / 3;
    push_le_bytes(&mut out, n as u32);
    let ghost head = out@;
    assert(head == stl_header() + le_bytes(m.triangle_count() as u32));
    let mut t: usize = 0;
    while t < n
        invariant
            m == mesh@,
            m.corners_in_range(),
            n == m.triangle_count(),
            t <= n,
            out@ == head + stl_facets(m, t as nat),
        decreases n - t,
    {
        push_facet(&mut out, mesh, t);
        t = t + 1;
        assert(out@ =~= head + stl_facets(m, t as nat));
    }
    out
}

} // verus!

verus! {

/// Little-endian bytes read back give the number written.
pub proof fn lemma_le_bytes_roundtrip(v: u32)
    ensures
        le_bytes(v).len() == 4,
        le_value(le_bytes(v)) == v,
{
    let b = le_bytes(v);
    assert(b[0] == v % 256);
    assert(b[1] == (v / 256) % 256);
    assert(b[2] == (v / 65536) % 256);
    assert(b[3] == (v / 16777216) % 256);
    assert(v % 256 + 256 * ((v / 256) % 256) + 65536 * ((v / 65536) % 256) + 16777216 * ((v
        / 16777216) % 256) == v) by (nonlinear_arith)
        requires
            0 <= v < 0x1_0000_0000,
    {
        assert(v == 256 * (v / 256) + v % 256);
        assert(v / 256 == 256 * (v / 65536) + (v / 256) % 256);
        assert(v / 65536 == 256 * (v / 16777216) + (v / 65536) % 256);
        assert(v / 16777216 < 256);
    }
}

proof fn lemma_facets_len(m: MeshView, n: nat)
    ensures
        stl_facets(m, n).len() == 50 * n,
    decreases n,
{
    if n > 0 {
        lemma_facets_len(m, (n - 1) as nat);
    }
}

proof fn lemma_facets_record(m: MeshView, n: nat, t: int)
    requires
        0 <= t < n,
    ensures
        stl_facets(m, n).subrange(50 * t, 50 * t + 50) == stl_facet(m, t),
    decreases n,
{
    lemma_facets_len(m, (n - 1) as nat);
    let prev = stl_facets(m, (n - 1) as nat);
    if t == n - 1 {
        assert(stl_facets(m, n).subrange(50 * t, 50 * t + 50) =~= stl_facet(m, t));
    } else {
        lemma_facets_record(m, (n - 1) as nat, t);
        assert(stl_facets(m, n).subrange(50 * t, 50 * t + 50) =~= prev.subrange(50 * t, 50 * t + 50));
    }
}

proof fn lemma_document_record(m: MeshView, t: int)
    requires
        0 <= t < m.triangle_count(),
    ensures
        stl_document(m).subrange(84 + 50 * t, 134 + 50 * t) == stl_facet(m, t),
{
    let n = m.triangle_count();
    let d = stl_document(m);
    let f = stl_facets(m, n);
    let pre = stl_header() + le_bytes(n as u32);
    assert(pre.len() == 84);
    assert(d == pre + f);
    lemma_facets_len(m, n);
    lemma_facets_record(m, n, t);
    assert(d.subrange(84 + 50 * t, 134 + 50 * t) =~= f.subrange(50 * t, 50 * t + 50));
}

/// Layout of an exported STL file: an 80-byte header holding the title, the
/// triangle count as a little-endian `u32`, then one 50-byte record per
/// triangle, in the order of the mesh's triangles, and nothing else.
pub proof fn lemma_stl_layout(m: MeshView)
    ensures
        stl_document(m).len() == 84 + 50 * m.triangle_count(),
        stl_document(m).subrange(0, 20) == stl_title(),
        stl_document(m).subrange(0, 80) == stl_header(),
        le_value(stl_document(m).subrange(80, 84)) == m.triangle_count() as u32,
        forall|t: int|
            0 <= t < m.triangle_count() ==> #[trigger] stl_document(m).subrange(
                84 + 50 * t,
                134 + 50 * t,
            ) == stl_facet(m, t),
{
    let n = m.triangle_count();
    let d = stl_document(m);
    let f = stl_facets(m, n);
    lemma_facets_len(m, n);
    lemma_le_bytes_roundtrip(n as u32);
    assert(d.subrange(0, 80) =~= stl_header());
    assert(d.subrange(0, 20) =~= stl_title());
    assert(d.subrange(80, 84) =~= le_bytes(n as u32));
    assert forall|t: int| 0 <= t < n implies #[trigger] d.subrange(84 + 50 * t, 134 + 50 * t)
        == stl_facet(m, t) by {
        lemma_document_record(m, t);
    }
}

/// `m` with the indices after its last complete triangle dropped.
pub open spec fn whole_triangles(m: MeshView) -> MeshView {
    MeshView {
        positions: m.positions,
        normals: m.normals,
        indices: m.indices.take(3 * m.triangle_count() as int),
    }
}

proof fn lemma_facets_whole_triangles(m: MeshView, n: nat)
    requires
        n <= m.triangle_count(),
        whole_triangles(m).indices.len() == 3 * m.triangle_count(),
    ensures
        stl_facets(m, n) == stl_facets(whole_triangles(m), n),
    decreases n,
{
    if n > 0 {
        lemma_facets_whole_triangles(m, (n - 1) as nat);
        let w = whole_triangles(m);
        let t = n - 1;
        assert(w.indices[3 * t] == m.indices[3 * t]);
        assert(w.indices[3 * t + 1] == m.indices[3 * t + 1]);
        assert(w.indices[3 * t + 2] == m.indices[3 * t + 2]);
        assert(stl_facet(m, t) == stl_facet(w, t));
    }
}

/// Indices left over after the last complete triangle play no part: they are
/// neither counted nor written nor checked, so a mesh exports exactly like the
/// same mesh without them.
pub proof fn lemma_stl_ignores_leftover_indices(m: MeshView)
    ensures
        whole_triangles(m).triangle_count() == m.triangle_count(),
        whole_triangles(m).corners_in_range() == m.corners_in_range(),
        stl_document(whole_triangles(m)) == stl_document(m),
{
    let w = whole_triangles(m);
    let n = m.triangle_count();
    let len = m.indices.len();
    assert(3 * (len / 3) <= len && (3 * (len / 3)) / 3 == len / 3) by (nonlinear_arith);
    assert(w.indices.len() == 3 * n);
    assert(w.triangle_count() == n);
    assert forall|k: int| 0 <= k < 3 * n implies #[trigger] w.indices[k] == m.indices[k] by {}
    assert(w.corners_in_range() == m.corners_in_range()) by {
        if m.corners_in_range() {
            assert forall|k: int| 0 <= k < 3 * w.triangle_count() implies 3 * #[trigger] w.indices[k]
                + 2 < w.positions.len() by {
                assert(w.indices[k] == m.indices[k]);
            }
        }
        if w.corners_in_range() {
            assert forall|k: int| 0 <= k < 3 * m.triangle_count() implies 3 * #[trigger] m.indices[k]
                + 2 < m.positions.len() by {
                assert(w.indices[k] == m.indices[k]);
            }
        }
    }
    lemma_facets_whole_triangles(m, n);
}

proof fn lemma_word_in_record(d: Seq<u8>, p: int, o: int)
    requires
        0 <= p,
        0 <= o,
        o + 4 <= 50,
        p + 50 <= d.len(),
    ensures
        d.subrange(p + o, p + o + 4) == d.subrange(p, p + 50).subrange(o, o + 4),
{
    assert(d.subrange(p + o, p + o + 4) =~= d.subrange(p, p + 50).subrange(o, o + 4));
}

proof fn lemma_facet_coordinate(m: MeshView, t: int, k: int, j: int)
    requires
        0 <= k < 3,
        0 <= j < 3,
    ensures
        stl_facet(m, t).subrange(12 + 12 * k + 4 * j, 16 + 12 * k + 4 * j) == le_bytes(
            m.positions[3 * m.indices[3 * t + k] + j],
        ),
{
    let a = stl_vertex(m.positions, m.indices[3 * t]);
    let b = stl_vertex(m.positions, m.indices[3 * t + 1]);
    let c = stl_vertex(m.positions, m.indices[3 * t + 2]);
    let f = stl_facet(m, t);
    assert(f =~= zeros(12) + (a + b + c) + zeros(2));
    let corner = if k == 0 { a } else if k == 1 { b } else { c };
    let v = m.indices[3 * t + k];
    assert(f.subrange(12 + 12 * k, 24 + 12 * k) =~= corner);
    assert(corner =~= le_bytes(m.positions[3 * v]) + le_bytes(m.positions[3 * v + 1]) + le_bytes(
        m.positions[3 * v + 2],
    ));
    assert(f.subrange(12 + 12 * k + 4 * j, 16 + 12 * k + 4 * j) =~= corner.subrange(
        4 * j,
        4 * j + 4,
    ));
    assert(corner.subrange(4 * j, 4 * j + 4) =~= le_bytes(m.positions[3 * v + j]));
}

/// Every coordinate lands where it belongs: in an exported STL, the
/// little-endian word at byte `96 + 50 t + 12 k + 4 j` is coordinate `j` of the
/// vertex that corner `k` of triangle `t` names, `positions[3 * indices[3 t + k] + j]`.
pub proof fn lemma_stl_coordinates(m: MeshView, t: int, k: int, j: int)
    requires
        0 <= t < m.triangle_count(),
        0 <= k < 3,
        0 <= j < 3,
    ensures
        le_value(stl_document(m).subrange(96 + 50 * t + 12 * k + 4 * j, 100 + 50 * t + 12 * k + 4 * j))
            == m.positions[3 * m.indices[3 * t + k] + j],
{
    let d = stl_document(m);
    lemma_stl_layout(m);
    lemma_document_record(m, t);
    lemma_facet_coordinate(m, t, k, j);
    lemma_word_in_record(d, 84 + 50 * t, 12 + 12 * k + 4 * j);
    lemma_le_bytes_roundtrip(m.positions[3 * m.indices[3 * t + k] + j]);
}

} // verus!
