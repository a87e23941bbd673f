//! Fill-mesh rows over a tessellator's output buffers.
//!
//! Fill tessellation itself — flattening all contours and triangulating the
//! winding-implied region — is the work of an outside numeric collaborator
//! operating on floating-point geometry, so it happens beside the library.
//! What is assembled here, verified, is the output contract of the fill
//! pipeline: the tessellator's index buffer is walked in order, every index
//! that refers to a vertex of the vertex buffer becomes one output row, and
//! the rows carry `triangle_id = position / 3`, grouping each consecutive
//! index triple into one triangle. Per-row glyph and sub-path provenance is
//! deliberately coarsened to 0: the tessellator synthesizes vertices and
//! does not carry per-source-point tags through.
use vstd::prelude::*;

verus! {

/// The rows assembled from index-buffer position `n` onward: one row per
/// index that refers to a vertex, holding the vertex's index, glyph id 0,
/// sub-path id 0, and the triangle id `n / 3`.
pub open spec fn spec_fill_rows_from(indices: Seq<usize>, vertex_count: usize, n: int) -> Seq<
    (usize, u32, u32, u32),
>
    decreases indices.len() - n,
{
    if n < 0 || n >= indices.len() {
        Seq::empty()
    } else {
        let rest = spec_fill_rows_from(indices, vertex_count, n + 1);
        if indices[n] < vertex_count {
            seq![(indices[n], 0u32, 0u32, ((n / 3) as u32))] + rest
        } else {
            rest
        }
    }
}

/// Every output row of the fill pipeline for a tessellation with the given
/// index buffer and vertex count.
pub open spec fn spec_fill_rows(indices: Seq<usize>, vertex_count: usize) -> Seq<
    (usize, u32, u32, u32),
> {
    spec_fill_rows_from(indices, vertex_count, 0)
}

/// Walks a tessellator's index buffer into four index-aligned arrays: the
/// vertex index of each emitted row, its glyph id (always 0), its sub-path
/// id (always 0), and its triangle id, `position / 3`.
pub fn fill_mesh_rows(indices: &Vec<usize>, vertex_count: usize) -> (r: (
    Vec<usize>,
    Vec<u32>,
    Vec<u32>,
    Vec<u32>,
))
    requires
        indices@.len() <= u32::MAX,
    ensures
        ({
            let rows = spec_fill_rows(indices@, vertex_count);
            &&& r.0@.len() == rows.len()
            &&& r.1@.len() == rows.len()
            &&& r.2@.len() == rows.len()
            &&& r.3@.len() == rows.len()
            &&& forall|j: int|
                0 <= j < rows.len() ==> r.0@[j] == rows[j].0 && r.1@[j] == rows[j].1 && r.2@[j]
                    == rows[j].2 && r.3@[j] == rows[j].3
        }),
{
    let mut rows: Vec<(usize, u32, u32, u32)> = Vec::new();
    let mut n: usize = 0;
    let len: usize = indices.len();
    while n < len
        invariant
            0 <= n <= len,
            len == indices@.len(),
            len <= u32::MAX,
            spec_fill_rows(indices@, vertex_count) == rows@ + spec_fill_rows_from(
                indices@,
                vertex_count,
                n as int,
            ),
        decreases len - n,
    {
        let idx = indices[n];
        if idx < vertex_count {
            rows.push((idx, 0u32, 0u32, (n / 3) as u32));
            proof {
                assert(rows@ =~= rows@.subrange(0, rows@.len() - 1) + seq![
                    (indices@[n as int], 0u32, 0u32, ((n as int / 3) as u32)),
                ]);
            }
        }
        n = n + 1;
    }
    let ghost all_rows = spec_fill_rows(indices@, vertex_count);
    assert(all_rows =~= rows@);
    let mut vs: Vec<usize> = Vec::new();
    let mut gs: Vec<u32> = Vec::new();
    let mut ps: Vec<u32> = Vec::new();
    let mut ts: Vec<u32> = Vec::new();
    let mut j: usize = 0;
    let m: usize = rows.len();
    while j < m
        invariant
            0 <= j <= m,
            m == rows@.len(),
            rows@ == all_rows,
            vs@.len() == j,
            gs@.len() == j,
            ps@.len() == j,
            ts@.len() == j,
            forall|k: int|
                0 <= k < j ==> vs@[k] == all_rows[k].0 && gs@[k] == all_rows[k].1 && ps@[k]
                    == all_rows[k].2 && ts@[k] == all_rows[k].3,
        decreases m - j,
    {
        let row = rows[j];
        vs.push(row.0);
        gs.push(row.1);
        ps.push(row.2);
        ts.push(row.3);
        j = j + 1;
    }
    (vs, gs, ps, ts)
}

/// Law: a mesh whose indices all refer to vertices is conserved — one row
/// per index, in buffer order, and each consecutive triple of rows forms one
/// triangle.
pub proof fn lemma_fill_rows_conservation(indices: Seq<usize>, vertex_count: usize, n: int)
    requires
        0 <= n <= indices.len(),
        forall|k: int| n <= k < indices.len() ==> indices[k] < vertex_count,
    ensures
        spec_fill_rows_from(indices, vertex_count, n).len() == indices.len() - n,
        forall|j: int|
            0 <= j < indices.len() - n ==> spec_fill_rows_from(indices, vertex_count, n)[j] == (
                indices[n + j],
                0u32,
                0u32,
                (((n + j) / 3) as u32),
            ),
    decreases indices.len() - n,
{
    if n < indices.len() {
        lemma_fill_rows_conservation(indices, vertex_count, n + 1);
    }
}

} // verus!
