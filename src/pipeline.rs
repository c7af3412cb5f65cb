use crate::error::ErrorKind;
use vstd::prelude::*;

verus! {

/// How many quads the shared vertex and index buffers hold.
pub const MAX_QUAD_COUNT: u32 = 1000;

/// The vertices of `MAX_QUAD_COUNT` quads.
pub const MAX_VERTEX_COUNT: u32 = MAX_QUAD_COUNT * 4;

/// The indices of `MAX_QUAD_COUNT` quads.
pub const MAX_INDEX_COUNT: u32 = MAX_QUAD_COUNT * 6;

/// The most quads whose vertices a 16-bit index can address.
pub const MAX_INDEXED_QUADS: u32 = 16384;

/// Which corner of its quad the `k`-th index of the quad names: the triangles
/// 0-1-2 and 2-3-0.
pub open spec fn quad_corner(k: int) -> int {
    if k == 0 {
        0
    } else if k == 1 {
        1
    } else if k == 2 {
        2
    } else if k == 3 {
        2
    } else if k == 4 {
        3
    } else {
        0
    }
}

/// The `j`-th entry of the index buffer: quad `j / 6` uses the vertices
/// `4 * (j / 6)` to `4 * (j / 6) + 3`.
pub open spec fn quad_index(j: int) -> int {
    4 * (j / 6) + quad_corner(j % 6)
}

proof fn lemma_index_of(i: int, k: int)
    requires
        0 <= i,
        0 <= k < 6,
    ensures
        quad_index(6 * i + k) == 4 * i + quad_corner(k),
{
    assert((6 * i + k) / 6 == i && (6 * i + k) % 6 == k) by (nonlinear_arith)
        requires
            0 <= i,
            0 <= k < 6,
    ;
}

/// The index buffer shared by all batches: for quad `i`, the indices
/// `0, 1, 2, 2, 3, 0` plus `4 * i`.
pub fn quad_indices(quads: u32) -> (r: Vec<u16>)
    requires
        quads <= MAX_INDEXED_QUADS,
    ensures
        r@.len() == 6 * quads,
        forall|j: int| 0 <= j < r@.len() ==> #[trigger] r@[j] as int == quad_index(j),
{
    let mut indices: Vec<u16> = Vec::with_capacity(6 * quads as usize);
    let mut i: u32 = 0;
    while i < quads
        invariant
            i <= quads,
            quads <= MAX_INDEXED_QUADS,
            indices@.len() == 6 * i,
            forall|j: int| 0 <= j < indices@.len() ==> #[trigger] indices@[j] as int == quad_index(j),
        decreases quads - i,
    {
        let base: u16 = (4 * i) as u16;
        let ghost before = indices@;
        indices.push(base);
        indices.push(base + 1);
        indices.push(base + 2);
        indices.push(base + 2);
        indices.push(base + 3);
        indices.push(base);
        proof {
            assert forall|j: int| 0 <= j < indices@.len() implies #[trigger] indices@[j] as int
                == quad_index(j) by {
                if j >= before.len() {
                    lemma_index_of(i as int, j - 6 * i);
                }
            }
        }
        i = i + 1;
    }
    indices
}

/// Where the vertices of one batch go in the shared vertex buffer, and how many
/// indices draw its quads.
#[derive(Clone, Copy, PartialEq, Eq, Structural, Debug)]
pub struct DrawCall {
    /// The first vertex of the batch in the vertex buffer; the indices of the
    /// draw are taken relative to it.
    pub base_vertex: u32,
    /// How many vertices of the batch are uploaded.
    pub vertex_count: u32,
    /// How many indices are drawn: six per whole quad.
    pub index_count: u32,
}

/// The sum of the vertex counts.
pub open spec fn total(counts: Seq<usize>) -> int
    decreases counts.len(),
{
    if counts.len() == 0 {
        0
    } else {
        total(counts.drop_last()) + counts.last()
    }
}

/// The draw of the `i`-th batch: its vertices follow those of the batches
/// before it.
pub open spec fn planned_call(counts: Seq<usize>, i: int) -> DrawCall {
    DrawCall {
        base_vertex: total(counts.take(i)) as u32,
        vertex_count: counts[i] as u32,
        index_count: (6 * (counts[i] / 4)) as u32,
    }
}

proof fn lemma_total_prefix(counts: Seq<usize>, i: int, n: int)
    requires
        0 <= i <= n <= counts.len(),
    ensures
        total(counts.take(i)) <= total(counts.take(n)),
    decreases n - i,
{
    if i < n {
        lemma_total_prefix(counts, i, n - 1);
        assert(counts.take(n).drop_last() =~= counts.take(n - 1));
    }
}

/// Lays out the batches of one frame, in order, in a vertex buffer of
/// `4 * max_quads` vertices, each right after the one before, with one indexed
/// draw per batch over its whole quads. Fails with `CapacityExceeded` exactly
/// when the batches hold more vertices than the buffer.
pub fn plan_draws(vertex_counts: &[usize], max_quads: u32) -> (r: Result<Vec<DrawCall>, ErrorKind>)
    requires
        max_quads <= MAX_INDEXED_QUADS,
    ensures
        r is Ok <==> total(vertex_counts@) <= 4 * max_quads,
        r is Err ==> r == Err::<Vec<DrawCall>, ErrorKind>(ErrorKind::CapacityExceeded),
        r matches Ok(calls) ==> calls@.len() == vertex_counts@.len() && forall|i: int|
            0 <= i < calls@.len() ==> #[trigger] calls@[i] == planned_call(vertex_counts@, i),
{
    let capacity: usize = 4 * max_quads as usize;
    let mut calls: Vec<DrawCall> = Vec::new();
    let mut used: usize = 0;
    let mut i: usize = 0;
    while i < vertex_counts.len()
        invariant
            i <= vertex_counts@.len(),
            capacity == 4 * max_quads,
            max_quads <= MAX_INDEXED_QUADS,
            used == total(vertex_counts@.take(i as int)),
            used <= capacity,
            calls@.len() == i,
            forall|k: int| 0 <= k < i ==> #[trigger] calls@[k] == planned_call(vertex_counts@, k),
        decreases vertex_counts@.len() - i,
    {
        let count: usize = vertex_counts[i];
        assert(vertex_counts@.take(i + 1).drop_last() =~= vertex_counts@.take(i as int));
        if count > capacity - used {
            proof {
                lemma_total_prefix(vertex_counts@, i + 1, vertex_counts@.len() as int);
                assert(vertex_counts@.take(vertex_counts@.len() as int) =~= vertex_counts@);
            }
            return Err(ErrorKind::CapacityExceeded);
        }
        let quads: usize = count / 4;
        calls.push(
            DrawCall { base_vertex: used as u32, vertex_count: count as u32, index_count: (6 * quads) as u32 },
        );
        used = used + count;
        i = i + 1;
    }
    assert(vertex_counts@.take(vertex_counts@.len() as int) =~= vertex_counts@);
    Ok(calls)
}

/// A draw of the whole quads of `vertex_count` written vertices reads only
/// those vertices: every index it takes from the index buffer names one of the
/// first `4 * (vertex_count / 4)`. What lies past the write offset is never drawn.
pub proof fn lemma_draw_reads_written_vertices(vertex_count: nat, j: int)
    requires
        0 <= j < 6 * (vertex_count / 4),
    ensures
        0 <= quad_index(j) < 4 * (vertex_count / 4),
        4 * (vertex_count / 4) <= vertex_count,
{
    let quads = vertex_count / 4;
    assert(j / 6 < quads && 0 <= j % 6 < 6 && j / 6 >= 0) by (nonlinear_arith)
        requires
            0 <= j < 6 * quads,
    ;
    assert(4 * quads <= vertex_count) by (nonlinear_arith)
        requires
            quads == vertex_count / 4,
    ;
}

/// The batches of a frame lie one after another in the vertex buffer: the
/// vertices of batch `i` end where those of any later batch `k` may begin at
/// the earliest, and all of them end within the sum of the counts.
pub proof fn lemma_planned_ranges_disjoint(counts: Seq<usize>, i: int, k: int)
    requires
        0 <= i < k < counts.len(),
    ensures
        total(counts.take(i)) + counts[i] <= total(counts.take(k)),
        total(counts.take(k)) + counts[k] <= total(counts),
{
    assert(counts.take(i + 1).drop_last() =~= counts.take(i));
    lemma_total_prefix(counts, i + 1, k);
    assert(counts.take(k + 1).drop_last() =~= counts.take(k));
    lemma_total_prefix(counts, k + 1, counts.len() as int);
    assert(counts.take(counts.len() as int) =~= counts);
}

/// Checks that `len` items written at item `offset` stay within a buffer of
/// `capacity` items. Fails with `CapacityExceeded` exactly when they would not.
pub fn check_upload(offset: u64, len: u64, capacity: u64) -> (r: Result<(), ErrorKind>)
    ensures
        r is Ok <==> offset + len <= capacity,
        r is Err ==> r == Err::<(), ErrorKind>(ErrorKind::CapacityExceeded),
{
    if offset > capacity || len > capacity - offset {
        Err(ErrorKind::CapacityExceeded)
    } else {
        Ok(())
    }
}

/// The stage of the pipeline that a shader is written for.
#[derive(Clone, Copy, PartialEq, Eq, Structural, Debug)]
pub enum ShaderStage {
    Vertex,
    Fragment,
    Compute,
}

} // verus!
