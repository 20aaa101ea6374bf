//! Mesh assembly: turning the flat attribute arrays of a loaded model into
//! per-vertex records, checking triangle index lists, and counting how many
//! triangles touch each vertex (the divisor when per-face vectors are
//! averaged per vertex).

use vstd::prelude::*;

verus! {

/// The attributes of one vertex as they come from a model file.
#[derive(Clone, Copy, Debug)]
pub struct VertexAttributes<T> {
    pub position: [T; 3],
    pub texture_coordinates: [T; 2],
    pub normal: [T; 3],
}

/// Vertex `i` of the flat arrays: three position components, two texture
/// coordinates and three normal components, each run starting at `3 * i`
/// (positions, normals) or `2 * i` (texture coordinates).
pub open spec fn is_vertex_of<T>(
    v: VertexAttributes<T>,
    positions: Seq<T>,
    texcoords: Seq<T>,
    normals: Seq<T>,
    i: int,
) -> bool {
    &&& v.position@ == positions.subrange(3 * i, 3 * i + 3)
    &&& v.texture_coordinates@ == texcoords.subrange(2 * i, 2 * i + 2)
    &&& v.normal@ == normals.subrange(3 * i, 3 * i + 3)
}

/// The number of vertices that a flat position array describes.
pub open spec fn vertex_count_of(positions_len: nat) -> nat {
    positions_len / 3
}

/// The texture coordinate and normal arrays hold an entry for every vertex
/// that the position array describes.
pub open spec fn attributes_complete(positions_len: nat, texcoords_len: nat, normals_len: nat) -> bool {
    &&& texcoords_len >= 2 * vertex_count_of(positions_len)
    &&& normals_len >= 3 * vertex_count_of(positions_len)
}

/// Builds one record per vertex from the flat attribute arrays, or `None`
/// when the texture coordinate or normal array is too short for the number
/// of vertices that the position array gives.
pub fn assemble_vertices<T: Copy>(
    positions: &Vec<T>,
    texcoords: &Vec<T>,
    normals: &Vec<T>,
) -> (r: Option<Vec<VertexAttributes<T>>>)
    ensures
        r.is_some() == attributes_complete(
            positions@.len(),
            texcoords@.len(),
            normals@.len(),
        ),
        r matches Some(vs) ==> {
            &&& vs@.len() == vertex_count_of(positions@.len())
            &&& forall|i: int|
                0 <= i < vs@.len() ==> is_vertex_of(
                    #[trigger] vs@[i],
                    positions@,
                    texcoords@,
                    normals@,
                    i,
                )
        },
{
    let len = positions.len();
    let n = len / 3;
    if n > texcoords.len() / 2 || n > normals.len() / 3 {
        return None;
    }
    let mut out: Vec<VertexAttributes<T>> = Vec::new();
    let mut i: usize = 0;
    while i < n
        invariant
            len == positions@.len(),
            n == len / 3,
            2 * n <= texcoords@.len(),
            3 * n <= normals@.len(),
            i <= n,
            out@.len() == i,
            forall|k: int|
                0 <= k < i ==> is_vertex_of(#[trigger] out@[k], positions@, texcoords@, normals@, k),
        decreases n - i,
    {
        assert(3 * i + 3 <= len) by (nonlinear_arith)
            requires
                i < n,
                n == len / 3,
        ;
        let p = 3 * i;
        let t = 2 * i;
        let v = VertexAttributes {
            position: [positions[p], positions[p + 1], positions[p + 2]],
            texture_coordinates: [texcoords[t], texcoords[t + 1]],
            normal: [normals[p], normals[p + 1], normals[p + 2]],
        };
        assert(v.position@ =~= positions@.subrange(3 * i, 3 * i + 3));
        assert(v.texture_coordinates@ =~= texcoords@.subrange(2 * i, 2 * i + 2));
        assert(v.normal@ =~= normals@.subrange(3 * i, 3 * i + 3));
        out.push(v);
        i += 1;
    }
    Some(out)
}

/// A triangle list over `vertex_count` vertices: whole triangles of three
/// indices each, every index naming an existing vertex.
pub open spec fn is_triangle_list(indices: Seq<u32>, vertex_count: nat) -> bool {
    &&& indices.len() % 3 == 0
    &&& forall|j: int| 0 <= j < indices.len() ==> (#[trigger] indices[j]) < vertex_count
}

/// How many times vertex `v` is named in `indices`: the number of triangle
/// corners that sit on it.
pub open spec fn corner_count(indices: Seq<u32>, v: int) -> nat
    decreases indices.len(),
{
    if indices.len() == 0 {
        0
    } else {
        corner_count(indices.drop_last(), v) + if indices.last() == v {
            1nat
        } else {
            0nat
        }
    }
}

/// Tells whether `indices` is a triangle list over `vertex_count` vertices.
pub fn check_triangle_list(indices: &Vec<u32>, vertex_count: usize) -> (r: bool)
    ensures
        r == is_triangle_list(indices@, vertex_count as nat),
{
    if indices.len() % 3 != 0 {
        return false;
    }
    let mut j: usize = 0;
    while j < indices.len()
        invariant
            j <= indices@.len(),
            forall|k: int| 0 <= k < j ==> (#[trigger] indices@[k]) < vertex_count,
        decreases indices@.len() - j,
    {
        if indices[j] as usize >= vertex_count {
            return false;
        }
        j += 1;
    }
    true
}

proof fn lemma_corner_count_bound(indices: Seq<u32>, v: int)
    ensures
        corner_count(indices, v) <= indices.len(),
    decreases indices.len(),
{
    if indices.len() > 0 {
        lemma_corner_count_bound(indices.drop_last(), v);
    }
}

/// For every vertex, the number of triangle corners in `indices` that sit on
/// it. A triangle that names a vertex twice counts twice there.
pub fn triangle_counts(indices: &Vec<u32>, vertex_count: usize) -> (r: Vec<usize>)
    requires
        is_triangle_list(indices@, vertex_count as nat),
    ensures
        r@.len() == vertex_count,
        forall|v: int| 0 <= v < vertex_count ==> #[trigger] r@[v] == corner_count(indices@, v),
{
    let mut counts: Vec<usize> = Vec::new();
    let mut v: usize = 0;
    while v < vertex_count
        invariant
            v <= vertex_count,
            counts@.len() == v,
            forall|k: int| 0 <= k < v ==> #[trigger] counts@[k] == 0,
        decreases vertex_count - v,
    {
        counts.push(0);
        v += 1;
    }
    let mut j: usize = 0;
    while j < indices.len()
        invariant
            is_triangle_list(indices@, vertex_count as nat),
            j <= indices@.len(),
            counts@.len() == vertex_count,
            forall|k: int|
                0 <= k < vertex_count ==> #[trigger] counts@[k] == corner_count(
                    indices@.take(j as int),
                    k,
                ),
        decreases indices@.len() - j,
    {
        let x = indices[j] as usize;
        assert(indices@.take(j as int + 1).drop_last() =~= indices@.take(j as int));
        proof {
            lemma_corner_count_bound(indices@.take(j as int), x as int);
        }
        let c = counts[x];
        counts.set(x, c + 1);
        j += 1;
    }
    assert(indices@.take(indices@.len() as int) =~= indices@);
    counts
}

/// The number of whole triangles in `indices` that have `v` as a corner.
pub open spec fn triangles_touching(indices: Seq<u32>, v: int) -> nat
    decreases indices.len(),
{
    if indices.len() < 3 {
        0
    } else {
        let n = indices.len() as int;
        triangles_touching(indices.subrange(0, n - 3), v) + if indices[n - 3] == v || indices[n
            - 2] == v || indices[n - 1] == v {
            1nat
        } else {
            0nat
        }
    }
}

/// No triangle of the list names the same vertex twice.
pub open spec fn corners_distinct(indices: Seq<u32>) -> bool {
    forall|t: int|
        0 <= t < indices.len() / 3 ==> {
            &&& #[trigger] indices[3 * t] != indices[3 * t + 1]
            &&& indices[3 * t] != indices[3 * t + 2]
            &&& indices[3 * t + 1] != indices[3 * t + 2]
        }
}

/// When no triangle names a vertex twice, the corner count of a vertex is
/// the number of triangles around it, so dividing a per-vertex sum of
/// per-face vectors by it gives their average over the adjacent triangles.
pub proof fn lemma_corner_count_is_adjacent_triangles(indices: Seq<u32>, v: int)
    requires
        indices.len() % 3 == 0,
        corners_distinct(indices),
    ensures
        corner_count(indices, v) == triangles_touching(indices, v),
    decreases indices.len(),
{
    let n = indices.len() as int;
    if n >= 3 {
        let front = indices.subrange(0, n - 3);
        let d1 = indices.drop_last();
        let d2 = d1.drop_last();
        assert(d2.drop_last() =~= front);
        assert(d1.last() == indices[n - 2]);
        assert(d2.last() == indices[n - 3]);
        assert(corner_count(indices, v) == corner_count(d1, v) + if indices[n - 1] == v {
            1nat
        } else {
            0nat
        });
        assert(corner_count(d1, v) == corner_count(d2, v) + if indices[n - 2] == v {
            1nat
        } else {
            0nat
        });
        assert(corner_count(d2, v) == corner_count(front, v) + if indices[n - 3] == v {
            1nat
        } else {
            0nat
        });
        assert(corners_distinct(front)) by {
            assert forall|t: int| 0 <= t < front.len() / 3 implies {
                &&& #[trigger] front[3 * t] != front[3 * t + 1]
                &&& front[3 * t] != front[3 * t + 2]
                &&& front[3 * t + 1] != front[3 * t + 2]
            } by {
                assert(indices[3 * t] != indices[3 * t + 1]);
            }
        }
        let last = n / 3 - 1;
        assert(3 * last == n - 3);
        assert(indices[3 * last] != indices[3 * last + 1]);
        lemma_corner_count_is_adjacent_triangles(front, v);
    }
}

} // verus!
