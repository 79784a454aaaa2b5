//! Geometry batching: concatenating the per-primitive vertex and index data
//! of one frame into two shared buffers, rebasing each primitive's indices
//! onto its own vertex slice, and recording one draw group per mesh with its
//! index range, texture id and device-pixel scissor rectangle.

use vstd::prelude::*;

use crate::rect::{clip_wf, spec_pixel_rect, to_pixel_rect, ClipRect, PixelRect, MAX_DPI};

verus! {

/// One tessellated vertex: 2D position, 2D texture coordinate and a packed
/// 32-bit color. This layer never interprets the coordinate lanes, so they
/// are carried as opaque 32-bit values.
#[derive(Clone, Copy, Debug, PartialEq, Eq, Structural)]
pub struct Vertex {
    pub pos_x: u32,
    pub pos_y: u32,
    pub uv_x: u32,
    pub uv_y: u32,
    pub color: u32,
}

/// A textured triangle mesh: a vertex list, an index list into it, and the
/// texture the mesh samples from.
#[derive(Debug)]
pub struct Mesh {
    pub vertices: Vec<Vertex>,
    pub indices: Vec<u32>,
    pub texture_id: u64,
}

/// One drawable unit from the GUI library: either a plain mesh, or a custom
/// paint callback, which this pipeline does not support and skips.
#[derive(Debug)]
pub enum Primitive {
    Mesh(Mesh),
    Callback,
}

/// A primitive together with the UI-space clip rectangle it is drawn under.
#[derive(Debug)]
pub struct ClippedPrimitive {
    pub clip_rect: ClipRect,
    pub primitive: Primitive,
}

/// Which texture to bind and which scissor rectangle to set for one range of
/// the shared index buffer.
#[derive(Clone, Copy, Debug, PartialEq, Eq, Structural)]
pub struct Group {
    /// Start of the group's range in the shared index buffer.
    pub start: u32,
    /// End (exclusive) of the group's range in the shared index buffer.
    pub end: u32,
    /// Identifier of the texture the group's mesh samples from.
    pub tex_id: u64,
    /// Scissor rectangle of the group, in device pixels.
    pub pixel_rect: PixelRect,
}

/// Every index of the mesh points at one of its own vertices.
pub open spec fn mesh_wf(m: Mesh) -> bool {
    forall|k: int| 0 <= k < m.indices@.len() ==> (m.indices@[k] as int) < m.vertices@.len()
}

/// The primitive's clip rectangle is in range and, for a mesh, its indices
/// are valid; guaranteed by the upstream tessellator.
pub open spec fn prim_wf(p: ClippedPrimitive) -> bool {
    &&& clip_wf(p.clip_rect)
    &&& match p.primitive {
        Primitive::Mesh(m) => mesh_wf(m),
        Primitive::Callback => true,
    }
}

pub open spec fn prims_wf(s: Seq<ClippedPrimitive>) -> bool {
    forall|j: int| 0 <= j < s.len() ==> prim_wf(#[trigger] s[j])
}

/// The vertices a primitive contributes to the shared vertex buffer.
pub open spec fn prim_vertices(p: ClippedPrimitive) -> Seq<Vertex> {
    match p.primitive {
        Primitive::Mesh(m) => m.vertices@,
        Primitive::Callback => Seq::empty(),
    }
}

/// The indices a primitive contributes to the shared index buffer, each
/// rebased by the number of vertices already in the shared vertex buffer.
pub open spec fn prim_indices(p: ClippedPrimitive, voff: int) -> Seq<u32> {
    match p.primitive {
        Primitive::Mesh(m) => m.indices@.map_values(|iv: u32| ((iv as int) + voff) as u32),
        Primitive::Callback => Seq::empty(),
    }
}

/// The shared vertex buffer: the concatenation, in input order, of the
/// vertices of every mesh primitive.
pub open spec fn batch_vertices(s: Seq<ClippedPrimitive>) -> Seq<Vertex>
    decreases s.len(),
{
    if s.len() == 0 {
        Seq::empty()
    } else {
        batch_vertices(s.drop_last()) + prim_vertices(s.last())
    }
}

/// The shared index buffer: the concatenation, in input order, of every mesh
/// primitive's indices, each rebased onto that mesh's own vertex slice.
pub open spec fn batch_indices(s: Seq<ClippedPrimitive>) -> Seq<u32>
    decreases s.len(),
{
    if s.len() == 0 {
        Seq::empty()
    } else {
        batch_indices(s.drop_last()) + prim_indices(
            s.last(),
            batch_vertices(s.drop_last()).len() as int,
        )
    }
}

/// The draw groups of one frame: one per mesh primitive, in input order, so
/// that drawing the groups in order preserves painter's-algorithm layering.
pub open spec fn batch_groups(s: Seq<ClippedPrimitive>, dpi: int, tw: int, th: int) -> Seq<Group>
    decreases s.len(),
{
    if s.len() == 0 {
        Seq::empty()
    } else {
        let pre = batch_groups(s.drop_last(), dpi, tw, th);
        match s.last().primitive {
            Primitive::Callback => pre,
            Primitive::Mesh(m) => pre + seq![
                Group {
                    start: batch_indices(s.drop_last()).len() as u32,
                    end: (batch_indices(s.drop_last()).len() + m.indices@.len()) as u32,
                    tex_id: m.texture_id,
                    pixel_rect: spec_pixel_rect(s.last().clip_rect, dpi, tw, th),
                },
            ],
        }
    }
}

/// How many mesh primitives (callbacks excluded) the input holds.
pub open spec fn mesh_count(s: Seq<ClippedPrimitive>) -> int
    decreases s.len(),
{
    if s.len() == 0 {
        0
    } else {
        mesh_count(s.drop_last()) + (match s.last().primitive {
            Primitive::Mesh(_) => 1int,
            Primitive::Callback => 0int,
        })
    }
}

/// One draw group per mesh-type primitive: callback primitives contribute
/// none, whatever the scale and target size.
pub proof fn lemma_group_count(s: Seq<ClippedPrimitive>, dpi: int, tw: int, th: int)
    ensures
        batch_groups(s, dpi, tw, th).len() == mesh_count(s),
    decreases s.len(),
{
    if s.len() > 0 {
        lemma_group_count(s.drop_last(), dpi, tw, th);
    }
}

/// For each draw group, in order: its index range in the shared index buffer
/// and the vertex slice its own mesh appended to the shared vertex buffer,
/// as `(index start, index end, vertex start, vertex end)`.
pub open spec fn group_slices(s: Seq<ClippedPrimitive>) -> Seq<(int, int, int, int)>
    decreases s.len(),
{
    if s.len() == 0 {
        Seq::empty()
    } else {
        let pre = group_slices(s.drop_last());
        match s.last().primitive {
            Primitive::Callback => pre,
            Primitive::Mesh(m) => pre + seq![
                (
                    batch_indices(s.drop_last()).len() as int,
                    batch_indices(s.drop_last()).len() as int + m.indices@.len() as int,
                    batch_vertices(s.drop_last()).len() as int,
                    batch_vertices(s.drop_last()).len() as int + m.vertices@.len() as int,
                ),
            ],
        }
    }
}

/// Index rebasing: every index value in a group's index range points into the
/// vertex slice that the group's own mesh appended — never out of bounds of
/// the shared vertex buffer — and each group's recorded range is exactly its
/// mesh's slice of the shared index buffer.
pub proof fn lemma_index_rebase(s: Seq<ClippedPrimitive>, dpi: int, tw: int, th: int)
    requires
        prims_wf(s),
        batch_vertices(s).len() <= u32::MAX,
        batch_indices(s).len() <= u32::MAX,
    ensures
        group_slices(s).len() == batch_groups(s, dpi, tw, th).len(),
        forall|j: int| #![trigger group_slices(s)[j]]
            0 <= j < group_slices(s).len() ==> {
                &&& batch_groups(s, dpi, tw, th)[j].start == group_slices(s)[j].0
                &&& batch_groups(s, dpi, tw, th)[j].end == group_slices(s)[j].1
                &&& 0 <= group_slices(s)[j].0 <= group_slices(s)[j].1 <= batch_indices(s).len()
                &&& 0 <= group_slices(s)[j].2 <= group_slices(s)[j].3 <= batch_vertices(s).len()
            },
        forall|j: int, k: int| #![trigger group_slices(s)[j], batch_indices(s)[k]]
            0 <= j < group_slices(s).len() && group_slices(s)[j].0 <= k < group_slices(s)[j].1
                ==> group_slices(s)[j].2 <= batch_indices(s)[k] < group_slices(s)[j].3,
    decreases s.len(),
{
    if s.len() > 0 {
        let pre = s.drop_last();
        assert(prims_wf(pre)) by {
            assert(forall|j: int| 0 <= j < pre.len() ==> pre[j] == s[j] && prim_wf(#[trigger] s[j]));
        }
        assert(batch_vertices(pre).len() <= batch_vertices(s).len());
        assert(batch_indices(pre).len() <= batch_indices(s).len());
        lemma_index_rebase(pre, dpi, tw, th);
        match s.last().primitive {
            Primitive::Callback => {
                assert(batch_indices(s) =~= batch_indices(pre));
                assert(batch_vertices(s) =~= batch_vertices(pre));
            },
            Primitive::Mesh(m) => {
                assert(prim_wf(s[s.len() - 1]));
                let voff = batch_vertices(pre).len() as int;
                let ioff = batch_indices(pre).len() as int;
                assert(forall|k: int| ioff <= k < ioff + m.indices@.len() ==> voff <= #[trigger]
                    batch_indices(s)[k] < voff + m.vertices@.len()) by {
                    assert(forall|k: int| ioff <= k < ioff + m.indices@.len()
                        ==> #[trigger] batch_indices(s)[k] == prim_indices(s.last(), voff)[
                        k - ioff]);
                    assert(forall|k2: int| 0 <= k2 < m.indices@.len()
                        ==> (#[trigger] m.indices@[k2] as int) < m.vertices@.len());
                }
            },
        }
    }
}

/// A prefix of the input contributes no more vertices or indices than the
/// whole input.
proof fn lemma_batch_prefix_len(s: Seq<ClippedPrimitive>, i: int)
    requires
        0 <= i <= s.len(),
    ensures
        batch_vertices(s.take(i)).len() <= batch_vertices(s).len(),
        batch_indices(s.take(i)).len() <= batch_indices(s).len(),
    decreases s.len() - i,
{
    if i == s.len() {
        assert(s.take(i) =~= s);
    } else {
        lemma_batch_prefix_len(s, i + 1);
        assert(s.take(i + 1).drop_last() =~= s.take(i));
        assert(s.take(i + 1).last() == s[i]);
    }
}

/// Consume one frame's primitives and build the shared vertex buffer, the
/// shared (rebased) index buffer, and the draw groups, in input order.
/// Primitives that are not plain meshes are skipped.
pub fn batch(prims: &Vec<ClippedPrimitive>, pixels_per_point: u32, target_size: [u32; 2]) -> (r: (
    Vec<Vertex>,
    Vec<u32>,
    Vec<Group>,
))
    requires
        prims_wf(prims@),
        pixels_per_point <= MAX_DPI,
        batch_vertices(prims@).len() <= u32::MAX,
        batch_indices(prims@).len() <= u32::MAX,
    ensures
        r.0@ == batch_vertices(prims@),
        r.1@ == batch_indices(prims@),
        r.2@ == batch_groups(
            prims@,
            pixels_per_point as int,
            target_size[0] as int,
            target_size[1] as int,
        ),
{
    let ghost dpi: int = pixels_per_point as int;
    let ghost tw: int = target_size[0] as int;
    let ghost th: int = target_size[1] as int;
    let mut vertices: Vec<Vertex> = Vec::new();
    let mut indices: Vec<u32> = Vec::new();
    let mut groups: Vec<Group> = Vec::new();
    let mut i: usize = 0;
    while i < prims.len()
        invariant
            0 <= i <= prims@.len(),
            prims_wf(prims@),
            pixels_per_point <= MAX_DPI,
            batch_vertices(prims@).len() <= u32::MAX,
            batch_indices(prims@).len() <= u32::MAX,
            dpi == pixels_per_point as int,
            tw == target_size[0] as int,
            th == target_size[1] as int,
            vertices@ == batch_vertices(prims@.take(i as int)),
            indices@ == batch_indices(prims@.take(i as int)),
            groups@ == batch_groups(prims@.take(i as int), dpi, tw, th),
        decreases prims@.len() - i,
    {
        proof {
            assert(prims@.take(i as int + 1).drop_last() =~= prims@.take(i as int));
            assert(prims@.take(i as int + 1).last() == prims@[i as int]);
            lemma_batch_prefix_len(prims@, i as int + 1);
            assert(prim_wf(prims@[i as int]));
        }
        let prim: &ClippedPrimitive = &prims[i];
        match &prim.primitive {
            Primitive::Callback => {
                // Custom paint callbacks are an unsupported feature; the
                // primitive is skipped and contributes nothing to the frame.
            },
            Primitive::Mesh(m) => {
                let si: u32 = indices.len() as u32;
                let voff: u32 = vertices.len() as u32;
                let ghost pre_indices: Seq<u32> = indices@;
                let mut k: usize = 0;
                while k < m.indices.len()
                    invariant
                        0 <= k <= m.indices@.len(),
                        mesh_wf(*m),
                        voff as int + m.vertices@.len() <= u32::MAX,
                        indices@ == pre_indices + m.indices@.take(k as int).map_values(
                            |iv: u32| ((iv as int) + voff as int) as u32,
                        ),
                    decreases m.indices@.len() - k,
                {
                    proof {
                        assert(m.indices@.take(k as int + 1).drop_last() =~= m.indices@.take(
                            k as int,
                        ));
                        assert((m.indices@[k as int] as int) < m.vertices@.len());
                        assert(m.indices@.take(k as int + 1).map_values(
                            |iv: u32| ((iv as int) + voff as int) as u32,
                        ) =~= m.indices@.take(k as int).map_values(
                            |iv: u32| ((iv as int) + voff as int) as u32,
                        ) + seq![((m.indices@[k as int] as int) + voff as int) as u32]);
                    }
                    let idx: u32 = m.indices[k] + voff;
                    indices.push(idx);
                    k += 1;
                }
                proof {
                    assert(m.indices@.take(m.indices@.len() as int) =~= m.indices@);
                }
                let ghost pre_vertices: Seq<Vertex> = vertices@;
                let mut k2: usize = 0;
                while k2 < m.vertices.len()
                    invariant
                        0 <= k2 <= m.vertices@.len(),
                        vertices@ == pre_vertices + m.vertices@.take(k2 as int),
                    decreases m.vertices@.len() - k2,
                {
                    proof {
                        assert(m.vertices@.take(k2 as int + 1).drop_last() =~= m.vertices@.take(
                            k2 as int,
                        ));
                    }
                    vertices.push(m.vertices[k2]);
                    k2 += 1;
                }
                proof {
                    assert(m.vertices@.take(m.vertices@.len() as int) =~= m.vertices@);
                }
                let rect: PixelRect = to_pixel_rect(&prim.clip_rect, pixels_per_point, target_size);
                let end: u32 = indices.len() as u32;
                groups.push(
                    Group { start: si, end, tex_id: m.texture_id, pixel_rect: rect },
                );
            },
        }
        i += 1;
    }
    proof {
        assert(prims@.take(prims@.len() as int) =~= prims@);
    }
    (vertices, indices, groups)
}

} // verus!
