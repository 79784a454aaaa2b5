//! Frame translation and the per-frame render step: apply the frame's
//! texture deltas to the cache, rebuild the shared vertex/index buffers and
//! draw groups, recompute the screen-size uniform, and — once prepared —
//! emit the scissored, texture-bound, indexed draw calls of the frame.

use vstd::prelude::*;

use crate::geometry::{
    batch, batch_groups, batch_indices, batch_vertices, prims_wf, ClippedPrimitive, Group, Vertex,
};
use crate::rect::{FX_SQ, MAX_DPI};
use crate::texture::{
    apply_delta, delta_command, delta_ok, ImageDelta, TexModel, TextureCache, TextureCommand,
};

verus! {

/// Information about the screen used for rendering.
pub struct ScreenDescriptor {
    /// Size of the render target in physical pixels.
    pub size_in_pixels: [u32; 2],
    /// HiDPI scale factor (pixels per UI point), in [`crate::rect::FX_ONE`]
    /// fixed-point subunits.
    pub pixels_per_point: u32,
}

/// Screen size in UI points (in [`crate::rect::FX_ONE`] subunits): the pixel
/// extent divided by the scale factor.
pub open spec fn spec_points(px: int, dpi: int) -> int {
    px * (FX_SQ as int) / dpi
}

impl ScreenDescriptor {
    /// The scale factor is positive and small enough for the pixel-rect
    /// calculator.
    pub open spec fn wf(&self) -> bool {
        1 <= self.pixels_per_point <= MAX_DPI
    }

    /// Runtime check for [`ScreenDescriptor::wf`], for hosts that receive the
    /// scale factor from outside.
    pub fn is_wf(&self) -> (b: bool)
        ensures
            b == self.wf(),
    {
        1 <= self.pixels_per_point && self.pixels_per_point <= MAX_DPI
    }

    /// Size of the render target in UI points, in fixed-point subunits.
    pub fn screen_size_in_points(&self) -> (r: [u64; 2])
        requires
            self.wf(),
        ensures
            r[0] == spec_points(self.size_in_pixels[0] as int, self.pixels_per_point as int),
            r[1] == spec_points(self.size_in_pixels[1] as int, self.pixels_per_point as int),
    {
        let w: u64 = (self.size_in_pixels[0] as u64) * FX_SQ / (self.pixels_per_point as u64);
        let h: u64 = (self.size_in_pixels[1] as u64) * FX_SQ / (self.pixels_per_point as u64);
        [w, h]
    }
}

/// The per-frame uniform block: screen size in UI points (fixed point), plus
/// padding, as uniform buffers must be at least 16 bytes. Rewritten every
/// frame.
#[derive(Clone, Copy, Debug)]
pub struct Uniform {
    pub screen_size_in_points: [u64; 2],
    pub _padding: [u32; 2],
}

/// One indexed draw call of the frame: bind the texture, set the scissor
/// rectangle, draw the index range with a single instance.
#[derive(Clone, Copy, Debug, PartialEq, Eq, Structural)]
pub struct DrawCall {
    pub tex_id: u64,
    pub rect: crate::rect::PixelRect,
    pub start: u32,
    pub end: u32,
}

/// The cache state after a frame's deltas, applied in order.
pub open spec fn apply_deltas(m: Map<u64, TexModel>, ds: Seq<(u64, ImageDelta)>) -> Map<
    u64,
    TexModel,
>
    decreases ds.len(),
{
    if ds.len() == 0 {
        m
    } else {
        apply_deltas(apply_delta(m, ds[0].0, ds[0].1), ds.drop_first())
    }
}

/// Every delta of the frame is acceptable to the cache state it meets.
pub open spec fn deltas_ok(m: Map<u64, TexModel>, ds: Seq<(u64, ImageDelta)>) -> bool
    decreases ds.len(),
{
    ds.len() == 0 || (delta_ok(m, ds[0].0, ds[0].1) && deltas_ok(
        apply_delta(m, ds[0].0, ds[0].1),
        ds.drop_first(),
    ))
}

/// The GPU uploads a frame's deltas turn into, in order.
pub open spec fn delta_commands(m: Map<u64, TexModel>, ds: Seq<(u64, ImageDelta)>) -> Seq<
    TextureCommand,
>
    decreases ds.len(),
{
    if ds.len() == 0 {
        Seq::empty()
    } else {
        seq![delta_command(m, ds[0].0, ds[0].1)] + delta_commands(
            apply_delta(m, ds[0].0, ds[0].1),
            ds.drop_first(),
        )
    }
}

/// The draw calls of a frame: one per group, in group order, skipping groups
/// whose scissor rect covers no area and groups whose texture the cache does
/// not know (the host logs those; later groups still draw).
pub open spec fn render_calls(gs: Seq<Group>, m: Map<u64, TexModel>) -> Seq<DrawCall>
    decreases gs.len(),
{
    if gs.len() == 0 {
        Seq::empty()
    } else {
        let pre = render_calls(gs.drop_last(), m);
        let g = gs.last();
        if !g.pixel_rect.spec_is_empty() && m.contains_key(g.tex_id) {
            pre + seq![DrawCall { tex_id: g.tex_id, rect: g.pixel_rect, start: g.start, end: g.end }]
        } else {
            pre
        }
    }
}

/// Every draw call a frame emits is backed by a texture the cache resolves
/// and covers a visible scissor area: groups with an unknown texture or an
/// empty rect are skipped, never drawn and never an error.
pub proof fn lemma_render_calls_resolve(gs: Seq<Group>, m: Map<u64, TexModel>)
    ensures
        forall|k: int| #![trigger render_calls(gs, m)[k]]
            0 <= k < render_calls(gs, m).len() ==> m.contains_key(render_calls(gs, m)[k].tex_id)
                && !render_calls(gs, m)[k].rect.spec_is_empty(),
    decreases gs.len(),
{
    if gs.len() > 0 {
        lemma_render_calls_resolve(gs.drop_last(), m);
        let pre = render_calls(gs.drop_last(), m);
        let all = render_calls(gs, m);
        assert forall|k: int|
            0 <= k < all.len() implies m.contains_key(all[k].tex_id)
            && !all[k].rect.spec_is_empty() by {
            if k < pre.len() {
                assert(all[k] == pre[k]);
            }
        }
    }
}

/// The pipeline adapter's per-frame state: the shared vertex and index
/// buffers, the draw groups, the texture cache, and whether the frame has
/// been prepared. Only the texture cache persists across frames; everything
/// else is fully replaced by each [`EguiPipe::prepare`].
pub struct EguiPipe {
    /// Shared vertex buffer of the current frame.
    pub vertices: Vec<Vertex>,
    /// Shared (rebased) index buffer of the current frame.
    pub indices: Vec<u32>,
    /// Draw groups of the current frame, in input order.
    pub groups: Vec<Group>,
    /// Cached textures, keyed by the GUI library's opaque identifier.
    pub egui_texture: TextureCache,
    /// Whether a frame has been translated and not yet overwritten: the
    /// adapter is `idle` after [`EguiPipe::new`] and `prepared` after
    /// [`EguiPipe::prepare`]; [`EguiPipe::render`] requires `prepared`.
    pub prepared: bool,
}

impl EguiPipe {
    pub open spec fn wf(&self) -> bool {
        self.egui_texture.wf()
    }

    /// A fresh adapter: empty buffers, no groups, no cached textures, idle.
    pub fn new() -> (p: EguiPipe)
        ensures
            p.vertices@.len() == 0,
            p.indices@.len() == 0,
            p.groups@.len() == 0,
            p.egui_texture@ == Map::<u64, TexModel>::empty(),
            !p.prepared,
            p.wf(),
    {
        EguiPipe {
            vertices: Vec::new(),
            indices: Vec::new(),
            groups: Vec::new(),
            egui_texture: TextureCache::new(),
            prepared: false,
        }
    }

    /// Translate one frame: replace the shared buffers and groups with the
    /// batched geometry, apply the texture deltas to the cache in order, and
    /// recompute the uniform. Returns the texture uploads the host must
    /// perform and the new uniform contents; the host must also upload the
    /// new vertex and index buffers (full replace).
    pub fn prepare(
        &mut self,
        deltas: Vec<(u64, ImageDelta)>,
        prims: Vec<ClippedPrimitive>,
        screen: &ScreenDescriptor,
    ) -> (r: (Vec<TextureCommand>, Uniform))
        requires
            old(self).wf(),
            prims_wf(prims@),
            screen.wf(),
            batch_vertices(prims@).len() <= u32::MAX,
            batch_indices(prims@).len() <= u32::MAX,
            deltas_ok(old(self).egui_texture@, deltas@),
        ensures
            final(self).wf(),
            final(self).vertices@ == batch_vertices(prims@),
            final(self).indices@ == batch_indices(prims@),
            final(self).groups@ == batch_groups(
                prims@,
                screen.pixels_per_point as int,
                screen.size_in_pixels[0] as int,
                screen.size_in_pixels[1] as int,
            ),
            final(self).egui_texture@ == apply_deltas(old(self).egui_texture@, deltas@),
            final(self).prepared,
            r.0@ == delta_commands(old(self).egui_texture@, deltas@),
            r.1.screen_size_in_points[0] == spec_points(
                screen.size_in_pixels[0] as int,
                screen.pixels_per_point as int,
            ),
            r.1.screen_size_in_points[1] == spec_points(
                screen.size_in_pixels[1] as int,
                screen.pixels_per_point as int,
            ),
    {
        // Rebuild the frame's geometry (full replace; no incremental diffing).
        let (vertices, indices, groups) = batch(
            &prims,
            screen.pixels_per_point,
            screen.size_in_pixels,
        );
        self.vertices = vertices;
        self.indices = indices;
        self.groups = groups;

        // Apply the frame's texture deltas in order.
        let ghost m0: Map<u64, TexModel> = self.egui_texture@;
        let ghost ds0: Seq<(u64, ImageDelta)> = deltas@;
        let mut deltas = deltas;
        let mut cmds: Vec<TextureCommand> = Vec::new();
        while deltas.len() > 0
            invariant
                self.egui_texture.wf(),
                deltas_ok(self.egui_texture@, deltas@),
                apply_deltas(self.egui_texture@, deltas@) == apply_deltas(m0, ds0),
                cmds@ + delta_commands(self.egui_texture@, deltas@) == delta_commands(m0, ds0),
                self.vertices@ == batch_vertices(prims@),
                self.indices@ == batch_indices(prims@),
                self.groups@ == batch_groups(
                    prims@,
                    screen.pixels_per_point as int,
                    screen.size_in_pixels[0] as int,
                    screen.size_in_pixels[1] as int,
                ),
            decreases deltas@.len(),
        {
            let ghost pre: Seq<(u64, ImageDelta)> = deltas@;
            let ghost mpre: Map<u64, TexModel> = self.egui_texture@;
            let (id, d): (u64, ImageDelta) = deltas.remove(0);
            proof {
                assert(pre.remove(0) =~= pre.drop_first());
            }
            let cmd = self.egui_texture.ensure(id, d);
            cmds.push(cmd);
            proof {
                assert(cmds@ + delta_commands(self.egui_texture@, deltas@) =~= (cmds@.drop_last()
                    + seq![delta_command(mpre, id, d)]) + delta_commands(
                    self.egui_texture@,
                    pre.drop_first(),
                ));
                assert(cmds@.drop_last() + (seq![delta_command(mpre, id, d)] + delta_commands(
                    self.egui_texture@,
                    pre.drop_first(),
                )) =~= (cmds@.drop_last() + seq![delta_command(mpre, id, d)]) + delta_commands(
                    self.egui_texture@,
                    pre.drop_first(),
                ));
            }
        }
        proof {
            assert(cmds@ + delta_commands(self.egui_texture@, deltas@) =~= cmds@);
        }

        // Recompute the uniform: screen size in points = pixel size / scale.
        let points: [u64; 2] = screen.screen_size_in_points();
        let uniform = Uniform { screen_size_in_points: points, _padding: [0, 0] };
        self.prepared = true;
        (cmds, uniform)
    }

    /// The render step of a prepared frame: for each group in order whose
    /// scissor rect is non-empty and whose texture resolves in the cache, one
    /// indexed draw call (texture binding, scissor rect, index range, single
    /// instance). A group whose texture is unknown emits nothing — the host
    /// logs it — and the remaining groups still draw. The host binds the
    /// pipeline and the shared vertex/index buffers once, then executes the
    /// calls in order.
    pub fn render(&self) -> (calls: Vec<DrawCall>)
        requires
            self.prepared,
        ensures
            calls@ == render_calls(self.groups@, self.egui_texture@),
    {
        let mut calls: Vec<DrawCall> = Vec::new();
        let mut i: usize = 0;
        while i < self.groups.len()
            invariant
                0 <= i <= self.groups@.len(),
                calls@ == render_calls(self.groups@.take(i as int), self.egui_texture@),
            decreases self.groups@.len() - i,
        {
            proof {
                assert(self.groups@.take(i as int + 1).drop_last() =~= self.groups@.take(i as int));
                assert(self.groups@.take(i as int + 1).last() == self.groups@[i as int]);
            }
            let g: Group = self.groups[i];
            if !g.pixel_rect.is_empty() {
                if self.egui_texture.contains(g.tex_id) {
                    calls.push(
                        DrawCall { tex_id: g.tex_id, rect: g.pixel_rect, start: g.start, end: g.end },
                    );
                }
                // An unknown texture never fails the frame: the group is
                // skipped and the host logs a warning.
            }
            i += 1;
        }
        proof {
            assert(self.groups@.take(self.groups@.len() as int) =~= self.groups@);
        }
        calls
    }
}

} // verus!
