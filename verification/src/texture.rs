//! Texture lifecycle: a cache mapping an opaque texture identifier to the
//! pipeline's model of the corresponding GPU texture, and the translation of
//! incoming texture deltas into upload commands for the host to execute.
//!
//! The GPU owns the real texture memory; each cache entry carries the texture
//! extent and a ghost model of its current contents, so that the effect of
//! full fills and partial-region updates is part of the cache's contract.

use vstd::prelude::*;

use std::collections::HashMap;

verus! {

broadcast use vstd::std_specs::hash::group_hash_axioms;

/// Top-left corner of the region a partial texture update overwrites.
#[derive(Clone, Copy, Debug, PartialEq, Eq, Structural)]
pub struct UpdatePos {
    pub x: u32,
    pub y: u32,
}

/// One texture delta from the GUI library: a `width x height` block of packed
/// 32-bit pixels, row-major. With `pos` absent it fills the whole texture
/// (or first creates it); with `pos` given it overwrites only that region.
/// Font-coverage masks are expanded to this same channel layout by the host's
/// gamma/alpha expansion before they reach this layer.
#[derive(Debug)]
pub struct ImageDelta {
    pub width: u32,
    pub height: u32,
    pub pixels: Vec<u32>,
    pub pos: Option<UpdatePos>,
}

/// The pixel payload covers exactly the advertised extent.
pub open spec fn delta_wf(d: ImageDelta) -> bool {
    d.pixels@.len() == d.width as int * d.height as int
}

/// The pipeline's model of one GPU texture: its extent and (ghost) its
/// current contents, row-major.
pub ghost struct TexModel {
    pub width: int,
    pub height: int,
    pub contents: Seq<u32>,
}

/// One GPU upload for the host to perform, in the order issued.
#[derive(Debug)]
pub enum TextureCommand {
    /// Allocate a `width x height` texture for `id`, pair it with the shared
    /// sampler in a new binding descriptor, and fill it with `pixels`.
    Create { id: u64, width: u32, height: u32, pixels: Vec<u32> },
    /// Overwrite the whole of `id`'s texture with `pixels`.
    Fill { id: u64, pixels: Vec<u32> },
    /// Overwrite the `width x height` region of `id`'s texture whose top-left
    /// corner is `(x, y)` with `pixels`.
    Update { id: u64, x: u32, y: u32, width: u32, height: u32, pixels: Vec<u32> },
}

/// Contents of a `tw`-pixel-wide texture after overwriting the `w x h` region
/// whose top-left corner is `(x, y)` with `patch` (row-major).
pub open spec fn blit(
    base: Seq<u32>,
    tw: int,
    x: int,
    y: int,
    w: int,
    h: int,
    patch: Seq<u32>,
) -> Seq<u32> {
    Seq::new(
        base.len(),
        |i: int|
            {
                let r = i / tw;
                let c = i % tw;
                if y <= r < y + h && x <= c < x + w {
                    patch[(r - y) * w + (c - x)]
                } else {
                    base[i]
                }
            },
    )
}

/// What a delta for `id` asks of a cache in state `m`: its payload matches
/// its extent; a partial update fits inside the existing texture; a full
/// fill of an existing texture has that texture's extent (a full update with
/// a different extent is left unspecified upstream and is not accepted here).
pub open spec fn delta_ok(m: Map<u64, TexModel>, id: u64, d: ImageDelta) -> bool {
    &&& delta_wf(d)
    &&& match d.pos {
        Some(p) => m.contains_key(id) ==> p.x + d.width <= m[id].width && p.y + d.height
            <= m[id].height,
        None => m.contains_key(id) ==> d.width as int == m[id].width && d.height as int
            == m[id].height,
    }
}

/// The cache state after one delta: an unknown id is created with the full
/// payload as contents; a known id is partially overwritten when a region is
/// given, else fully overwritten.
pub open spec fn apply_delta(m: Map<u64, TexModel>, id: u64, d: ImageDelta) -> Map<u64, TexModel> {
    if !m.contains_key(id) {
        m.insert(
            id,
            TexModel { width: d.width as int, height: d.height as int, contents: d.pixels@ },
        )
    } else {
        let e = m[id];
        match d.pos {
            Some(p) => m.insert(
                id,
                TexModel {
                    width: e.width,
                    height: e.height,
                    contents: blit(
                        e.contents,
                        e.width,
                        p.x as int,
                        p.y as int,
                        d.width as int,
                        d.height as int,
                        d.pixels@,
                    ),
                },
            ),
            None => m.insert(
                id,
                TexModel { width: e.width, height: e.height, contents: d.pixels@ },
            ),
        }
    }
}

/// The upload command one delta turns into, given the cache state `m`.
pub open spec fn delta_command(m: Map<u64, TexModel>, id: u64, d: ImageDelta) -> TextureCommand {
    if !m.contains_key(id) {
        TextureCommand::Create { id, width: d.width, height: d.height, pixels: d.pixels }
    } else {
        match d.pos {
            Some(p) => TextureCommand::Update {
                id,
                x: p.x,
                y: p.y,
                width: d.width,
                height: d.height,
                pixels: d.pixels,
            },
            None => TextureCommand::Fill { id, pixels: d.pixels },
        }
    }
}

/// One cache entry: the texture extent and a ghost model of the texture's
/// current contents. The GPU resource itself lives with the host.
pub struct TextureEntry {
    pub width: u32,
    pub height: u32,
    pub contents: Ghost<Seq<u32>>,
}

/// Mapping from texture identifier to texture entry; keys unique, no
/// ordering. Entries are created lazily on first reference and updated in
/// place; they are never implicitly destroyed.
pub struct TextureCache {
    pub map: HashMap<u64, TextureEntry>,
}

impl TextureCache {
    /// The cache as a map from identifier to texture model.
    pub open spec fn view(&self) -> Map<u64, TexModel> {
        Map::new(
            |id: u64| self.map@.contains_key(id),
            |id: u64|
                TexModel {
                    width: self.map@[id].width as int,
                    height: self.map@[id].height as int,
                    contents: self.map@[id].contents@,
                },
        )
    }

    /// Every entry's (ghost) contents cover exactly its extent.
    pub open spec fn wf(&self) -> bool {
        forall|id: u64| #[trigger]
            self@.contains_key(id) ==> self@[id].contents.len() == self@[id].width
                * self@[id].height
    }

    /// An empty cache.
    pub fn new() -> (c: TextureCache)
        ensures
            c@ == Map::<u64, TexModel>::empty(),
            c.wf(),
    {
        let c = TextureCache { map: HashMap::new() };
        proof {
            assert(c@ =~= Map::<u64, TexModel>::empty());
        }
        c
    }

    pub fn contains(&self, id: u64) -> (b: bool)
        ensures
            b == self@.contains_key(id),
    {
        self.map.contains_key(&id)
    }

    /// Apply one texture delta: create the texture on first reference, else
    /// overwrite the given region or the whole image. Returns the GPU upload
    /// the host must perform.
    pub fn ensure(&mut self, id: u64, delta: ImageDelta) -> (cmd: TextureCommand)
        requires
            old(self).wf(),
            delta_ok(old(self)@, id, delta),
        ensures
            final(self)@ == apply_delta(old(self)@, id, delta),
            final(self).wf(),
            cmd == delta_command(old(self)@, id, delta),
    {
        let ghost m0: Map<u64, TexModel> = self@;
        if !self.map.contains_key(&id) {
            let entry = TextureEntry {
                width: delta.width,
                height: delta.height,
                contents: Ghost(delta.pixels@),
            };
            self.map.insert(id, entry);
            proof {
                assert(self@ =~= apply_delta(m0, id, delta));
            }
            TextureCommand::Create { id, width: delta.width, height: delta.height, pixels: delta.pixels }
        } else {
            match delta.pos {
                Some(p) => {
                    let mut ew: u32 = 0;
                    let mut eh: u32 = 0;
                    let ghost mut ec: Seq<u32> = Seq::empty();
                    match self.map.get(&id) {
                        Some(e) => {
                            ew = e.width;
                            eh = e.height;
                            proof {
                                ec = e.contents@;
                            }
                        },
                        None => {
                            // unreachable: the id was just found in the map
                            assert(false);
                        },
                    }
                    let entry = TextureEntry {
                        width: ew,
                        height: eh,
                        contents: Ghost(
                            blit(
                                ec,
                                ew as int,
                                p.x as int,
                                p.y as int,
                                delta.width as int,
                                delta.height as int,
                                delta.pixels@,
                            ),
                        ),
                    };
                    self.map.insert(id, entry);
                    proof {
                        assert(self@ =~= apply_delta(m0, id, delta));
                    }
                    TextureCommand::Update {
                        id,
                        x: p.x,
                        y: p.y,
                        width: delta.width,
                        height: delta.height,
                        pixels: delta.pixels,
                    }
                },
                None => {
                    let entry = TextureEntry {
                        width: delta.width,
                        height: delta.height,
                        contents: Ghost(delta.pixels@),
                    };
                    self.map.insert(id, entry);
                    proof {
                        assert(self@ =~= apply_delta(m0, id, delta));
                    }
                    TextureCommand::Fill { id, pixels: delta.pixels }
                },
            }
        }
    }
}

/// Texture lifecycle law: creating a texture with some id, then issuing a
/// partial update, then a full update leaves the cache with exactly one entry
/// for that id, whose contents are the full update's pixels; the partial
/// update is fully superseded, and no other entry changes.
pub proof fn lemma_full_update_supersedes(
    m: Map<u64, TexModel>,
    id: u64,
    create: ImageDelta,
    partial: ImageDelta,
    full: ImageDelta,
)
    requires
        !m.contains_key(id),
        partial.pos is Some,
        full.pos is None,
        delta_ok(m, id, create),
        delta_ok(apply_delta(m, id, create), id, partial),
        delta_ok(apply_delta(apply_delta(m, id, create), id, partial), id, full),
    ensures
        ({
            let mf = apply_delta(apply_delta(apply_delta(m, id, create), id, partial), id, full);
            &&& mf.dom() == m.dom().insert(id)
            &&& mf[id].contents == full.pixels@
            &&& mf[id].width == full.width as int && mf[id].height == full.height as int
            &&& forall|t: u64| t != id && m.contains_key(t) ==> mf[t] == m[t]
        }),
{
    let m1 = apply_delta(m, id, create);
    let m2 = apply_delta(m1, id, partial);
    let mf = apply_delta(m2, id, full);
    assert(mf.dom() =~= m.dom().insert(id));
}

} // verus!
