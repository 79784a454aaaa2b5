use egui_pipe::geometry::{batch, ClippedPrimitive, Group, Mesh, Primitive, Vertex};
use egui_pipe::pipe::{EguiPipe, ScreenDescriptor};
use egui_pipe::rect::{to_pixel_rect, ClipRect, PixelRect, FX_ONE};
use egui_pipe::texture::{ImageDelta, TextureCache, TextureCommand, UpdatePos};

fn fx(points: i64) -> i64 {
    points * FX_ONE as i64
}

fn clip(min_x: i64, min_y: i64, max_x: i64, max_y: i64) -> ClipRect {
    ClipRect {
        min_x: fx(min_x),
        min_y: fx(min_y),
        max_x: fx(max_x),
        max_y: fx(max_y),
    }
}

fn vert(n: u32) -> Vertex {
    Vertex {
        pos_x: n,
        pos_y: n + 1,
        uv_x: n + 2,
        uv_y: n + 3,
        color: n + 4,
    }
}

fn quad_mesh(texture_id: u64) -> Mesh {
    Mesh {
        vertices: vec![vert(10), vert(20), vert(30), vert(40)],
        indices: vec![0, 1, 2, 2, 1, 3],
        texture_id,
    }
}

#[test]
fn pixel_rect_plain_inside() {
    // A 100x100-point clip rect at scale 1.0 inside a 200x200 target is kept as is.
    let r = to_pixel_rect(&clip(0, 0, 100, 100), 256, [200, 200]);
    assert_eq!(r, PixelRect { x: 0, y: 0, w: 100, h: 100 });
}

#[test]
fn pixel_rect_scaled_and_clamped() {
    // Clip (-50,-50,10,10) at scale 2.0 on a 100x100 target: scaled bounds
    // (-100,-100,20,20), min clamped to (0,0), max to (20,20).
    let r = to_pixel_rect(&clip(-50, -50, 10, 10), 512, [100, 100]);
    assert_eq!(r, PixelRect { x: 0, y: 0, w: 20, h: 20 });
}

#[test]
fn pixel_rect_offscreen_low_is_minimal() {
    // Fully offscreen before the origin: the minimal 1x1 rect at the origin.
    let r = to_pixel_rect(&clip(-90, -80, -10, -20), 256, [100, 100]);
    assert_eq!(r, PixelRect { x: 0, y: 0, w: 1, h: 1 });
    assert!(!r.is_empty());
}

#[test]
fn pixel_rect_offscreen_high_is_empty() {
    // Fully offscreen past the target extent: origin clamps to the corner
    // and the extent collapses; callers skip the group as empty.
    let r = to_pixel_rect(&clip(150, 150, 180, 180), 256, [100, 100]);
    assert_eq!(r, PixelRect { x: 100, y: 100, w: 0, h: 0 });
    assert!(r.is_empty());
}

#[test]
fn pixel_rect_inverted_input_never_negative() {
    // Inverted clip rect: max clamps up to min, extent floors at 1.
    let r = to_pixel_rect(&clip(60, 60, 40, 40), 256, [100, 100]);
    assert_eq!(r, PixelRect { x: 60, y: 60, w: 1, h: 1 });
}

#[test]
fn pixel_rect_idempotent_at_unit_scale() {
    // Re-applying the calculation to its own result changes nothing.
    let first = to_pixel_rect(&clip(3, 5, 90, 80), 256, [100, 100]);
    let again = to_pixel_rect(
        &clip(
            first.x as i64,
            first.y as i64,
            (first.x + first.w) as i64,
            (first.y + first.h) as i64,
        ),
        256,
        [100, 100],
    );
    assert_eq!(first, again);
}

#[test]
fn pixel_rect_rounds_to_nearest() {
    // 2.5 points at scale 1.0 rounds up; 2.25 rounds down.
    let r = to_pixel_rect(
        &ClipRect {
            min_x: 0,
            min_y: 0,
            max_x: fx(2) + FX_ONE as i64 / 2,
            max_y: fx(2) + FX_ONE as i64 / 4,
        },
        256,
        [100, 100],
    );
    assert_eq!((r.w, r.h), (3, 2));
}

#[test]
fn batch_counts_meshes_only() {
    // One group per mesh primitive; the callback is skipped.
    let prims = vec![
        ClippedPrimitive {
            clip_rect: clip(0, 0, 10, 10),
            primitive: Primitive::Mesh(quad_mesh(1)),
        },
        ClippedPrimitive {
            clip_rect: clip(0, 0, 10, 10),
            primitive: Primitive::Callback,
        },
        ClippedPrimitive {
            clip_rect: clip(0, 0, 10, 10),
            primitive: Primitive::Mesh(quad_mesh(2)),
        },
    ];
    let (vertices, indices, groups) = batch(&prims, 256, [100, 100]);
    assert_eq!(groups.len(), 2);
    assert_eq!(vertices.len(), 8);
    assert_eq!(indices.len(), 12);
}

#[test]
fn batch_rebases_indices_onto_own_slice() {
    // The second mesh's indices are offset by the first mesh's vertex count.
    let prims = vec![
        ClippedPrimitive {
            clip_rect: clip(0, 0, 10, 10),
            primitive: Primitive::Mesh(quad_mesh(1)),
        },
        ClippedPrimitive {
            clip_rect: clip(0, 0, 10, 10),
            primitive: Primitive::Mesh(quad_mesh(2)),
        },
    ];
    let (vertices, indices, groups) = batch(&prims, 256, [100, 100]);
    assert_eq!(indices, vec![0, 1, 2, 2, 1, 3, 4, 5, 6, 6, 5, 7]);
    for (j, g) in groups.iter().enumerate() {
        for k in g.start..g.end {
            let v = indices[k as usize] as usize;
            assert!(v < vertices.len());
            assert!(v / 4 == j, "index points into its own mesh's vertex slice");
        }
    }
    assert_eq!(groups[0], Group {
        start: 0,
        end: 6,
        tex_id: 1,
        pixel_rect: PixelRect { x: 0, y: 0, w: 10, h: 10 },
    });
    assert_eq!(groups[1].start, 6);
    assert_eq!(groups[1].end, 12);
}

#[test]
fn texture_create_partial_then_full_supersedes() {
    // Create 2x2, patch one pixel, then overwrite fully: the commands carry
    // the payloads in order, and the final fill supersedes the patch.
    let mut cache = TextureCache::new();
    let create = ImageDelta {
        width: 2,
        height: 2,
        pixels: vec![1, 2, 3, 4],
        pos: None,
    };
    let partial = ImageDelta {
        width: 1,
        height: 1,
        pixels: vec![9],
        pos: Some(UpdatePos { x: 1, y: 0 }),
    };
    let full = ImageDelta {
        width: 2,
        height: 2,
        pixels: vec![5, 6, 7, 8],
        pos: None,
    };
    let c1 = cache.ensure(7, create);
    let c2 = cache.ensure(7, partial);
    let c3 = cache.ensure(7, full);
    assert!(cache.contains(7));
    assert!(!cache.contains(8));
    match c1 {
        TextureCommand::Create { id, width, height, pixels } => {
            assert_eq!((id, width, height), (7, 2, 2));
            assert_eq!(pixels, vec![1, 2, 3, 4]);
        }
        _ => panic!("first delta must create"),
    }
    match c2 {
        TextureCommand::Update { id, x, y, width, height, pixels } => {
            assert_eq!((id, x, y, width, height), (7, 1, 0, 1, 1));
            assert_eq!(pixels, vec![9]);
        }
        _ => panic!("second delta must be a partial update"),
    }
    match c3 {
        TextureCommand::Fill { id, pixels } => {
            assert_eq!(id, 7);
            assert_eq!(pixels, vec![5, 6, 7, 8]);
        }
        _ => panic!("third delta must fill"),
    }
}

#[test]
fn texture_partial_on_unknown_id_creates() {
    // A region given for an id the cache has never seen creates the texture.
    let mut cache = TextureCache::new();
    let delta = ImageDelta {
        width: 1,
        height: 1,
        pixels: vec![42],
        pos: Some(UpdatePos { x: 0, y: 0 }),
    };
    match cache.ensure(3, delta) {
        TextureCommand::Create { id, .. } => assert_eq!(id, 3),
        _ => panic!("unknown id must be created"),
    }
}

#[test]
fn end_to_end_one_quad() {
    // One mesh primitive with 4 vertices forming a quad, clip (0,0,100,100),
    // scale 1.0, target 200x200: one group, index range 0..6, scissor
    // (0,0,100,100).
    let mut pipe = EguiPipe::new();
    let screen = ScreenDescriptor {
        size_in_pixels: [200, 200],
        pixels_per_point: 256,
    };
    let deltas = vec![(0u64, ImageDelta {
        width: 1,
        height: 1,
        pixels: vec![0xffffffff],
        pos: None,
    })];
    let prims = vec![ClippedPrimitive {
        clip_rect: clip(0, 0, 100, 100),
        primitive: Primitive::Mesh(quad_mesh(0)),
    }];
    let (cmds, uniform) = pipe.prepare(deltas, prims, &screen);
    assert_eq!(cmds.len(), 1);
    assert_eq!(pipe.groups.len(), 1);
    assert_eq!(pipe.groups[0].start, 0);
    assert_eq!(pipe.groups[0].end, 6);
    assert_eq!(pipe.groups[0].pixel_rect, PixelRect { x: 0, y: 0, w: 100, h: 100 });
    // Screen size in points equals pixel size at scale 1.0.
    assert_eq!(uniform.screen_size_in_points, [200 * 256, 200 * 256]);
    let calls = pipe.render();
    assert_eq!(calls.len(), 1);
    assert_eq!(calls[0].tex_id, 0);
    assert_eq!((calls[0].start, calls[0].end), (0, 6));
    assert_eq!(calls[0].rect, PixelRect { x: 0, y: 0, w: 100, h: 100 });
}

#[test]
fn uniform_points_at_hidpi() {
    // 200x100 pixels at scale 2.0 is 100x50 points.
    let screen = ScreenDescriptor {
        size_in_pixels: [200, 100],
        pixels_per_point: 512,
    };
    let points = screen.screen_size_in_points();
    assert_eq!(points, [100 * 256, 50 * 256]);
}

#[test]
fn unknown_texture_group_is_skipped() {
    // A group referencing texture id 99 with no cache entry emits no draw
    // call; the remaining groups still draw.
    let mut pipe = EguiPipe::new();
    let screen = ScreenDescriptor {
        size_in_pixels: [200, 200],
        pixels_per_point: 256,
    };
    let deltas = vec![(1u64, ImageDelta {
        width: 1,
        height: 1,
        pixels: vec![7],
        pos: None,
    })];
    let prims = vec![
        ClippedPrimitive {
            clip_rect: clip(0, 0, 50, 50),
            primitive: Primitive::Mesh(quad_mesh(99)),
        },
        ClippedPrimitive {
            clip_rect: clip(0, 0, 50, 50),
            primitive: Primitive::Mesh(quad_mesh(1)),
        },
    ];
    let _ = pipe.prepare(deltas, prims, &screen);
    assert_eq!(pipe.groups.len(), 2);
    let calls = pipe.render();
    assert_eq!(calls.len(), 1);
    assert_eq!(calls[0].tex_id, 1);
    assert_eq!((calls[0].start, calls[0].end), (6, 12));
}

#[test]
fn empty_scissor_group_is_skipped() {
    // A group whose clip rect is fully past the target draws nothing.
    let mut pipe = EguiPipe::new();
    let screen = ScreenDescriptor {
        size_in_pixels: [100, 100],
        pixels_per_point: 256,
    };
    let deltas = vec![(1u64, ImageDelta {
        width: 1,
        height: 1,
        pixels: vec![7],
        pos: None,
    })];
    let prims = vec![ClippedPrimitive {
        clip_rect: clip(150, 150, 180, 180),
        primitive: Primitive::Mesh(quad_mesh(1)),
    }];
    let _ = pipe.prepare(deltas, prims, &screen);
    assert!(pipe.groups[0].pixel_rect.is_empty());
    let calls = pipe.render();
    assert_eq!(calls.len(), 0);
}

#[test]
fn prepare_replaces_previous_frame() {
    // The second frame fully replaces the first frame's buffers and groups;
    // only the texture cache persists.
    let mut pipe = EguiPipe::new();
    let screen = ScreenDescriptor {
        size_in_pixels: [100, 100],
        pixels_per_point: 256,
    };
    let deltas = vec![(1u64, ImageDelta {
        width: 1,
        height: 1,
        pixels: vec![7],
        pos: None,
    })];
    let prims = vec![
        ClippedPrimitive {
            clip_rect: clip(0, 0, 10, 10),
            primitive: Primitive::Mesh(quad_mesh(1)),
        },
        ClippedPrimitive {
            clip_rect: clip(0, 0, 10, 10),
            primitive: Primitive::Mesh(quad_mesh(1)),
        },
    ];
    let _ = pipe.prepare(deltas, prims, &screen);
    assert_eq!(pipe.groups.len(), 2);
    let prims2 = vec![ClippedPrimitive {
        clip_rect: clip(0, 0, 10, 10),
        primitive: Primitive::Mesh(quad_mesh(1)),
    }];
    let (cmds2, _) = pipe.prepare(Vec::new(), prims2, &screen);
    assert_eq!(cmds2.len(), 0);
    assert_eq!(pipe.groups.len(), 1);
    assert_eq!(pipe.vertices.len(), 4);
    assert_eq!(pipe.indices.len(), 6);
    assert!(pipe.egui_texture.contains(1));
}

#[test]
fn empty_frame() {
    // No primitives and no deltas: empty buffers, no groups, no commands,
    // no draw calls.
    let mut pipe = EguiPipe::new();
    let screen = ScreenDescriptor {
        size_in_pixels: [100, 100],
        pixels_per_point: 256,
    };
    let (cmds, _) = pipe.prepare(Vec::new(), Vec::new(), &screen);
    assert_eq!(cmds.len(), 0);
    assert_eq!(pipe.vertices.len(), 0);
    assert_eq!(pipe.indices.len(), 0);
    assert_eq!(pipe.groups.len(), 0);
    assert_eq!(pipe.render().len(), 0);
}

#[test]
fn callback_only_frame_has_no_groups() {
    let prims = vec![ClippedPrimitive {
        clip_rect: clip(0, 0, 10, 10),
        primitive: Primitive::Callback,
    }];
    let (vertices, indices, groups) = batch(&prims, 256, [100, 100]);
    assert!(vertices.is_empty());
    assert!(indices.is_empty());
    assert!(groups.is_empty());
}

#[test]
fn create_and_patch_same_id_in_one_frame() {
    // A frame may create a texture and patch it in the same delta list; the
    // cache sees the create first, so the patch is a partial update.
    let mut pipe = EguiPipe::new();
    let screen = ScreenDescriptor {
        size_in_pixels: [100, 100],
        pixels_per_point: 256,
    };
    let deltas = vec![
        (5u64, ImageDelta {
            width: 2,
            height: 2,
            pixels: vec![1, 2, 3, 4],
            pos: None,
        }),
        (5u64, ImageDelta {
            width: 1,
            height: 1,
            pixels: vec![9],
            pos: Some(UpdatePos { x: 0, y: 1 }),
        }),
    ];
    let (cmds, _) = pipe.prepare(deltas, Vec::new(), &screen);
    assert_eq!(cmds.len(), 2);
    assert!(matches!(cmds[0], TextureCommand::Create { id: 5, .. }));
    assert!(matches!(
        cmds[1],
        TextureCommand::Update { id: 5, x: 0, y: 1, width: 1, height: 1, .. }
    ));
    assert!(pipe.egui_texture.contains(5));
}

#[test]
fn screen_descriptor_validity_check() {
    let good = ScreenDescriptor { size_in_pixels: [1, 1], pixels_per_point: 256 };
    assert!(good.is_wf());
    let zero_scale = ScreenDescriptor { size_in_pixels: [1, 1], pixels_per_point: 0 };
    assert!(!zero_scale.is_wf());
    let huge = ClipRect {
        min_x: i64::MAX,
        min_y: 0,
        max_x: 0,
        max_y: 0,
    };
    assert!(!huge.is_wf());
    assert!(clip(-50, -50, 10, 10).is_wf());
}
