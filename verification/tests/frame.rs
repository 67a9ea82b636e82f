use egui_glfw_mdi::atlas::{Ratio, TextureHandle, TexturePool};
use egui_glfw_mdi::frame::{build_frame, ClippedPrimitive, DrawElementsCmd, Mesh, Primitive};
use egui_glfw_mdi::scissor::ClipRect;

fn full() -> ClipRect {
    ClipRect { min_x: 0, min_y: 0, max_x: 800, max_y: 600 }
}

fn mesh(vertices: Vec<u16>, indices: Vec<u32>, texture_id: TextureHandle) -> Primitive<u16> {
    Primitive::Mesh(Mesh { indices, vertices, texture_id })
}

fn clipped(clip_rect: ClipRect, primitive: Primitive<u16>) -> ClippedPrimitive<u16> {
    ClippedPrimitive { clip_rect, primitive }
}

fn value(r: Ratio) -> f32 {
    r.num as f32 / r.den as f32
}

#[test]
fn empty_frame_has_no_commands() {
    let pool = TexturePool::new(16, 16);
    let frame = build_frame::<u16>(&pool, Vec::new(), 800, 600).unwrap();
    assert!(frame.vertices.is_empty());
    assert!(frame.elements.is_empty());
    assert!(frame.commands.is_empty());
    assert_eq!(frame.command_count, 0);
    assert!(frame.unknown_textures.is_empty());
}

#[test]
fn two_known_textures_and_one_unknown() {
    let mut pool = TexturePool::new(16, 16);
    let a = pool.insert(16, 16).texture;
    let b = pool.insert(8, 8).texture;
    let stranger = TextureHandle::User(99);
    let prims = vec![
        clipped(full(), mesh(vec![1, 2, 3], vec![0, 1, 2], a.id)),
        clipped(full(), mesh(vec![4, 5, 6, 7], vec![0, 1, 2, 2, 3, 0], b.id)),
        clipped(full(), mesh(vec![8, 9, 10], vec![0, 1, 2], stranger)),
    ];
    let frame = build_frame(&pool, prims, 800, 600).unwrap();
    assert_eq!(frame.commands.len(), 2);
    assert_eq!(frame.command_count, 2);
    assert_eq!(frame.unknown_textures, vec![stranger]);
    assert_eq!(value(frame.commands[0].uv_scale_x), 1.0);
    assert_eq!(value(frame.commands[0].uv_scale_y), 1.0);
    assert_eq!(value(frame.commands[1].uv_scale_x), 0.5);
    assert_eq!(value(frame.commands[1].uv_scale_y), 0.5);
    assert_eq!(frame.commands[0].texture_layer, 0);
    assert_eq!(frame.commands[1].texture_layer, 1);
    assert_eq!(frame.vertices, vec![1, 2, 3, 4, 5, 6, 7]);
    assert_eq!(frame.elements, vec![0, 1, 2, 0, 1, 2, 2, 3, 0]);
}

#[test]
fn commands_are_exact() {
    let mut pool = TexturePool::new(32, 16);
    let a = pool.insert(16, 16).texture;
    let b = pool.insert(8, 4).texture;
    let prims = vec![
        clipped(
            ClipRect { min_x: -50, min_y: -50, max_x: 100, max_y: 100 },
            mesh(vec![1, 2, 3], vec![0, 1, 2], b.id),
        ),
        clipped(
            ClipRect { min_x: 10, min_y: 20, max_x: 110, max_y: 70 },
            mesh(vec![4, 5, 6, 7], vec![0, 1, 2, 2, 3, 0], a.id),
        ),
    ];
    let frame = build_frame(&pool, prims, 800, 600).unwrap();
    assert_eq!(
        frame.commands,
        vec![
            DrawElementsCmd {
                count: 3,
                instance_count: 1,
                first_index: 0,
                base_vertex: 0,
                texture_layer: 1,
                uv_scale_x: Ratio { num: 8, den: 32 },
                uv_scale_y: Ratio { num: 4, den: 16 },
                scissor_x: 0,
                scissor_y: 500,
                scissor_w: 100,
                scissor_h: 100,
            },
            DrawElementsCmd {
                count: 6,
                instance_count: 1,
                first_index: 3,
                base_vertex: 3,
                texture_layer: 0,
                uv_scale_x: Ratio { num: 16, den: 32 },
                uv_scale_y: Ratio { num: 16, den: 16 },
                scissor_x: 10,
                scissor_y: 530,
                scissor_w: 100,
                scissor_h: 50,
            },
        ]
    );
}

#[test]
fn offsets_are_running_sums() {
    let mut pool = TexturePool::new(256, 256);
    let tex = pool.insert(4, 4).texture;
    let vertex_counts = [3usize, 0, 5, 1, 4];
    let index_counts = [3usize, 6, 0, 9, 3];
    let mut prims = Vec::new();
    for k in 0..5 {
        prims.push(clipped(
            full(),
            mesh(vec![k as u16; vertex_counts[k]], vec![k as u32; index_counts[k]], tex.id),
        ));
    }
    let frame = build_frame(&pool, prims, 800, 600).unwrap();
    assert_eq!(frame.commands.len(), 5);
    let mut vertices_before = 0;
    let mut indices_before = 0;
    for k in 0..5 {
        assert_eq!(frame.commands[k].base_vertex as usize, vertices_before);
        assert_eq!(frame.commands[k].first_index as usize, indices_before);
        assert_eq!(frame.commands[k].count as usize, index_counts[k]);
        assert_eq!(frame.commands[k].instance_count, 1);
        vertices_before += vertex_counts[k];
        indices_before += index_counts[k];
    }
    assert_eq!(frame.vertices.len(), 13);
    assert_eq!(frame.elements.len(), 21);
    assert_eq!(frame.vertices, vec![0, 0, 0, 2, 2, 2, 2, 2, 3, 4, 4, 4, 4]);
}

#[test]
fn skipped_mesh_leaves_no_gap() {
    let mut pool = TexturePool::new(256, 256);
    let tex = pool.insert(4, 4).texture;
    let stranger = TextureHandle::Managed(5);
    let prims = vec![
        clipped(full(), mesh(vec![1, 2], vec![0, 1], tex.id)),
        clipped(full(), mesh(vec![3, 4, 5], vec![0, 1, 2], stranger)),
        clipped(full(), Primitive::Callback),
        clipped(full(), mesh(vec![6], vec![0, 0, 0], tex.id)),
        clipped(full(), mesh(vec![7], vec![0], TextureHandle::User(1))),
    ];
    let frame = build_frame(&pool, prims, 800, 600).unwrap();
    assert_eq!(frame.commands.len(), 2);
    assert_eq!(frame.commands[1].base_vertex, 2);
    assert_eq!(frame.commands[1].first_index, 2);
    assert_eq!(frame.vertices, vec![1, 2, 6]);
    assert_eq!(frame.elements, vec![0, 1, 0, 0, 0]);
    assert_eq!(frame.unknown_textures, vec![stranger, TextureHandle::User(1)]);
}

#[test]
fn frame_of_unknown_textures_only_is_empty() {
    let pool = TexturePool::new(16, 16);
    let prims = vec![
        clipped(full(), mesh(vec![1], vec![0], TextureHandle::Managed(0))),
        clipped(full(), Primitive::Callback),
    ];
    let frame = build_frame(&pool, prims, 800, 600).unwrap();
    assert_eq!(frame.command_count, 0);
    assert!(frame.vertices.is_empty());
    assert!(frame.elements.is_empty());
    assert_eq!(frame.unknown_textures, vec![TextureHandle::Managed(0)]);
}

#[test]
fn scissor_of_every_command_is_inside_the_framebuffer() {
    let mut pool = TexturePool::new(16, 16);
    let tex = pool.insert(16, 16).texture;
    let rects = [
        ClipRect { min_x: -50, min_y: -50, max_x: 100, max_y: 100 },
        ClipRect { min_x: 900, min_y: 900, max_x: 1000, max_y: 1000 },
        ClipRect { min_x: 300, min_y: 300, max_x: 100, max_y: 100 },
        ClipRect { min_x: 700, min_y: 500, max_x: 900, max_y: 700 },
    ];
    let mut prims = Vec::new();
    for r in rects.iter() {
        prims.push(clipped(*r, mesh(vec![1], vec![0], tex.id)));
    }
    let frame = build_frame(&pool, prims, 800, 600).unwrap();
    assert_eq!(frame.commands.len(), 4);
    for c in frame.commands.iter() {
        assert!(c.scissor_x + c.scissor_w <= 800);
        assert!(c.scissor_y + c.scissor_h <= 600);
    }
    assert_eq!(frame.commands[0].scissor_y, 500);
    assert_eq!(frame.commands[1].scissor_w, 0);
    assert_eq!(frame.commands[2].scissor_h, 0);
}

#[test]
fn texture_updated_before_the_frame_is_drawn() {
    let mut pool = TexturePool::new(64, 64);
    let font = TextureHandle::Managed(0);
    let info = pool.fetch_or_add(font, 64, 32);
    let prims = vec![clipped(full(), mesh(vec![1, 2, 3], vec![0, 1, 2], font))];
    let frame = build_frame(&pool, prims, 800, 600).unwrap();
    assert_eq!(frame.command_count, 1);
    assert_eq!(frame.commands[0].texture_layer, info.layer as u32);
    assert_eq!(frame.commands[0].uv_scale_x, Ratio { num: 64, den: 64 });
    assert_eq!(frame.commands[0].uv_scale_y, Ratio { num: 32, den: 64 });
    assert_eq!(value(frame.commands[0].uv_scale_y), 0.5);
    assert!(frame.unknown_textures.is_empty());
}

fn bare(vertex_count: usize, texture_id: TextureHandle) -> ClippedPrimitive<()> {
    ClippedPrimitive {
        clip_rect: full(),
        primitive: Primitive::Mesh(Mesh {
            indices: vec![0, 0, 0],
            vertices: vec![(); vertex_count],
            texture_id,
        }),
    }
}

#[test]
fn frame_may_have_as_many_vertices_as_a_command_can_address() {
    let mut pool = TexturePool::new(16, 16);
    let tex = pool.insert(1, 1).texture.id;
    let one = build_frame(&pool, vec![bare(0x7fff_ffff, tex)], 800, 600).unwrap();
    assert_eq!(one.vertices.len(), 0x7fff_ffff);
    assert_eq!(one.command_count, 1);
    let prims = vec![bare(0x4000_0000, tex), bare(0x3fff_ffff, tex), bare(0, tex)];
    let three = build_frame(&pool, prims, 800, 600).unwrap();
    assert_eq!(three.command_count, 3);
    assert_eq!(three.commands[1].base_vertex, 0x4000_0000);
    assert_eq!(three.commands[2].base_vertex, 0x7fff_ffff);
    assert_eq!(three.commands[2].first_index, 6);
}

#[test]
fn frame_with_more_vertices_than_a_command_can_address_is_refused() {
    let mut pool = TexturePool::new(16, 16);
    let tex = pool.insert(1, 1).texture.id;
    assert!(build_frame(&pool, vec![bare(0x8000_0000, tex)], 800, 600).is_none());
    let halves = vec![bare(0x4000_0000, tex), bare(0x4000_0000, tex)];
    assert!(build_frame(&pool, halves, 800, 600).is_none());
    let late = vec![bare(1, tex), bare(0x7fff_ffff, tex), bare(0, tex)];
    assert!(build_frame(&pool, late, 800, 600).is_none());
}

#[test]
fn vertices_of_skipped_meshes_do_not_count() {
    let mut pool = TexturePool::new(16, 16);
    let tex = pool.insert(1, 1).texture.id;
    let stranger = TextureHandle::Managed(0);
    let prims = vec![bare(0x7fff_ffff, stranger), bare(0x7fff_ffff, tex), bare(5, stranger)];
    let frame = build_frame(&pool, prims, 800, 600).unwrap();
    assert_eq!(frame.command_count, 1);
    assert_eq!(frame.vertices.len(), 0x7fff_ffff);
    assert_eq!(frame.unknown_textures, vec![stranger, stranger]);
}
