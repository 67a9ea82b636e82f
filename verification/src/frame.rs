//! The per-frame batch: every clipped mesh of a frame packed into one vertex
//! buffer, one index buffer and one list of draw commands, so that a single
//! indirect multi-draw call paints the whole UI.
//!
//! The order of the primitives is the paint order and is kept. A mesh whose
//! texture the atlas does not know is left out and reported; a primitive that
//! is no mesh is left out silently.

use crate::atlas::{AtlasState, Ratio, TextureHandle, TextureInfo, TexturePool};
use crate::scissor::{clip_to_scissor, ClipRect};
use vstd::prelude::*;

verus! {

/// One draw of an indirect multi-draw call.
///
/// `count`, `instance_count`, `first_index` and `base_vertex` are what the
/// graphics API reads. The rest is for the shading stage: the atlas layer to
/// sample, the factors that map texture coordinates authored for the whole
/// image onto the corner of the layer that the image fills, and the scissor
/// rectangle outside of which fragments are dropped.
#[derive(Clone, Copy, Debug, PartialEq, Eq, Structural)]
pub struct DrawElementsCmd {
    pub count: u32,
    pub instance_count: u32,
    pub first_index: u32,
    pub base_vertex: i32,
    pub texture_layer: u32,
    pub uv_scale_x: Ratio,
    pub uv_scale_y: Ratio,
    pub scissor_x: u32,
    pub scissor_y: u32,
    pub scissor_w: u32,
    pub scissor_h: u32,
}

/// A triangle mesh with one texture. `V` is the vertex format, which the
/// batch carries through untouched.
pub struct Mesh<V> {
    pub indices: Vec<u32>,
    pub vertices: Vec<V>,
    pub texture_id: TextureHandle,
}

/// What the UI toolkit asks to have painted.
pub enum Primitive<V> {
    Mesh(Mesh<V>),
    /// A request to call back into the application, which the batch cannot
    /// serve.
    Callback,
}

/// A primitive and the rectangle that it is clipped to.
pub struct ClippedPrimitive<V> {
    pub clip_rect: ClipRect,
    pub primitive: Primitive<V>,
}

/// The batch of one frame.
pub struct FrameBuffers<V> {
    pub vertices: Vec<V>,
    pub elements: Vec<u32>,
    pub commands: Vec<DrawElementsCmd>,
    /// `commands.len()`, as the graphics API takes it.
    pub command_count: i32,
    /// The texture of each mesh that was left out, in paint order.
    pub unknown_textures: Vec<TextureHandle>,
}

impl<V> ClippedPrimitive<V> {
    /// Whether the primitive is drawn: it is a mesh, and its texture has a
    /// record.
    pub open spec fn is_drawn(self, records: Map<TextureHandle, TextureInfo>) -> bool {
        self.primitive matches Primitive::Mesh(mesh) && records.contains_key(mesh.texture_id)
    }
}

/// The meshes of `prims` that are drawn, each with its clip rectangle: those
/// whose texture has a record.
pub open spec fn drawn_meshes<V>(
    prims: Seq<ClippedPrimitive<V>>,
    records: Map<TextureHandle, TextureInfo>,
) -> Seq<(ClipRect, Mesh<V>)>
    decreases prims.len(),
{
    if prims.len() == 0 {
        Seq::empty()
    } else {
        let before = drawn_meshes(prims.drop_last(), records);
        match prims.last().primitive {
            Primitive::Mesh(mesh) => if records.contains_key(mesh.texture_id) {
                before.push((prims.last().clip_rect, mesh))
            } else {
                before
            },
            Primitive::Callback => before,
        }
    }
}

/// The texture of each mesh of `prims` that is not drawn, in order.
pub open spec fn unknown_textures<V>(
    prims: Seq<ClippedPrimitive<V>>,
    records: Map<TextureHandle, TextureInfo>,
) -> Seq<TextureHandle>
    decreases prims.len(),
{
    if prims.len() == 0 {
        Seq::empty()
    } else {
        let before = unknown_textures(prims.drop_last(), records);
        match prims.last().primitive {
            Primitive::Mesh(mesh) => if records.contains_key(mesh.texture_id) {
                before
            } else {
                before.push(mesh.texture_id)
            },
            Primitive::Callback => before,
        }
    }
}

/// The number of vertices of `meshes` together.
pub open spec fn vertex_count<V>(meshes: Seq<(ClipRect, Mesh<V>)>) -> nat
    decreases meshes.len(),
{
    if meshes.len() == 0 {
        0
    } else {
        vertex_count(meshes.drop_last()) + meshes.last().1.vertices@.len()
    }
}

/// The number of indices of `meshes` together.
pub open spec fn index_count<V>(meshes: Seq<(ClipRect, Mesh<V>)>) -> nat
    decreases meshes.len(),
{
    if meshes.len() == 0 {
        0
    } else {
        index_count(meshes.drop_last()) + meshes.last().1.indices@.len()
    }
}

/// The vertices of `meshes`, one mesh after the other.
pub open spec fn all_vertices<V>(meshes: Seq<(ClipRect, Mesh<V>)>) -> Seq<V>
    decreases meshes.len(),
{
    if meshes.len() == 0 {
        Seq::empty()
    } else {
        all_vertices(meshes.drop_last()) + meshes.last().1.vertices@
    }
}

/// The indices of `meshes`, one mesh after the other, each as its mesh has
/// it: the draw command's `base_vertex` does the shifting.
pub open spec fn all_indices<V>(meshes: Seq<(ClipRect, Mesh<V>)>) -> Seq<u32>
    decreases meshes.len(),
{
    if meshes.len() == 0 {
        Seq::empty()
    } else {
        all_indices(meshes.drop_last()) + meshes.last().1.indices@
    }
}

/// The draw command of a mesh with clip rectangle `clip` that is preceded
/// in the buffers by `base_vertex` vertices and `first_index` indices.
pub open spec fn command_for<V>(
    clip: ClipRect,
    mesh: Mesh<V>,
    base_vertex: nat,
    first_index: nat,
    atlas: AtlasState,
    width: u32,
    height: u32,
) -> DrawElementsCmd {
    let info = atlas.records[mesh.texture_id];
    DrawElementsCmd {
        count: mesh.indices@.len() as u32,
        instance_count: 1,
        first_index: first_index as u32,
        base_vertex: base_vertex as i32,
        texture_layer: info.layer as u32,
        uv_scale_x: atlas.uv_scale(info).0,
        uv_scale_y: atlas.uv_scale(info).1,
        scissor_x: clip.scissor(width, height).x,
        scissor_y: clip.scissor(width, height).y,
        scissor_w: clip.scissor(width, height).w,
        scissor_h: clip.scissor(width, height).h,
    }
}

/// The draw commands of `meshes`: one for each, in order, the `k`-th
/// starting where the vertices and indices of the `k` meshes before it end.
pub open spec fn commands_of<V>(
    meshes: Seq<(ClipRect, Mesh<V>)>,
    atlas: AtlasState,
    width: u32,
    height: u32,
) -> Seq<DrawElementsCmd> {
    Seq::new(
        meshes.len(),
        |k: int|
            command_for(
                meshes[k].0,
                meshes[k].1,
                vertex_count(meshes.take(k)),
                index_count(meshes.take(k)),
                atlas,
                width,
                height,
            ),
    )
}

/// Whether `meshes` can be addressed with the 32-bit fields of a draw
/// command and counted with the 32-bit draw count of the graphics API.
pub open spec fn frame_fits<V>(meshes: Seq<(ClipRect, Mesh<V>)>) -> bool {
    &&& vertex_count(meshes) <= i32::MAX
    &&& index_count(meshes) <= u32::MAX
    &&& meshes.len() <= i32::MAX
}

/// `N` drawn meshes give exactly `N` draw commands. The `k`-th has as its
/// `base_vertex` the number of vertices of the meshes before it, as its
/// `first_index` the number of their indices, and as its `count` the number
/// of its own indices.
pub proof fn lemma_command_offsets<V>(
    meshes: Seq<(ClipRect, Mesh<V>)>,
    atlas: AtlasState,
    width: u32,
    height: u32,
    k: int,
)
    requires
        frame_fits(meshes),
        0 <= k < meshes.len(),
    ensures
        commands_of(meshes, atlas, width, height).len() == meshes.len(),
        commands_of(meshes, atlas, width, height)[k].base_vertex == vertex_count(meshes.take(k)),
        commands_of(meshes, atlas, width, height)[k].first_index == index_count(meshes.take(k)),
        commands_of(meshes, atlas, width, height)[k].count == meshes[k].1.indices@.len(),
        commands_of(meshes, atlas, width, height)[k].instance_count == 1,
{
    lemma_counts_of_prefix(meshes, k);
    lemma_counts_of_prefix(meshes, k + 1);
    assert(meshes.take(k + 1).drop_last() == meshes.take(k));
}

/// The draw command of a mesh whose texture has a record carries the layer
/// of that record, and as scale factors the width of the image over the
/// width of a layer and its height over the height of a layer.
pub proof fn lemma_command_texture<V>(
    meshes: Seq<(ClipRect, Mesh<V>)>,
    atlas: AtlasState,
    width: u32,
    height: u32,
    k: int,
)
    requires
        atlas.valid(),
        0 <= k < meshes.len(),
        atlas.records.contains_key(meshes[k].1.texture_id),
    ensures
        ({
            let command = commands_of(meshes, atlas, width, height)[k];
            let info = atlas.records[meshes[k].1.texture_id];
            &&& command.texture_layer == info.layer
            &&& command.texture_layer < atlas.max_layers
            &&& command.uv_scale_x == (Ratio { num: info.width, den: atlas.max_width as usize })
            &&& command.uv_scale_x.den == atlas.max_width
            &&& command.uv_scale_y == (Ratio { num: info.height, den: atlas.max_height as usize })
            &&& command.uv_scale_y.den == atlas.max_height
        }),
{
}

/// The scissor rectangle of every draw command lies inside the framebuffer.
pub proof fn lemma_command_scissor<V>(
    meshes: Seq<(ClipRect, Mesh<V>)>,
    atlas: AtlasState,
    width: u32,
    height: u32,
    k: int,
)
    requires
        0 <= k < meshes.len(),
    ensures
        ({
            let command = commands_of(meshes, atlas, width, height)[k];
            &&& 0 <= command.scissor_x
            &&& 0 <= command.scissor_y
            &&& command.scissor_x + command.scissor_w <= width
            &&& command.scissor_y + command.scissor_h <= height
        }),
{
}

/// Where every primitive is a mesh with a known texture, all are drawn.
pub proof fn lemma_all_drawn<V>(
    prims: Seq<ClippedPrimitive<V>>,
    records: Map<TextureHandle, TextureInfo>,
)
    requires
        forall|i: int| 0 <= i < prims.len() ==> (#[trigger] prims[i]).is_drawn(records),
    ensures
        drawn_meshes(prims, records).len() == prims.len(),
        unknown_textures(prims, records).len() == 0,
        forall|i: int|
            0 <= i < prims.len() ==> (#[trigger] prims[i]).primitive == Primitive::Mesh(
                drawn_meshes(prims, records)[i].1,
            ) && drawn_meshes(prims, records)[i].0 == prims[i].clip_rect,
    decreases prims.len(),
{
    if prims.len() > 0 {
        let init = prims.drop_last();
        assert forall|i: int| 0 <= i < init.len() implies (#[trigger] init[i]).is_drawn(
            records,
        ) by {
            assert(init[i] == prims[i]);
        }
        lemma_all_drawn(init, records);
        assert(prims.last() == prims[prims.len() - 1]);
        assert forall|i: int| 0 <= i < prims.len() implies (#[trigger] prims[i]).primitive
            == Primitive::Mesh(drawn_meshes(prims, records)[i].1) && drawn_meshes(
            prims,
            records,
        )[i].0 == prims[i].clip_rect by {
            if i < init.len() {
                assert(init[i] == prims[i]);
            }
        }
    }
}

/// Of `N` primitives that are all meshes with a known texture, each gets a
/// draw command: `N` in all. The command of the `k`-th starts where the
/// vertices and the indices of the first `k` meshes end.
pub proof fn lemma_offsets_of_known_meshes<V>(
    prims: Seq<ClippedPrimitive<V>>,
    atlas: AtlasState,
    width: u32,
    height: u32,
    k: int,
)
    requires
        forall|i: int| 0 <= i < prims.len() ==> (#[trigger] prims[i]).is_drawn(atlas.records),
        frame_fits(drawn_meshes(prims, atlas.records)),
        0 <= k < prims.len(),
    ensures
        ({
            let commands = commands_of(drawn_meshes(prims, atlas.records), atlas, width, height);
            let before = drawn_meshes(prims.take(k), atlas.records);
            &&& commands.len() == prims.len()
            &&& before.len() == k
            &&& commands[k].base_vertex == vertex_count(before)
            &&& commands[k].first_index == index_count(before)
            &&& commands[k].count == drawn_meshes(prims, atlas.records)[k].1.indices@.len()
            &&& prims[k].primitive == Primitive::Mesh(drawn_meshes(prims, atlas.records)[k].1)
        }),
{
    let meshes = drawn_meshes(prims, atlas.records);
    let first = prims.take(k);
    lemma_all_drawn(prims, atlas.records);
    assert forall|i: int| 0 <= i < first.len() implies (#[trigger] first[i]).is_drawn(
        atlas.records,
    ) by {
        assert(first[i] == prims[i]);
    }
    lemma_all_drawn(first, atlas.records);
    let before = drawn_meshes(first, atlas.records);
    assert(before =~= meshes.take(k)) by {
        assert forall|i: int| 0 <= i < k implies before[i] == meshes.take(k)[i] by {
            assert(first[i] == prims[i]);
            assert(prims[i].primitive == Primitive::Mesh(meshes[i].1));
            assert(first[i].primitive == Primitive::Mesh(before[i].1));
        }
    }
    lemma_command_offsets(meshes, atlas, width, height, k);
}

/// A mesh whose texture has no record adds nothing to the batch; its
/// texture is reported. A primitive that is no mesh adds nothing at all.
pub proof fn lemma_skipped<V>(
    prims: Seq<ClippedPrimitive<V>>,
    prim: ClippedPrimitive<V>,
    records: Map<TextureHandle, TextureInfo>,
)
    requires
        !prim.is_drawn(records),
    ensures
        drawn_meshes(prims.push(prim), records) == drawn_meshes(prims, records),
        prim.primitive matches Primitive::Mesh(mesh) ==> unknown_textures(
            prims.push(prim),
            records,
        ) == unknown_textures(prims, records).push(mesh.texture_id),
        prim.primitive is Callback ==> unknown_textures(prims.push(prim), records)
            == unknown_textures(prims, records),
{
    assert(prims.push(prim).drop_last() == prims);
}

/// A mesh whose texture has a record is drawn after all that came before.
pub proof fn lemma_drawn<V>(
    prims: Seq<ClippedPrimitive<V>>,
    prim: ClippedPrimitive<V>,
    records: Map<TextureHandle, TextureInfo>,
)
    requires
        prim.is_drawn(records),
    ensures
        drawn_meshes(prims.push(prim), records) == drawn_meshes(prims, records).push(
            (prim.clip_rect, prim.primitive->Mesh_0),
        ),
        unknown_textures(prims.push(prim), records) == unknown_textures(prims, records),
{
    assert(prims.push(prim).drop_last() == prims);
}

/// The vertices and indices of a batch are as many as its meshes have, and
/// no prefix of the meshes has more than the whole.
proof fn lemma_counts_of_prefix<V>(meshes: Seq<(ClipRect, Mesh<V>)>, k: int)
    requires
        0 <= k <= meshes.len(),
    ensures
        all_vertices(meshes).len() == vertex_count(meshes),
        all_indices(meshes).len() == index_count(meshes),
        vertex_count(meshes.take(k)) <= vertex_count(meshes),
        index_count(meshes.take(k)) <= index_count(meshes),
    decreases meshes.len(),
{
    if meshes.len() == 0 {
        assert(meshes.take(k) == meshes);
    } else {
        let init = meshes.drop_last();
        if k == meshes.len() {
            assert(meshes.take(k) == meshes);
            lemma_counts_of_prefix(init, 0);
        } else {
            assert(meshes.take(k) == init.take(k));
            lemma_counts_of_prefix(init, k);
        }
    }
}

/// No prefix of the primitives has more drawn meshes, vertices or indices
/// than the whole.
proof fn lemma_drawn_of_prefix<V>(
    prims: Seq<ClippedPrimitive<V>>,
    records: Map<TextureHandle, TextureInfo>,
    i: int,
)
    requires
        0 <= i <= prims.len(),
    ensures
        drawn_meshes(prims.take(i), records).len() <= drawn_meshes(prims, records).len(),
        vertex_count(drawn_meshes(prims.take(i), records)) <= vertex_count(
            drawn_meshes(prims, records),
        ),
        index_count(drawn_meshes(prims.take(i), records)) <= index_count(
            drawn_meshes(prims, records),
        ),
    decreases prims.len(),
{
    if i == prims.len() {
        assert(prims.take(i) == prims);
    } else {
        let init = prims.drop_last();
        assert(prims.take(i) == init.take(i));
        lemma_drawn_of_prefix(init, records, i);
        let before = drawn_meshes(init, records);
        let whole = drawn_meshes(prims, records);
        if whole != before {
            assert(whole.drop_last() == before);
        }
    }
}

/// Appending a mesh to a batch appends its command to the commands.
proof fn lemma_commands_push<V>(
    meshes: Seq<(ClipRect, Mesh<V>)>,
    clip: ClipRect,
    mesh: Mesh<V>,
    atlas: AtlasState,
    width: u32,
    height: u32,
)
    ensures
        commands_of(meshes.push((clip, mesh)), atlas, width, height) == commands_of(
            meshes,
            atlas,
            width,
            height,
        ).push(
            command_for(
                clip,
                mesh,
                vertex_count(meshes),
                index_count(meshes),
                atlas,
                width,
                height,
            ),
        ),
        all_vertices(meshes.push((clip, mesh))) == all_vertices(meshes) + mesh.vertices@,
        all_indices(meshes.push((clip, mesh))) == all_indices(meshes) + mesh.indices@,
        vertex_count(meshes.push((clip, mesh))) == vertex_count(meshes) + mesh.vertices@.len(),
        index_count(meshes.push((clip, mesh))) == index_count(meshes) + mesh.indices@.len(),
{
    let longer = meshes.push((clip, mesh));
    assert(longer.drop_last() == meshes);
    assert(longer.take(meshes.len() as int) == meshes);
    assert forall|k: int| 0 <= k < meshes.len() implies longer.take(k) == meshes.take(k) by {}
    assert(commands_of(longer, atlas, width, height) =~= commands_of(
        meshes,
        atlas,
        width,
        height,
    ).push(
        command_for(clip, mesh, vertex_count(meshes), index_count(meshes), atlas, width, height),
    ));
}

/// Builds the batch of a frame from its primitives, for a framebuffer of
/// `width` by `height` pixels.
///
/// There is no batch where the drawn meshes have more vertices or indices
/// than a draw command can address, or are more than the graphics API can
/// count.
pub fn build_frame<V>(
    textures: &TexturePool,
    clip_primitives: Vec<ClippedPrimitive<V>>,
    width: u32,
    height: u32,
) -> (frame: Option<FrameBuffers<V>>)
    requires
        textures.wf(),
    ensures
        frame is Some <==> frame_fits(drawn_meshes(clip_primitives@, textures@.records)),
        frame matches Some(buffers) ==> {
            let meshes = drawn_meshes(clip_primitives@, textures@.records);
            &&& buffers.vertices@ == all_vertices(meshes)
            &&& buffers.elements@ == all_indices(meshes)
            &&& buffers.commands@ == commands_of(meshes, textures@, width, height)
            &&& buffers.command_count == meshes.len()
            &&& buffers.unknown_textures@ == unknown_textures(
                clip_primitives@,
                textures@.records,
            )
        },
{
    let ghost prims = clip_primitives@;
    let ghost atlas = textures@;
    let mut vertices: Vec<V> = Vec::new();
    let mut elements: Vec<u32> = Vec::new();
    let mut commands: Vec<DrawElementsCmd> = Vec::new();
    let mut unknown: Vec<TextureHandle> = Vec::new();
    for clip_primitive in it: clip_primitives
        invariant
            textures.wf(),
            atlas == textures@,
            it.seq() == prims,
            frame_fits(drawn_meshes(prims.take(it.index()), atlas.records)),
            vertices@ == all_vertices(drawn_meshes(prims.take(it.index()), atlas.records)),
            elements@ == all_indices(drawn_meshes(prims.take(it.index()), atlas.records)),
            commands@ == commands_of(
                drawn_meshes(prims.take(it.index()), atlas.records),
                atlas,
                width,
                height,
            ),
            unknown@ == unknown_textures(prims.take(it.index()), atlas.records),
    {
        let ghost done = prims.take(it.index());
        let ghost meshes = drawn_meshes(done, atlas.records);
        proof {
            assert(prims.take(it.index() + 1) == done.push(clip_primitive));
            lemma_counts_of_prefix(meshes, 0);
        }
        let ClippedPrimitive { clip_rect, primitive } = clip_primitive;
        match primitive {
            Primitive::Mesh(mesh) => {
                match textures.fetch(mesh.texture_id) {
                    None => {
                        proof {
                            lemma_skipped(done, clip_primitive, atlas.records);
                        }
                        unknown.push(mesh.texture_id);
                    },
                    Some(info) => {
                        proof {
                            lemma_drawn(done, clip_primitive, atlas.records);
                            lemma_commands_push(meshes, clip_rect, mesh, atlas, width, height);
                        }
                        if mesh.vertices.len() > 0x7fff_ffff - vertices.len()
                            || mesh.indices.len() > 0xffff_ffff - elements.len()
                            || commands.len() >= 0x7fff_ffff {
                            proof {
                                lemma_drawn_of_prefix(prims, atlas.records, it.index() + 1);
                                assert(prims.take(prims.len() as int) == prims);
                            }
                            return None;
                        }
                        let scissor = clip_to_scissor(clip_rect, width, height);
                        let uv_scale = textures.uv_scale(info);
                        let command = DrawElementsCmd {
                            count: mesh.indices.len() as u32,
                            instance_count: 1,
                            first_index: elements.len() as u32,
                            base_vertex: vertices.len() as i32,
                            texture_layer: info.layer as u32,
                            uv_scale_x: uv_scale.0,
                            uv_scale_y: uv_scale.1,
                            scissor_x: scissor.x,
                            scissor_y: scissor.y,
                            scissor_w: scissor.w,
                            scissor_h: scissor.h,
                        };
                        let Mesh { indices: mut mesh_indices, vertices: mut mesh_vertices, .. } =
                            mesh;
                        vertices.append(&mut mesh_vertices);
                        elements.append(&mut mesh_indices);
                        commands.push(command);
                    },
                }
            },
            Primitive::Callback => {
                proof {
                    lemma_skipped(done, clip_primitive, atlas.records);
                }
            },
        }
    }
    proof {
        assert(prims.take(prims.len() as int) == prims);
    }
    let command_count = commands.len() as i32;
    Some(
        FrameBuffers { vertices, elements, commands, command_count, unknown_textures: unknown },
    )
}

} // verus!
