//! The `Sprite` class: a region of a texture with its outline, bones and
//! render data.

use vstd::prelude::*;

use super::asset_bundle::{read_pointer, spec_read_pointer, ObjectPointer, PointerElements, StringElements};
use super::mesh::{
    read_vertex_data, spec_vertex_data, sub_mesh_layout, sub_mesh_layout_of, SubMesh,
    SubMeshElements, VertexData, VertexDataView,
};
use super::reader::{
    align, align4, deep_read, pos_ok, read_aligned_string, read_array, read_bool, read_bytes,
    read_i32, read_i64, read_ok, read_u16, read_u32, spec_read_aligned_string, spec_read_array_of,
    spec_read_bool, spec_read_bytes, spec_read_i32, spec_read_i64, spec_read_u16, spec_read_u32,
    ElementReader, ParseError, Read,
};
use super::serialized::{spec_opt, with_version, SerializedFile};
use super::texture_2d::since;
use super::unity_types::{
    read_bone_weight4, read_color_rgba_uint, read_guid, read_matrix_4x4f, read_quaternionf,
    read_rectf, read_vector_2f, read_vector_3f, read_vector_4f, spec_read_bone_weight4,
    spec_read_color_rgba_uint, spec_read_guid, spec_read_matrix_4x4f, spec_read_quaternionf,
    spec_read_rectf, spec_read_vector_2f, spec_read_vector_3f, spec_read_vector_4f, BoneWeights4,
    ColorBytes, Guid, Matrix4x4f, Quaternionf, Rectf, Vector2f, Vector3f, Vector4f,
};
use super::version::{unity, version_between, version_le, Version, VersionView};

verus! {

/// An extra texture of a sprite, such as a normal map, with its name.
#[derive(Debug, Clone)]
pub struct SecondarySpriteTexture {
    pub texture: ObjectPointer,
    pub name: String,
}

/// A vertex of a sprite's mesh (versions 4.3.0 to 5.5.6f1).
#[derive(Debug, Clone, Copy, PartialEq, Eq, Structural)]
pub struct SpriteVertex {
    pub pos: Vector3f,
    pub uv: Option<Vector2f>,
}

/// A bone of a sprite's skeleton.
#[derive(Debug, Clone)]
pub struct SpriteBone {
    pub name: String,
    pub guid: Option<String>,
    pub position: Vector3f,
    pub rotation: Quaternionf,
    /// Bit pattern of the bone's length.
    pub length: u32,
    pub parent_id: i32,
    pub color: Option<ColorBytes>,
}

/// How a sprite is drawn: its texture, mesh and placement in the texture.
#[derive(Debug, Clone)]
pub struct SpriteRenderData {
    pub texture: ObjectPointer,
    pub alpha_texture: Option<ObjectPointer>,
    pub secondary_textures: Option<Vec<SecondarySpriteTexture>>,
    pub vertices: Option<Vec<SpriteVertex>>,
    pub indices: Option<Vec<u16>>,
    pub sub_meshes: Option<Vec<SubMesh>>,
    pub index_buffer: Option<Vec<u8>>,
    pub vertex_data: Option<VertexData>,
    pub bindpose: Option<Vec<Matrix4x4f>>,
    pub source_skin: Option<Vec<BoneWeights4>>,
    pub texture_rect: Rectf,
    pub texture_rect_offset: Vector2f,
    pub atlas_rect_offset: Option<Vector2f>,
    pub settings_raw: u32,
    pub uv_transform: Option<Vector4f>,
    /// Bit pattern of the downscale multiplier.
    pub downscale_multiplier: Option<u32>,
}

/// A Unity `Sprite` object.
#[derive(Debug, Clone)]
pub struct Sprite {
    pub name: String,
    pub rect: Rectf,
    pub offset: Vector2f,
    pub border: Option<Vector4f>,
    /// Bit pattern of the pixels-per-unit float.
    pub pixels_to_units: u32,
    pub pivot: Option<Vector2f>,
    pub extrude: u32,
    pub is_polygon: Option<bool>,
    pub render_data_key: Option<(Guid, i64)>,
    pub atlas_tags: Option<Vec<String>>,
    pub sprite_atlas: Option<ObjectPointer>,
    pub rd: SpriteRenderData,
    pub physics_shape: Option<Vec<Vec<Vector2f>>>,
    pub bones: Option<Vec<SpriteBone>>,
}

/// The abstract value of a [`SecondarySpriteTexture`].
pub struct SecondarySpriteTextureView {
    pub texture: ObjectPointer,
    pub name: Seq<char>,
}

/// The abstract value of a [`SpriteBone`].
pub struct SpriteBoneView {
    pub name: Seq<char>,
    pub guid: Option<Seq<char>>,
    pub position: Vector3f,
    pub rotation: Quaternionf,
    pub length: u32,
    pub parent_id: i32,
    pub color: Option<ColorBytes>,
}

/// The abstract value of a [`SpriteRenderData`].
pub struct SpriteRenderDataView {
    pub texture: ObjectPointer,
    pub alpha_texture: Option<ObjectPointer>,
    pub secondary_textures: Option<Seq<SecondarySpriteTextureView>>,
    pub vertices: Option<Seq<SpriteVertex>>,
    pub indices: Option<Seq<u16>>,
    pub sub_meshes: Option<Seq<SubMesh>>,
    pub index_buffer: Option<Seq<u8>>,
    pub vertex_data: Option<VertexDataView>,
    pub bindpose: Option<Seq<Seq<u32>>>,
    pub source_skin: Option<Seq<BoneWeights4>>,
    pub texture_rect: Rectf,
    pub texture_rect_offset: Vector2f,
    pub atlas_rect_offset: Option<Vector2f>,
    pub settings_raw: u32,
    pub uv_transform: Option<Vector4f>,
    pub downscale_multiplier: Option<u32>,
}

/// The abstract value of a [`Sprite`].
pub struct SpriteView {
    pub name: Seq<char>,
    pub rect: Rectf,
    pub offset: Vector2f,
    pub border: Option<Vector4f>,
    pub pixels_to_units: u32,
    pub pivot: Option<Vector2f>,
    pub extrude: u32,
    pub is_polygon: Option<bool>,
    pub render_data_key: Option<(Guid, i64)>,
    pub atlas_tags: Option<Seq<Seq<char>>>,
    pub sprite_atlas: Option<ObjectPointer>,
    pub rd: SpriteRenderDataView,
    pub physics_shape: Option<Seq<Seq<Vector2f>>>,
    pub bones: Option<Seq<SpriteBoneView>>,
}

impl DeepView for SecondarySpriteTexture {
    type V = SecondarySpriteTextureView;

    open spec fn deep_view(&self) -> SecondarySpriteTextureView {
        SecondarySpriteTextureView { texture: self.texture, name: self.name@ }
    }
}

impl DeepView for SpriteVertex {
    type V = SpriteVertex;

    open spec fn deep_view(&self) -> SpriteVertex {
        *self
    }
}

impl DeepView for SpriteBone {
    type V = SpriteBoneView;

    open spec fn deep_view(&self) -> SpriteBoneView {
        SpriteBoneView {
            name: self.name@,
            guid: self.guid.deep_view(),
            position: self.position,
            rotation: self.rotation,
            length: self.length,
            parent_id: self.parent_id,
            color: self.color,
        }
    }
}

impl DeepView for SpriteRenderData {
    type V = SpriteRenderDataView;

    open spec fn deep_view(&self) -> SpriteRenderDataView {
        SpriteRenderDataView {
            texture: self.texture,
            alpha_texture: self.alpha_texture,
            secondary_textures: self.secondary_textures.deep_view(),
            vertices: self.vertices.deep_view(),
            indices: self.indices.deep_view(),
            sub_meshes: self.sub_meshes.deep_view(),
            index_buffer: self.index_buffer.deep_view(),
            vertex_data: self.vertex_data.deep_view(),
            bindpose: self.bindpose.deep_view(),
            source_skin: self.source_skin.deep_view(),
            texture_rect: self.texture_rect,
            texture_rect_offset: self.texture_rect_offset,
            atlas_rect_offset: self.atlas_rect_offset,
            settings_raw: self.settings_raw,
            uv_transform: self.uv_transform,
            downscale_multiplier: self.downscale_multiplier,
        }
    }
}

impl View for Sprite {
    type V = SpriteView;

    open spec fn view(&self) -> SpriteView {
        SpriteView {
            name: self.name@,
            rect: self.rect,
            offset: self.offset,
            border: self.border,
            pixels_to_units: self.pixels_to_units,
            pivot: self.pivot,
            extrude: self.extrude,
            is_polygon: self.is_polygon,
            render_data_key: self.render_data_key,
            atlas_tags: self.atlas_tags.deep_view(),
            sprite_atlas: self.sprite_atlas,
            rd: self.rd.deep_view(),
            physics_shape: self.physics_shape.deep_view(),
            bones: self.bones.deep_view(),
        }
    }
}

/// Reads secondary textures as array elements: a pointer, then an aligned
/// name.
pub struct SecondaryTextureElements {
    pub format_version: u32,
    pub be: bool,
}

impl ElementReader for SecondaryTextureElements {
    type Elem = SecondarySpriteTexture;

    open spec fn spec_read(&self, d: Seq<u8>, q: usize) -> Read<SecondarySpriteTextureView> {
        match spec_read_pointer(d, q, self.format_version, self.be) { Err(e) => Err(e), Ok((texture, q)) =>
        match spec_read_aligned_string(d, q, self.be) { Err(e) => Err(e), Ok((name, q)) =>
        Ok((SecondarySpriteTextureView { texture, name }, q))
        }}
    }

    fn read(&self, d: &[u8], q: usize) -> (r: Read<SecondarySpriteTexture>) {
        let (texture, q) = read_pointer(d, q, self.format_version, self.be)?;
        let (name, q) = read_aligned_string(d, q, self.be)?;
        Ok((SecondarySpriteTexture { texture, name }, q))
    }
}

/// Reads sprite vertices as array elements: a position, then a texture
/// coordinate when `uv`.
pub struct VertexElements {
    pub uv: bool,
    pub be: bool,
}

impl ElementReader for VertexElements {
    type Elem = SpriteVertex;

    open spec fn spec_read(&self, d: Seq<u8>, q: usize) -> Read<SpriteVertex> {
        match spec_read_vector_3f(d, q, self.be) { Err(e) => Err(e), Ok((pos, q)) =>
        match spec_opt(self.uv, spec_read_vector_2f(d, q, self.be), q) { Err(e) => Err(e), Ok((uv, q)) =>
        Ok((SpriteVertex { pos, uv }, q))
        }}
    }

    fn read(&self, d: &[u8], q: usize) -> (r: Read<SpriteVertex>) {
        let (pos, q) = read_vector_3f(d, q, self.be)?;
        let (uv, q) = if self.uv {
            let (x, q2) = read_vector_2f(d, q, self.be)?;
            (Some(x), q2)
        } else {
            (None, q)
        };
        Ok((SpriteVertex { pos, uv }, q))
    }
}

/// Reads 2-byte indices as array elements.
pub struct IndexElements {
    pub be: bool,
}

impl ElementReader for IndexElements {
    type Elem = u16;

    open spec fn spec_read(&self, d: Seq<u8>, q: usize) -> Read<u16> {
        spec_read_u16(d, q, self.be)
    }

    fn read(&self, d: &[u8], q: usize) -> (r: Read<u16>) {
        read_u16(d, q, self.be)
    }
}

/// Reads matrices as array elements.
pub struct MatrixElements {
    pub be: bool,
}

impl ElementReader for MatrixElements {
    type Elem = Matrix4x4f;

    open spec fn spec_read(&self, d: Seq<u8>, q: usize) -> Read<Seq<u32>> {
        spec_read_matrix_4x4f(d, q, self.be)
    }

    fn read(&self, d: &[u8], q: usize) -> (r: Read<Matrix4x4f>) {
        read_matrix_4x4f(d, q, self.be)
    }
}

/// Reads bone weights as array elements.
pub struct BoneWeightElements {
    pub be: bool,
}

impl ElementReader for BoneWeightElements {
    type Elem = BoneWeights4;

    open spec fn spec_read(&self, d: Seq<u8>, q: usize) -> Read<BoneWeights4> {
        spec_read_bone_weight4(d, q, self.be)
    }

    fn read(&self, d: &[u8], q: usize) -> (r: Read<BoneWeights4>) {
        read_bone_weight4(d, q, self.be)
    }
}

/// Reads 2D vectors as array elements.
pub struct Vector2fElements {
    pub be: bool,
}

impl ElementReader for Vector2fElements {
    type Elem = Vector2f;

    open spec fn spec_read(&self, d: Seq<u8>, q: usize) -> Read<Vector2f> {
        spec_read_vector_2f(d, q, self.be)
    }

    fn read(&self, d: &[u8], q: usize) -> (r: Read<Vector2f>) {
        read_vector_2f(d, q, self.be)
    }
}

/// Reads outlines (arrays of 2D vectors) as array elements.
pub struct OutlineElements {
    pub be: bool,
}

impl ElementReader for OutlineElements {
    type Elem = Vec<Vector2f>;

    open spec fn spec_read(&self, d: Seq<u8>, q: usize) -> Read<Seq<Vector2f>> {
        spec_read_array_of(d, q, self.be, Vector2fElements { be: self.be })
    }

    fn read(&self, d: &[u8], q: usize) -> (r: Read<Vec<Vector2f>>) {
        read_array(d, q, self.be, &Vector2fElements { be: self.be })
    }
}

/// Reads bones as array elements: an aligned name, an aligned GUID (up to
/// 2021.1.0b1), position, rotation, length, parent, and a byte color
/// (from 2021.1.0b1).
pub struct BoneElements {
    pub guid: bool,
    pub color: bool,
    pub be: bool,
}

impl ElementReader for BoneElements {
    type Elem = SpriteBone;

    open spec fn spec_read(&self, d: Seq<u8>, q: usize) -> Read<SpriteBoneView> {
        match spec_read_aligned_string(d, q, self.be) { Err(e) => Err(e), Ok((name, q)) =>
        match spec_opt(self.guid, spec_read_aligned_string(d, q, self.be), q) { Err(e) => Err(e), Ok((guid, q)) =>
        match spec_read_vector_3f(d, q, self.be) { Err(e) => Err(e), Ok((position, q)) =>
        match spec_read_quaternionf(d, q, self.be) { Err(e) => Err(e), Ok((rotation, q)) =>
        match spec_read_u32(d, q, self.be) { Err(e) => Err(e), Ok((length, q)) =>
        match spec_read_i32(d, q, self.be) { Err(e) => Err(e), Ok((parent_id, q)) =>
        match spec_opt(self.color, spec_read_color_rgba_uint(d, q), q) { Err(e) => Err(e), Ok((color, q)) =>
        Ok((SpriteBoneView { name, guid, position, rotation, length, parent_id, color }, q))
        }}}}}}}
    }

    fn read(&self, d: &[u8], q: usize) -> (r: Read<SpriteBone>) {
        let (name, q) = read_aligned_string(d, q, self.be)?;
        let (guid, q) = if self.guid {
            let (x, q2) = read_aligned_string(d, q, self.be)?;
            (Some(x), q2)
        } else {
            (None, q)
        };
        let (position, q) = read_vector_3f(d, q, self.be)?;
        let (rotation, q) = read_quaternionf(d, q, self.be)?;
        let (length, q) = read_u32(d, q, self.be)?;
        let (parent_id, q) = read_i32(d, q, self.be)?;
        let (color, q) = if self.color {
            let (x, q2) = read_color_rgba_uint(d, q)?;
            (Some(x), q2)
        } else {
            (None, q)
        };
        Ok((SpriteBone { name, guid, position, rotation, length, parent_id, color }, q))
    }
}

/// The texture part of a sprite's render data, read at `p`: texture,
/// alpha texture, secondary textures, vertices, then indices and
/// padding.
pub open spec fn spec_render_textures(d: Seq<u8>, p: usize, v: VersionView, fv: u32, be: bool)
    -> Read<(ObjectPointer, Option<ObjectPointer>, Option<Seq<SecondarySpriteTextureView>>, Option<Seq<SpriteVertex>>, Option<Seq<u16>>)>
{
    let legacy = version_between(v, unity(4, 3, 0, ""), unity(5, 5, 6, "f1"));
    match (if since(v, unity(4, 3, 0, "")) { spec_read_pointer(d, p, fv, be) } else { Ok((ObjectPointer { file_id: 0, path_id: 0 }, p)) }) { Err(e) => Err(e), Ok((texture, p)) =>
    match spec_opt(since(v, unity(5, 2, 0, "f2")), spec_read_pointer(d, p, fv, be), p) { Err(e) => Err(e), Ok((alpha, p)) =>
    match spec_opt(since(v, unity(2019, 1, 0, "b1")), spec_read_array_of(d, p, be, SecondaryTextureElements { format_version: fv, be }), p) { Err(e) => Err(e), Ok((secondary, p)) =>
    match spec_opt(legacy, spec_read_array_of(d, p, be, VertexElements { uv: legacy, be }), p) { Err(e) => Err(e), Ok((vertices, p)) =>
    match (if legacy {
        match spec_read_array_of(d, p, be, IndexElements { be }) { Ok((x, q)) => Ok((Some(x), align4(q))), Err(e) => Err(e) }
    } else {
        Ok((None, p))
    }) { Err(e) => Err(e), Ok((indices, p)) =>
    Ok(((texture, alpha, secondary, vertices, indices), p))
    }}}}}
}

/// The mesh part of a sprite's render data, read at `p`: sub-meshes,
/// index buffer and padding, vertex data, bind poses and source skin.
pub open spec fn spec_render_mesh(d: Seq<u8>, p: usize, v: VersionView, be: bool)
    -> Read<(Option<Seq<SubMesh>>, Option<Seq<u8>>, Option<VertexDataView>, Option<Seq<Seq<u32>>>, Option<Seq<BoneWeights4>>)>
{
    let meshes = since(v, unity(5, 6, 0, "b1"));
    match spec_opt(meshes, spec_read_array_of(d, p, be, SubMeshElements { layout: sub_mesh_layout(v), be }), p) { Err(e) => Err(e), Ok((sub_meshes, p)) =>
    match (if meshes {
        match spec_read_bytes(d, p, be) { Ok((x, q)) => Ok((Some(x), align4(q))), Err(e) => Err(e) }
    } else {
        Ok((None, p))
    }) { Err(e) => Err(e), Ok((index_buffer, p)) =>
    match spec_opt(meshes, spec_vertex_data(d, p, v, be), p) { Err(e) => Err(e), Ok((vertex_data, p)) =>
    match spec_opt(since(v, unity(2018, 1, 0, "b2")), spec_read_array_of(d, p, be, MatrixElements { be }), p) { Err(e) => Err(e), Ok((bindpose, p)) =>
    match spec_opt(version_between(v, unity(2018, 1, 0, "b2"), unity(2018, 1, 9, "f2")), spec_read_array_of(d, p, be, BoneWeightElements { be }), p) { Err(e) => Err(e), Ok((skin, p)) =>
    Ok(((sub_meshes, index_buffer, vertex_data, bindpose, skin), p))
    }}}}}
}

/// The placement part of a sprite's render data, read at `p`: texture
/// rectangle and offset, atlas offset, settings, UV transform and
/// downscale multiplier.
pub open spec fn spec_render_rect(d: Seq<u8>, p: usize, v: VersionView, be: bool)
    -> Read<(Rectf, Vector2f, Option<Vector2f>, u32, Option<Vector4f>, Option<u32>)>
{
    match spec_read_rectf(d, p, be) { Err(e) => Err(e), Ok((rect, p)) =>
    match spec_read_vector_2f(d, p, be) { Err(e) => Err(e), Ok((offset, p)) =>
    match spec_opt(since(v, unity(5, 4, 6, "f1")), spec_read_vector_2f(d, p, be), p) { Err(e) => Err(e), Ok((atlas, p)) =>
    match spec_read_u32(d, p, be) { Err(e) => Err(e), Ok((settings, p)) =>
    match spec_opt(since(v, unity(4, 5, 0, "")), spec_read_vector_4f(d, p, be), p) { Err(e) => Err(e), Ok((uv, p)) =>
    match spec_opt(since(v, unity(2017, 1, 0, "b1")), spec_read_u32(d, p, be), p) { Err(e) => Err(e), Ok((downscale, p)) =>
    Ok(((rect, offset, atlas, settings, uv, downscale), p))
    }}}}}}
}

/// A sprite's render data as version `v` lays it out, read at `p`.
pub open spec fn spec_sprite_render_data(d: Seq<u8>, p: usize, v: VersionView, fv: u32, be: bool) -> Read<SpriteRenderDataView> {
    match spec_render_textures(d, p, v, fv, be) { Err(e) => Err(e), Ok((t, p)) =>
    match spec_render_mesh(d, p, v, be) { Err(e) => Err(e), Ok((m, p)) =>
    match spec_render_rect(d, p, v, be) { Err(e) => Err(e), Ok((r, p)) =>
    Ok((SpriteRenderDataView {
        texture: t.0,
        alpha_texture: t.1,
        secondary_textures: t.2,
        vertices: t.3,
        indices: t.4,
        sub_meshes: m.0,
        index_buffer: m.1,
        vertex_data: m.2,
        bindpose: m.3,
        source_skin: m.4,
        texture_rect: r.0,
        texture_rect_offset: r.1,
        atlas_rect_offset: r.2,
        settings_raw: r.3,
        uv_transform: r.4,
        downscale_multiplier: r.5,
    }, p))
    }}}
}

/// The first fields of a sprite, read at `p`: name (aligned), rectangle,
/// offset, border, pixels per unit, pivot, extrude, polygon flag and
/// padding, and render data key.
pub open spec fn spec_sprite_head(d: Seq<u8>, p: usize, v: VersionView, be: bool)
    -> Read<(Seq<char>, Rectf, Vector2f, Option<Vector4f>, u32, Option<Vector2f>, u32, Option<bool>, Option<(Guid, i64)>)>
{
    match spec_read_aligned_string(d, p, be) { Err(e) => Err(e), Ok((name, p)) =>
    match spec_read_rectf(d, p, be) { Err(e) => Err(e), Ok((rect, p)) =>
    match spec_read_vector_2f(d, p, be) { Err(e) => Err(e), Ok((offset, p)) =>
    match spec_opt(since(v, unity(4, 5, 0, "")), spec_read_vector_4f(d, p, be), p) { Err(e) => Err(e), Ok((border, p)) =>
    match spec_read_u32(d, p, be) { Err(e) => Err(e), Ok((ppu, p)) =>
    match spec_opt(since(v, unity(5, 4, 2, "f2")), spec_read_vector_2f(d, p, be), p) { Err(e) => Err(e), Ok((pivot, p)) =>
    match spec_read_u32(d, p, be) { Err(e) => Err(e), Ok((extrude, p)) =>
    match (if since(v, unity(5, 3, 0, "f1")) {
        match spec_read_bool(d, p) { Ok((x, q)) => Ok((Some(x), align4(q))), Err(e) => Err(e) }
    } else {
        Ok((None, p))
    }) { Err(e) => Err(e), Ok((polygon, p)) =>
    match spec_opt(since(v, unity(2017, 1, 0, "b1")), match spec_read_guid(d, p, be) { Err(e) => Err(e), Ok((g, q)) =>
        match spec_read_i64(d, q, be) { Err(e) => Err(e), Ok((k, q)) => Ok(((g, k), q)) }}, p) { Err(e) => Err(e), Ok((key, p)) =>
    Ok(((name, rect, offset, border, ppu, pivot, extrude, polygon, key), p))
    }}}}}}}}}
}

/// The atlas fields of a sprite, read at `p`: atlas tags and the atlas.
pub open spec fn spec_sprite_atlas(d: Seq<u8>, p: usize, v: VersionView, fv: u32, be: bool)
    -> Read<(Option<Seq<Seq<char>>>, Option<ObjectPointer>)>
{
    let atlas = since(v, unity(2017, 1, 0, "b1"));
    match spec_opt(atlas, spec_read_array_of(d, p, be, StringElements { be }), p) { Err(e) => Err(e), Ok((tags, p)) =>
    match spec_opt(atlas, spec_read_pointer(d, p, fv, be), p) { Err(e) => Err(e), Ok((ptr, p)) =>
    Ok(((tags, ptr), p))
    }}
}

/// The last fields of a sprite, read at `p`: physics outlines and bones.
pub open spec fn spec_sprite_tail(d: Seq<u8>, p: usize, v: VersionView, be: bool)
    -> Read<(Option<Seq<Seq<Vector2f>>>, Option<Seq<SpriteBoneView>>)>
{
    let atlas = since(v, unity(2017, 1, 0, "b1"));
    let bones = BoneElements {
        guid: version_le(v, unity(2021, 1, 0, "b1")),
        color: since(v, unity(2021, 1, 0, "b1")),
        be,
    };
    match spec_opt(atlas, spec_read_array_of(d, p, be, OutlineElements { be }), p) { Err(e) => Err(e), Ok((shape, p)) =>
    match spec_opt(atlas, spec_read_array_of(d, p, be, bones), p) { Err(e) => Err(e), Ok((b, p)) =>
    Ok(((shape, b), p))
    }}
}

/// A sprite object as version `v` lays it out, read from the start of `d`
/// in a file of format version `fv`.
pub open spec fn spec_sprite(d: Seq<u8>, v: VersionView, fv: u32, be: bool) -> Read<SpriteView> {
    match spec_sprite_head(d, 0, v, be) { Err(e) => Err(e), Ok((h, p)) =>
    match spec_sprite_atlas(d, p, v, fv, be) { Err(e) => Err(e), Ok((a, p)) =>
    match spec_sprite_render_data(d, p, v, fv, be) { Err(e) => Err(e), Ok((rd, p)) =>
    match spec_sprite_tail(d, p, v, be) { Err(e) => Err(e), Ok((t, p)) =>
    Ok((SpriteView {
        name: h.0,
        rect: h.1,
        offset: h.2,
        border: h.3,
        pixels_to_units: h.4,
        pivot: h.5,
        extrude: h.6,
        is_polygon: h.7,
        render_data_key: h.8,
        atlas_tags: a.0,
        sprite_atlas: a.1,
        rd,
        physics_shape: t.0,
        bones: t.1,
    }, p))
    }}}}
}

/// Whether `lo <= v <= 2022.3.2f1`.
fn since_exec(v: &Version, lo: Version) -> (r: bool)
    ensures
        r == since(v@, lo@),
{
    v.between(&lo, &Version::new(2022, 3, 2, "f1"))
}

/// Reads the texture part of a sprite's render data.
fn read_render_textures(d: &[u8], p: usize, v: &Version, fv: u32, be: bool)
    -> (r: Read<(ObjectPointer, Option<ObjectPointer>, Option<Vec<SecondarySpriteTexture>>, Option<Vec<SpriteVertex>>, Option<Vec<u16>>)>)
    requires
        pos_ok(d@, p),
    ensures
        deep_read(r) == spec_render_textures(d@, p, v@, fv, be),
        read_ok(d@, r),
{
    let legacy = v.between(&Version::new(4, 3, 0, ""), &Version::new(5, 5, 6, "f1"));
    let (texture, p) = if since_exec(v, Version::new(4, 3, 0, "")) {
        read_pointer(d, p, fv, be)?
    } else {
        (ObjectPointer { file_id: 0, path_id: 0 }, p)
    };
    let (alpha_texture, p) = if since_exec(v, Version::new(5, 2, 0, "f2")) {
        let (x, q) = read_pointer(d, p, fv, be)?;
        (Some(x), q)
    } else {
        (None, p)
    };
    let (secondary_textures, p) = if since_exec(v, Version::new(2019, 1, 0, "b1")) {
        let (x, q) = read_array(d, p, be, &SecondaryTextureElements { format_version: fv, be })?;
        (Some(x), q)
    } else {
        (None, p)
    };
    let (vertices, p) = if legacy {
        let (x, q) = read_array(d, p, be, &VertexElements { uv: legacy, be })?;
        (Some(x), q)
    } else {
        (None, p)
    };
    let (indices, p) = if legacy {
        let (x, q) = read_array(d, p, be, &IndexElements { be })?;
        (Some(x), align(d, q))
    } else {
        (None, p)
    };
    Ok(((texture, alpha_texture, secondary_textures, vertices, indices), p))
}

/// Reads the mesh part of a sprite's render data.
#[verifier::rlimit(30)]
fn read_render_mesh(d: &[u8], p: usize, v: &Version, be: bool)
    -> (r: Read<(Option<Vec<SubMesh>>, Option<Vec<u8>>, Option<VertexData>, Option<Vec<Matrix4x4f>>, Option<Vec<BoneWeights4>>)>)
    requires
        pos_ok(d@, p),
    ensures
        deep_read(r) == spec_render_mesh(d@, p, v@, be),
        read_ok(d@, r),
{
    let meshes = since_exec(v, Version::new(5, 6, 0, "b1"));
    let (sub_meshes, p) = if meshes {
        let (x, q) = read_array(d, p, be, &SubMeshElements { layout: sub_mesh_layout_of(v), be })?;
        (Some(x), q)
    } else {
        (None, p)
    };
    let (index_buffer, p) = if meshes {
        let (x, q) = read_bytes(d, p, be)?;
        assert(x.deep_view() =~= x@);
        (Some(x), align(d, q))
    } else {
        (None, p)
    };
    let (vertex_data, p) = if meshes {
        let (x, q) = read_vertex_data(d, p, v, be)?;
        (Some(x), q)
    } else {
        (None, p)
    };
    let (bindpose, p) = if since_exec(v, Version::new(2018, 1, 0, "b2")) {
        let (x, q) = read_array(d, p, be, &MatrixElements { be })?;
        (Some(x), q)
    } else {
        (None, p)
    };
    let (source_skin, p) = if v.between(&Version::new(2018, 1, 0, "b2"), &Version::new(2018, 1, 9, "f2")) {
        let (x, q) = read_array(d, p, be, &BoneWeightElements { be })?;
        (Some(x), q)
    } else {
        (None, p)
    };
    Ok(((sub_meshes, index_buffer, vertex_data, bindpose, source_skin), p))
}

/// Reads the placement part of a sprite's render data.
fn read_render_rect(d: &[u8], p: usize, v: &Version, be: bool)
    -> (r: Read<(Rectf, Vector2f, Option<Vector2f>, u32, Option<Vector4f>, Option<u32>)>)
    requires
        pos_ok(d@, p),
    ensures
        r == spec_render_rect(d@, p, v@, be),
        read_ok(d@, r),
{
    let (texture_rect, p) = read_rectf(d, p, be)?;
    let (texture_rect_offset, p) = read_vector_2f(d, p, be)?;
    let (atlas_rect_offset, p) = if since_exec(v, Version::new(5, 4, 6, "f1")) {
        let (x, q) = read_vector_2f(d, p, be)?;
        (Some(x), q)
    } else {
        (None, p)
    };
    let (settings_raw, p) = read_u32(d, p, be)?;
    let (uv_transform, p) = if since_exec(v, Version::new(4, 5, 0, "")) {
        let (x, q) = read_vector_4f(d, p, be)?;
        (Some(x), q)
    } else {
        (None, p)
    };
    let (downscale_multiplier, p) = if since_exec(v, Version::new(2017, 1, 0, "b1")) {
        let (x, q) = read_u32(d, p, be)?;
        (Some(x), q)
    } else {
        (None, p)
    };
    Ok(((texture_rect, texture_rect_offset, atlas_rect_offset, settings_raw, uv_transform,
        downscale_multiplier), p))
}

/// Reads a sprite's render data at `p`, laid out by version `v`.
pub fn read_sprite_render_data(d: &[u8], p: usize, v: &Version, fv: u32, be: bool) -> (r: Read<SpriteRenderData>)
    requires
        pos_ok(d@, p),
    ensures
        deep_read(r) == spec_sprite_render_data(d@, p, v@, fv, be),
        read_ok(d@, r),
{
    let (t, p) = read_render_textures(d, p, v, fv, be)?;
    let (m, p) = read_render_mesh(d, p, v, be)?;
    let (r, p) = read_render_rect(d, p, v, be)?;
    let (texture, alpha_texture, secondary_textures, vertices, indices) = t;
    let (sub_meshes, index_buffer, vertex_data, bindpose, source_skin) = m;
    let (texture_rect, texture_rect_offset, atlas_rect_offset, settings_raw, uv_transform,
        downscale_multiplier) = r;
    Ok((SpriteRenderData {
        texture,
        alpha_texture,
        secondary_textures,
        vertices,
        indices,
        sub_meshes,
        index_buffer,
        vertex_data,
        bindpose,
        source_skin,
        texture_rect,
        texture_rect_offset,
        atlas_rect_offset,
        settings_raw,
        uv_transform,
        downscale_multiplier,
    }, p))
}

/// Reads the first fields of a sprite.
fn read_sprite_head(d: &[u8], p: usize, v: &Version, be: bool)
    -> (r: Read<(String, Rectf, Vector2f, Option<Vector4f>, u32, Option<Vector2f>, u32, Option<bool>, Option<(Guid, i64)>)>)
    requires
        pos_ok(d@, p),
    ensures
        deep_read(r) == spec_sprite_head(d@, p, v@, be),
        read_ok(d@, r),
{
    let (name, p) = read_aligned_string(d, p, be)?;
    let (rect, p) = read_rectf(d, p, be)?;
    let (offset, p) = read_vector_2f(d, p, be)?;
    let (border, p) = if since_exec(v, Version::new(4, 5, 0, "")) {
        let (x, q) = read_vector_4f(d, p, be)?;
        (Some(x), q)
    } else {
        (None, p)
    };
    let (pixels_to_units, p) = read_u32(d, p, be)?;
    let (pivot, p) = if since_exec(v, Version::new(5, 4, 2, "f2")) {
        let (x, q) = read_vector_2f(d, p, be)?;
        (Some(x), q)
    } else {
        (None, p)
    };
    let (extrude, p) = read_u32(d, p, be)?;
    let (is_polygon, p) = if since_exec(v, Version::new(5, 3, 0, "f1")) {
        let (x, q) = read_bool(d, p)?;
        (Some(x), align(d, q))
    } else {
        (None, p)
    };
    let (render_data_key, p) = if since_exec(v, Version::new(2017, 1, 0, "b1")) {
        let (g, q) = read_guid(d, p, be)?;
        let (k, q) = read_i64(d, q, be)?;
        (Some((g, k)), q)
    } else {
        (None, p)
    };
    Ok(((name, rect, offset, border, pixels_to_units, pivot, extrude, is_polygon, render_data_key), p))
}

/// Reads the atlas fields of a sprite.
fn read_sprite_atlas(d: &[u8], p: usize, v: &Version, fv: u32, be: bool)
    -> (r: Read<(Option<Vec<String>>, Option<ObjectPointer>)>)
    requires
        pos_ok(d@, p),
    ensures
        deep_read(r) == spec_sprite_atlas(d@, p, v@, fv, be),
        read_ok(d@, r),
{
    let atlas = since_exec(v, Version::new(2017, 1, 0, "b1"));
    let (atlas_tags, p) = if atlas {
        let (x, q) = read_array(d, p, be, &StringElements { be })?;
        (Some(x), q)
    } else {
        (None, p)
    };
    let (sprite_atlas, p) = if atlas {
        let (x, q) = read_pointer(d, p, fv, be)?;
        (Some(x), q)
    } else {
        (None, p)
    };
    Ok(((atlas_tags, sprite_atlas), p))
}

/// Reads the last fields of a sprite.
fn read_sprite_tail(d: &[u8], p: usize, v: &Version, be: bool)
    -> (r: Read<(Option<Vec<Vec<Vector2f>>>, Option<Vec<SpriteBone>>)>)
    requires
        pos_ok(d@, p),
    ensures
        deep_read(r) == spec_sprite_tail(d@, p, v@, be),
        read_ok(d@, r),
{
    let atlas = since_exec(v, Version::new(2017, 1, 0, "b1"));
    let bones = BoneElements {
        guid: v.le(&Version::new(2021, 1, 0, "b1")),
        color: since_exec(v, Version::new(2021, 1, 0, "b1")),
        be,
    };
    let (physics_shape, p) = if atlas {
        let (x, q) = read_array(d, p, be, &OutlineElements { be })?;
        (Some(x), q)
    } else {
        (None, p)
    };
    let (b, p) = if atlas {
        let (x, q) = read_array(d, p, be, &bones)?;
        (Some(x), q)
    } else {
        (None, p)
    };
    Ok(((physics_shape, b), p))
}

/// Reads a sprite object from the start of `d`, laid out by version `v`.
pub fn read_sprite(d: &[u8], v: &Version, fv: u32, be: bool) -> (r: Result<Sprite, ParseError>)
    requires
        d@.len() <= isize::MAX,
    ensures
        (match r {
            Ok(s) => spec_sprite(d@, v@, fv, be) matches Ok((sv, _)) && sv == s@,
            Err(e) => spec_sprite(d@, v@, fv, be) == Err::<(SpriteView, usize), ParseError>(e),
        }),
{
    let (h, p) = read_sprite_head(d, 0, v, be)?;
    let (a, p) = read_sprite_atlas(d, p, v, fv, be)?;
    let (rd, p) = read_sprite_render_data(d, p, v, fv, be)?;
    let (t, _p) = read_sprite_tail(d, p, v, be)?;
    let (name, rect, offset, border, pixels_to_units, pivot, extrude, is_polygon, render_data_key) = h;
    let (atlas_tags, sprite_atlas) = a;
    let (physics_shape, bones) = t;
    Ok(Sprite {
        name,
        rect,
        offset,
        border,
        pixels_to_units,
        pivot,
        extrude,
        is_polygon,
        render_data_key,
        atlas_tags,
        sprite_atlas,
        rd,
        physics_shape,
        bones,
    })
}

/// Reads a `Sprite` object from its data, with the Unity version, format
/// version and byte order of the serialized file that holds it.
pub fn construct_sprite(data: &[u8], serialized_file: &SerializedFile) -> (r: Result<Sprite, ParseError>)
    requires
        data@.len() <= isize::MAX,
    ensures
        (match r {
            Ok(s) => with_version(serialized_file.unity_version@, |v: VersionView| spec_sprite(data@, v, serialized_file.format_version, serialized_file.big_endian)) matches Ok((sv, _)) && sv == s@,
            Err(e) => with_version(serialized_file.unity_version@, |v: VersionView| spec_sprite(data@, v, serialized_file.format_version, serialized_file.big_endian)) == Err::<(SpriteView, usize), ParseError>(e),
        }),
{
    let v = serialized_file.version()?;
    read_sprite(data, &v, serialized_file.format_version, serialized_file.big_endian)
}

/// Reads a sprite's render data at `pos`, with the Unity version, format
/// version and byte order of the serialized file.
pub fn construct_sprite_render_data(data: &[u8], pos: usize, serialized_file: &SerializedFile) -> (r: Read<SpriteRenderData>)
    requires
        pos_ok(data@, pos),
    ensures
        deep_read(r) == with_version(serialized_file.unity_version@, |v: VersionView| spec_sprite_render_data(data@, pos, v, serialized_file.format_version, serialized_file.big_endian)),
        read_ok(data@, r),
{
    let v = serialized_file.version()?;
    read_sprite_render_data(data, pos, &v, serialized_file.format_version, serialized_file.big_endian)
}

} // verus!
