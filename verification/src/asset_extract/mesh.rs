//! Mesh pieces of Unity's serialized classes: sub-meshes, vertex data and
//! its channels and streams.

use vstd::prelude::*;

use super::reader::{
    align, align4, deep_read, pos_ok, read_array, read_bytes, read_i32, read_ok, read_u16,
    read_u32, read_u8, spec_read_array_of, spec_read_bytes, spec_read_i32, spec_read_u16,
    spec_read_u32, spec_read_u8, ElementReader, ParseError, Read,
};
use super::serialized::{spec_opt, with_version, SerializedFile};
use super::texture_2d::since;
use super::unity_types::{read_aabb, spec_read_aabb, Aabb, Vector3f};
use super::version::{unity, version_between, version_le, Version, VersionView};

verus! {

/// A range of a mesh's index buffer drawn as one part.
#[derive(Debug, Clone, Copy, PartialEq, Eq, Structural)]
pub struct SubMesh {
    pub first_byte: u32,
    pub index_count: u32,
    pub is_tri_strip: Option<u32>,
    pub topology: Option<i32>,
    pub triangle_count: Option<u32>,
    pub base_vertex: Option<u32>,
    pub first_vertex: u32,
    pub vertex_count: u32,
    pub local_aabb: Aabb,
}

/// How one vertex attribute is laid out in the vertex streams.
#[derive(Debug, Clone, Copy, PartialEq, Eq, Structural)]
pub struct ChannelInfo {
    pub stream: u8,
    pub offset: u8,
    pub format: u8,
    pub dimension: u8,
}

/// One vertex stream of a mesh.
#[derive(Debug, Clone, Copy, PartialEq, Eq, Structural)]
pub struct StreamInfo {
    pub channel_mask: u32,
    pub offset: u32,
    pub stride: u32,
    pub align: Option<u32>,
    pub divider_op: Option<u8>,
    pub frequency: Option<u16>,
}

/// The vertices of a mesh: layout and raw bytes.
#[derive(Debug, Clone)]
pub struct VertexData {
    pub current_channels: Option<i64>,
    pub vertex_count: u32,
    pub channels: Option<Vec<ChannelInfo>>,
    pub streams_0: Option<StreamInfo>,
    pub streams_1: Option<StreamInfo>,
    pub streams_2: Option<StreamInfo>,
    pub streams_3: Option<StreamInfo>,
    pub streams: Option<Vec<StreamInfo>>,
    pub data_size: Vec<u8>,
}

/// The abstract value of a [`VertexData`].
pub struct VertexDataView {
    pub current_channels: Option<i64>,
    pub vertex_count: u32,
    pub channels: Option<Seq<ChannelInfo>>,
    pub streams_0: Option<StreamInfo>,
    pub streams_1: Option<StreamInfo>,
    pub streams_2: Option<StreamInfo>,
    pub streams_3: Option<StreamInfo>,
    pub streams: Option<Seq<StreamInfo>>,
    pub data_size: Seq<u8>,
}

impl DeepView for SubMesh {
    type V = SubMesh;

    open spec fn deep_view(&self) -> SubMesh {
        *self
    }
}

impl DeepView for ChannelInfo {
    type V = ChannelInfo;

    open spec fn deep_view(&self) -> ChannelInfo {
        *self
    }
}

impl DeepView for StreamInfo {
    type V = StreamInfo;

    open spec fn deep_view(&self) -> StreamInfo {
        *self
    }
}

impl DeepView for VertexData {
    type V = VertexDataView;

    open spec fn deep_view(&self) -> VertexDataView {
        VertexDataView {
            current_channels: self.current_channels,
            vertex_count: self.vertex_count,
            channels: self.channels.deep_view(),
            streams_0: self.streams_0,
            streams_1: self.streams_1,
            streams_2: self.streams_2,
            streams_3: self.streams_3,
            streams: self.streams.deep_view(),
            data_size: self.data_size@,
        }
    }
}

/// The all-zero bounding box of versions before 3.0.0.
pub open spec fn zero_aabb() -> Aabb {
    Aabb { center: Vector3f { x: 0, y: 0, z: 0 }, extent: Vector3f { x: 0, y: 0, z: 0 } }
}

/// Which optional fields of a sub-mesh a Unity version has.
#[derive(Debug, Clone, Copy, PartialEq, Eq, Structural)]
pub struct SubMeshLayout {
    /// Tri-strip flag and triangle count (3.4.0 to 3.5.7).
    pub tri_strip: bool,
    /// Topology (from 4.0.0).
    pub topology: bool,
    /// Base vertex (from 2017.3.0b1).
    pub base_vertex: bool,
    /// First vertex, vertex count and bounding box (from 3.0.0).
    pub vertices: bool,
}

/// The sub-mesh fields of version `v`.
pub open spec fn sub_mesh_layout(v: VersionView) -> SubMeshLayout {
    SubMeshLayout {
        tri_strip: version_between(v, unity(3, 4, 0, ""), unity(3, 5, 7, "")),
        topology: since(v, unity(4, 0, 0, "")),
        base_vertex: since(v, unity(2017, 3, 0, "b1")),
        vertices: version_le(unity(3, 0, 0, ""), v),
    }
}

/// Whether version `v` writes vertex streams in the layout before 4.0.0.
pub open spec fn old_streams(v: VersionView) -> bool {
    !version_le(unity(4, 0, 0, ""), v)
}

/// A sub-mesh read at `p` with the fields of `l`: first byte, index count,
/// tri-strip flag, topology, triangle count, base vertex, first vertex,
/// vertex count and bounding box.
pub open spec fn spec_sub_mesh_with(d: Seq<u8>, p: usize, l: SubMeshLayout, be: bool) -> Read<SubMesh> {
    match spec_read_u32(d, p, be) { Err(e) => Err(e), Ok((first_byte, p)) =>
    match spec_read_u32(d, p, be) { Err(e) => Err(e), Ok((index_count, p)) =>
    match spec_opt(l.tri_strip, spec_read_u32(d, p, be), p) { Err(e) => Err(e), Ok((is_tri_strip, p)) =>
    match spec_opt(l.topology, spec_read_i32(d, p, be), p) { Err(e) => Err(e), Ok((topology, p)) =>
    match spec_opt(l.tri_strip, spec_read_u32(d, p, be), p) { Err(e) => Err(e), Ok((triangle_count, p)) =>
    match spec_opt(l.base_vertex, spec_read_u32(d, p, be), p) { Err(e) => Err(e), Ok((base_vertex, p)) =>
    match (if l.vertices { spec_read_u32(d, p, be) } else { Ok((0u32, p)) }) { Err(e) => Err(e), Ok((first_vertex, p)) =>
    match (if l.vertices { spec_read_u32(d, p, be) } else { Ok((0u32, p)) }) { Err(e) => Err(e), Ok((vertex_count, p)) =>
    match (if l.vertices { spec_read_aabb(d, p, be) } else { Ok((zero_aabb(), p)) }) { Err(e) => Err(e), Ok((local_aabb, p)) =>
    Ok((SubMesh {
        first_byte, index_count, is_tri_strip, topology, triangle_count, base_vertex,
        first_vertex, vertex_count, local_aabb,
    }, p))
    }}}}}}}}}
}

/// A sub-mesh as version `v` lays it out, read at `p`.
pub open spec fn spec_sub_mesh(d: Seq<u8>, p: usize, v: VersionView, be: bool) -> Read<SubMesh> {
    spec_sub_mesh_with(d, p, sub_mesh_layout(v), be)
}

/// A vertex stream read at `p`: channel mask, offset, then a 4-byte
/// stride and alignment in the `old` layout, or a 1-byte stride, divider
/// and 2-byte frequency in the newer one.
pub open spec fn spec_stream_info_with(d: Seq<u8>, p: usize, old: bool, be: bool) -> Read<StreamInfo> {
    match spec_read_u32(d, p, be) { Err(e) => Err(e), Ok((channel_mask, p)) =>
    match spec_read_u32(d, p, be) { Err(e) => Err(e), Ok((offset, p)) =>
    match (if old {
        spec_read_u32(d, p, be)
    } else {
        match spec_read_u8(d, p) { Ok((x, q)) => Ok((x as u32, q)), Err(e) => Err(e) }
    }) { Err(e) => Err(e), Ok((stride, p)) =>
    match spec_opt(old, spec_read_u32(d, p, be), p) { Err(e) => Err(e), Ok((align, p)) =>
    match spec_opt(!old, spec_read_u8(d, p), p) { Err(e) => Err(e), Ok((divider_op, p)) =>
    match spec_opt(!old, spec_read_u16(d, p, be), p) { Err(e) => Err(e), Ok((frequency, p)) =>
    Ok((StreamInfo { channel_mask, offset, stride, align, divider_op, frequency }, p))
    }}}}}}
}

/// A vertex stream as version `v` lays it out, read at `p`.
pub open spec fn spec_stream_info(d: Seq<u8>, p: usize, v: VersionView, be: bool) -> Read<StreamInfo> {
    spec_stream_info_with(d, p, old_streams(v), be)
}

/// Reads channel descriptions as array elements: four bytes each.
pub struct ChannelElements {}

impl ElementReader for ChannelElements {
    type Elem = ChannelInfo;

    open spec fn spec_read(&self, d: Seq<u8>, q: usize) -> Read<ChannelInfo> {
        match spec_read_u8(d, q) { Err(e) => Err(e), Ok((stream, q)) =>
        match spec_read_u8(d, q) { Err(e) => Err(e), Ok((offset, q)) =>
        match spec_read_u8(d, q) { Err(e) => Err(e), Ok((format, q)) =>
        match spec_read_u8(d, q) { Err(e) => Err(e), Ok((dimension, q)) =>
        Ok((ChannelInfo { stream, offset, format, dimension }, q))
        }}}}
    }

    fn read(&self, d: &[u8], q: usize) -> (r: Read<ChannelInfo>) {
        let (stream, q) = read_u8(d, q)?;
        let (offset, q) = read_u8(d, q)?;
        let (format, q) = read_u8(d, q)?;
        let (dimension, q) = read_u8(d, q)?;
        Ok((ChannelInfo { stream, offset, format, dimension }, q))
    }
}

/// Reads vertex streams as array elements.
pub struct StreamElements {
    pub old: bool,
    pub be: bool,
}

impl ElementReader for StreamElements {
    type Elem = StreamInfo;

    open spec fn spec_read(&self, d: Seq<u8>, q: usize) -> Read<StreamInfo> {
        spec_stream_info_with(d, q, self.old, self.be)
    }

    fn read(&self, d: &[u8], q: usize) -> (r: Read<StreamInfo>) {
        read_stream_info_with(d, q, self.old, self.be)
    }
}

/// Reads sub-meshes as array elements.
pub struct SubMeshElements {
    pub layout: SubMeshLayout,
    pub be: bool,
}

impl ElementReader for SubMeshElements {
    type Elem = SubMesh;

    open spec fn spec_read(&self, d: Seq<u8>, q: usize) -> Read<SubMesh> {
        spec_sub_mesh_with(d, q, self.layout, self.be)
    }

    fn read(&self, d: &[u8], q: usize) -> (r: Read<SubMesh>) {
        read_sub_mesh_with(d, q, self.layout, self.be)
    }
}

/// The channels of a vertex layout as the version `v` reads them:
/// current channels, vertex count, channel descriptions.
pub open spec fn spec_vertex_head(d: Seq<u8>, p: usize, v: VersionView, be: bool)
    -> Read<(Option<i64>, u32, Option<Seq<ChannelInfo>>)>
{
    match (if version_between(v, unity(3, 5, 0, ""), unity(5, 5, 6, "f1")) {
        match spec_read_u32(d, p, be) { Ok((x, q)) => Ok((Some(x as i64), q)), Err(e) => Err(e) }
    } else if version_between(v, unity(5, 6, 0, "b1"), unity(2017, 4, 40, "f1")) {
        match spec_read_i32(d, p, be) { Ok((x, q)) => Ok((Some(x as i64), q)), Err(e) => Err(e) }
    } else {
        Ok((None, p))
    }) { Err(e) => Err(e), Ok((current, p)) =>
    match spec_read_u32(d, p, be) { Err(e) => Err(e), Ok((count, p)) =>
    match spec_opt(since(v, unity(4, 0, 0, "")), spec_read_array_of(d, p, be, ChannelElements {}), p) { Err(e) => Err(e), Ok((channels, p)) =>
    Ok(((current, count, channels), p))
    }}}
}

/// A vertex layout and data read at `p`: the channels, four single
/// streams (3.5 only), an array of streams (4.x only), then the vertex
/// bytes and padding to a multiple of 4.
pub open spec fn spec_vertex_data(d: Seq<u8>, p: usize, v: VersionView, be: bool) -> Read<VertexDataView> {
    let single = version_between(v, unity(3, 5, 0, ""), unity(3, 5, 7, ""));
    match spec_vertex_head(d, p, v, be) { Err(e) => Err(e), Ok((h, p)) =>
    match spec_opt(single, spec_stream_info(d, p, v, be), p) { Err(e) => Err(e), Ok((s0, p)) =>
    match spec_opt(single, spec_stream_info(d, p, v, be), p) { Err(e) => Err(e), Ok((s1, p)) =>
    match spec_opt(single, spec_stream_info(d, p, v, be), p) { Err(e) => Err(e), Ok((s2, p)) =>
    match spec_opt(single, spec_stream_info(d, p, v, be), p) { Err(e) => Err(e), Ok((s3, p)) =>
    match spec_opt(version_between(v, unity(4, 0, 0, ""), unity(4, 7, 2, "")), spec_read_array_of(d, p, be, StreamElements { old: old_streams(v), be }), p) { Err(e) => Err(e), Ok((streams, p)) =>
    match spec_read_bytes(d, p, be) { Err(e) => Err(e), Ok((bytes, p)) =>
    Ok((VertexDataView {
        current_channels: h.0,
        vertex_count: h.1,
        channels: h.2,
        streams_0: s0,
        streams_1: s1,
        streams_2: s2,
        streams_3: s3,
        streams,
        data_size: bytes,
    }, align4(p)))
    }}}}}}}
}

/// The sub-mesh fields of version `v`.
pub fn sub_mesh_layout_of(v: &Version) -> (l: SubMeshLayout)
    ensures
        l == sub_mesh_layout(v@),
{
    SubMeshLayout {
        tri_strip: v.between(&Version::new(3, 4, 0, ""), &Version::new(3, 5, 7, "")),
        topology: v.between(&Version::new(4, 0, 0, ""), &Version::new(2022, 3, 2, "f1")),
        base_vertex: v.between(&Version::new(2017, 3, 0, "b1"), &Version::new(2022, 3, 2, "f1")),
        vertices: Version::new(3, 0, 0, "").le(v),
    }
}

/// Reads a sub-mesh at `p` with the fields of `l`.
pub fn read_sub_mesh_with(d: &[u8], p: usize, l: SubMeshLayout, be: bool) -> (r: Read<SubMesh>)
    requires
        pos_ok(d@, p),
    ensures
        r == spec_sub_mesh_with(d@, p, l, be),
        read_ok(d@, r),
{
    let (first_byte, p) = read_u32(d, p, be)?;
    let (index_count, p) = read_u32(d, p, be)?;
    let (is_tri_strip, p) = if l.tri_strip {
        let (x, q) = read_u32(d, p, be)?;
        (Some(x), q)
    } else {
        (None, p)
    };
    let (topology, p) = if l.topology {
        let (x, q) = read_i32(d, p, be)?;
        (Some(x), q)
    } else {
        (None, p)
    };
    let (triangle_count, p) = if l.tri_strip {
        let (x, q) = read_u32(d, p, be)?;
        (Some(x), q)
    } else {
        (None, p)
    };
    let (base_vertex, p) = if l.base_vertex {
        let (x, q) = read_u32(d, p, be)?;
        (Some(x), q)
    } else {
        (None, p)
    };
    let (first_vertex, p) = if l.vertices { read_u32(d, p, be)? } else { (0u32, p) };
    let (vertex_count, p) = if l.vertices { read_u32(d, p, be)? } else { (0u32, p) };
    let (local_aabb, p) = if l.vertices {
        read_aabb(d, p, be)?
    } else {
        (Aabb { center: Vector3f { x: 0, y: 0, z: 0 }, extent: Vector3f { x: 0, y: 0, z: 0 } }, p)
    };
    Ok((SubMesh {
        first_byte,
        index_count,
        is_tri_strip,
        topology,
        triangle_count,
        base_vertex,
        first_vertex,
        vertex_count,
        local_aabb,
    }, p))
}

/// Reads a sub-mesh at `p` as version `v` lays it out.
pub fn read_sub_mesh(d: &[u8], p: usize, v: &Version, be: bool) -> (r: Read<SubMesh>)
    requires
        pos_ok(d@, p),
    ensures
        r == spec_sub_mesh(d@, p, v@, be),
        read_ok(d@, r),
{
    read_sub_mesh_with(d, p, sub_mesh_layout_of(v), be)
}

/// Reads a vertex stream at `p`, in the layout before 4.0.0 if `old`.
pub fn read_stream_info_with(d: &[u8], p: usize, old: bool, be: bool) -> (r: Read<StreamInfo>)
    requires
        pos_ok(d@, p),
    ensures
        r == spec_stream_info_with(d@, p, old, be),
        read_ok(d@, r),
{
    let (channel_mask, p) = read_u32(d, p, be)?;
    let (offset, p) = read_u32(d, p, be)?;
    let (stride, p) = if old {
        read_u32(d, p, be)?
    } else {
        let (x, q) = read_u8(d, p)?;
        (x as u32, q)
    };
    let (align, p) = if old {
        let (x, q) = read_u32(d, p, be)?;
        (Some(x), q)
    } else {
        (None, p)
    };
    let (divider_op, p) = if !old {
        let (x, q) = read_u8(d, p)?;
        (Some(x), q)
    } else {
        (None, p)
    };
    let (frequency, p) = if !old {
        let (x, q) = read_u16(d, p, be)?;
        (Some(x), q)
    } else {
        (None, p)
    };
    Ok((StreamInfo { channel_mask, offset, stride, align, divider_op, frequency }, p))
}

/// Reads a vertex stream at `p` as version `v` lays it out.
pub fn read_stream_info(d: &[u8], p: usize, v: &Version, be: bool) -> (r: Read<StreamInfo>)
    requires
        pos_ok(d@, p),
    ensures
        r == spec_stream_info(d@, p, v@, be),
        read_ok(d@, r),
{
    read_stream_info_with(d, p, !Version::new(4, 0, 0, "").le(v), be)
}

/// Reads the channels of a vertex layout.
fn read_vertex_head(d: &[u8], p: usize, v: &Version, be: bool) -> (r: Read<(Option<i64>, u32, Option<Vec<ChannelInfo>>)>)
    requires
        pos_ok(d@, p),
    ensures
        deep_read(r) == spec_vertex_head(d@, p, v@, be),
        read_ok(d@, r),
{
    let (current_channels, p) = if v.between(&Version::new(3, 5, 0, ""), &Version::new(5, 5, 6, "f1")) {
        let (x, q) = read_u32(d, p, be)?;
        (Some(x as i64), q)
    } else if v.between(&Version::new(5, 6, 0, "b1"), &Version::new(2017, 4, 40, "f1")) {
        let (x, q) = read_i32(d, p, be)?;
        (Some(x as i64), q)
    } else {
        (None, p)
    };
    let (vertex_count, p) = read_u32(d, p, be)?;
    let (channels, p) = if v.between(&Version::new(4, 0, 0, ""), &Version::new(2022, 3, 2, "f1")) {
        let (x, q) = read_array(d, p, be, &ChannelElements {})?;
        (Some(x), q)
    } else {
        (None, p)
    };
    Ok(((current_channels, vertex_count, channels), p))
}

/// Reads a vertex layout and data at `p`.
pub fn read_vertex_data(d: &[u8], p: usize, v: &Version, be: bool) -> (r: Read<VertexData>)
    requires
        pos_ok(d@, p),
    ensures
        deep_read(r) == spec_vertex_data(d@, p, v@, be),
        read_ok(d@, r),
{
    let single = v.between(&Version::new(3, 5, 0, ""), &Version::new(3, 5, 7, ""));
    let (h, p) = read_vertex_head(d, p, v, be)?;
    let (streams_0, p) = if single {
        let (x, q) = read_stream_info(d, p, v, be)?;
        (Some(x), q)
    } else {
        (None, p)
    };
    let (streams_1, p) = if single {
        let (x, q) = read_stream_info(d, p, v, be)?;
        (Some(x), q)
    } else {
        (None, p)
    };
    let (streams_2, p) = if single {
        let (x, q) = read_stream_info(d, p, v, be)?;
        (Some(x), q)
    } else {
        (None, p)
    };
    let (streams_3, p) = if single {
        let (x, q) = read_stream_info(d, p, v, be)?;
        (Some(x), q)
    } else {
        (None, p)
    };
    let (streams, p) = if v.between(&Version::new(4, 0, 0, ""), &Version::new(4, 7, 2, "")) {
        let old = !Version::new(4, 0, 0, "").le(v);
        let (x, q) = read_array(d, p, be, &StreamElements { old, be })?;
        (Some(x), q)
    } else {
        (None, p)
    };
    let (data_size, p) = read_bytes(d, p, be)?;
    let p = align(d, p);
    let (current_channels, vertex_count, channels) = h;
    Ok((VertexData {
        current_channels,
        vertex_count,
        channels,
        streams_0,
        streams_1,
        streams_2,
        streams_3,
        streams,
        data_size,
    }, p))
}

/// Reads a sub-mesh at `pos`, with the Unity version and byte order of the
/// serialized file.
pub fn construct_sub_mesh(data: &[u8], pos: usize, serialized_file: &SerializedFile) -> (r: Read<SubMesh>)
    requires
        pos_ok(data@, pos),
    ensures
        r == with_version(serialized_file.unity_version@, |v: VersionView| spec_sub_mesh(data@, pos, v, serialized_file.big_endian)),
        read_ok(data@, r),
{
    let v = serialized_file.version()?;
    read_sub_mesh(data, pos, &v, serialized_file.big_endian)
}

/// Reads a vertex stream at `pos`, with the Unity version and byte order
/// of the serialized file.
pub fn construct_stream_info(data: &[u8], pos: usize, serialized_file: &SerializedFile) -> (r: Read<StreamInfo>)
    requires
        pos_ok(data@, pos),
    ensures
        r == with_version(serialized_file.unity_version@, |v: VersionView| spec_stream_info(data@, pos, v, serialized_file.big_endian)),
        read_ok(data@, r),
{
    let v = serialized_file.version()?;
    read_stream_info(data, pos, &v, serialized_file.big_endian)
}

/// Reads a vertex layout and data at `pos`, with the Unity version and
/// byte order of the serialized file.
pub fn construct_vertex_data(data: &[u8], pos: usize, serialized_file: &SerializedFile) -> (r: Read<VertexData>)
    requires
        pos_ok(data@, pos),
    ensures
        deep_read(r) == with_version(serialized_file.unity_version@, |v: VersionView| spec_vertex_data(data@, pos, v, serialized_file.big_endian)),
        read_ok(data@, r),
{
    let v = serialized_file.version()?;
    read_vertex_data(data, pos, &v, serialized_file.big_endian)
}

} // verus!
