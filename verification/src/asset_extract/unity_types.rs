//! Small value types of Unity's serialized classes (vectors, rectangles,
//! matrices, colors, GUIDs, bone weights) and their readers.
//!
//! A 32-bit float is kept as its IEEE 754 bit pattern, read in the
//! object's byte order.

use vstd::prelude::*;

use super::reader::{
    pos_ok, read_i32, read_ok, read_u32s, read_u8, spec_read_i32, spec_read_u32s, spec_read_u8,
    vec_read, ParseError, Read,
};

verus! {

/// A 2D vector of float bit patterns.
#[derive(Debug, Clone, Copy, PartialEq, Eq, Structural)]
pub struct Vector2f {
    pub x: u32,
    pub y: u32,
}

/// A 3D vector of float bit patterns.
#[derive(Debug, Clone, Copy, PartialEq, Eq, Structural)]
pub struct Vector3f {
    pub x: u32,
    pub y: u32,
    pub z: u32,
}

/// A 4D vector of float bit patterns.
#[derive(Debug, Clone, Copy, PartialEq, Eq, Structural)]
pub struct Vector4f {
    pub x: u32,
    pub y: u32,
    pub z: u32,
    pub w: u32,
}

/// A quaternion of float bit patterns.
#[derive(Debug, Clone, Copy, PartialEq, Eq, Structural)]
pub struct Quaternionf {
    pub x: u32,
    pub y: u32,
    pub z: u32,
    pub w: u32,
}

/// A rectangle of float bit patterns.
#[derive(Debug, Clone, Copy, PartialEq, Eq, Structural)]
pub struct Rectf {
    pub x: u32,
    pub y: u32,
    pub width: u32,
    pub height: u32,
}

/// A 128-bit GUID as four 32-bit words.
#[derive(Debug, Clone, Copy, PartialEq, Eq, Structural)]
pub struct Guid {
    pub data_0: u32,
    pub data_1: u32,
    pub data_2: u32,
    pub data_3: u32,
}

/// A color stored as four bytes, each channel being the byte over 255.
#[derive(Debug, Clone, Copy, PartialEq, Eq, Structural)]
pub struct ColorBytes {
    pub r: u8,
    pub g: u8,
    pub b: u8,
    pub a: u8,
}

/// A color of four float bit patterns.
#[derive(Debug, Clone, Copy, PartialEq, Eq, Structural)]
pub struct ColorRgba {
    pub r: u32,
    pub g: u32,
    pub b: u32,
    pub a: u32,
}

/// A 4x4 matrix of float bit patterns, in the order `e00, e01, .., e33`.
#[derive(Debug, Clone, PartialEq, Eq)]
pub struct Matrix4x4f {
    pub e: Vec<u32>,
}

/// Four bone weights (float bit patterns) and the four bones' indices.
#[derive(Debug, Clone, Copy, PartialEq, Eq, Structural)]
pub struct BoneWeights4 {
    pub weight_0: u32,
    pub weight_1: u32,
    pub weight_2: u32,
    pub weight_3: u32,
    pub bone_index_0: i32,
    pub bone_index_1: i32,
    pub bone_index_2: i32,
    pub bone_index_3: i32,
}

/// An axis-aligned bounding box.
#[derive(Debug, Clone, Copy, PartialEq, Eq, Structural)]
pub struct Aabb {
    pub center: Vector3f,
    pub extent: Vector3f,
}

impl DeepView for Vector2f {
    type V = Vector2f;

    open spec fn deep_view(&self) -> Vector2f {
        *self
    }
}

impl DeepView for Vector3f {
    type V = Vector3f;

    open spec fn deep_view(&self) -> Vector3f {
        *self
    }
}

impl DeepView for Vector4f {
    type V = Vector4f;

    open spec fn deep_view(&self) -> Vector4f {
        *self
    }
}

impl DeepView for Quaternionf {
    type V = Quaternionf;

    open spec fn deep_view(&self) -> Quaternionf {
        *self
    }
}

impl DeepView for Rectf {
    type V = Rectf;

    open spec fn deep_view(&self) -> Rectf {
        *self
    }
}

impl DeepView for Guid {
    type V = Guid;

    open spec fn deep_view(&self) -> Guid {
        *self
    }
}

impl DeepView for ColorBytes {
    type V = ColorBytes;

    open spec fn deep_view(&self) -> ColorBytes {
        *self
    }
}

impl DeepView for ColorRgba {
    type V = ColorRgba;

    open spec fn deep_view(&self) -> ColorRgba {
        *self
    }
}

impl DeepView for BoneWeights4 {
    type V = BoneWeights4;

    open spec fn deep_view(&self) -> BoneWeights4 {
        *self
    }
}

impl DeepView for Aabb {
    type V = Aabb;

    open spec fn deep_view(&self) -> Aabb {
        *self
    }
}

impl DeepView for Matrix4x4f {
    type V = Seq<u32>;

    open spec fn deep_view(&self) -> Seq<u32> {
        self.e@
    }
}

/// Reads `n` floats and shapes them with `f`.
pub open spec fn floats_then<T>(d: Seq<u8>, p: usize, be: bool, n: nat, f: spec_fn(Seq<u32>) -> T) -> Read<T> {
    match spec_read_u32s(d, p, be, n) {
        Ok((s, q)) => Ok((f(s), q)),
        Err(e) => Err(e),
    }
}

/// A 2D vector: `x, y`.
pub open spec fn spec_read_vector_2f(d: Seq<u8>, p: usize, be: bool) -> Read<Vector2f> {
    floats_then(d, p, be, 2, |s: Seq<u32>| Vector2f { x: s[0], y: s[1] })
}

/// A 3D vector: `x, y, z`.
pub open spec fn spec_read_vector_3f(d: Seq<u8>, p: usize, be: bool) -> Read<Vector3f> {
    floats_then(d, p, be, 3, |s: Seq<u32>| Vector3f { x: s[0], y: s[1], z: s[2] })
}

/// A 4D vector: `x, y, z, w`.
pub open spec fn spec_read_vector_4f(d: Seq<u8>, p: usize, be: bool) -> Read<Vector4f> {
    floats_then(d, p, be, 4, |s: Seq<u32>| Vector4f { x: s[0], y: s[1], z: s[2], w: s[3] })
}

/// A quaternion: `x, y, z, w`.
pub open spec fn spec_read_quaternionf(d: Seq<u8>, p: usize, be: bool) -> Read<Quaternionf> {
    floats_then(d, p, be, 4, |s: Seq<u32>| Quaternionf { x: s[0], y: s[1], z: s[2], w: s[3] })
}

/// A rectangle: `x, y, width, height`.
pub open spec fn spec_read_rectf(d: Seq<u8>, p: usize, be: bool) -> Read<Rectf> {
    floats_then(d, p, be, 4, |s: Seq<u32>| Rectf { x: s[0], y: s[1], width: s[2], height: s[3] })
}

/// A GUID: four 32-bit words.
pub open spec fn spec_read_guid(d: Seq<u8>, p: usize, be: bool) -> Read<Guid> {
    floats_then(d, p, be, 4, |s: Seq<u32>| Guid { data_0: s[0], data_1: s[1], data_2: s[2], data_3: s[3] })
}

/// A float color: `r, g, b, a`.
pub open spec fn spec_read_color_rgba(d: Seq<u8>, p: usize, be: bool) -> Read<ColorRgba> {
    floats_then(d, p, be, 4, |s: Seq<u32>| ColorRgba { r: s[0], g: s[1], b: s[2], a: s[3] })
}

/// A byte color: `r, g, b, a`, one byte each.
pub open spec fn spec_read_color_rgba_uint(d: Seq<u8>, p: usize) -> Read<ColorBytes> {
    if p + 4 <= d.len() {
        Ok((ColorBytes { r: d[p as int], g: d[p + 1], b: d[p + 2], a: d[p + 3] }, (p + 4) as usize))
    } else {
        Err(ParseError::UnexpectedEof)
    }
}

/// A 4x4 matrix: sixteen floats.
pub open spec fn spec_read_matrix_4x4f(d: Seq<u8>, p: usize, be: bool) -> Read<Seq<u32>> {
    spec_read_u32s(d, p, be, 16)
}

/// Bone weights: four floats, then four 4-byte signed bone indices.
pub open spec fn spec_read_bone_weight4(d: Seq<u8>, p: usize, be: bool) -> Read<BoneWeights4> {
    match spec_read_u32s(d, p, be, 4) {
        Err(e) => Err(e),
        Ok((w, p)) => match spec_read_i32(d, p, be) {
            Err(e) => Err(e),
            Ok((i0, p)) => match spec_read_i32(d, p, be) {
                Err(e) => Err(e),
                Ok((i1, p)) => match spec_read_i32(d, p, be) {
                    Err(e) => Err(e),
                    Ok((i2, p)) => match spec_read_i32(d, p, be) {
                        Err(e) => Err(e),
                        Ok((i3, p)) => Ok((BoneWeights4 {
                            weight_0: w[0], weight_1: w[1], weight_2: w[2], weight_3: w[3],
                            bone_index_0: i0, bone_index_1: i1, bone_index_2: i2, bone_index_3: i3,
                        }, p)),
                    },
                },
            },
        },
    }
}

/// An axis-aligned bounding box: center, then extent.
pub open spec fn spec_read_aabb(d: Seq<u8>, p: usize, be: bool) -> Read<Aabb> {
    match spec_read_vector_3f(d, p, be) {
        Err(e) => Err(e),
        Ok((c, p)) => match spec_read_vector_3f(d, p, be) {
            Err(e) => Err(e),
            Ok((x, p)) => Ok((Aabb { center: c, extent: x }, p)),
        },
    }
}

/// Reads a 2D vector.
pub fn read_vector_2f(d: &[u8], p: usize, be: bool) -> (r: Read<Vector2f>)
    requires
        pos_ok(d@, p),
    ensures
        r == spec_read_vector_2f(d@, p, be),
        read_ok(d@, r),
{
    let (s, q) = read_u32s(d, p, be, 2)?;
    Ok((Vector2f { x: s[0], y: s[1] }, q))
}

/// Reads a 3D vector.
pub fn read_vector_3f(d: &[u8], p: usize, be: bool) -> (r: Read<Vector3f>)
    requires
        pos_ok(d@, p),
    ensures
        r == spec_read_vector_3f(d@, p, be),
        read_ok(d@, r),
{
    let (s, q) = read_u32s(d, p, be, 3)?;
    Ok((Vector3f { x: s[0], y: s[1], z: s[2] }, q))
}

/// Reads a 4D vector.
pub fn read_vector_4f(d: &[u8], p: usize, be: bool) -> (r: Read<Vector4f>)
    requires
        pos_ok(d@, p),
    ensures
        r == spec_read_vector_4f(d@, p, be),
        read_ok(d@, r),
{
    let (s, q) = read_u32s(d, p, be, 4)?;
    Ok((Vector4f { x: s[0], y: s[1], z: s[2], w: s[3] }, q))
}

/// Reads a quaternion.
pub fn read_quaternionf(d: &[u8], p: usize, be: bool) -> (r: Read<Quaternionf>)
    requires
        pos_ok(d@, p),
    ensures
        r == spec_read_quaternionf(d@, p, be),
        read_ok(d@, r),
{
    let (s, q) = read_u32s(d, p, be, 4)?;
    Ok((Quaternionf { x: s[0], y: s[1], z: s[2], w: s[3] }, q))
}

/// Reads a rectangle.
pub fn read_rectf(d: &[u8], p: usize, be: bool) -> (r: Read<Rectf>)
    requires
        pos_ok(d@, p),
    ensures
        r == spec_read_rectf(d@, p, be),
        read_ok(d@, r),
{
    let (s, q) = read_u32s(d, p, be, 4)?;
    Ok((Rectf { x: s[0], y: s[1], width: s[2], height: s[3] }, q))
}

/// Reads a GUID.
pub fn read_guid(d: &[u8], p: usize, be: bool) -> (r: Read<Guid>)
    requires
        pos_ok(d@, p),
    ensures
        r == spec_read_guid(d@, p, be),
        read_ok(d@, r),
{
    let (s, q) = read_u32s(d, p, be, 4)?;
    Ok((Guid { data_0: s[0], data_1: s[1], data_2: s[2], data_3: s[3] }, q))
}

/// Reads a float color.
pub fn read_color_rgba(d: &[u8], p: usize, be: bool) -> (r: Read<ColorRgba>)
    requires
        pos_ok(d@, p),
    ensures
        r == spec_read_color_rgba(d@, p, be),
        read_ok(d@, r),
{
    let (s, q) = read_u32s(d, p, be, 4)?;
    Ok((ColorRgba { r: s[0], g: s[1], b: s[2], a: s[3] }, q))
}

/// Reads a byte color.
pub fn read_color_rgba_uint(d: &[u8], p: usize) -> (r: Read<ColorBytes>)
    requires
        pos_ok(d@, p),
    ensures
        r == spec_read_color_rgba_uint(d@, p),
        read_ok(d@, r),
{
    let (r, p1) = read_u8(d, p)?;
    let (g, p2) = read_u8(d, p1)?;
    let (b, p3) = read_u8(d, p2)?;
    let (a, p4) = read_u8(d, p3)?;
    Ok((ColorBytes { r, g, b, a }, p4))
}

/// Reads a 4x4 matrix.
pub fn read_matrix_4x4f(d: &[u8], p: usize, be: bool) -> (r: Read<Matrix4x4f>)
    requires
        pos_ok(d@, p),
    ensures
        (match r {
            Ok((m, q)) => spec_read_matrix_4x4f(d@, p, be) == Ok::<(Seq<u32>, usize), ParseError>((m.e@, q)),
            Err(e) => spec_read_matrix_4x4f(d@, p, be) == Err::<(Seq<u32>, usize), ParseError>(e),
        }),
        read_ok(d@, r),
{
    let (e, q) = read_u32s(d, p, be, 16)?;
    Ok((Matrix4x4f { e }, q))
}

/// Reads bone weights.
pub fn read_bone_weight4(d: &[u8], p: usize, be: bool) -> (r: Read<BoneWeights4>)
    requires
        pos_ok(d@, p),
    ensures
        r == spec_read_bone_weight4(d@, p, be),
        read_ok(d@, r),
{
    let (w, p) = read_u32s(d, p, be, 4)?;
    let (i0, p) = read_i32(d, p, be)?;
    let (i1, p) = read_i32(d, p, be)?;
    let (i2, p) = read_i32(d, p, be)?;
    let (i3, p) = read_i32(d, p, be)?;
    Ok((BoneWeights4 {
        weight_0: w[0],
        weight_1: w[1],
        weight_2: w[2],
        weight_3: w[3],
        bone_index_0: i0,
        bone_index_1: i1,
        bone_index_2: i2,
        bone_index_3: i3,
    }, p))
}

/// Reads an axis-aligned bounding box.
pub fn read_aabb(d: &[u8], p: usize, be: bool) -> (r: Read<Aabb>)
    requires
        pos_ok(d@, p),
    ensures
        r == spec_read_aabb(d@, p, be),
        read_ok(d@, r),
{
    let (center, p) = read_vector_3f(d, p, be)?;
    let (extent, p) = read_vector_3f(d, p, be)?;
    Ok((Aabb { center, extent }, p))
}

} // verus!
