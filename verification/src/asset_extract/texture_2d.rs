//! The `Texture2D` class: reading it from an object's data, the texture
//! formats, and decoding compressed texture data to RGBA pixels.

use vstd::prelude::*;

use super::reader::{
    align, align4, deep_read, pos_ok, read_bool, read_bytes, read_i32, read_ok, read_string, read_u32,
    read_u64, read_aligned_string, spec_read_aligned_string, spec_read_bool, spec_read_bytes,
    spec_read_i32, spec_read_string, spec_read_u32, spec_read_u64, ParseError, Read,
};
use super::serialized::{spec_opt, with_version, SerializedFile};
use super::version::{unity, version_between, version_le, Version, VersionView};

verus! {

/// Sampling settings of a texture.
#[derive(Debug, Clone, Copy, PartialEq, Eq, Structural)]
pub struct GlTextureSettings {
    pub filter_mode: i32,
    pub aniso: i32,
    /// Bit pattern of the mipmap bias float.
    pub mip_bias: u32,
    pub wrap_mode: Option<i32>,
    pub wrap_u: Option<i32>,
    pub wrap_v: Option<i32>,
    pub wrap_w: Option<i32>,
}

/// Where a texture's pixels are stored outside the object.
#[derive(Debug, Clone)]
pub struct StreamingInfo {
    pub offset: u64,
    pub size: u32,
    pub path: String,
}

/// The abstract value of a [`StreamingInfo`].
pub struct StreamingInfoView {
    pub offset: u64,
    pub size: u32,
    pub path: Seq<char>,
}

impl DeepView for StreamingInfo {
    type V = StreamingInfoView;

    open spec fn deep_view(&self) -> StreamingInfoView {
        self@
    }
}

impl DeepView for GlTextureSettings {
    type V = GlTextureSettings;

    open spec fn deep_view(&self) -> GlTextureSettings {
        *self
    }
}

impl View for StreamingInfo {
    type V = StreamingInfoView;

    open spec fn view(&self) -> StreamingInfoView {
        StreamingInfoView { offset: self.offset, size: self.size, path: self.path@ }
    }
}

/// A Unity `Texture2D` object.
#[derive(Debug, Clone)]
pub struct Texture2D {
    pub name: String,
    pub forced_fallback_format: Option<i32>,
    pub downscale_fallback: Option<bool>,
    pub is_alpha_channel_optional: Option<bool>,
    pub width: i32,
    pub height: i32,
    pub complete_image_size: i64,
    pub mips_stripped: Option<i32>,
    pub texture_format: i32,
    pub mip_map: Option<bool>,
    pub mip_count: Option<i32>,
    pub is_readable: bool,
    pub is_pre_processed: Option<bool>,
    pub ignore_master_texture_limit: Option<bool>,
    pub ignore_mipmap_limit: Option<bool>,
    pub mipmap_limit_group_name: Option<String>,
    pub read_allowed: Option<bool>,
    pub streaming_mipmaps: Option<bool>,
    pub streaming_mipmaps_priority: Option<i32>,
    pub image_count: i32,
    pub texture_dimension: i32,
    pub texture_settings: GlTextureSettings,
    pub lightmap_format: i32,
    pub color_space: Option<i32>,
    pub platform_blob: Option<Vec<u8>>,
    pub image_data: Option<Vec<u8>>,
    pub stream_data: Option<StreamingInfo>,
}

/// The abstract value of a [`Texture2D`].
pub struct Texture2DView {
    pub name: Seq<char>,
    pub forced_fallback_format: Option<i32>,
    pub downscale_fallback: Option<bool>,
    pub is_alpha_channel_optional: Option<bool>,
    pub width: i32,
    pub height: i32,
    pub complete_image_size: i64,
    pub mips_stripped: Option<i32>,
    pub texture_format: i32,
    pub mip_map: Option<bool>,
    pub mip_count: Option<i32>,
    pub is_readable: bool,
    pub is_pre_processed: Option<bool>,
    pub ignore_master_texture_limit: Option<bool>,
    pub ignore_mipmap_limit: Option<bool>,
    pub mipmap_limit_group_name: Option<Seq<char>>,
    pub read_allowed: Option<bool>,
    pub streaming_mipmaps: Option<bool>,
    pub streaming_mipmaps_priority: Option<i32>,
    pub image_count: i32,
    pub texture_dimension: i32,
    pub texture_settings: GlTextureSettings,
    pub lightmap_format: i32,
    pub color_space: Option<i32>,
    pub platform_blob: Option<Seq<u8>>,
    pub image_data: Option<Seq<u8>>,
    pub stream_data: Option<StreamingInfoView>,
}

impl View for Texture2D {
    type V = Texture2DView;

    open spec fn view(&self) -> Texture2DView {
        Texture2DView {
            name: self.name@,
            forced_fallback_format: self.forced_fallback_format,
            downscale_fallback: self.downscale_fallback,
            is_alpha_channel_optional: self.is_alpha_channel_optional,
            width: self.width,
            height: self.height,
            complete_image_size: self.complete_image_size,
            mips_stripped: self.mips_stripped,
            texture_format: self.texture_format,
            mip_map: self.mip_map,
            mip_count: self.mip_count,
            is_readable: self.is_readable,
            is_pre_processed: self.is_pre_processed,
            ignore_master_texture_limit: self.ignore_master_texture_limit,
            ignore_mipmap_limit: self.ignore_mipmap_limit,
            mipmap_limit_group_name: self.mipmap_limit_group_name.deep_view(),
            read_allowed: self.read_allowed,
            streaming_mipmaps: self.streaming_mipmaps,
            streaming_mipmaps_priority: self.streaming_mipmaps_priority,
            image_count: self.image_count,
            texture_dimension: self.texture_dimension,
            texture_settings: self.texture_settings,
            lightmap_format: self.lightmap_format,
            color_space: self.color_space,
            platform_blob: opt_bytes(self.platform_blob),
            image_data: opt_bytes(self.image_data),
            stream_data: self.stream_data.deep_view(),
        }
    }
}

/// The bytes of an optional byte array.
pub open spec fn opt_bytes(b: Option<Vec<u8>>) -> Option<Seq<u8>> {
    match b {
        Some(v) => Some(v@),
        None => None,
    }
}

/// The abstract value of a read of the last fields of a texture.
pub open spec fn tail_read(
    r: Read<(i32, i32, GlTextureSettings, i32, Option<i32>, Option<Vec<u8>>, Option<Vec<u8>>, Option<StreamingInfo>)>,
) -> Read<(i32, i32, GlTextureSettings, i32, Option<i32>, Option<Seq<u8>>, Option<Seq<u8>>, Option<StreamingInfoView>)> {
    match r {
        Ok((t, q)) => Ok(((t.0, t.1, t.2, t.3, t.4, opt_bytes(t.5), opt_bytes(t.6), t.7.deep_view()), q)),
        Err(e) => Err(e),
    }
}

/// Whether `v` lies in `[lo, 2022.3.2f1]`, the last version these layouts
/// know.
pub open spec fn since(v: VersionView, lo: VersionView) -> bool {
    version_between(v, lo, unity(2022, 3, 2, "f1"))
}

/// The texture's sampling settings, read at `p`.
pub open spec fn spec_texture_settings(d: Seq<u8>, p: usize, v: VersionView, be: bool) -> Read<GlTextureSettings> {
    let wrap = since(v, unity(2017, 1, 0, "b1"));
    match spec_read_i32(d, p, be) { Err(e) => Err(e), Ok((filter_mode, p)) =>
    match spec_read_i32(d, p, be) { Err(e) => Err(e), Ok((aniso, p)) =>
    match spec_read_u32(d, p, be) { Err(e) => Err(e), Ok((mip_bias, p)) =>
    match spec_opt(version_between(v, unity(3, 4, 0, "f0"), unity(5, 6, 7, "f1")), spec_read_i32(d, p, be), p) { Err(e) => Err(e), Ok((wrap_mode, p)) =>
    match spec_opt(wrap, spec_read_i32(d, p, be), p) { Err(e) => Err(e), Ok((wrap_u, p)) =>
    match spec_opt(wrap, spec_read_i32(d, p, be), p) { Err(e) => Err(e), Ok((wrap_v, p)) =>
    match spec_opt(wrap, spec_read_i32(d, p, be), p) { Err(e) => Err(e), Ok((wrap_w, p)) =>
    Ok((GlTextureSettings { filter_mode, aniso, mip_bias, wrap_mode, wrap_u, wrap_v, wrap_w }, p))
    }}}}}}}
}

/// Where the pixels are streamed from, read at `p`.
pub open spec fn spec_streaming_info(d: Seq<u8>, p: usize, v: VersionView, be: bool) -> Read<StreamingInfoView> {
    match (if version_le(unity(2020, 1, 0, "f1"), v) {
        spec_read_u64(d, p, be)
    } else {
        match spec_read_u32(d, p, be) { Ok((x, q)) => Ok((x as u64, q)), Err(e) => Err(e) }
    }) { Err(e) => Err(e), Ok((offset, p)) =>
    match spec_read_u32(d, p, be) { Err(e) => Err(e), Ok((size, p)) =>
    match spec_read_string(d, p, be) { Err(e) => Err(e), Ok((path, p)) =>
    Ok((StreamingInfoView { offset, size, path }, p))
    }}}
}

/// The fields of a texture from its name through its format, read at `p`:
/// name, forced fallback format, downscale fallback, alpha channel
/// optional, then (aligned) width, height, complete image size, mips
/// stripped and texture format.
pub open spec fn spec_texture_head(d: Seq<u8>, p: usize, v: VersionView, be: bool)
    -> Read<(Seq<char>, Option<i32>, Option<bool>, Option<bool>, i32, i32, i64, Option<i32>, i32)>
{
    let fallback = since(v, unity(2017, 3, 0, "b1"));
    match spec_read_aligned_string(d, p, be) { Err(e) => Err(e), Ok((name, p)) =>
    match spec_opt(fallback, spec_read_i32(d, p, be), p) { Err(e) => Err(e), Ok((forced, p)) =>
    match spec_opt(fallback, spec_read_bool(d, p), p) { Err(e) => Err(e), Ok((downscale, p)) =>
    match spec_opt(since(v, unity(2020, 2, 0, "b1")), spec_read_bool(d, p), p) { Err(e) => Err(e), Ok((alpha, p)) =>
    match spec_read_i32(d, align4(p), be) { Err(e) => Err(e), Ok((width, p)) =>
    match spec_read_i32(d, p, be) { Err(e) => Err(e), Ok((height, p)) =>
    match spec_read_i32(d, p, be) { Err(e) => Err(e), Ok((size, p)) =>
    match spec_opt(since(v, unity(2020, 1, 0, "b1")), spec_read_i32(d, p, be), p) { Err(e) => Err(e), Ok((stripped, p)) =>
    match spec_read_i32(d, p, be) { Err(e) => Err(e), Ok((format, p)) =>
    Ok(((name, forced, downscale, alpha, width, height, size as i64, stripped, format), p))
    }}}}}}}}}
}

/// The mipmap flags of a texture, read at `p`: mip map, mip count,
/// readable, preprocessed, ignore master texture limit.
pub open spec fn spec_texture_mips(d: Seq<u8>, p: usize, v: VersionView, be: bool)
    -> Read<(Option<bool>, Option<i32>, bool, Option<bool>, Option<bool>)>
{
    match spec_opt(version_between(v, unity(3, 4, 0, "f0"), unity(5, 1, 5, "f1")), spec_read_bool(d, p), p) { Err(e) => Err(e), Ok((mip_map, p)) =>
    match spec_opt(since(v, unity(5, 2, 0, "f2")), spec_read_i32(d, p, be), p) { Err(e) => Err(e), Ok((mip_count, p)) =>
    match (if version_le(unity(2, 6, 0, "f0"), v) { spec_read_bool(d, p) } else { Ok((false, p)) }) { Err(e) => Err(e), Ok((readable, p)) =>
    match spec_opt(since(v, unity(2019, 4, 9, "f1")), spec_read_bool(d, p), p) { Err(e) => Err(e), Ok((pre, p)) =>
    match spec_opt(version_between(v, unity(2019, 3, 0, "f6"), unity(2022, 2, 0, "a18")), spec_read_bool(d, p), p) { Err(e) => Err(e), Ok((master, p)) =>
    Ok(((mip_map, mip_count, readable, pre, master), p))
    }}}}}
}

/// The mipmap limit and streaming flags of a texture, read at `p`: ignore
/// mipmap limit, mipmap limit group name, read allowed, streaming
/// mipmaps, then (aligned) streaming mipmaps priority.
pub open spec fn spec_texture_limits(d: Seq<u8>, p: usize, v: VersionView, be: bool)
    -> Read<(Option<bool>, Option<Seq<char>>, Option<bool>, Option<bool>, Option<i32>)>
{
    let limit = since(v, unity(2022, 2, 0, "f1"));
    let streaming = since(v, unity(2018, 2, 0, "b1"));
    match spec_opt(limit, spec_read_bool(d, p), p) { Err(e) => Err(e), Ok((ignore, p)) =>
    match spec_opt(limit, spec_read_string(d, p, be), p) { Err(e) => Err(e), Ok((group, p)) =>
    match spec_opt(version_between(v, unity(3, 4, 0, "f0"), unity(5, 4, 6, "f3")), spec_read_bool(d, p), p) { Err(e) => Err(e), Ok((allowed, p)) =>
    match spec_opt(streaming, spec_read_bool(d, p), p) { Err(e) => Err(e), Ok((mipmaps, p)) =>
    match spec_opt(streaming, spec_read_i32(d, align4(p), be), align4(p)) { Err(e) => Err(e), Ok((priority, p)) =>
    Ok(((ignore, group, allowed, mipmaps, priority), p))
    }}}}}
}

/// The rest of a texture, read at `p`: image count, dimension, sampling
/// settings, lightmap format, color space, platform blob, then (aligned)
/// image data and streaming info.
pub open spec fn spec_texture_tail(d: Seq<u8>, p: usize, v: VersionView, be: bool)
    -> Read<(i32, i32, GlTextureSettings, i32, Option<i32>, Option<Seq<u8>>, Option<Seq<u8>>, Option<StreamingInfoView>)>
{
    match spec_read_i32(d, p, be) { Err(e) => Err(e), Ok((count, p)) =>
    match spec_read_i32(d, p, be) { Err(e) => Err(e), Ok((dimension, p)) =>
    match spec_texture_settings(d, p, v, be) { Err(e) => Err(e), Ok((settings, p)) =>
    match (if version_le(unity(3, 0, 0, "f0"), v) { spec_read_i32(d, p, be) } else { Ok((0i32, p)) }) { Err(e) => Err(e), Ok((lightmap, p)) =>
    match spec_opt(since(v, unity(3, 5, 0, "")), spec_read_i32(d, p, be), p) { Err(e) => Err(e), Ok((color_space, p)) =>
    match spec_opt(since(v, unity(2020, 2, 0, "b1")), spec_read_bytes(d, p, be), p) { Err(e) => Err(e), Ok((blob, p)) =>
    match spec_opt(since(v, unity(3, 4, 0, "")), spec_read_bytes(d, align4(p), be), align4(p)) { Err(e) => Err(e), Ok((image, p)) =>
    match spec_opt(since(v, unity(5, 3, 0, "f1")), spec_streaming_info(d, p, v, be), p) { Err(e) => Err(e), Ok((stream, p)) =>
    Ok(((count, dimension, settings, lightmap, color_space, blob, image, stream), p))
    }}}}}}}}
}

/// A texture object as the version `v` of Unity lays it out, read from the
/// start of `d`.
pub open spec fn spec_texture_2d(d: Seq<u8>, v: VersionView, be: bool) -> Read<Texture2DView> {
    match spec_texture_head(d, 0, v, be) { Err(e) => Err(e), Ok((h, p)) =>
    match spec_texture_mips(d, p, v, be) { Err(e) => Err(e), Ok((m, p)) =>
    match spec_texture_limits(d, p, v, be) { Err(e) => Err(e), Ok((l, p)) =>
    match spec_texture_tail(d, p, v, be) { Err(e) => Err(e), Ok((t, p)) =>
    Ok((Texture2DView {
        name: h.0,
        forced_fallback_format: h.1,
        downscale_fallback: h.2,
        is_alpha_channel_optional: h.3,
        width: h.4,
        height: h.5,
        complete_image_size: h.6,
        mips_stripped: h.7,
        texture_format: h.8,
        mip_map: m.0,
        mip_count: m.1,
        is_readable: m.2,
        is_pre_processed: m.3,
        ignore_master_texture_limit: m.4,
        ignore_mipmap_limit: l.0,
        mipmap_limit_group_name: l.1,
        read_allowed: l.2,
        streaming_mipmaps: l.3,
        streaming_mipmaps_priority: l.4,
        image_count: t.0,
        texture_dimension: t.1,
        texture_settings: t.2,
        lightmap_format: t.3,
        color_space: t.4,
        platform_blob: t.5,
        image_data: t.6,
        stream_data: t.7,
    }, p))
    }}}}
}

/// Whether `lo <= v <= 2022.3.2f1`.
fn since_exec(v: &Version, lo: Version) -> (r: bool)
    ensures
        r == since(v@, lo@),
{
    v.between(&lo, &Version::new(2022, 3, 2, "f1"))
}

/// Reads the sampling settings.
fn read_texture_settings(d: &[u8], p: usize, v: &Version, be: bool) -> (r: Read<GlTextureSettings>)
    requires
        pos_ok(d@, p),
    ensures
        r == spec_texture_settings(d@, p, v@, be),
        read_ok(d@, r),
{
    let wrap = since_exec(v, Version::new(2017, 1, 0, "b1"));
    let (filter_mode, p) = read_i32(d, p, be)?;
    let (aniso, p) = read_i32(d, p, be)?;
    let (mip_bias, p) = read_u32(d, p, be)?;
    let (wrap_mode, p) = if v.between(&Version::new(3, 4, 0, "f0"), &Version::new(5, 6, 7, "f1")) {
        let (x, q) = read_i32(d, p, be)?;
        (Some(x), q)
    } else {
        (None, p)
    };
    let (wrap_u, p) = if wrap {
        let (x, q) = read_i32(d, p, be)?;
        (Some(x), q)
    } else {
        (None, p)
    };
    let (wrap_v, p) = if wrap {
        let (x, q) = read_i32(d, p, be)?;
        (Some(x), q)
    } else {
        (None, p)
    };
    let (wrap_w, p) = if wrap {
        let (x, q) = read_i32(d, p, be)?;
        (Some(x), q)
    } else {
        (None, p)
    };
    Ok((GlTextureSettings { filter_mode, aniso, mip_bias, wrap_mode, wrap_u, wrap_v, wrap_w }, p))
}

/// Reads where the pixels are streamed from.
fn read_streaming_info(d: &[u8], p: usize, v: &Version, be: bool) -> (r: Read<StreamingInfo>)
    requires
        pos_ok(d@, p),
    ensures
        (match r {
            Ok((s, q)) => spec_streaming_info(d@, p, v@, be) == Ok::<(StreamingInfoView, usize), ParseError>((s@, q)),
            Err(e) => spec_streaming_info(d@, p, v@, be) == Err::<(StreamingInfoView, usize), ParseError>(e),
        }),
        read_ok(d@, r),
{
    let (offset, p) = if Version::new(2020, 1, 0, "f1").le(v) {
        read_u64(d, p, be)?
    } else {
        let (x, q) = read_u32(d, p, be)?;
        (x as u64, q)
    };
    let (size, p) = read_u32(d, p, be)?;
    let (path, p) = read_string(d, p, be)?;
    Ok((StreamingInfo { offset, size, path }, p))
}

/// Reads the fields from the name through the texture format.
fn read_texture_head(d: &[u8], p: usize, v: &Version, be: bool)
    -> (r: Read<(String, Option<i32>, Option<bool>, Option<bool>, i32, i32, i64, Option<i32>, i32)>)
    requires
        pos_ok(d@, p),
    ensures
        deep_read(r) == spec_texture_head(d@, p, v@, be),
        read_ok(d@, r),
{
    let fallback = since_exec(v, Version::new(2017, 3, 0, "b1"));
    let (name, p) = read_aligned_string(d, p, be)?;
    let (forced_fallback_format, p) = if fallback {
        let (x, q) = read_i32(d, p, be)?;
        (Some(x), q)
    } else {
        (None, p)
    };
    let (downscale_fallback, p) = if fallback {
        let (x, q) = read_bool(d, p)?;
        (Some(x), q)
    } else {
        (None, p)
    };
    let (is_alpha_channel_optional, p) = if since_exec(v, Version::new(2020, 2, 0, "b1")) {
        let (x, q) = read_bool(d, p)?;
        (Some(x), q)
    } else {
        (None, p)
    };
    let p = align(d, p);
    let (width, p) = read_i32(d, p, be)?;
    let (height, p) = read_i32(d, p, be)?;
    let (complete_image_size, p) = read_i32(d, p, be)?;
    let (mips_stripped, p) = if since_exec(v, Version::new(2020, 1, 0, "b1")) {
        let (x, q) = read_i32(d, p, be)?;
        (Some(x), q)
    } else {
        (None, p)
    };
    let (texture_format, p) = read_i32(d, p, be)?;
    Ok(((name, forced_fallback_format, downscale_fallback, is_alpha_channel_optional, width, height,
        complete_image_size as i64, mips_stripped, texture_format), p))
}

/// Reads the mipmap flags.
fn read_texture_mips(d: &[u8], p: usize, v: &Version, be: bool)
    -> (r: Read<(Option<bool>, Option<i32>, bool, Option<bool>, Option<bool>)>)
    requires
        pos_ok(d@, p),
    ensures
        r == spec_texture_mips(d@, p, v@, be),
        read_ok(d@, r),
{
    let (mip_map, p) = if v.between(&Version::new(3, 4, 0, "f0"), &Version::new(5, 1, 5, "f1")) {
        let (x, q) = read_bool(d, p)?;
        (Some(x), q)
    } else {
        (None, p)
    };
    let (mip_count, p) = if since_exec(v, Version::new(5, 2, 0, "f2")) {
        let (x, q) = read_i32(d, p, be)?;
        (Some(x), q)
    } else {
        (None, p)
    };
    let (is_readable, p) = if Version::new(2, 6, 0, "f0").le(v) {
        read_bool(d, p)?
    } else {
        (false, p)
    };
    let (is_pre_processed, p) = if since_exec(v, Version::new(2019, 4, 9, "f1")) {
        let (x, q) = read_bool(d, p)?;
        (Some(x), q)
    } else {
        (None, p)
    };
    let (ignore_master_texture_limit, p) = if v.between(&Version::new(2019, 3, 0, "f6"), &Version::new(2022, 2, 0, "a18")) {
        let (x, q) = read_bool(d, p)?;
        (Some(x), q)
    } else {
        (None, p)
    };
    Ok(((mip_map, mip_count, is_readable, is_pre_processed, ignore_master_texture_limit), p))
}

/// Reads the mipmap limit and streaming flags.
fn read_texture_limits(d: &[u8], p: usize, v: &Version, be: bool)
    -> (r: Read<(Option<bool>, Option<String>, Option<bool>, Option<bool>, Option<i32>)>)
    requires
        pos_ok(d@, p),
    ensures
        deep_read(r) == spec_texture_limits(d@, p, v@, be),
        read_ok(d@, r),
{
    let limit = since_exec(v, Version::new(2022, 2, 0, "f1"));
    let streaming = since_exec(v, Version::new(2018, 2, 0, "b1"));
    let (ignore_mipmap_limit, p) = if limit {
        let (x, q) = read_bool(d, p)?;
        (Some(x), q)
    } else {
        (None, p)
    };
    let (mipmap_limit_group_name, p) = if limit {
        let (x, q) = read_string(d, p, be)?;
        (Some(x), q)
    } else {
        (None, p)
    };
    let (read_allowed, p) = if v.between(&Version::new(3, 4, 0, "f0"), &Version::new(5, 4, 6, "f3")) {
        let (x, q) = read_bool(d, p)?;
        (Some(x), q)
    } else {
        (None, p)
    };
    let (streaming_mipmaps, p) = if streaming {
        let (x, q) = read_bool(d, p)?;
        (Some(x), q)
    } else {
        (None, p)
    };
    let p = align(d, p);
    let (streaming_mipmaps_priority, p) = if streaming {
        let (x, q) = read_i32(d, p, be)?;
        (Some(x), q)
    } else {
        (None, p)
    };
    Ok(((ignore_mipmap_limit, mipmap_limit_group_name, read_allowed, streaming_mipmaps,
        streaming_mipmaps_priority), p))
}

/// Reads the image count through the streaming info.
fn read_texture_tail(d: &[u8], p: usize, v: &Version, be: bool)
    -> (r: Read<(i32, i32, GlTextureSettings, i32, Option<i32>, Option<Vec<u8>>, Option<Vec<u8>>, Option<StreamingInfo>)>)
    requires
        pos_ok(d@, p),
    ensures
        tail_read(r) == spec_texture_tail(d@, p, v@, be),
        read_ok(d@, r),
{
    let (image_count, p) = read_i32(d, p, be)?;
    let (texture_dimension, p) = read_i32(d, p, be)?;
    let (texture_settings, p) = read_texture_settings(d, p, v, be)?;
    let (lightmap_format, p) = if Version::new(3, 0, 0, "f0").le(v) {
        read_i32(d, p, be)?
    } else {
        (0i32, p)
    };
    let (color_space, p) = if since_exec(v, Version::new(3, 5, 0, "")) {
        let (x, q) = read_i32(d, p, be)?;
        (Some(x), q)
    } else {
        (None, p)
    };
    let (platform_blob, p) = if since_exec(v, Version::new(2020, 2, 0, "b1")) {
        let (x, q) = read_bytes(d, p, be)?;
        (Some(x), q)
    } else {
        (None, p)
    };
    let p = align(d, p);
    let (image_data, p) = if since_exec(v, Version::new(3, 4, 0, "")) {
        let (x, q) = read_bytes(d, p, be)?;
        (Some(x), q)
    } else {
        (None, p)
    };
    let (stream_data, p) = if since_exec(v, Version::new(5, 3, 0, "f1")) {
        let (x, q) = read_streaming_info(d, p, v, be)?;
        (Some(x), q)
    } else {
        (None, p)
    };
    Ok(((image_count, texture_dimension, texture_settings, lightmap_format, color_space,
        platform_blob, image_data, stream_data), p))
}

/// Reads a texture object from the start of `d`, laid out by version `v`.
#[verifier::rlimit(40)]
pub fn read_texture_2d(d: &[u8], v: &Version, be: bool) -> (r: Result<Texture2D, ParseError>)
    requires
        d@.len() <= isize::MAX,
    ensures
        (match r {
            Ok(t) => spec_texture_2d(d@, v@, be) matches Ok((tv, _)) && tv == t@,
            Err(e) => spec_texture_2d(d@, v@, be) == Err::<(Texture2DView, usize), ParseError>(e),
        }),
{
    let (h, p) = read_texture_head(d, 0, v, be)?;
    let (m, p) = read_texture_mips(d, p, v, be)?;
    let (l, p) = read_texture_limits(d, p, v, be)?;
    let (t, _p) = read_texture_tail(d, p, v, be)?;
    let (name, forced_fallback_format, downscale_fallback, is_alpha_channel_optional, width, height,
        complete_image_size, mips_stripped, texture_format) = h;
    let (mip_map, mip_count, is_readable, is_pre_processed, ignore_master_texture_limit) = m;
    let (ignore_mipmap_limit, mipmap_limit_group_name, read_allowed, streaming_mipmaps,
        streaming_mipmaps_priority) = l;
    let (image_count, texture_dimension, texture_settings, lightmap_format, color_space,
        platform_blob, image_data, stream_data) = t;
    Ok(Texture2D {
        name,
        forced_fallback_format,
        downscale_fallback,
        is_alpha_channel_optional,
        width,
        height,
        complete_image_size,
        mips_stripped,
        texture_format,
        mip_map,
        mip_count,
        is_readable,
        is_pre_processed,
        ignore_master_texture_limit,
        ignore_mipmap_limit,
        mipmap_limit_group_name,
        read_allowed,
        streaming_mipmaps,
        streaming_mipmaps_priority,
        image_count,
        texture_dimension,
        texture_settings,
        lightmap_format,
        color_space,
        platform_blob,
        image_data,
        stream_data,
    })
}

/// Reads a `Texture2D` object from its data, with the Unity version and
/// byte order of the serialized file that holds it.
pub fn construct_texture_2d(data: &[u8], serialized_file: &SerializedFile) -> (r: Result<Texture2D, ParseError>)
    requires
        data@.len() <= isize::MAX,
    ensures
        (match r {
            Ok(t) => with_version(serialized_file.unity_version@, |v: VersionView| spec_texture_2d(data@, v, serialized_file.big_endian)) matches Ok((tv, _)) && tv == t@,
            Err(e) => with_version(serialized_file.unity_version@, |v: VersionView| spec_texture_2d(data@, v, serialized_file.big_endian)) == Err::<(Texture2DView, usize), ParseError>(e),
        }),
{
    let v = serialized_file.version()?;
    read_texture_2d(data, &v, serialized_file.big_endian)
}

} // verus!
