use mltd::asset_extract::asset_bundle::{construct_asset_bundle, construct_p_ptr, ObjectPointer};
use mltd::asset_extract::mesh::{construct_stream_info, construct_sub_mesh};
use mltd::asset_extract::reader::{
    align, read_aligned_string, read_bytes, read_i32, read_string, read_u16, read_u32, ParseError,
};
use mltd::asset_extract::serialized::SerializedFile;
use mltd::asset_extract::sprite::construct_sprite_render_data;
use mltd::asset_extract::text_asset::construct_text_asset;
use mltd::asset_extract::environment::Environment;
use mltd::asset_extract::resource::{resource_name_of, texture_data_of};
use mltd::asset_extract::text_asset::is_audio_text_asset;
use mltd::asset_extract::texture_2d::{construct_texture_2d, StreamingInfo};

struct Bytes {
    v: Vec<u8>,
    be: bool,
}

impl Bytes {
    fn new(be: bool) -> Self {
        Bytes { v: Vec::new(), be }
    }
    fn u8(&mut self, x: u8) -> &mut Self {
        self.v.push(x);
        self
    }
    fn u16(&mut self, x: u16) -> &mut Self {
        let b = if self.be { x.to_be_bytes() } else { x.to_le_bytes() };
        self.v.extend_from_slice(&b);
        self
    }
    fn u32(&mut self, x: u32) -> &mut Self {
        let b = if self.be { x.to_be_bytes() } else { x.to_le_bytes() };
        self.v.extend_from_slice(&b);
        self
    }
    fn i32(&mut self, x: i32) -> &mut Self {
        self.u32(x as u32)
    }
    fn u64(&mut self, x: u64) -> &mut Self {
        let b = if self.be { x.to_be_bytes() } else { x.to_le_bytes() };
        self.v.extend_from_slice(&b);
        self
    }
    fn i64(&mut self, x: i64) -> &mut Self {
        self.u64(x as u64)
    }
    fn bytes(&mut self, b: &[u8]) -> &mut Self {
        self.u32(b.len() as u32);
        self.v.extend_from_slice(b);
        self
    }
    fn align(&mut self) -> &mut Self {
        while self.v.len() % 4 != 0 {
            self.v.push(0);
        }
        self
    }
    fn aligned_str(&mut self, s: &str) -> &mut Self {
        self.bytes(s.as_bytes()).align()
    }
}

fn file(version: &str, big_endian: bool) -> SerializedFile {
    SerializedFile { unity_version: version.to_string(), format_version: 22, big_endian }
}

#[test]
fn primitive_reads() {
    let d = [0x01, 0x02, 0x03, 0x04, 0x05];
    assert_eq!(read_u32(&d, 0, false), Ok((0x04030201, 4)));
    assert_eq!(read_u32(&d, 0, true), Ok((0x01020304, 4)));
    assert_eq!(read_u16(&d, 3, true), Ok((0x0405, 5)));
    assert_eq!(read_u32(&d, 2, false), Err(ParseError::UnexpectedEof));
    assert_eq!(read_i32(&[0xff, 0xff, 0xff, 0xff], 0, false), Ok((-1, 4)));
    assert_eq!(align(&d, 1), 4);
    assert_eq!(align(&d, 4), 4);
}

#[test]
fn string_reads() {
    let mut b = Bytes::new(false);
    b.bytes(b"abc").u8(9);
    assert_eq!(read_string(&b.v, 0, false).unwrap(), ("abc".to_string(), 7));
    assert_eq!(read_aligned_string(&b.v, 0, false).unwrap(), ("abc".to_string(), 8));
    let bad = [1u8, 0, 0, 0, 0xff];
    assert_eq!(read_string(&bad, 0, false), Err(ParseError::InvalidUtf8));
    let short = [5u8, 0, 0, 0, b'a'];
    assert_eq!(read_bytes(&short, 0, false), Err(ParseError::UnexpectedEof));
    let huge = [0u8, 0, 0, 0x40 + 1];
    assert_eq!(read_bytes(&huge, 0, true), Err(ParseError::UnexpectedEof));
    let huge_le = [1u8, 0, 0, 0x40];
    assert_eq!(read_bytes(&huge_le, 0, false), Err(ParseError::TooLarge));
    let empty_past_end = [0u8; 4];
    assert_eq!(read_bytes(&empty_past_end, 0, false).unwrap(), (Vec::new(), 4));
}

fn texture_2020(be: bool) -> Vec<u8> {
    let mut b = Bytes::new(be);
    b.aligned_str("tex")
        .i32(-1) // forced fallback format
        .u8(0) // downscale fallback
        .u8(1) // alpha channel optional
        .align()
        .i32(64)
        .i32(32)
        .i32(2048)
        .i32(0) // mips stripped
        .i32(4) // format
        .i32(1) // mip count
        .u8(1) // readable
        .u8(0) // preprocessed
        .u8(0) // ignore master texture limit
        .u8(0) // streaming mipmaps
        .align()
        .i32(0) // streaming priority
        .i32(1) // image count
        .i32(2) // dimension
        .i32(1) // filter
        .i32(1) // aniso
        .u32(0x3f80_0000) // mip bias 1.0
        .i32(0)
        .i32(1)
        .i32(2) // wrap u v w
        .i32(6) // lightmap
        .i32(1) // color space
        .bytes(&[]) // platform blob
        .align()
        .bytes(&[1, 2, 3, 4])
        .u64(0x1234) // stream offset
        .u32(0)
        .bytes(b"");
    b.v.clone()
}

#[test]
fn texture_2d_fields() {
    for be in [false, true] {
        let t = construct_texture_2d(&texture_2020(be), &file("2020.3.32f1", be)).unwrap();
        assert_eq!(t.name, "tex");
        assert_eq!(t.forced_fallback_format, Some(-1));
        assert_eq!(t.downscale_fallback, Some(false));
        assert_eq!(t.is_alpha_channel_optional, Some(true));
        assert_eq!((t.width, t.height, t.complete_image_size), (64, 32, 2048));
        assert_eq!(t.mips_stripped, Some(0));
        assert_eq!(t.texture_format, 4);
        assert_eq!(t.mip_map, None);
        assert_eq!(t.mip_count, Some(1));
        assert!(t.is_readable);
        assert_eq!(t.ignore_mipmap_limit, None);
        assert_eq!(t.mipmap_limit_group_name, None);
        assert_eq!(t.streaming_mipmaps_priority, Some(0));
        assert_eq!(t.texture_settings.mip_bias, 0x3f80_0000);
        assert_eq!(t.texture_settings.wrap_mode, None);
        assert_eq!(t.texture_settings.wrap_w, Some(2));
        assert_eq!(t.lightmap_format, 6);
        assert_eq!(t.platform_blob, Some(Vec::new()));
        assert_eq!(t.image_data, Some(vec![1, 2, 3, 4]));
        let s = t.stream_data.unwrap();
        assert_eq!((s.offset, s.size, s.path.as_str()), (0x1234, 0, ""));
    }
}

#[test]
fn texture_2d_errors() {
    let data = texture_2020(false);
    assert_eq!(
        construct_texture_2d(&data, &file("not a version", false)).unwrap_err(),
        ParseError::InvalidUnityVersion
    );
    assert_eq!(
        construct_texture_2d(&data[..data.len() - 3], &file("2020.3.32f1", false)).unwrap_err(),
        ParseError::UnexpectedEof
    );
}

#[test]
fn pointers_follow_format_version() {
    let mut b = Bytes::new(false);
    b.i32(1).i64(-5);
    assert_eq!(
        construct_p_ptr(&b.v, 0, &file("2020.3.32f1", false)),
        Ok((ObjectPointer { file_id: 1, path_id: -5 }, 12))
    );
    let old = SerializedFile { unity_version: "5.0.0f4".to_string(), format_version: 9, big_endian: false };
    let mut c = Bytes::new(false);
    c.i32(0).i32(7);
    assert_eq!(construct_p_ptr(&c.v, 0, &old), Ok((ObjectPointer { file_id: 0, path_id: 7 }, 8)));
}

#[test]
fn asset_bundle_fields() {
    let mut b = Bytes::new(false);
    b.aligned_str("bundle")
        .u32(1)
        .i32(0)
        .i64(11) // preload table
        .u32(1)
        .aligned_str("assets/a.png")
        .i32(0)
        .i32(1)
        .i32(0)
        .i64(11) // container
        .i32(0)
        .i32(0)
        .i32(0)
        .i64(0) // main asset
        .u32(7) // runtime compatibility
        .aligned_str("bundle.unity3d")
        .u32(1)
        .aligned_str("dep")
        .u8(0)
        .align()
        .i32(0)
        .i32(0)
        .u32(0);
    let bundle = construct_asset_bundle(&b.v, &file("2020.3.32f1", false)).unwrap();
    assert_eq!(bundle.name, "bundle");
    assert_eq!(bundle.preload_table, vec![ObjectPointer { file_id: 0, path_id: 11 }]);
    assert_eq!(bundle.container.len(), 1);
    assert_eq!(bundle.container[0].0, "assets/a.png");
    assert_eq!(bundle.container[0].1.asset.path_id, 11);
    assert_eq!(bundle.runtime_compatibility, Some(7));
    assert_eq!(bundle.asset_bundle_name.as_deref(), Some("bundle.unity3d"));
    assert_eq!(bundle.dependencies, Some(vec!["dep".to_string()]));
    assert_eq!(bundle.script_compatibility.is_none(), true);
    assert_eq!(bundle.scene_hashes, Some(Vec::new()));
}

#[test]
fn text_asset_fields() {
    let mut b = Bytes::new(true);
    b.aligned_str("song").bytes(&[0xde, 0xad]);
    let t = construct_text_asset(&b.v, &file("2020.3.32f1", true)).unwrap();
    assert_eq!(t.name, "song");
    assert_eq!(t.path_name, None);
    assert_eq!(t.script, vec![0xde, 0xad]);
    let mut old = Bytes::new(false);
    old.aligned_str("a").aligned_str("p").bytes(&[1]);
    let t = construct_text_asset(&old.v, &file("5.0.0f4", false)).unwrap();
    assert_eq!(t.path_name.as_deref(), Some("p"));
}

#[test]
fn sub_mesh_and_stream() {
    let mut b = Bytes::new(false);
    b.u32(0).u32(6).i32(0).u32(0).u32(0).u32(4);
    for _ in 0..6 {
        b.u32(0);
    }
    let (m, end) = construct_sub_mesh(&b.v, 0, &file("2020.3.32f1", false)).unwrap();
    assert_eq!((m.index_count, m.topology, m.base_vertex, m.vertex_count), (6, Some(0), Some(0), 4));
    assert_eq!(m.is_tri_strip, None);
    assert_eq!(end, b.v.len());

    let mut s = Bytes::new(false);
    s.u32(3).u32(0).u8(12).u8(0).u16(0);
    let (st, _) = construct_stream_info(&s.v, 0, &file("2020.3.32f1", false)).unwrap();
    assert_eq!((st.channel_mask, st.stride, st.align, st.frequency), (3, 12, None, Some(0)));
}

#[test]
fn sprite_render_data_minimal() {
    let mut d = Bytes::new(false);
    d.i32(0).i64(9).i32(0).i64(0).u32(0).u32(0).bytes(&[]).align();
    d.u32(0).u32(0).bytes(&[]).align(); // vertex data
    d.u32(0); // bind poses
    for _ in 0..6 {
        d.u32(0); // rect and offset
    }
    d.u32(0).u32(0); // atlas rect offset
    d.u32(5); // settings
    for _ in 0..4 {
        d.u32(0); // uv transform
    }
    d.u32(0x3f80_0000); // downscale multiplier
    let (rd, end) = construct_sprite_render_data(&d.v, 0, &file("2020.3.32f1", false)).unwrap();
    assert_eq!(rd.texture, ObjectPointer { file_id: 0, path_id: 9 });
    assert_eq!(rd.settings_raw, 5);
    assert_eq!(rd.downscale_multiplier, Some(0x3f80_0000));
    assert_eq!(rd.source_skin.is_none(), true);
    assert_eq!(end, d.v.len());
}

#[test]
fn resource_names() {
    assert_eq!(resource_name_of("archive:/CAB-abc/CAB-abc.resS"), "CAB-abc.resS");
    assert_eq!(resource_name_of("CAB-abc.resS"), "CAB-abc.resS");
    assert_eq!(resource_name_of("dir/"), "");
    assert_eq!(resource_name_of(""), "");
}

#[test]
fn texture_data_comes_from_the_object_or_its_resource() {
    let mut t = construct_texture_2d(&texture_2020(false), &file("2020.3.32f1", false)).unwrap();
    let mut env = Environment::new();
    env.register_cab("CAB-abc.resS", vec![10, 11, 12, 13, 14, 15]);
    assert_eq!(texture_data_of(&t, &env), Some(vec![1, 2, 3, 4]));
    t.image_data = Some(Vec::new());
    t.stream_data = Some(StreamingInfo { offset: 2, size: 3, path: "archive:/CAB-abc/CAB-abc.resS".to_string() });
    assert_eq!(texture_data_of(&t, &env), Some(vec![12, 13, 14]));
    t.stream_data = Some(StreamingInfo { offset: 4, size: 3, path: "archive:/CAB-abc/CAB-abc.resS".to_string() });
    assert_eq!(texture_data_of(&t, &env), None);
    t.stream_data = Some(StreamingInfo { offset: 0, size: 1, path: "archive:/CAB-x/CAB-x.resS".to_string() });
    assert_eq!(texture_data_of(&t, &env), None);
    t.image_data = None;
    t.stream_data = None;
    assert_eq!(texture_data_of(&t, &env), None);
}

#[test]
fn audio_text_assets() {
    assert!(is_audio_text_asset("song_001.acb"));
    assert!(is_audio_text_asset("x.acb.bytes"));
    assert!(!is_audio_text_asset("song_001.awb"));
    assert!(!is_audio_text_asset(".ac"));
    assert!(!is_audio_text_asset(""));
}
