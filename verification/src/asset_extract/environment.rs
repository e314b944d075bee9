//! Storage of the files and objects loaded from a bundle, and detection of
//! the kind of a file from its first bytes.

use std::collections::HashMap;
use vstd::hash_map::StringHashMap;
use vstd::prelude::*;

use crate::bytes::{be_u32, be_u64, signed64, slice_starts_with, starts_with, to_i64, u32_at, u64_at};

verus! {

broadcast use vstd::std_specs::hash::group_hash_axioms;

/// Resources and objects loaded from the bundles being extracted.
pub struct Environment {
    /// Resource data loaded from bundles, by path.
    resources: StringHashMap<Vec<u8>>,
    /// Object data loaded from resources, by path id.
    objects: HashMap<i64, Vec<u8>>,
}

/// The abstract contents of an environment: the resources by path and the
/// objects by path id, each as bytes.
pub struct EnvironmentView {
    pub resources: Map<Seq<char>, Seq<u8>>,
    pub objects: Map<i64, Seq<u8>>,
}

impl View for Environment {
    type V = EnvironmentView;

    closed spec fn view(&self) -> EnvironmentView {
        EnvironmentView {
            resources: self.resources@.map_values(|v: Vec<u8>| v@),
            objects: self.objects@.map_values(|v: Vec<u8>| v@),
        }
    }
}

impl Environment {
    /// Creates an environment with no resources and no objects.
    pub fn new() -> (e: Environment)
        ensures
            e@.resources == Map::<Seq<char>, Seq<u8>>::empty(),
            e@.objects == Map::<i64, Seq<u8>>::empty(),
    {
        let e = Environment { resources: StringHashMap::new(), objects: HashMap::new() };
        assert(e@.resources =~= Map::<Seq<char>, Seq<u8>>::empty());
        assert(e@.objects =~= Map::<i64, Seq<u8>>::empty());
        e
    }

    /// Stores the data of the resource at `path`, replacing any earlier one.
    pub fn register_cab(&mut self, path: &str, buf: Vec<u8>)
        ensures
            final(self)@.resources == old(self)@.resources.insert(path@, buf@),
            final(self)@.objects == old(self)@.objects,
    {
        self.resources.insert(path.to_owned(), buf);
        assert(self@.resources =~= old(self)@.resources.insert(path@, buf@));
    }

    /// The data of the resource at `path`, if one was stored.
    pub fn get_cab<'a>(&'a self, path: &str) -> (r: Option<&'a [u8]>)
        ensures
            match r {
                Some(b) => self@.resources.contains_key(path@) && b@ == self@.resources[path@],
                None => !self@.resources.contains_key(path@),
            },
    {
        match self.resources.get(path) {
            Some(v) => Some(v.as_slice()),
            None => None,
        }
    }

    /// Stores the data of the object `path_id`, replacing any earlier one.
    pub fn register_object(&mut self, path_id: i64, buf: Vec<u8>)
        ensures
            final(self)@.objects == old(self)@.objects.insert(path_id, buf@),
            final(self)@.resources == old(self)@.resources,
    {
        self.objects.insert(path_id, buf);
        assert(self@.objects =~= old(self)@.objects.insert(path_id, buf@));
    }

    /// The data of the object `path_id`, if one was stored.
    pub fn get_object(&self, path_id: i64) -> (r: Option<&[u8]>)
        ensures
            match r {
                Some(b) => self@.objects.contains_key(path_id) && b@ == self@.objects[path_id],
                None => !self@.objects.contains_key(path_id),
            },
    {
        match self.objects.get(&path_id) {
            Some(v) => Some(v.as_slice()),
            None => None,
        }
    }
}

impl Default for Environment {
    fn default() -> (e: Environment)
        ensures
            e@.resources == Map::<Seq<char>, Seq<u8>>::empty(),
            e@.objects == Map::<i64, Seq<u8>>::empty(),
    {
        Environment::new()
    }
}

/// A resource stored under a path is what a later lookup of that path
/// returns, whatever else is stored afterwards under other paths or ids.
pub proof fn law_register_then_get(e: EnvironmentView, path: Seq<char>, other: Seq<char>, data: Seq<u8>, more: Seq<u8>, id: i64, obj: Seq<u8>)
    requires
        other != path,
    ensures
        e.resources.insert(path, data).insert(other, more)[path] == data,
        e.resources.insert(path, data).insert(other, more).contains_key(path),
        e.objects.insert(id, obj)[id] == obj,
{
}

/// The kind of a file found in a bundle.
#[derive(Debug, Clone, Copy, PartialEq, Eq, PartialOrd, Ord, Hash)]
pub enum FileType {
    AssetsFile,
    BundleFile,
    WebFile,
    ResourceFile,
    Zip,
}

impl FileType {
    /// The number Unity tools use for this kind of file.
    pub fn code(&self) -> (c: u32)
        ensures
            c == spec_file_type_code(*self),
    {
        match self {
            FileType::AssetsFile => 0,
            FileType::BundleFile => 1,
            FileType::WebFile => 2,
            FileType::ResourceFile => 9,
            FileType::Zip => 10,
        }
    }
}

/// The number Unity tools use for each kind of file.
pub open spec fn spec_file_type_code(t: FileType) -> u32 {
    match t {
        FileType::AssetsFile => 0,
        FileType::BundleFile => 1,
        FileType::WebFile => 2,
        FileType::ResourceFile => 9,
        FileType::Zip => 10,
    }
}

/// `UnityWeb`.
pub open spec fn sig_unity_web() -> Seq<u8> {
    seq![0x55u8, 0x6e, 0x69, 0x74, 0x79, 0x57, 0x65, 0x62]
}

/// `UnityRaw`.
pub open spec fn sig_unity_raw() -> Seq<u8> {
    seq![0x55u8, 0x6e, 0x69, 0x74, 0x79, 0x52, 0x61, 0x77]
}

/// Eight `0xfa` bytes.
pub open spec fn sig_fa() -> Seq<u8> {
    seq![0xfau8, 0xfa, 0xfa, 0xfa, 0xfa, 0xfa, 0xfa, 0xfa]
}

/// `UnityFS`.
pub open spec fn sig_unity_fs() -> Seq<u8> {
    seq![0x55u8, 0x6e, 0x69, 0x74, 0x79, 0x46, 0x53]
}

/// `UnityWebData1.0`.
pub open spec fn sig_unity_web_data() -> Seq<u8> {
    seq![
        0x55u8, 0x6e, 0x69, 0x74, 0x79, 0x57, 0x65, 0x62, 0x44, 0x61, 0x74, 0x61, 0x31, 0x2e,
        0x30,
    ]
}

/// `PK\x03\x04`, the start of a zip archive.
pub open spec fn sig_zip() -> Seq<u8> {
    seq![0x50u8, 0x4b, 0x03, 0x04]
}

/// `\x1f\x8b`, the start of gzip data.
pub open spec fn sig_gzip() -> Seq<u8> {
    seq![0x1fu8, 0x8b]
}

/// `brotli`.
pub open spec fn sig_brotli() -> Seq<u8> {
    seq![0x62u8, 0x72, 0x6f, 0x74, 0x6c, 0x69]
}

/// Whether the header of a serialized file read from `d` is consistent:
/// the format version is at most 100 and the metadata size, file size,
/// version and data offset all lie within the file and before its end.
/// From format version 22 on, the metadata size and data offset are read
/// from their wider fields at offsets 20 and 32.
pub open spec fn serialized_header_ok(d: Seq<u8>) -> bool {
    let n = d.len() as int;
    let file_size = be_u32(d, 4);
    let version = be_u32(d, 8);
    let metadata_size = if version >= 22 { be_u32(d, 20) } else { be_u32(d, 0) };
    let data_offset = if version >= 22 { signed64(be_u64(d, 32)) } else { be_u32(d, 12) };
    !(version > 100 || file_size > n || metadata_size > n || version > n || data_offset < 0
        || data_offset > n || file_size < metadata_size || file_size < data_offset)
}

/// The kind of file whose content is `d`.
pub open spec fn spec_file_type(d: Seq<u8>) -> FileType {
    if d.len() < 20 {
        FileType::ResourceFile
    } else if starts_with(d, sig_unity_web()) || starts_with(d, sig_unity_raw()) || starts_with(
        d,
        sig_fa(),
    ) || starts_with(d, sig_unity_fs()) {
        FileType::BundleFile
    } else if starts_with(d, sig_unity_web_data()) {
        FileType::WebFile
    } else if starts_with(d, sig_zip()) {
        FileType::Zip
    } else if d.len() < 128 {
        FileType::ResourceFile
    } else if starts_with(d, sig_gzip()) {
        FileType::WebFile
    } else if starts_with(d, sig_brotli()) {
        FileType::WebFile
    } else if serialized_header_ok(d) {
        FileType::AssetsFile
    } else {
        FileType::ResourceFile
    }
}

/// Detects the kind of file whose content is `data`.
pub fn check_file_type(data: &[u8]) -> (t: FileType)
    ensures
        t == spec_file_type(data@),
{
    let n = data.len();
    if n < 20 {
        return FileType::ResourceFile;
    }
    let unity_web: [u8; 8] = [0x55, 0x6e, 0x69, 0x74, 0x79, 0x57, 0x65, 0x62];
    let unity_raw: [u8; 8] = [0x55, 0x6e, 0x69, 0x74, 0x79, 0x52, 0x61, 0x77];
    let fa: [u8; 8] = [0xfa, 0xfa, 0xfa, 0xfa, 0xfa, 0xfa, 0xfa, 0xfa];
    let unity_fs: [u8; 7] = [0x55, 0x6e, 0x69, 0x74, 0x79, 0x46, 0x53];
    let unity_web_data: [u8; 15] = [
        0x55, 0x6e, 0x69, 0x74, 0x79, 0x57, 0x65, 0x62, 0x44, 0x61, 0x74, 0x61, 0x31, 0x2e, 0x30,
    ];
    let zip: [u8; 4] = [0x50, 0x4b, 0x03, 0x04];
    let gzip: [u8; 2] = [0x1f, 0x8b];
    let brotli: [u8; 6] = [0x62, 0x72, 0x6f, 0x74, 0x6c, 0x69];
    assert(unity_web@ =~= sig_unity_web());
    assert(unity_raw@ =~= sig_unity_raw());
    assert(fa@ =~= sig_fa());
    assert(unity_fs@ =~= sig_unity_fs());
    assert(unity_web_data@ =~= sig_unity_web_data());
    assert(zip@ =~= sig_zip());
    assert(gzip@ =~= sig_gzip());
    assert(brotli@ =~= sig_brotli());
    if slice_starts_with(data, &unity_web) || slice_starts_with(data, &unity_raw)
        || slice_starts_with(data, &fa) || slice_starts_with(data, &unity_fs) {
        return FileType::BundleFile;
    }
    if slice_starts_with(data, &unity_web_data) {
        return FileType::WebFile;
    }
    if slice_starts_with(data, &zip) {
        return FileType::Zip;
    }
    if n < 128 {
        return FileType::ResourceFile;
    }
    if slice_starts_with(data, &gzip) {
        return FileType::WebFile;
    }
    if slice_starts_with(data, &brotli) {
        return FileType::WebFile;
    }
    let file_len = n as u64;
    let mut metadata_size = u32_at(data, 0, true) as u64;
    let file_size = u32_at(data, 4, true) as u64;
    let version = u32_at(data, 8, true) as u64;
    let mut data_offset = u32_at(data, 12, true) as i64;
    if version >= 22 {
        metadata_size = u32_at(data, 20, true) as u64;
        data_offset = to_i64(u64_at(data, 32, true));
    }
    if version > 100 || file_size > file_len || metadata_size > file_len || version > file_len
        || data_offset < 0 || data_offset as u64 > file_len || file_size < metadata_size
        || (file_size as i64) < data_offset {
        return FileType::ResourceFile;
    }
    FileType::AssetsFile
}

/// Data that begins with a prefix begins with the prefix's first byte.
proof fn lemma_prefix_first_byte(d: Seq<u8>, p: Seq<u8>)
    requires
        starts_with(d, p),
        p.len() > 0,
    ensures
        d[0] == p[0],
{
    assert(d.take(p.len() as int)[0] == d[0]);
}

/// Whether `d` holds none of the signatures of bundles, web files,
/// archives and compressed data: its first byte starts none of them.
pub open spec fn unsigned_start(d: Seq<u8>) -> bool {
    d[0] != 0x55 && d[0] != 0xfa && d[0] != 0x50 && d[0] != 0x1f && d[0] != 0x62
}

/// Data of at least 128 bytes that starts with no signature is a
/// serialized assets file exactly when its big-endian header is
/// consistent: format version at most 100; file size, metadata size,
/// version and data offset none negative nor past the end of the data;
/// and the file size at least the metadata size and the data offset.
/// From format version 22 the metadata size is read at offset 20 and the
/// data offset, signed, at 32. Otherwise it is a resource file; shorter
/// data that starts with no signature is one too.
pub proof fn law_unsigned_data_kind(d: Seq<u8>)
    requires
        d.len() >= 1,
        unsigned_start(d),
    ensures
        d.len() < 128 ==> spec_file_type(d) == FileType::ResourceFile,
        d.len() >= 128 ==> ({
            let n = d.len() as int;
            let file_size = be_u32(d, 4);
            let version = be_u32(d, 8);
            let metadata_size = if version >= 22 { be_u32(d, 20) } else { be_u32(d, 0) };
            let data_offset = if version >= 22 { signed64(be_u64(d, 32)) } else { be_u32(d, 12) };
            let consistent = version <= 100 && 0 <= file_size <= n && 0 <= metadata_size <= n
                && 0 <= version <= n && 0 <= data_offset <= n && metadata_size <= file_size
                && data_offset <= file_size;
            spec_file_type(d) == (if consistent { FileType::AssetsFile } else { FileType::ResourceFile })
        }),
{
    if d.len() >= 20 {
        if starts_with(d, sig_unity_web()) { lemma_prefix_first_byte(d, sig_unity_web()); }
        if starts_with(d, sig_unity_raw()) { lemma_prefix_first_byte(d, sig_unity_raw()); }
        if starts_with(d, sig_fa()) { lemma_prefix_first_byte(d, sig_fa()); }
        if starts_with(d, sig_unity_fs()) { lemma_prefix_first_byte(d, sig_unity_fs()); }
        if starts_with(d, sig_unity_web_data()) { lemma_prefix_first_byte(d, sig_unity_web_data()); }
        if starts_with(d, sig_zip()) { lemma_prefix_first_byte(d, sig_zip()); }
        if starts_with(d, sig_gzip()) { lemma_prefix_first_byte(d, sig_gzip()); }
        if starts_with(d, sig_brotli()) { lemma_prefix_first_byte(d, sig_brotli()); }
    }
}

/// Data of at least 20 bytes that starts with `UnityFS`, `UnityWeb`,
/// `UnityRaw` or eight `0xfa` bytes is a bundle; `PK\x03\x04` marks a
/// zip archive; data of at least 128 bytes that starts with the gzip
/// magic `1f 8b` is a web file. Data under 20 bytes is a resource file.
pub proof fn law_signed_data_kind(d: Seq<u8>)
    ensures
        d.len() < 20 ==> spec_file_type(d) == FileType::ResourceFile,
        d.len() >= 20 && d.take(7) == seq![0x55u8, 0x6e, 0x69, 0x74, 0x79, 0x46, 0x53]
            ==> spec_file_type(d) == FileType::BundleFile,
        d.len() >= 20 && d.take(8) == seq![0x55u8, 0x6e, 0x69, 0x74, 0x79, 0x57, 0x65, 0x62]
            ==> spec_file_type(d) == FileType::BundleFile,
        d.len() >= 20 && d.take(8) == seq![0x55u8, 0x6e, 0x69, 0x74, 0x79, 0x52, 0x61, 0x77]
            ==> spec_file_type(d) == FileType::BundleFile,
        d.len() >= 20 && d.take(8) == seq![0xfau8, 0xfa, 0xfa, 0xfa, 0xfa, 0xfa, 0xfa, 0xfa]
            ==> spec_file_type(d) == FileType::BundleFile,
        d.len() >= 20 && d.take(4) == seq![0x50u8, 0x4b, 0x03, 0x04] ==> spec_file_type(d) == FileType::Zip,
        d.len() >= 128 && d.take(2) == seq![0x1fu8, 0x8b] ==> spec_file_type(d) == FileType::WebFile,
{
    if d.len() >= 20 {
        assert(sig_unity_fs() =~= seq![0x55u8, 0x6e, 0x69, 0x74, 0x79, 0x46, 0x53]);
        assert(sig_unity_web() =~= seq![0x55u8, 0x6e, 0x69, 0x74, 0x79, 0x57, 0x65, 0x62]);
        assert(sig_unity_raw() =~= seq![0x55u8, 0x6e, 0x69, 0x74, 0x79, 0x52, 0x61, 0x77]);
        assert(sig_fa() =~= seq![0xfau8, 0xfa, 0xfa, 0xfa, 0xfa, 0xfa, 0xfa, 0xfa]);
        assert(sig_zip() =~= seq![0x50u8, 0x4b, 0x03, 0x04]);
        assert(sig_gzip() =~= seq![0x1fu8, 0x8b]);
        if d.take(4) == seq![0x50u8, 0x4b, 0x03, 0x04] {
            assert(d[0] == d.take(4)[0]);
            if starts_with(d, sig_unity_web()) { lemma_prefix_first_byte(d, sig_unity_web()); }
            if starts_with(d, sig_unity_raw()) { lemma_prefix_first_byte(d, sig_unity_raw()); }
            if starts_with(d, sig_fa()) { lemma_prefix_first_byte(d, sig_fa()); }
            if starts_with(d, sig_unity_fs()) { lemma_prefix_first_byte(d, sig_unity_fs()); }
            if starts_with(d, sig_unity_web_data()) { lemma_prefix_first_byte(d, sig_unity_web_data()); }
        }
        if d.take(2) == seq![0x1fu8, 0x8b] {
            assert(d[0] == d.take(2)[0]);
            if starts_with(d, sig_unity_web()) { lemma_prefix_first_byte(d, sig_unity_web()); }
            if starts_with(d, sig_unity_raw()) { lemma_prefix_first_byte(d, sig_unity_raw()); }
            if starts_with(d, sig_fa()) { lemma_prefix_first_byte(d, sig_fa()); }
            if starts_with(d, sig_unity_fs()) { lemma_prefix_first_byte(d, sig_unity_fs()); }
            if starts_with(d, sig_unity_web_data()) { lemma_prefix_first_byte(d, sig_unity_web_data()); }
            if starts_with(d, sig_zip()) { lemma_prefix_first_byte(d, sig_zip()); }
        }
    }
}

} // verus!
