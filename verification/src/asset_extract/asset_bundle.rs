//! The `AssetBundle` class, which lists the assets of a bundle, and the
//! object pointers it is made of.

use vstd::prelude::*;

use super::reader::{
    deep_read, pos_ok, read_aligned_string, read_array, read_bool, read_i32, read_i64, read_ok,
    read_u32, spec_read_aligned_string, spec_read_array_of, spec_read_bool, spec_read_i32,
    spec_read_i64, spec_read_u32, ElementReader, ParseError, Read,
};
use super::serialized::{spec_opt, with_version, SerializedFile};
use super::texture_2d::since;
use super::version::{unity, version_between, Version, VersionView};

verus! {

/// A pointer to an object: the file it is in (0 for the same file) and its
/// path ID within that file.
#[derive(Debug, Clone, Copy, PartialEq, Eq, Structural)]
pub struct ObjectPointer {
    pub file_id: i64,
    pub path_id: i64,
}

/// An entry of a bundle's container: where its preloaded objects are and
/// the asset itself.
#[derive(Debug, Clone, Copy, PartialEq, Eq, Structural)]
pub struct AssetInfo {
    pub preload_index: i32,
    pub preload_size: i32,
    pub asset: ObjectPointer,
}

/// A script class that a bundle was built against.
#[derive(Debug, Clone)]
pub struct AssetBundleScriptInfo {
    pub class_name: String,
    pub name_space: String,
    pub assembly_name: String,
    pub hash: u32,
}

/// The abstract value of an [`AssetBundleScriptInfo`].
pub struct AssetBundleScriptInfoView {
    pub class_name: Seq<char>,
    pub name_space: Seq<char>,
    pub assembly_name: Seq<char>,
    pub hash: u32,
}

/// A Unity `AssetBundle` object.
#[derive(Debug, Clone)]
pub struct AssetBundle {
    pub name: String,
    pub preload_table: Vec<ObjectPointer>,
    pub container: Vec<(String, AssetInfo)>,
    pub main_asset: AssetInfo,
    pub script_compatibility: Option<Vec<AssetBundleScriptInfo>>,
    pub class_compatibility: Option<Vec<(i32, u32)>>,
    pub class_version_map: Option<Vec<(i32, i32)>>,
    pub runtime_compatibility: Option<u32>,
    pub asset_bundle_name: Option<String>,
    pub dependencies: Option<Vec<String>>,
    pub is_streamed_scene_asset_bundle: Option<bool>,
    pub explicit_data_layout: Option<i32>,
    pub path_flags: Option<i32>,
    pub scene_hashes: Option<Vec<(String, String)>>,
}

/// The abstract value of an [`AssetBundle`].
pub struct AssetBundleView {
    pub name: Seq<char>,
    pub preload_table: Seq<ObjectPointer>,
    pub container: Seq<(Seq<char>, AssetInfo)>,
    pub main_asset: AssetInfo,
    pub script_compatibility: Option<Seq<AssetBundleScriptInfoView>>,
    pub class_compatibility: Option<Seq<(i32, u32)>>,
    pub class_version_map: Option<Seq<(i32, i32)>>,
    pub runtime_compatibility: Option<u32>,
    pub asset_bundle_name: Option<Seq<char>>,
    pub dependencies: Option<Seq<Seq<char>>>,
    pub is_streamed_scene_asset_bundle: Option<bool>,
    pub explicit_data_layout: Option<i32>,
    pub path_flags: Option<i32>,
    pub scene_hashes: Option<Seq<(Seq<char>, Seq<char>)>>,
}

impl DeepView for ObjectPointer {
    type V = ObjectPointer;

    open spec fn deep_view(&self) -> ObjectPointer {
        *self
    }
}

impl DeepView for AssetInfo {
    type V = AssetInfo;

    open spec fn deep_view(&self) -> AssetInfo {
        *self
    }
}

impl DeepView for AssetBundleScriptInfo {
    type V = AssetBundleScriptInfoView;

    open spec fn deep_view(&self) -> AssetBundleScriptInfoView {
        AssetBundleScriptInfoView {
            class_name: self.class_name@,
            name_space: self.name_space@,
            assembly_name: self.assembly_name@,
            hash: self.hash,
        }
    }
}

impl View for AssetBundle {
    type V = AssetBundleView;

    open spec fn view(&self) -> AssetBundleView {
        AssetBundleView {
            name: self.name@,
            preload_table: self.preload_table.deep_view(),
            container: self.container.deep_view(),
            main_asset: self.main_asset,
            script_compatibility: self.script_compatibility.deep_view(),
            class_compatibility: self.class_compatibility.deep_view(),
            class_version_map: self.class_version_map.deep_view(),
            runtime_compatibility: self.runtime_compatibility,
            asset_bundle_name: self.asset_bundle_name.deep_view(),
            dependencies: self.dependencies.deep_view(),
            is_streamed_scene_asset_bundle: self.is_streamed_scene_asset_bundle,
            explicit_data_layout: self.explicit_data_layout,
            path_flags: self.path_flags,
            scene_hashes: self.scene_hashes.deep_view(),
        }
    }
}

/// A pointer: the file ID as a 4-byte integer, then the path ID, a 4-byte
/// integer in files of format version below 14 and an 8-byte one after.
pub open spec fn spec_read_pointer(d: Seq<u8>, p: usize, format_version: u32, be: bool) -> Read<ObjectPointer> {
    match spec_read_i32(d, p, be) { Err(e) => Err(e), Ok((file_id, p)) =>
    match (if format_version < 14 {
        match spec_read_i32(d, p, be) { Ok((x, q)) => Ok((x as i64, q)), Err(e) => Err(e) }
    } else {
        spec_read_i64(d, p, be)
    }) { Err(e) => Err(e), Ok((path_id, p)) =>
    Ok((ObjectPointer { file_id: file_id as i64, path_id }, p))
    }}
}

/// A container entry's information: preload index and size, then the
/// asset's pointer.
pub open spec fn spec_read_asset_info(d: Seq<u8>, p: usize, format_version: u32, be: bool) -> Read<AssetInfo> {
    match spec_read_i32(d, p, be) { Err(e) => Err(e), Ok((preload_index, p)) =>
    match spec_read_i32(d, p, be) { Err(e) => Err(e), Ok((preload_size, p)) =>
    match spec_read_pointer(d, p, format_version, be) { Err(e) => Err(e), Ok((asset, p)) =>
    Ok((AssetInfo { preload_index, preload_size, asset }, p))
    }}}
}

/// Reads pointers as array elements.
pub struct PointerElements {
    pub format_version: u32,
    pub be: bool,
}

impl ElementReader for PointerElements {
    type Elem = ObjectPointer;

    open spec fn spec_read(&self, d: Seq<u8>, q: usize) -> Read<ObjectPointer> {
        spec_read_pointer(d, q, self.format_version, self.be)
    }

    fn read(&self, d: &[u8], q: usize) -> (r: Read<ObjectPointer>) {
        read_pointer(d, q, self.format_version, self.be)
    }
}

/// Reads container entries as array elements: the asset's path
/// (aligned), then its information.
pub struct ContainerElements {
    pub format_version: u32,
    pub be: bool,
}

impl ElementReader for ContainerElements {
    type Elem = (String, AssetInfo);

    open spec fn spec_read(&self, d: Seq<u8>, q: usize) -> Read<(Seq<char>, AssetInfo)> {
        match spec_read_aligned_string(d, q, self.be) { Err(e) => Err(e), Ok((key, q)) =>
        match spec_read_asset_info(d, q, self.format_version, self.be) { Err(e) => Err(e), Ok((info, q)) =>
        Ok(((key, info), q))
        }}
    }

    fn read(&self, d: &[u8], q: usize) -> (r: Read<(String, AssetInfo)>) {
        let (key, q) = read_aligned_string(d, q, self.be)?;
        let (info, q) = read_asset_info(d, q, self.format_version, self.be)?;
        Ok(((key, info), q))
    }
}

/// Reads script class entries as array elements: class name, namespace
/// and assembly name (each aligned), then a hash.
pub struct ScriptInfoElements {
    pub be: bool,
}

impl ElementReader for ScriptInfoElements {
    type Elem = AssetBundleScriptInfo;

    open spec fn spec_read(&self, d: Seq<u8>, q: usize) -> Read<AssetBundleScriptInfoView> {
        match spec_read_aligned_string(d, q, self.be) { Err(e) => Err(e), Ok((class_name, q)) =>
        match spec_read_aligned_string(d, q, self.be) { Err(e) => Err(e), Ok((name_space, q)) =>
        match spec_read_aligned_string(d, q, self.be) { Err(e) => Err(e), Ok((assembly_name, q)) =>
        match spec_read_u32(d, q, self.be) { Err(e) => Err(e), Ok((hash, q)) =>
        Ok((AssetBundleScriptInfoView { class_name, name_space, assembly_name, hash }, q))
        }}}}
    }

    fn read(&self, d: &[u8], q: usize) -> (r: Read<AssetBundleScriptInfo>) {
        let (class_name, q) = read_aligned_string(d, q, self.be)?;
        let (name_space, q) = read_aligned_string(d, q, self.be)?;
        let (assembly_name, q) = read_aligned_string(d, q, self.be)?;
        let (hash, q) = read_u32(d, q, self.be)?;
        Ok((AssetBundleScriptInfo { class_name, name_space, assembly_name, hash }, q))
    }
}

/// Reads class compatibility entries as array elements: a class ID and a
/// hash.
pub struct ClassCompatElements {
    pub be: bool,
}

impl ElementReader for ClassCompatElements {
    type Elem = (i32, u32);

    open spec fn spec_read(&self, d: Seq<u8>, q: usize) -> Read<(i32, u32)> {
        match spec_read_i32(d, q, self.be) { Err(e) => Err(e), Ok((a, q)) =>
        match spec_read_u32(d, q, self.be) { Err(e) => Err(e), Ok((b, q)) =>
        Ok(((a, b), q))
        }}
    }

    fn read(&self, d: &[u8], q: usize) -> (r: Read<(i32, u32)>) {
        let (a, q) = read_i32(d, q, self.be)?;
        let (b, q) = read_u32(d, q, self.be)?;
        Ok(((a, b), q))
    }
}

/// Reads class version entries as array elements: a class ID and a
/// version.
pub struct ClassVersionElements {
    pub be: bool,
}

impl ElementReader for ClassVersionElements {
    type Elem = (i32, i32);

    open spec fn spec_read(&self, d: Seq<u8>, q: usize) -> Read<(i32, i32)> {
        match spec_read_i32(d, q, self.be) { Err(e) => Err(e), Ok((a, q)) =>
        match spec_read_i32(d, q, self.be) { Err(e) => Err(e), Ok((b, q)) =>
        Ok(((a, b), q))
        }}
    }

    fn read(&self, d: &[u8], q: usize) -> (r: Read<(i32, i32)>) {
        let (a, q) = read_i32(d, q, self.be)?;
        let (b, q) = read_i32(d, q, self.be)?;
        Ok(((a, b), q))
    }
}

/// Reads aligned strings as array elements.
pub struct StringElements {
    pub be: bool,
}

impl ElementReader for StringElements {
    type Elem = String;

    open spec fn spec_read(&self, d: Seq<u8>, q: usize) -> Read<Seq<char>> {
        spec_read_aligned_string(d, q, self.be)
    }

    fn read(&self, d: &[u8], q: usize) -> (r: Read<String>) {
        read_aligned_string(d, q, self.be)
    }
}

/// Reads scene hash entries as array elements: two aligned strings.
pub struct SceneHashElements {
    pub be: bool,
}

impl ElementReader for SceneHashElements {
    type Elem = (String, String);

    open spec fn spec_read(&self, d: Seq<u8>, q: usize) -> Read<(Seq<char>, Seq<char>)> {
        match spec_read_aligned_string(d, q, self.be) { Err(e) => Err(e), Ok((a, q)) =>
        match spec_read_aligned_string(d, q, self.be) { Err(e) => Err(e), Ok((b, q)) =>
        Ok(((a, b), q))
        }}
    }

    fn read(&self, d: &[u8], q: usize) -> (r: Read<(String, String)>) {
        let (a, q) = read_aligned_string(d, q, self.be)?;
        let (b, q) = read_aligned_string(d, q, self.be)?;
        Ok(((a, b), q))
    }
}

/// The first fields of a bundle, read at `p`: name (aligned), preload
/// table, container, main asset, script and class compatibility.
pub open spec fn spec_bundle_head(d: Seq<u8>, p: usize, v: VersionView, fv: u32, be: bool)
    -> Read<(Seq<char>, Seq<ObjectPointer>, Seq<(Seq<char>, AssetInfo)>, AssetInfo, Option<Seq<AssetBundleScriptInfoView>>, Option<Seq<(i32, u32)>>)>
{
    match spec_read_aligned_string(d, p, be) { Err(e) => Err(e), Ok((name, p)) =>
    match (if since(v, unity(3, 4, 0, "")) { spec_read_array_of(d, p, be, PointerElements { format_version: fv, be }) } else { Ok((seq![], p)) }) { Err(e) => Err(e), Ok((preload, p)) =>
    match spec_read_array_of(d, p, be, ContainerElements { format_version: fv, be }) { Err(e) => Err(e), Ok((container, p)) =>
    match spec_read_asset_info(d, p, fv, be) { Err(e) => Err(e), Ok((main, p)) =>
    match spec_opt(version_between(v, unity(3, 4, 0, ""), unity(4, 7, 2, "")), spec_read_array_of(d, p, be, ScriptInfoElements { be }), p) { Err(e) => Err(e), Ok((scripts, p)) =>
    match spec_opt(version_between(v, unity(3, 5, 0, ""), unity(4, 7, 2, "")), spec_read_array_of(d, p, be, ClassCompatElements { be }), p) { Err(e) => Err(e), Ok((classes, p)) =>
    Ok(((name, preload, container, main, scripts, classes), p))
    }}}}}}
}

/// The last fields of a bundle, read at `p`: class version map, runtime
/// compatibility, bundle name (aligned), dependencies, streamed scene
/// flag, explicit data layout, path flags and scene hashes.
pub open spec fn spec_bundle_tail(d: Seq<u8>, p: usize, v: VersionView, be: bool)
    -> Read<(Option<Seq<(i32, i32)>>, Option<u32>, Option<Seq<char>>, Option<Seq<Seq<char>>>, Option<bool>, Option<i32>, Option<i32>, Option<Seq<(Seq<char>, Seq<char>)>>)>
{
    let five = since(v, unity(5, 0, 0, "f4"));
    let layout = since(v, unity(2017, 3, 0, "b1"));
    match spec_opt(version_between(v, unity(5, 4, 0, "f3"), unity(5, 4, 6, "f3")), spec_read_array_of(d, p, be, ClassVersionElements { be }), p) { Err(e) => Err(e), Ok((versions, p)) =>
    match spec_opt(since(v, unity(4, 2, 0, "")), spec_read_u32(d, p, be), p) { Err(e) => Err(e), Ok((runtime, p)) =>
    match spec_opt(five, spec_read_aligned_string(d, p, be), p) { Err(e) => Err(e), Ok((bundle_name, p)) =>
    match spec_opt(five, spec_read_array_of(d, p, be, StringElements { be }), p) { Err(e) => Err(e), Ok((deps, p)) =>
    match spec_opt(five, spec_read_bool(d, p), p) { Err(e) => Err(e), Ok((streamed, p)) =>
    match spec_opt(layout, spec_read_i32(d, p, be), p) { Err(e) => Err(e), Ok((explicit, p)) =>
    match spec_opt(since(v, unity(2017, 1, 0, "b2")), spec_read_i32(d, p, be), p) { Err(e) => Err(e), Ok((flags, p)) =>
    match spec_opt(layout, spec_read_array_of(d, p, be, SceneHashElements { be }), p) { Err(e) => Err(e), Ok((hashes, p)) =>
    Ok(((versions, runtime, bundle_name, deps, streamed, explicit, flags, hashes), p))
    }}}}}}}}
}

/// A bundle object as the version `v` of Unity lays it out, read from the
/// start of `d`, in a file of format version `fv`.
pub open spec fn spec_asset_bundle(d: Seq<u8>, v: VersionView, fv: u32, be: bool) -> Read<AssetBundleView> {
    match spec_bundle_head(d, 0, v, fv, be) { Err(e) => Err(e), Ok((h, p)) =>
    match spec_bundle_tail(d, p, v, be) { Err(e) => Err(e), Ok((t, p)) =>
    Ok((AssetBundleView {
        name: h.0,
        preload_table: h.1,
        container: h.2,
        main_asset: h.3,
        script_compatibility: h.4,
        class_compatibility: h.5,
        class_version_map: t.0,
        runtime_compatibility: t.1,
        asset_bundle_name: t.2,
        dependencies: t.3,
        is_streamed_scene_asset_bundle: t.4,
        explicit_data_layout: t.5,
        path_flags: t.6,
        scene_hashes: t.7,
    }, p))
    }}
}

/// Reads a pointer at `p`.
pub fn read_pointer(d: &[u8], p: usize, format_version: u32, be: bool) -> (r: Read<ObjectPointer>)
    requires
        pos_ok(d@, p),
    ensures
        r == spec_read_pointer(d@, p, format_version, be),
        read_ok(d@, r),
{
    let (file_id, p) = read_i32(d, p, be)?;
    let (path_id, p) = if format_version < 14 {
        let (x, q) = read_i32(d, p, be)?;
        (x as i64, q)
    } else {
        read_i64(d, p, be)?
    };
    Ok((ObjectPointer { file_id: file_id as i64, path_id }, p))
}

/// Reads a container entry's information at `p`.
pub fn read_asset_info(d: &[u8], p: usize, format_version: u32, be: bool) -> (r: Read<AssetInfo>)
    requires
        pos_ok(d@, p),
    ensures
        r == spec_read_asset_info(d@, p, format_version, be),
        read_ok(d@, r),
{
    let (preload_index, p) = read_i32(d, p, be)?;
    let (preload_size, p) = read_i32(d, p, be)?;
    let (asset, p) = read_pointer(d, p, format_version, be)?;
    Ok((AssetInfo { preload_index, preload_size, asset }, p))
}

/// Reads a pointer at `pos`, in the byte order and format version of the
/// serialized file.
pub fn construct_p_ptr(data: &[u8], pos: usize, serialized_file: &SerializedFile) -> (r: Read<ObjectPointer>)
    requires
        pos_ok(data@, pos),
    ensures
        r == spec_read_pointer(data@, pos, serialized_file.format_version, serialized_file.big_endian),
        read_ok(data@, r),
{
    read_pointer(data, pos, serialized_file.format_version, serialized_file.big_endian)
}

/// Reads a container entry's information at `pos`, in the byte order and
/// format version of the serialized file.
pub fn construct_asset_info(data: &[u8], pos: usize, serialized_file: &SerializedFile) -> (r: Read<AssetInfo>)
    requires
        pos_ok(data@, pos),
    ensures
        r == spec_read_asset_info(data@, pos, serialized_file.format_version, serialized_file.big_endian),
        read_ok(data@, r),
{
    read_asset_info(data, pos, serialized_file.format_version, serialized_file.big_endian)
}

/// Reads the first fields of a bundle.
fn read_bundle_head(d: &[u8], p: usize, v: &Version, fv: u32, be: bool)
    -> (r: Read<(String, Vec<ObjectPointer>, Vec<(String, AssetInfo)>, AssetInfo, Option<Vec<AssetBundleScriptInfo>>, Option<Vec<(i32, u32)>>)>)
    requires
        pos_ok(d@, p),
    ensures
        deep_read(r) == spec_bundle_head(d@, p, v@, fv, be),
        read_ok(d@, r),
{
    let (name, p) = read_aligned_string(d, p, be)?;
    let (preload_table, p) = if v.between(&Version::new(3, 4, 0, ""), &Version::new(2022, 3, 2, "f1")) {
        read_array(d, p, be, &PointerElements { format_version: fv, be })?
    } else {
        let e: Vec<ObjectPointer> = Vec::new();
        assert(e.deep_view() =~= Seq::<ObjectPointer>::empty());
        (e, p)
    };
    let (container, p) = read_array(d, p, be, &ContainerElements { format_version: fv, be })?;
    let (main_asset, p) = read_asset_info(d, p, fv, be)?;
    let (script_compatibility, p) = if v.between(&Version::new(3, 4, 0, ""), &Version::new(4, 7, 2, "")) {
        let (x, q) = read_array(d, p, be, &ScriptInfoElements { be })?;
        (Some(x), q)
    } else {
        (None, p)
    };
    let (class_compatibility, p) = if v.between(&Version::new(3, 5, 0, ""), &Version::new(4, 7, 2, "")) {
        let (x, q) = read_array(d, p, be, &ClassCompatElements { be })?;
        (Some(x), q)
    } else {
        (None, p)
    };
    Ok(((name, preload_table, container, main_asset, script_compatibility, class_compatibility), p))
}

/// Reads the last fields of a bundle.
fn read_bundle_tail(d: &[u8], p: usize, v: &Version, be: bool)
    -> (r: Read<(Option<Vec<(i32, i32)>>, Option<u32>, Option<String>, Option<Vec<String>>, Option<bool>, Option<i32>, Option<i32>, Option<Vec<(String, String)>>)>)
    requires
        pos_ok(d@, p),
    ensures
        deep_read(r) == spec_bundle_tail(d@, p, v@, be),
        read_ok(d@, r),
{
    let last = Version::new(2022, 3, 2, "f1");
    let five = v.between(&Version::new(5, 0, 0, "f4"), &last);
    let layout = v.between(&Version::new(2017, 3, 0, "b1"), &last);
    let (class_version_map, p) = if v.between(&Version::new(5, 4, 0, "f3"), &Version::new(5, 4, 6, "f3")) {
        let (x, q) = read_array(d, p, be, &ClassVersionElements { be })?;
        (Some(x), q)
    } else {
        (None, p)
    };
    let (runtime_compatibility, p) = if v.between(&Version::new(4, 2, 0, ""), &last) {
        let (x, q) = read_u32(d, p, be)?;
        (Some(x), q)
    } else {
        (None, p)
    };
    let (asset_bundle_name, p) = if five {
        let (x, q) = read_aligned_string(d, p, be)?;
        (Some(x), q)
    } else {
        (None, p)
    };
    let (dependencies, p) = if five {
        let (x, q) = read_array(d, p, be, &StringElements { be })?;
        (Some(x), q)
    } else {
        (None, p)
    };
    let (is_streamed_scene_asset_bundle, p) = if five {
        let (x, q) = read_bool(d, p)?;
        (Some(x), q)
    } else {
        (None, p)
    };
    let (explicit_data_layout, p) = if layout {
        let (x, q) = read_i32(d, p, be)?;
        (Some(x), q)
    } else {
        (None, p)
    };
    let (path_flags, p) = if v.between(&Version::new(2017, 1, 0, "b2"), &last) {
        let (x, q) = read_i32(d, p, be)?;
        (Some(x), q)
    } else {
        (None, p)
    };
    let (scene_hashes, p) = if layout {
        let (x, q) = read_array(d, p, be, &SceneHashElements { be })?;
        (Some(x), q)
    } else {
        (None, p)
    };
    Ok(((class_version_map, runtime_compatibility, asset_bundle_name, dependencies,
        is_streamed_scene_asset_bundle, explicit_data_layout, path_flags, scene_hashes), p))
}

/// Reads a bundle object from the start of `d`, laid out by version `v`.
pub fn read_asset_bundle(d: &[u8], v: &Version, format_version: u32, be: bool) -> (r: Result<AssetBundle, ParseError>)
    requires
        d@.len() <= isize::MAX,
    ensures
        (match r {
            Ok(b) => spec_asset_bundle(d@, v@, format_version, be) matches Ok((bv, _)) && bv == b@,
            Err(e) => spec_asset_bundle(d@, v@, format_version, be) == Err::<(AssetBundleView, usize), ParseError>(e),
        }),
{
    let (h, p) = read_bundle_head(d, 0, v, format_version, be)?;
    let (t, _p) = read_bundle_tail(d, p, v, be)?;
    let (name, preload_table, container, main_asset, script_compatibility, class_compatibility) = h;
    let (class_version_map, runtime_compatibility, asset_bundle_name, dependencies,
        is_streamed_scene_asset_bundle, explicit_data_layout, path_flags, scene_hashes) = t;
    Ok(AssetBundle {
        name,
        preload_table,
        container,
        main_asset,
        script_compatibility,
        class_compatibility,
        class_version_map,
        runtime_compatibility,
        asset_bundle_name,
        dependencies,
        is_streamed_scene_asset_bundle,
        explicit_data_layout,
        path_flags,
        scene_hashes,
    })
}

/// Reads an `AssetBundle` object from its data, with the Unity version,
/// format version and byte order of the serialized file that holds it.
pub fn construct_asset_bundle(data: &[u8], serialized_file: &SerializedFile) -> (r: Result<AssetBundle, ParseError>)
    requires
        data@.len() <= isize::MAX,
    ensures
        (match r {
            Ok(b) => with_version(serialized_file.unity_version@, |v: VersionView| spec_asset_bundle(data@, v, serialized_file.format_version, serialized_file.big_endian)) matches Ok((bv, _)) && bv == b@,
            Err(e) => with_version(serialized_file.unity_version@, |v: VersionView| spec_asset_bundle(data@, v, serialized_file.format_version, serialized_file.big_endian)) == Err::<(AssetBundleView, usize), ParseError>(e),
        }),
{
    let v = serialized_file.version()?;
    read_asset_bundle(data, &v, serialized_file.format_version, serialized_file.big_endian)
}

} // verus!
