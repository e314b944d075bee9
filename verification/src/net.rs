//! What the network clients send and receive: the version records of the
//! matsurihi.me API, the request URLs, and the requests and answers of an
//! AssetRipper server.

use vstd::prelude::*;

use crate::chars::{decimal, push_chars, push_decimal, push_signed, same_text, signed_decimal};

verus! {

/// Base URL of the matsurihi.me MLTD v2 API.
pub const MATSURI_API_ENDPOINT: &'static str = "https://api.matsurihi.me/api/mltd/v2";

/// An app version (`/version/assets/:app`).
#[derive(Debug, Clone)]
pub struct AppVersion {
    /// App version.
    pub version: String,
    /// Date and time of the forced update.
    pub updated_at: String,
    /// Revision number; `None` if the version was not released.
    pub revision: Option<u64>,
}

/// An asset version (`/version/assets/:version`).
#[derive(Debug, Clone)]
pub struct AssetVersion {
    /// File name of the manifest on the asset server.
    pub manifest_filename: String,
    /// Date and time of delivery.
    pub updated_at: String,
    /// Asset version.
    pub version: u64,
}

/// The latest versions (`/version/latest`).
#[derive(Debug, Clone)]
pub struct VersionInfo {
    pub app_version: AppVersion,
    pub asset_version: AssetVersion,
}

/// The URL of the latest versions.
pub fn latest_version_url() -> (url: String)
    ensures
        url@ == MATSURI_API_ENDPOINT@ + "/version/latest"@,
{
    let mut url = String::new();
    push_chars(&mut url, MATSURI_API_ENDPOINT);
    push_chars(&mut url, "/version/latest");
    url
}

/// The URL of all asset versions.
pub fn all_asset_versions_url() -> (url: String)
    ensures
        url@ == MATSURI_API_ENDPOINT@ + "/version/assets"@,
{
    let mut url = String::new();
    push_chars(&mut url, MATSURI_API_ENDPOINT);
    push_chars(&mut url, "/version/assets");
    url
}

/// The URL of asset version `version`.
pub fn asset_version_url(version: u64) -> (url: String)
    ensures
        url@ == MATSURI_API_ENDPOINT@ + "/version/assets/"@ + decimal(version as nat),
{
    let mut url = String::new();
    push_chars(&mut url, MATSURI_API_ENDPOINT);
    push_chars(&mut url, "/version/assets/");
    push_decimal(&mut url, version);
    url
}

/// What a network request failed at.
#[derive(Debug, Clone, Copy, PartialEq, Eq, Structural)]
pub enum NetworkErrorKind {
    /// Sending the request.
    Request,
    /// Decoding the response body.
    Decode,
}

/// A failed network request: what failed and the URL.
#[derive(Debug, Clone)]
pub struct NetworkError {
    pub kind: NetworkErrorKind,
    pub url: String,
}

impl NetworkError {
    /// Sending a request to `url` failed.
    pub fn request(url: String) -> (e: NetworkError)
        ensures
            e.kind == NetworkErrorKind::Request,
            e.url@ == url@,
    {
        NetworkError { kind: NetworkErrorKind::Request, url }
    }

    /// Decoding the response from `url` failed.
    pub fn decode(url: String) -> (e: NetworkError)
        ensures
            e.kind == NetworkErrorKind::Decode,
            e.url@ == url@,
    {
        NetworkError { kind: NetworkErrorKind::Decode, url }
    }
}

/// A row of AssetRipper's collection view: path ID, class and name.
#[derive(Debug, Clone, PartialEq, Eq)]
pub struct AssetEntry(pub i64, pub String, pub String);

/// What AssetRipper's asset view tells of an asset.
#[derive(Debug, Clone, PartialEq, Eq)]
pub struct AssetInfo {
    /// The asset's row in its collection.
    pub entry: AssetEntry,
    /// Path of the asset before it was bundled.
    pub original_path: Option<String>,
    /// Name of the bundle file.
    pub asset_bundle_name: String,
}

/// The base URL of an AssetRipper server at `host:port`.
pub fn ripper_base_url(host: &str, port: u16) -> (url: String)
    ensures
        url@ == "http://"@ + host@ + ":"@ + decimal(port as nat),
{
    let mut url = String::new();
    push_chars(&mut url, "http://");
    push_chars(&mut url, host);
    push_chars(&mut url, ":");
    push_decimal(&mut url, port as u64);
    url
}

/// The URL of page `page` of the AssetRipper server at `base`.
pub fn ripper_url(base: &str, page: &str) -> (url: String)
    ensures
        url@ == base@ + "/"@ + page@,
{
    let mut url = String::new();
    push_chars(&mut url, base);
    push_chars(&mut url, "/");
    push_chars(&mut url, page);
    url
}

/// The path that names bundle `bundle_no`: `{"P":[bundle_no]}`.
pub open spec fn bundle_path_text(bundle_no: u64) -> Seq<char> {
    "{\"P\":["@ + decimal(bundle_no as nat) + "]}"@
}

/// The path that names a collection: `{"B":{"P":[b]},"I":c}`.
pub open spec fn collection_path_text(bundle_no: u64, collection_no: u64) -> Seq<char> {
    "{\"B\":"@ + bundle_path_text(bundle_no) + ",\"I\":"@ + decimal(collection_no as nat) + "}"@
}

/// The path that names an asset: `{"C":{collection},"D":path_id}`.
pub open spec fn asset_path_text(bundle_no: u64, collection_no: u64, path_id: i64) -> Seq<char> {
    "{\"C\":"@ + collection_path_text(bundle_no, collection_no) + ",\"D\":"@ + signed_decimal(path_id)
        + "}"@
}

/// The path that names bundle `bundle_no`.
pub fn bundle_path(bundle_no: u64) -> (p: String)
    ensures
        p@ == bundle_path_text(bundle_no),
{
    let mut p = String::new();
    push_chars(&mut p, "{\"P\":[");
    push_decimal(&mut p, bundle_no);
    push_chars(&mut p, "]}");
    p
}

/// The path that names collection `collection_no` of bundle `bundle_no`.
pub fn collection_path(bundle_no: u64, collection_no: u64) -> (p: String)
    ensures
        p@ == collection_path_text(bundle_no, collection_no),
{
    let mut p = String::new();
    push_chars(&mut p, "{\"B\":");
    let b = bundle_path(bundle_no);
    push_chars(&mut p, b.as_str());
    push_chars(&mut p, ",\"I\":");
    push_decimal(&mut p, collection_no);
    push_chars(&mut p, "}");
    p
}

/// The path that names the asset `path_id` of a collection.
pub fn asset_path(bundle_no: u64, collection_no: u64, path_id: i64) -> (p: String)
    ensures
        p@ == asset_path_text(bundle_no, collection_no, path_id),
{
    let mut p = String::new();
    push_chars(&mut p, "{\"C\":");
    let c = collection_path(bundle_no, collection_no);
    push_chars(&mut p, c.as_str());
    push_chars(&mut p, ",\"D\":");
    push_signed(&mut p, path_id);
    push_chars(&mut p, "}");
    p
}

/// The bundles listed on the bundle view: the links but the last two,
/// which are AssetRipper's generated collections.
pub fn bundles_from_links(links: Vec<String>) -> (r: Vec<String>)
    requires
        links@.len() >= 2,
    ensures
        r@ == links@.take(links@.len() - 2),
{
    let mut links = links;
    let n = links.len() - 2;
    links.truncate(n);
    links
}

/// An asset's information from its name and the cells of its
/// information table: the class is the fourth cell; a bundle has no
/// original path and is its own bundle, any other asset has its original
/// path and bundle name in the fifth and sixth cells.
pub fn asset_info_from_cells(path_id: i64, name: String, cells: &Vec<String>) -> (r: AssetInfo)
    requires
        cells@.len() >= 4,
        cells@[3]@ != "AssetBundle"@ ==> cells@.len() >= 6,
    ensures
        r.entry.0 == path_id,
        r.entry.1@ == cells@[3]@,
        r.entry.2@ == name@,
        cells@[3]@ == "AssetBundle"@ ==> r.original_path is None && r.asset_bundle_name@ == name@,
        cells@[3]@ != "AssetBundle"@ ==> (r.original_path matches Some(p) && p@ == cells@[4]@)
            && r.asset_bundle_name@ == cells@[5]@,
{
    let class = cells[3].clone();
    if same_text(class.as_str(), "AssetBundle") {
        let bundle = name.clone();
        AssetInfo { entry: AssetEntry(path_id, class, name), original_path: None, asset_bundle_name: bundle }
    } else {
        AssetInfo {
            entry: AssetEntry(path_id, class, name),
            original_path: Some(cells[4].clone()),
            asset_bundle_name: cells[5].clone(),
        }
    }
}

} // verus!
