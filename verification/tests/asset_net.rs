use mltd::asset::{Asset, AssetInfo, Platform, ASSET_URL_BASE, UNITY_VERSION};
use mltd::asset_core::OsVariant as CoreOsVariant;
use mltd::asset_manifest::{
    ManifestError as OldManifestError, ManifestFormat, OsVariant as ManifestOsVariant,
    Platform as ManifestPlatform,
};
use mltd::downloader::OsVariant as DownloaderOsVariant;
use mltd::error::{ErrorKind, Repr};
use mltd::net::{
    all_asset_versions_url, asset_info_from_cells, asset_path, asset_version_url, bundle_path,
    bundles_from_links, collection_path, latest_version_url, ripper_base_url, ripper_url,
    AssetEntry, AssetVersion, NetworkError, NetworkErrorKind,
};

fn version(v: u64) -> AssetVersion {
    AssetVersion { manifest_filename: "m.data".to_string(), updated_at: String::new(), version: v }
}

#[test]
fn platforms() {
    assert_eq!(Platform::Android.as_str(), "Android");
    assert_eq!(Platform::IOS.to_string(), "iOS");
    assert!(Platform::Android.user_agent().starts_with("UnityPlayer/2020.3.32f1"));
    assert_eq!(Platform::from_str("ANDROID").unwrap(), Platform::Android);
    assert_eq!(Platform::from_str("iOs").unwrap(), Platform::IOS);
    let err = Platform::from_str("Windows").unwrap_err();
    assert_eq!(err.kind(), ErrorKind::UnknownPlatform);
    match err.repr() {
        Repr::UnknownPlatform(s) => assert_eq!(s, "windows"),
        _ => panic!("expected an unknown platform"),
    }
    assert_eq!(UNITY_VERSION, "2020.3.32f1");
}

#[test]
fn older_platform_types() {
    assert_eq!(CoreOsVariant::IOS.as_str(), "iOS");
    assert!(DownloaderOsVariant::Android.user_agent().starts_with("Mozilla/5.0"));
    assert_eq!(ManifestOsVariant::from_str("android").unwrap(), ManifestOsVariant::Android);
    assert_eq!(
        ManifestPlatform::from_str("pc").unwrap_err(),
        OldManifestError::UnknownVariant("pc".to_string())
    );
    assert_eq!(ManifestFormat::Msgpack.to_string(), "msgpack");
}

#[test]
fn asset_urls() {
    let info = AssetInfo { filename: "abc.unity3d".to_string(), platform: Platform::IOS, version: version(42) };
    assert_eq!(info.to_url(), format!("{}/42/production/2018/iOS/abc.unity3d", ASSET_URL_BASE));
    let asset = Asset { data: vec![1, 2], info };
    assert_eq!(asset.data.len(), 2);
}

#[test]
fn api_urls() {
    assert_eq!(latest_version_url(), "https://api.matsurihi.me/api/mltd/v2/version/latest");
    assert_eq!(all_asset_versions_url(), "https://api.matsurihi.me/api/mltd/v2/version/assets");
    assert_eq!(asset_version_url(1), "https://api.matsurihi.me/api/mltd/v2/version/assets/1");
}

#[test]
fn ripper_requests() {
    let base = ripper_base_url("localhost", 50000);
    assert_eq!(base, "http://localhost:50000");
    assert_eq!(ripper_url(&base, "Bundles/View"), "http://localhost:50000/Bundles/View");
    assert_eq!(bundle_path(0), r#"{"P":[0]}"#);
    assert_eq!(collection_path(1, 2), r#"{"B":{"P":[1]},"I":2}"#);
    assert_eq!(asset_path(1, 2, -3), r#"{"C":{"B":{"P":[1]},"I":2},"D":-3}"#);
    let links = vec!["a".to_string(), "b".to_string(), "gen1".to_string(), "gen2".to_string()];
    assert_eq!(bundles_from_links(links), vec!["a".to_string(), "b".to_string()]);
}

#[test]
fn ripper_asset_info() {
    let cells: Vec<String> =
        ["0", "1", "2", "TextAsset", "Assets/a.txt", "b.unity3d"].iter().map(|s| s.to_string()).collect();
    let info = asset_info_from_cells(5, "a".to_string(), &cells);
    assert_eq!(info.entry, AssetEntry(5, "TextAsset".to_string(), "a".to_string()));
    assert_eq!(info.original_path.as_deref(), Some("Assets/a.txt"));
    assert_eq!(info.asset_bundle_name, "b.unity3d");
    let cells: Vec<String> = ["0", "1", "2", "AssetBundle"].iter().map(|s| s.to_string()).collect();
    let info = asset_info_from_cells(1, "bundle".to_string(), &cells);
    assert_eq!(info.original_path, None);
    assert_eq!(info.asset_bundle_name, "bundle");
}

#[test]
fn network_errors() {
    let e = NetworkError::decode("http://x".to_string());
    assert_eq!(e.kind, NetworkErrorKind::Decode);
    assert_eq!(NetworkError::request("u".to_string()).kind, NetworkErrorKind::Request);
}

#[test]
fn platform_names_parse_back() {
    for p in [Platform::Android, Platform::IOS] {
        assert_eq!(Platform::from_str(p.as_str()).unwrap(), p);
        assert_eq!(Platform::from_str(&p.to_string()).unwrap(), p);
    }
}
