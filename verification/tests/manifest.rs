use linked_hash_map::LinkedHashMap;
use mltd::error::{ErrorKind, Repr};
use mltd::manifest::{entries_size, Manifest, ManifestDiff, ManifestEntry, ManifestErrorKind};

fn bytes(entries: &[(&str, &str, usize)]) -> Vec<u8> {
    let mut map: LinkedHashMap<String, (String, String, usize)> = LinkedHashMap::new();
    for (name, hash, size) in entries {
        map.insert(name.to_string(), (hash.to_string(), format!("{}.unity3d", hash), *size));
    }
    rmp_serde::to_vec(&[map]).unwrap()
}

#[test]
fn decode_and_query() {
    let m = Manifest::from_slice(&bytes(&[("a", "h1", 10), ("b", "h2", 5)])).unwrap();
    assert_eq!(m.len(), 2);
    assert!(!m.is_empty());
    assert_eq!(m.asset_size(), 15);
    assert!(m.contains_key("a"));
    assert!(!m.contains_key("c"));
    assert_eq!(
        m.get("b"),
        Some(&ManifestEntry("h2".to_string(), "h2.unity3d".to_string(), 5))
    );
    let names: Vec<String> = m.entries().into_iter().map(|(k, _)| k).collect();
    assert_eq!(names, vec!["a".to_string(), "b".to_string()]);
}

#[test]
fn encode_round_trip() {
    let data = bytes(&[("x", "h", 1)]);
    let m = Manifest::from_slice(&data).unwrap();
    assert_eq!(m.to_bytes().unwrap(), data);
}

#[test]
fn diff_of_manifests() {
    let old = Manifest::from_slice(&bytes(&[("a", "h1", 10), ("b", "h2", 5), ("c", "h3", 1)])).unwrap();
    let new = Manifest::from_slice(&bytes(&[("a", "h1", 10), ("b", "h9", 5), ("d", "h4", 2)])).unwrap();
    let d = old.diff(&new);
    assert_eq!(d.added.iter().map(|e| e.0.as_str()).collect::<Vec<_>>(), vec!["d"]);
    assert_eq!(d.updated.iter().map(|e| e.0.as_str()).collect::<Vec<_>>(), vec!["b"]);
    assert_eq!(d.removed.iter().map(|e| e.0.as_str()).collect::<Vec<_>>(), vec!["c"]);
    let same = old.diff(&old);
    assert!(same.added.is_empty() && same.updated.is_empty() && same.removed.is_empty());
    let empty = ManifestDiff::new();
    assert!(empty.added.is_empty());
}

#[test]
fn garbage_is_refused() {
    let err = match Manifest::from_slice(&[0xc1]) {
        Ok(_) => panic!("garbage was accepted"),
        Err(e) => e,
    };
    assert_eq!(err.kind(), ErrorKind::Manifest);
    match err.repr() {
        Repr::Manifest(e) => {
            assert!(matches!(e.kind, ManifestErrorKind::Deserialize(_)));
            assert_eq!(e.manifest, vec![0xc1]);
        }
        _ => panic!("expected a manifest error"),
    }
}

#[test]
fn sizes_are_summed_or_refused() {
    let m = Manifest::from_slice(&bytes(&[("a", "h1", 10), ("b", "h2", 5)])).unwrap();
    assert_eq!(m.checked_asset_size(), Some(15));
    let big = Manifest::from_slice(&bytes(&[("a", "h1", usize::MAX), ("b", "h2", 1)])).unwrap();
    assert_eq!(big.checked_asset_size(), None);
    let entries = vec![
        ("x".to_string(), ManifestEntry("h".to_string(), "f".to_string(), 7)),
        ("y".to_string(), ManifestEntry("g".to_string(), "e".to_string(), 8)),
    ];
    assert_eq!(entries_size(&entries), Some(15));
    assert_eq!(entries_size(&Vec::new()), Some(0));
    let d = m.diff(&big);
    assert_eq!(entries_size(&d.updated), None);
}
