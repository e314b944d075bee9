use mltd::asset_extract::version::{Version, VersionErrorKind};
use rand::distributions::Alphanumeric;
use rand::Rng;

fn rand_ascii_string(len: usize) -> String {
    rand::thread_rng().sample_iter(&Alphanumeric).take(len).map(char::from).collect()
}

#[test]
fn test_from_str() {
    let mut rng = rand::thread_rng();
    let version = format!(
        "{}.{}.{}{}{}",
        rng.gen_range(0..5000),
        rng.gen_range(0..5000),
        rng.gen_range(0..5000),
        rng.gen_range(0x61u8..0x7bu8) as char,
        rng.gen_range(0..5000),
    );
    Version::from_str(&version).unwrap();
}

#[test]
#[should_panic]
fn test_invalid() {
    let version =
        format!("{}a.{}.{}", rand_ascii_string(5), rand_ascii_string(5), rand_ascii_string(5));

    Version::from_str(&version).unwrap();
}

#[test]
fn version_fields_and_text() {
    let v = Version::from_str("2020.3.32f1").unwrap();
    assert_eq!((v.major, v.minor, v.patch, v.suffix), (2020, 3, 32, "f1"));
    assert_eq!(v.to_string(), "2020.3.32f1");
    let plain = Version::from_str("3.4.0").unwrap();
    assert_eq!(plain.suffix, "");
}

#[test]
fn version_rejects_malformed() {
    assert!(Version::from_str("2020.3").is_err());
    assert!(Version::from_str("2020.3.1.4").is_err());
    assert!(Version::from_str("x.3.1").is_err());
    assert!(Version::from_str("2020.3.f1").is_err());
}

#[test]
fn version_order() {
    let a = Version::new(2017, 3, 0, "b1");
    let b = Version::new(2020, 3, 32, "f1");
    let c = Version::new(2022, 3, 2, "f1");
    assert!(a.le(&b));
    assert!(!b.le(&a));
    assert!(b.between(&a, &c));
    assert!(Version::new(3, 4, 0, "").le(&Version::new(3, 4, 0, "f0")));
}

#[test]
fn version_default() {
    let d = Version::default();
    assert_eq!(d.to_string(), "2.5.0f5");
}

#[test]
fn version_text_parses_back() {
    let v = Version::new(2019, 4, 9, "f1");
    let back = Version::from_str(&v.to_string()).unwrap();
    assert_eq!(back, v);
}

#[test]
fn invalid_versions_are_invalid_input() {
    let err = match Version::from_str("1a.2.3") {
        Ok(_) => panic!("accepted an invalid version"),
        Err(e) => e,
    };
    assert_eq!(err.kind(), VersionErrorKind::InvalidInput);
    assert_eq!(err.input, "1a.2.3");
    assert_eq!(err.message(), "invalid version: 1a.2.3");
}
