use mltd::asset_extract::environment::{check_file_type, Environment, FileType};
use mltd::log_format::{format_log_line, log_level_to_color, LogLevel};

#[test]
fn environment_registers() {
    let mut env = Environment::new();
    env.register_cab("CAB-1", vec![1, 2, 3]);
    env.register_object(7, vec![9]);
    assert_eq!(env.get_cab("CAB-1"), Some(&[1u8, 2, 3][..]));
    assert_eq!(env.get_cab("CAB-2"), None);
    assert_eq!(env.get_object(7), Some(&[9u8][..]));
    assert_eq!(env.get_object(8), None);
    env.register_cab("CAB-1", vec![4]);
    assert_eq!(env.get_cab("CAB-1"), Some(&[4u8][..]));
}

#[test]
fn file_types() {
    let mut fs = b"UnityFS\0".to_vec();
    fs.resize(32, 0);
    assert_eq!(check_file_type(&fs), FileType::BundleFile);
    assert_eq!(check_file_type(&[0u8; 4]), FileType::ResourceFile);
    assert_eq!(FileType::Zip.code(), 10);
}

#[test]
fn log_lines() {
    assert_eq!(log_level_to_color(LogLevel::Error), 1);
    assert_eq!(log_level_to_color(LogLevel::Trace), 7);
    assert_eq!(
        format_log_line(LogLevel::Info, "T", "mltd", "hi"),
        "[\x1b[34mINFO\x1b[0m]  T mltd - hi"
    );
    assert_eq!(
        format_log_line(LogLevel::Error, "T", "mltd", "x"),
        "[\x1b[31mERROR\x1b[0m] T mltd - x"
    );
}
