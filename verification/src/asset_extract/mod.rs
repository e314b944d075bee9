//! Parsing and decoding of Unity asset bundles: Unity versions, the
//! serialized object classes, file type detection and texture decoding.

pub mod version;
pub mod args;
pub mod environment;
pub mod image_format;
pub mod reader;
pub mod unity_types;
pub mod serialized;
pub mod texture_2d;
pub mod texture_decode;
pub mod asset_bundle;
pub mod mesh;
pub mod sprite;
pub mod text_asset;
pub mod resource;
pub mod astc;
