//! Verified core of a downloader and extractor for the asset files of
//! THE iDOLM@STER MILLION LIVE! THEATER DAYS.

pub mod chars;
pub mod asset_extract;
pub mod bytes;
pub mod error;
pub mod extract;
pub mod manifest;
pub mod asset;
pub mod net;
pub mod cli;
pub mod asset_core;
pub mod asset_manifest;
pub mod downloader;
pub mod log_format;
