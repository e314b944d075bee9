use mltd::asset_extract::args::{number_range, ExtractorArgs as BundleExtractorArgs};
use mltd::asset_extract::image_format::{
    image_encoding, AudioFormat, ImageEncoding, ImageFormat, MyImageFormat,
};
use mltd::cli::{
    asset_action, binary_asset, image_file_name, is_binary_text_asset, order_pieces, parse_image_format,
    parse_key_val, split_file_name, sprite_id, AssetAction, BinaryAsset, ExtractorArgs, ManifestDiffArgs,
};
use mltd::extract::args::ExtractorArgs as LibExtractorArgs;
use mltd::extract::puzzle::PieceRect;

#[test]
fn key_val_pairs() {
    assert_eq!(parse_key_val("-b=128k").unwrap(), ("b".to_string(), "128k".to_string()));
    assert_eq!(parse_key_val("-q=a=b").unwrap(), ("q".to_string(), "a=b".to_string()));
    assert_eq!(parse_key_val("-x=").unwrap(), ("x".to_string(), String::new()));
    assert_eq!(parse_key_val("b=1").unwrap_err(), "invalid -KEY=value: no `-` found in `b=1`");
    assert_eq!(parse_key_val("-b").unwrap_err(), "invalid -KEY=value: no `=` found in `-b`");
    assert_eq!(parse_key_val("").unwrap_err(), "invalid -KEY=value: no `-` found in ``");
}

#[test]
fn image_formats() {
    assert_eq!(parse_image_format("png").unwrap(), ImageFormat::Png);
    assert_eq!(parse_image_format("JPG").unwrap(), ImageFormat::Jpeg);
    assert_eq!(parse_image_format("xyz").unwrap_err(), "invalid image format: xyz");
    assert_eq!(MyImageFormat::from_str("webp").unwrap(), MyImageFormat(ImageFormat::WebP));
    assert_eq!(MyImageFormat::from_str("mp3").unwrap_err(), "unsupported image format: mp3");
    assert_eq!(MyImageFormat::value_variants().len(), 6);
    assert_eq!(MyImageFormat(ImageFormat::Tiff).to_possible_value(), Some("tiff"));
    assert_eq!(MyImageFormat(ImageFormat::Gif).to_possible_value(), None);
}

#[test]
fn image_encodings() {
    assert_eq!(image_encoding(ImageFormat::WebP, 100).unwrap(), ImageEncoding::WebPLossless);
    assert_eq!(image_encoding(ImageFormat::WebP, 80).unwrap(), ImageEncoding::WebPLossy { quality: 80 });
    assert_eq!(image_encoding(ImageFormat::Jpeg, 90).unwrap(), ImageEncoding::Jpeg { quality: 90 });
    assert_eq!(image_encoding(ImageFormat::Gif, 90).unwrap_err(), "unsupported image format: Gif");
}

#[test]
fn audio_formats() {
    assert_eq!(AudioFormat::Wav.to_string(), "wav");
    assert_eq!(AudioFormat::Flac.to_possible_value(), "flac");
    assert_eq!(AudioFormat::value_variants(), vec![AudioFormat::Wav, AudioFormat::Flac]);
}

#[test]
fn quality_range() {
    assert_eq!(number_range("0").unwrap(), 0);
    assert_eq!(number_range("100").unwrap(), 100);
    assert_eq!(number_range("101").unwrap_err(), "101 is out of range [0, 100]");
    assert_eq!(number_range("-1").unwrap_err(), "-1 is out of range [0, 100]");
    assert_eq!(number_range("abc").unwrap_err(), "invalid digit found in string");
}

#[test]
fn defaults() {
    let a = ExtractorArgs::with_defaults(vec!["a.unity3d".to_string()], 4, "AR".to_string());
    assert_eq!(a.output, "./output");
    assert_eq!(a.audio_format, "wav");
    assert_eq!(a.audio_codec, "pcm_s16le");
    assert_eq!(a.image_ext, ImageFormat::Png);
    let b = BundleExtractorArgs::with_defaults("in".to_string(), 2);
    assert_eq!(b.image_format, MyImageFormat(ImageFormat::WebP));
    assert_eq!(b.image_quality, 100);
    let c = LibExtractorArgs::with_defaults(vec![], 1);
    assert_eq!(c.image_ext, "png");
    let d = ManifestDiffArgs { first: "a".to_string(), second: "b".to_string() };
    assert_eq!(d.first, "a");
}

#[test]
fn file_names() {
    assert_eq!(split_file_name("song.acb.bytes"), ("song.acb".to_string(), Some("bytes".to_string())));
    assert_eq!(split_file_name(".hidden"), (".hidden".to_string(), None));
    assert_eq!(split_file_name("plain"), ("plain".to_string(), None));
    assert_eq!(split_file_name(".."), ("..".to_string(), None));
}

#[test]
fn binary_text_assets() {
    assert!(is_binary_text_asset("song3_00test.acb"));
    assert!(is_binary_text_asset("story.gtx"));
    assert!(!is_binary_text_asset("notes.txt"));
    assert_eq!(binary_asset("song3_00test.acb.bytes"), Some(BinaryAsset::Audio));
    assert_eq!(binary_asset("story.gtx.bytes"), Some(BinaryAsset::EncryptedText("story.gtx".to_string())));
    assert_eq!(binary_asset("movie.mp4.bytes"), Some(BinaryAsset::Video("movie.mp4".to_string())));
    assert_eq!(binary_asset("movie.xmp4.bytes"), None);
    assert_eq!(binary_asset("noext"), None);
}

#[test]
fn asset_actions() {
    assert_eq!(asset_action("TextAsset"), AssetAction::TextAsset);
    assert_eq!(asset_action("Texture2D"), AssetAction::Texture2D);
    assert_eq!(asset_action("Sprite"), AssetAction::Skip);
    assert_eq!(asset_action("Mesh"), AssetAction::Unknown);
}

#[test]
fn sprites_in_order() {
    assert_eq!(sprite_id("001har0001_0_12"), Some(12));
    assert_eq!(sprite_id("nounderscore"), None);
    let r = |x| PieceRect { x, y: 0, width: 1, height: 1 };
    let ordered = order_pieces(&[(3, r(30)), (1, r(10)), (2, r(20)), (1, r(11))]);
    assert_eq!(ordered, vec![(1, r(11)), (2, r(20)), (3, r(30))]);
    assert_eq!(image_file_name("card", 1, "png"), "card_1.png");
}
