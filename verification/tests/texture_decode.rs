use rand::Rng;
use mltd::asset_extract::texture_decode::{decode_texture, texture_fits, DecodedImage, TextureError, TextureFormat};

#[test]
fn alpha8_is_kept() {
    let img = decode_texture(&[1, 2, 3, 4], TextureFormat::Alpha8, 2, 2).unwrap();
    match img {
        DecodedImage::Luma8 { width, height, pixels } => {
            assert_eq!((width, height), (2, 2));
            assert_eq!(pixels, vec![1, 2, 3, 4]);
        }
        _ => panic!("expected a luma image"),
    }
    assert_eq!(decode_texture(&[1, 2, 3], TextureFormat::Alpha8, 2, 2).unwrap_err(), TextureError::TooSmall);
}

#[test]
fn unsupported_formats() {
    assert_eq!(
        decode_texture(&[0; 16], TextureFormat::Rgba32, 2, 2).unwrap_err(),
        TextureError::Unsupported(TextureFormat::Rgba32)
    );
}

#[test]
fn bc1_black_block() {
    // Both endpoint colors zero: every pixel is opaque black.
    let img = decode_texture(&[0; 8], TextureFormat::Dxt1, 4, 4).unwrap();
    match img {
        DecodedImage::Rgba8 { width, height, pixels } => {
            assert_eq!((width, height), (4, 4));
            assert_eq!(pixels.len(), 64);
            for p in pixels.chunks(4) {
                assert_eq!(p, &[0, 0, 0, 255]);
            }
        }
        _ => panic!("expected an RGBA image"),
    }
}

#[test]
fn bc1_white_block_after_byte_swap() {
    // Stored byte-swapped: the endpoint 0xffff reads the same either way,
    // and the selectors 0 pick color 0.
    let data = [0xff, 0xff, 0x00, 0x00, 0, 0, 0, 0];
    let img = decode_texture(&data, TextureFormat::Dxt1, 4, 4).unwrap();
    match img {
        DecodedImage::Rgba8 { pixels, .. } => assert_eq!(&pixels[..4], &[255, 255, 255, 255]),
        _ => panic!("expected an RGBA image"),
    }
}

#[test]
fn short_data_fails_to_decode() {
    assert_eq!(decode_texture(&[0; 7], TextureFormat::Dxt1, 4, 4).unwrap_err(), TextureError::Decode);
    assert_eq!(decode_texture(&[0; 15], TextureFormat::AstcRgb4x4, 4, 4).unwrap_err(), TextureError::Decode);
    assert!(decode_texture(&[0; 16], TextureFormat::Etc2Rgba8, 4, 4).is_ok());
}

#[test]
fn format_codes() {
    assert_eq!(TextureFormat::Alpha8.code(), 1);
    assert_eq!(TextureFormat::Bc6H.code(), 24);
    assert_eq!(TextureFormat::from_i32(25), Some(TextureFormat::Bc7));
    assert_eq!(TextureFormat::from_i32(6), None);
    for n in 0..100 {
        if let Some(f) = TextureFormat::from_i32(n) {
            assert_eq!(f.code(), n);
        }
    }
    assert!(TextureFormat::Bc6H < TextureFormat::Bc4);
}

#[test]
fn texture_size_limits() {
    assert!(texture_fits(TextureFormat::Dxt1, 4, 4));
    assert!(texture_fits(TextureFormat::AstcRgb12x12, 1024, 1024));
    assert!(texture_fits(TextureFormat::Alpha8, usize::MAX, 1));
    assert!(!texture_fits(TextureFormat::Alpha8, usize::MAX, 2));
    assert!(!texture_fits(TextureFormat::Dxt1, 1 << 33, 1));
    assert!(!texture_fits(TextureFormat::Dxt5, 1 << 16, 1 << 16));
    assert!(texture_fits(TextureFormat::PvrtcRgb4, 8, 8));
    assert!(!texture_fits(TextureFormat::PvrtcRgb4, 0, 8));
    assert!(texture_fits(TextureFormat::Rgba32, 1 << 20, 1 << 20));
}

#[test]
fn error_messages() {
    assert_eq!(
        decode_texture(&[1, 2, 3], TextureFormat::Alpha8, 2, 2).unwrap_err().message(),
        "failed to decode alpha8 texture"
    );
    assert_eq!(
        decode_texture(&[1, 2, 3, 4], TextureFormat::Rgba32, 1, 1).unwrap_err().message(),
        "unsupported texture format: Rgba32"
    );
    assert_eq!(TextureError::Decode.message(), "failed to decode texture data");
}

#[test]
fn pvrtc_needs_eight_bytes_per_block() {
    assert_eq!(decode_texture(&[0; 4], TextureFormat::PvrtcRgb4, 4, 4).unwrap_err(), TextureError::Decode);
    assert!(decode_texture(&[0; 8], TextureFormat::PvrtcRgb4, 4, 4).is_ok());
}

#[test]
fn astc_blocks_the_decoder_cannot_read_are_refused() {
    let mut bad = [0u8; 16];
    bad[0] = 0x77;
    bad[1] = 0x03;
    assert!(!mltd::asset_extract::astc::astc_block_ok_at(&bad, 0));
    assert_eq!(decode_texture(&bad, TextureFormat::AstcRgb4x4, 4, 4).unwrap_err(), TextureError::Decode);
    // a reserved block decodes to magenta
    let zero = [0u8; 16];
    assert!(mltd::asset_extract::astc::astc_block_ok_at(&zero, 0));
    match decode_texture(&zero, TextureFormat::AstcRgb4x4, 4, 4).unwrap() {
        DecodedImage::Rgba8 { width, height, pixels } => {
            assert_eq!((width, height), (4, 4));
            assert_eq!(&pixels[0..4], &[255, 0, 255, 255]);
        }
        _ => panic!("expected an RGBA image"),
    }
}

#[test]
fn accepted_astc_blocks_decode() {
    let mut rng = rand::thread_rng();
    let formats = [
        (TextureFormat::AstcRgb4x4, 4),
        (TextureFormat::AstcRgb6x6, 6),
        (TextureFormat::AstcRgba8x8, 8),
        (TextureFormat::AstcHdr12x12, 12),
    ];
    let mut accepted = 0;
    for _ in 0..20000 {
        let mut block = [0u8; 16];
        rng.fill(&mut block);
        let ok = mltd::asset_extract::astc::astc_block_ok_at(&block, 0);
        for (format, size) in formats {
            let r = decode_texture(&block, format, size, size);
            assert_eq!(r.is_ok(), ok);
        }
        if ok {
            accepted += 1;
        }
    }
    assert!(accepted > 0);
}
