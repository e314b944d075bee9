use mltd::error::{ErrorKind, Repr};
use mltd::extract::text::{
    decrypt_text, encrypt_text, text_decrypt_iv, text_decrypt_key, text_key_iv, AesError,
    AesErrorKind, ENCRYPTED_FILE_EXTENSIONS, UNENCRYPTED_FILE_EXTENSIONS,
};

#[test]
fn test_key_iv() {
    let expected = [
        0xad, 0x3f, 0x0f, 0x89, 0xee, 0x51, 0xc5, 0x37,
        0x73, 0x1f, 0x17, 0x96, 0xf7, 0x5c, 0x71, 0x84,
        0x01, 0x61, 0x75, 0x6d, 0xa0, 0xd4, 0x86, 0xc9,
        0x4e, 0x40, 0xb3, 0x8a, 0xeb, 0xf1, 0xa8, 0x53,
        0x12, 0x2c, 0x5f, 0xad, 0xcc, 0xa3, 0x68, 0x5d,
    ];

    assert_eq!(text_key_iv().as_slice(), &expected);
    assert_eq!(text_decrypt_key().as_slice(), &expected[..24]);
    assert_eq!(text_decrypt_iv().as_slice(), &expected[24..]);
}

#[test]
fn test_encrypt_decrypt() {
    let expect = b"Hello, world!";
    let cipher = encrypt_text(expect);
    assert_eq!(cipher.len(), 16);

    let got = decrypt_text(&cipher).unwrap();
    assert_eq!(expect, got.as_slice());
}

#[test]
fn decrypt_known_cipher() {
    let cipher = [
        0xca, 0x64, 0x14, 0x8e, 0x80, 0x9e, 0x50, 0xc9, 0xe3, 0x4e, 0x18, 0x6f, 0x1e, 0x9c, 0x3e,
        0xe2,
    ];
    let text = decrypt_text(&cipher).unwrap();
    assert_eq!(b"Hello, world!", text.as_slice());
    assert_eq!(encrypt_text(b"Hello, world!"), cipher.to_vec());
}

#[test]
fn encrypt_pads_to_whole_blocks() {
    assert_eq!(encrypt_text(b"").len(), 16);
    assert_eq!(encrypt_text(&[7u8; 16]).len(), 32);
    assert_eq!(encrypt_text(&[7u8; 31]).len(), 32);
    let long = vec![42u8; 100];
    assert_eq!(decrypt_text(&encrypt_text(&long)).unwrap(), long);
}

#[test]
fn decrypt_rejects_bad_padding() {
    let cipher = [0u8; 15];
    let err = decrypt_text(&cipher).unwrap_err();
    assert_eq!(err.kind(), ErrorKind::Aes);
    match err.repr() {
        Repr::Aes(e) => {
            assert_eq!(e.kind, AesErrorKind::Unpad);
            assert_eq!(e.input, cipher.to_vec());
        }
        _ => panic!("expected an AES error"),
    }
    assert_eq!(decrypt_text(&[]).unwrap_err().kind(), ErrorKind::Aes);
}

#[test]
fn aes_error_unpad() {
    let e = AesError::unpad(vec![1, 2, 3]);
    assert_eq!(e.kind, AesErrorKind::Unpad);
    assert_eq!(e.input, vec![1, 2, 3]);
}

#[test]
fn binary_extensions() {
    assert_eq!(ENCRYPTED_FILE_EXTENSIONS, ["gtx", "mld"]);
    assert_eq!(UNENCRYPTED_FILE_EXTENSIONS, ["acb", "awb", "mp4"]);
}
