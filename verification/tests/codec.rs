use capture_core::codec::{to_base64, FRAME_JPEG_QUALITY, THUMB_JPEG_QUALITY};

#[test]
fn base64_of_the_standard_vectors() {
    assert_eq!(to_base64(b"").unwrap(), "");
    assert_eq!(to_base64(b"f").unwrap(), "Zg==");
    assert_eq!(to_base64(b"fo").unwrap(), "Zm8=");
    assert_eq!(to_base64(b"foo").unwrap(), "Zm9v");
    assert_eq!(to_base64(b"foob").unwrap(), "Zm9vYg==");
    assert_eq!(to_base64(b"fooba").unwrap(), "Zm9vYmE=");
    assert_eq!(to_base64(b"foobar").unwrap(), "Zm9vYmFy");
}

#[test]
fn base64_uses_the_standard_alphabet() {
    // 0xfb 0xff 0xbf: 111110 111111 111110 111111
    assert_eq!(to_base64(&[0xfb, 0xff, 0xbf]).unwrap(), "+/+/");
    assert_eq!(to_base64(&[0x00, 0x00, 0x00]).unwrap(), "AAAA");
    assert_eq!(to_base64(&[0xff]).unwrap(), "/w==");
    assert_eq!(to_base64(&[0x69, 0xb7, 0x1d]).unwrap(), "abcd");
    assert_eq!(to_base64(&[0xd3, 0x5d, 0xb7, 0xe3, 0x9e, 0xbb, 0xf3, 0xdf, 0xbf]).unwrap(), "0123456789+/");
}

#[test]
fn base64_is_four_characters_for_every_three_bytes() {
    for n in 0usize..50 {
        let bytes = vec![0xa5u8; n];
        assert_eq!(to_base64(&bytes).unwrap().len(), 4 * ((n + 2) / 3));
    }
}

#[test]
fn jpeg_qualities() {
    assert_eq!(FRAME_JPEG_QUALITY, 90);
    assert_eq!(THUMB_JPEG_QUALITY, 70);
}
