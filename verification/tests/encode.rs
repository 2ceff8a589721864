use stl_gallery::encode::encode_png;

#[test]
fn encodes_rgba8_frame_as_png() {
    let pixels: Vec<u8> = vec![255, 0, 0, 255, 0, 255, 0, 128, 0, 0, 255, 0, 9, 8, 7, 6];
    let bytes = encode_png(&pixels, 2, 2).unwrap();
    assert_eq!(&bytes[..8], &[0x89, b'P', b'N', b'G', 0x0d, 0x0a, 0x1a, 0x0a]);
    assert_ne!(bytes, pixels);
    let decoded = image::load_from_memory(&bytes).unwrap().to_rgba8();
    assert_eq!(decoded.width(), 2);
    assert_eq!(decoded.height(), 2);
    assert_eq!(decoded.into_raw(), pixels);
}

#[test]
fn encoding_is_deterministic() {
    let pixels: Vec<u8> = (0..(5 * 3 * 4)).map(|i| (i * 7 % 256) as u8).collect();
    assert_eq!(encode_png(&pixels, 5, 3).unwrap(), encode_png(&pixels, 5, 3).unwrap());
}

#[test]
fn zero_width_frame_is_refused() {
    let err = encode_png(&[], 0, 4).unwrap_err();
    assert!(!err.message.is_empty());
}

#[test]
fn zero_height_frame_is_refused_and_one_pixel_accepted() {
    assert!(encode_png(&[], 3, 0).is_err());
    assert!(encode_png(&[1, 2, 3, 4], 1, 1).is_ok());
}
