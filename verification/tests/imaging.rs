use middle_screenshot::image::{ImageExt, PixelBuffer};

#[test]
fn new_checks_the_byte_count() {
    assert!(PixelBuffer::new(2, 1, vec![0u8; 8]).is_some());
    assert!(PixelBuffer::new(2, 1, vec![0u8; 7]).is_none());
    assert!(PixelBuffer::new(2, 1, vec![0u8; 9]).is_none());
    assert!(PixelBuffer::new(0, 0, Vec::new()).is_some());
}

#[test]
fn accessors_return_what_went_in() {
    let b = PixelBuffer::new(2, 1, vec![1, 2, 3, 4, 5, 6, 7, 8]).unwrap();
    assert_eq!(b.width(), 2);
    assert_eq!(b.height(), 1);
    assert_eq!(b.rgba(), &vec![1, 2, 3, 4, 5, 6, 7, 8]);
}

#[test]
fn rgb_drops_the_alpha_channel() {
    let b = PixelBuffer::new(2, 1, vec![1, 2, 3, 4, 5, 6, 7, 8]).unwrap();
    assert_eq!(b.rgb(), vec![1, 2, 3, 5, 6, 7]);
}

#[test]
fn rgb_of_empty_is_empty() {
    let b = PixelBuffer::new(0, 0, Vec::new()).unwrap();
    assert_eq!(b.rgb(), Vec::<u8>::new());
}

#[test]
fn duplicate_is_equal() {
    let b = PixelBuffer::new(1, 2, vec![9, 8, 7, 6, 5, 4, 3, 2]).unwrap();
    let c = b.duplicate();
    assert_eq!(c, b);
}

#[test]
fn bmp_encoding_produces_a_bmp() {
    let b = PixelBuffer::new(2, 2, vec![200u8; 16]).unwrap();
    let bmp = b.to_bmp().unwrap();
    // a real BMP header, not the raw bytes handed in
    assert_eq!(&bmp[0..2], b"BM");
    assert_ne!(bmp, b.rgb());
    assert_ne!(bmp, *b.rgba());
}

#[test]
fn encoding_succeeds_on_a_single_pixel() {
    let b = PixelBuffer::new(1, 1, vec![10, 20, 30, 40]).unwrap();
    assert!(b.to_bmp().is_ok());
    assert!(b.to_tiff().is_ok());
}

#[test]
fn tiff_encoding_survives_an_all_white_image() {
    // every block sum the threshold filter takes is at its maximum here
    let b = PixelBuffer::new(64, 64, vec![255u8; 4 * 64 * 64]).unwrap();
    assert!(b.to_tiff().is_ok());
}

#[test]
fn tiff_encoding_produces_a_tiff() {
    let b = PixelBuffer::new(20, 20, vec![128u8; 4 * 20 * 20]).unwrap();
    let tiff = b.to_tiff().unwrap();
    // a real TIFF header, not the raw bytes handed in
    let little = &tiff[0..4] == b"II*\0";
    let big = &tiff[0..4] == b"MM\0*";
    assert!(little || big);
    assert_ne!(tiff, *b.rgba());
}
