use quadgrid::image_data::{DecodedRgbaImage, ImageDecodeError};

/// A 2x2 RGBA PNG: red, green on the top row; blue, white on the bottom.
fn tiny_png() -> Vec<u8> {
    vec![
        137, 80, 78, 71, 13, 10, 26, 10, 0, 0, 0, 13, 73, 72, 68, 82, 0, 0, 0, 2, 0, 0, 0, 2, 8,
        6, 0, 0, 0, 114, 182, 13, 36, 0, 0, 0, 18, 73, 68, 65, 84, 120, 156, 99, 248, 207, 192,
        240, 31, 12, 129, 52, 24, 0, 0, 73, 200, 9, 247, 249, 171, 182, 13, 0, 0, 0, 0, 73, 69,
        78, 68, 174, 66, 96, 130,
    ]
}

#[test]
fn decodes_pixels_with_dimensions() {
    let image = DecodedRgbaImage::new_from_bytes(&tiny_png()).unwrap();
    assert_eq!(image.width, 2);
    assert_eq!(image.height, 2);
    assert_eq!(
        image.pixels,
        vec![
            255, 0, 0, 255, // red
            0, 255, 0, 255, // green
            0, 0, 255, 255, // blue
            255, 255, 255, 255, // white
        ]
    );
    assert_eq!(image.staging_buffer_size(), 16);
    let dimensions = image.dimensions();
    assert_eq!(dimensions.width, 2);
    assert_eq!(dimensions.height, 2);
    assert_eq!(dimensions.depth, 0);
}

#[test]
fn rejects_bytes_that_are_no_image() {
    let garbage = vec![0u8, 1, 2, 3, 4, 5, 6, 7];
    assert_eq!(
        DecodedRgbaImage::new_from_bytes(&garbage),
        Err(ImageDecodeError::DecodeFailed)
    );
    assert_eq!(
        DecodedRgbaImage::new_from_bytes(&Vec::new()),
        Err(ImageDecodeError::DecodeFailed)
    );
}
