use mlx_engine::error::MlxError;
use mlx_engine::image::{color_bytes, mlx_get_data_addr, MlxImage};

fn image(width: i32, height: i32, bpp: i32, stride: i32, fill: u8) -> MlxImage {
    let len = (stride as usize) * (height as usize) + 3;
    match MlxImage::new(0x1000, width, height, bpp, stride, 0, vec![fill; len]) {
        Ok(image) => image,
        Err(_) => panic!("the image must be made"),
    }
}

#[test]
fn new_image_reads_back_its_layout() {
    let img = image(4, 3, 32, 16, 0);
    assert_eq!(img.width, 4);
    assert_eq!(img.height, 3);
    assert_eq!(img.ptr(), 0x1000);
    assert_eq!(img.bits_per_pixel(), 32);
    assert_eq!(img.size_line(), 16);
    assert_eq!(img.endian(), 0);
    assert_eq!(img.pixel_count(), 48);
    assert_eq!(img.data().len(), 51);
}

#[test]
fn new_image_fails_without_a_handle() {
    let made = MlxImage::new(0, 4, 3, 32, 16, 0, vec![0; 51]);
    assert!(matches!(made, Err(MlxError::ImageCreationError)));
}

#[test]
fn new_image_fails_on_a_short_buffer() {
    assert!(matches!(
        MlxImage::new(1, 4, 3, 32, 16, 0, vec![0; 50]),
        Err(MlxError::ImageCreationError)
    ));
    assert!(matches!(MlxImage::new(1, 0, 0, 32, 0, 0, vec![0; 2]), Err(MlxError::ImageCreationError)));
    assert!(MlxImage::new(1, 0, 0, 32, 0, 0, vec![0; 3]).is_ok());
    assert!(MlxImage::new(1, 4, 3, 32, 16, 0, vec![0; 51]).is_ok());
}

#[test]
fn new_image_fails_on_a_negative_measure() {
    assert!(matches!(
        MlxImage::new(1, 4, -3, 32, 16, 0, vec![0; 51]),
        Err(MlxError::ImageCreationError)
    ));
    assert!(matches!(
        MlxImage::new(1, 4, 3, -32, 16, 0, vec![0; 51]),
        Err(MlxError::ImageCreationError)
    ));
    assert!(matches!(
        MlxImage::new(1, 4, 3, 32, -16, 0, vec![0; 51]),
        Err(MlxError::ImageCreationError)
    ));
}

#[test]
fn color_bytes_come_low_byte_first() {
    assert_eq!(color_bytes(0x11223344), [0x44, 0x33, 0x22, 0x11]);
    assert_eq!(color_bytes(0), [0, 0, 0, 0]);
    assert_eq!(color_bytes(u32::MAX), [255, 255, 255, 255]);
}

#[test]
fn put_pixel_at_offset_zero_writes_four_bytes() {
    let mut img = image(4, 3, 32, 4, 0xaa);
    img.put_pixel(0, 0, 0x11223344);
    let mut expected = vec![0xaau8; 15];
    expected[0] = 0x44;
    expected[1] = 0x33;
    expected[2] = 0x22;
    expected[3] = 0x11;
    assert_eq!(img.data(), &expected);
}

#[test]
fn put_pixel_at_the_last_offset_writes_four_bytes() {
    let mut img = image(4, 3, 8, 4, 0xaa);
    assert_eq!(img.pixel_count(), 12);
    img.put_pixel(3, 2, 0x11223344);
    let mut expected = vec![0xaau8; 15];
    expected[11] = 0x44;
    expected[12] = 0x33;
    expected[13] = 0x22;
    expected[14] = 0x11;
    assert_eq!(img.data(), &expected);
}

#[test]
fn put_pixel_past_the_region_is_clipped() {
    let mut img = image(4, 3, 8, 4, 0xaa);
    img.put_pixel(0, 3, 0x11223344);
    img.put_pixel(12, 0, 0x11223344);
    img.put_pixel(i32::MAX, i32::MAX, 0x11223344);
    assert_eq!(img.data(), &vec![0xaau8; 15]);
}

#[test]
fn put_pixel_before_the_region_is_clipped() {
    let mut img = image(4, 3, 32, 16, 0xaa);
    img.put_pixel(-1, 0, 0x11223344);
    img.put_pixel(0, -1, 0x11223344);
    img.put_pixel(i32::MIN, i32::MIN, 0x11223344);
    assert_eq!(img.data(), &vec![0xaau8; 51]);
}

#[test]
fn put_pixel_multiplies_by_whole_bytes_per_pixel() {
    // 12 bits per pixel count as one byte: the pixel (2, 1) lies at 2 + 1 * 8.
    let mut img = image(4, 2, 12, 8, 0);
    img.put_pixel(2, 1, 0xdeadbeef);
    let mut expected = vec![0u8; 19];
    expected[10] = 0xef;
    expected[11] = 0xbe;
    expected[12] = 0xad;
    expected[13] = 0xde;
    assert_eq!(img.data(), &expected);
}

#[test]
fn put_pixel_offset_counts_rows_by_the_stride() {
    // (x + y * stride) * (bpp / 8) = (1 + 1 * 5) * 2 = 12
    let mut img = image(2, 4, 16, 5, 0);
    img.put_pixel(1, 1, 0x01020304);
    let mut expected = vec![0u8; 23];
    expected[12] = 4;
    expected[13] = 3;
    expected[14] = 2;
    expected[15] = 1;
    assert_eq!(img.data(), &expected);
}

#[test]
fn put_rect_of_no_point_writes_nothing() {
    let mut img = image(4, 4, 8, 4, 0xaa);
    img.put_rect((2, 2), (2, 2), 0x11223344);
    assert_eq!(img.data(), &vec![0xaau8; 19]);
}

#[test]
fn put_rect_that_is_reversed_writes_nothing() {
    let mut img = image(4, 4, 8, 4, 0xaa);
    img.put_rect((3, 0), (1, 4), 0x11223344);
    img.put_rect((0, 3), (4, 1), 0x11223344);
    img.put_rect((3, 3), (0, 0), 0x11223344);
    assert_eq!(img.data(), &vec![0xaau8; 19]);
}

#[test]
fn put_rect_of_one_point_writes_that_pixel() {
    let mut img = image(4, 4, 32, 4, 0xaa);
    let mut single = image(4, 4, 32, 4, 0xaa);
    img.put_rect((0, 0), (1, 1), 0x11223344);
    single.put_pixel(0, 0, 0x11223344);
    assert_eq!(img.data(), single.data());
    let mut expected = vec![0xaau8; 19];
    expected[0] = 0x44;
    expected[1] = 0x33;
    expected[2] = 0x22;
    expected[3] = 0x11;
    assert_eq!(img.data(), &expected);
}

#[test]
fn put_rect_fills_its_points_and_no_others() {
    // Four bytes per pixel and a stride counted in pixels: 3 pixels per row.
    let len = 3 * 3 * 4 + 3;
    let mut img = match MlxImage::new(1, 3, 3, 32, 3, 0, vec![0; len]) {
        Ok(image) => image,
        Err(_) => panic!("the image must be made"),
    };
    img.put_rect((1, 0), (3, 2), 0xffffffff);
    let mut expected = vec![0u8; len];
    for (x, y) in [(1usize, 0usize), (2, 0), (1, 1), (2, 1)] {
        let at = (x + y * 3) * 4;
        // Only offsets inside the region of stride * height = 9 bytes are written.
        if at < 9 {
            for k in 0..4 {
                expected[at + k] = 0xff;
            }
        }
    }
    assert_eq!(img.data(), &expected);
}

#[test]
fn put_rect_later_pixels_overwrite_earlier_ones() {
    // One byte per pixel: the four bytes of neighbours overlap.
    let mut img = image(4, 1, 8, 4, 0);
    img.put_rect((0, 0), (3, 1), 0x04030201);
    assert_eq!(img.data(), &vec![1u8, 1, 1, 2, 3, 4, 0]);
}

#[test]
fn destroy_image_twice_releases_once() {
    let mut img = image(4, 3, 32, 16, 0x5a);
    assert_eq!(img.destroy(0), None);
    assert_eq!(img.ptr(), 0x1000);
    assert_eq!(img.destroy(9), Some(0x1000));
    assert_eq!(img.ptr(), 0);
    assert_eq!(img.destroy(9), None);
    assert_eq!(img.ptr(), 0);
    assert_eq!(img.data(), &vec![0x5au8; 51]);
    assert_eq!(img.pixel_count(), 48);
    assert_eq!(img.width, 4);
    assert_eq!(img.height, 3);
}

#[test]
fn get_data_addr_reads_the_layout() {
    let mut img = image(4, 3, 24, 16, 0);
    img.put_pixel(1, 0, 0x0a0b0c0d);
    let (mut bpp, mut stride, mut endian) = (0, 0, 9);
    let data = mlx_get_data_addr(&img, &mut bpp, &mut stride, &mut endian);
    assert_eq!((bpp, stride, endian), (24, 16, 0));
    assert_eq!(data.len(), 51);
    assert_eq!(&data[3..7], &[0x0d, 0x0c, 0x0b, 0x0a]);
}
