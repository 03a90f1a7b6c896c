use mlx_engine::error::MlxError;
use mlx_engine::mlx::{Blit, Mlx};
use mlx_engine::mlx_window::MlxWindow;

fn container() -> Mlx {
    match Mlx::new(0xd15) {
        Ok(mlx) => mlx,
        Err(_) => panic!("the container must be made"),
    }
}

#[test]
fn container_needs_a_connection() {
    assert!(matches!(Mlx::new(0), Err(MlxError::MlxCreationError)));
    let mlx = container();
    assert_eq!(mlx.mlx_ptr, 0xd15);
    assert!(mlx.win_vec.is_empty());
    assert!(mlx.image_vec.is_empty());
}

#[test]
fn container_hands_out_handles_in_order() {
    let mut mlx = container();
    assert!(matches!(mlx.new_window(0x10, 320, 200), Ok(0)));
    assert!(matches!(mlx.new_window(0, 320, 200), Err(MlxError::WindowCreationError)));
    assert!(matches!(mlx.new_window(0x11, 64, 48), Ok(1)));
    assert_eq!(
        mlx.win_vec,
        vec![
            Some(MlxWindow { width: 320, height: 200, win_ptr: 0x10 }),
            Some(MlxWindow { width: 64, height: 48, win_ptr: 0x11 }),
        ]
    );
    assert!(matches!(mlx.new_image(0x20, 2, 2, 32, 8, 0, vec![0; 19]), Ok(0)));
    assert!(matches!(
        mlx.new_image(0x21, 2, 2, 32, 8, 0, vec![0; 18]),
        Err(MlxError::ImageCreationError)
    ));
    assert!(matches!(
        mlx.new_image(0, 2, 2, 32, 8, 0, vec![0; 19]),
        Err(MlxError::ImageCreationError)
    ));
    assert!(matches!(mlx.new_image(0x22, 1, 1, 32, 4, 1, vec![7; 7]), Ok(1)));
    assert_eq!(mlx.image_vec.len(), 2);
    let second = match &mlx.image_vec[1] {
        Some(image) => image,
        None => panic!("the image was entered"),
    };
    assert_eq!(second.ptr(), 0x22);
    assert_eq!(second.endian(), 1);
    assert_eq!(second.pixel_count(), 4);
    assert_eq!(second.data(), &vec![7u8; 7]);
}

#[test]
fn container_destroys_a_window_once() {
    let mut mlx = container();
    assert!(mlx.new_window(0x10, 320, 200).is_ok());
    assert!(mlx.new_window(0x11, 64, 48).is_ok());
    assert_eq!(mlx.destroy_window(2), None);
    assert_eq!(mlx.destroy_window(0), Some(0x10));
    assert_eq!(mlx.win_vec, vec![None, Some(MlxWindow { width: 64, height: 48, win_ptr: 0x11 })]);
    assert_eq!(mlx.destroy_window(0), None);
    assert_eq!(mlx.win_vec, vec![None, Some(MlxWindow { width: 64, height: 48, win_ptr: 0x11 })]);
    assert_eq!(mlx.destroy_window(1), Some(0x11));
    assert_eq!(mlx.destroy_window(1), None);
    assert_eq!(mlx.win_vec, vec![None, None]);
}

#[test]
fn container_destroys_an_image_once() {
    let mut mlx = container();
    assert!(mlx.new_window(0x10, 320, 200).is_ok());
    assert!(mlx.new_image(0x20, 2, 2, 32, 8, 0, vec![0; 19]).is_ok());
    assert_eq!(mlx.destroy_image(1), None);
    assert_eq!(mlx.destroy_image(0), Some(0x20));
    assert!(mlx.image_vec[0].is_none());
    assert_eq!(mlx.destroy_image(0), None);
    assert!(mlx.image_vec[0].is_none());
    assert_eq!(mlx.win_vec.len(), 1);
    assert!(mlx.win_vec[0].is_some());
}

#[test]
fn container_blits_what_is_still_there() {
    let mut mlx = container();
    assert!(mlx.new_window(0x10, 320, 200).is_ok());
    assert!(mlx.new_image(0x20, 2, 2, 32, 8, 0, vec![0; 19]).is_ok());
    assert_eq!(
        mlx.put_image_to_window(0, 0, 5, -6),
        Some(Blit { win_ptr: 0x10, img_ptr: 0x20, x: 5, y: -6 })
    );
    assert_eq!(mlx.put_image_to_window(1, 0, 5, 6), None);
    assert_eq!(mlx.put_image_to_window(0, 1, 5, 6), None);
    assert_eq!(mlx.destroy_image(0), Some(0x20));
    assert_eq!(mlx.put_image_to_window(0, 0, 5, 6), None);
    assert!(mlx.new_image(0x21, 2, 2, 32, 8, 0, vec![0; 19]).is_ok());
    assert_eq!(mlx.destroy_window(0), Some(0x10));
    assert_eq!(mlx.put_image_to_window(0, 1, 5, 6), None);
}

#[test]
fn container_releases_images_then_windows_then_the_connection() {
    let mut mlx = container();
    assert!(mlx.new_window(0x10, 320, 200).is_ok());
    assert!(mlx.new_window(0x11, 320, 200).is_ok());
    assert!(mlx.new_window(0x12, 320, 200).is_ok());
    assert!(mlx.new_image(0x20, 2, 2, 32, 8, 0, vec![0; 19]).is_ok());
    assert!(mlx.new_image(0x21, 2, 2, 32, 8, 0, vec![0; 19]).is_ok());
    assert_eq!(mlx.destroy_window(1), Some(0x11));
    assert_eq!(mlx.destroy_image(0), Some(0x20));
    let release = match mlx.destroy() {
        Some(release) => release,
        None => panic!("the container was live"),
    };
    assert_eq!(release.images, vec![0x21]);
    assert_eq!(release.windows, vec![0x10, 0x12]);
    assert_eq!(release.display, 0xd15);
    assert_eq!(mlx.mlx_ptr, 0);
    assert!(mlx.win_vec.is_empty() && mlx.image_vec.is_empty());
    assert!(mlx.destroy().is_none());
    assert_eq!(mlx.mlx_ptr, 0);
    assert!(mlx.win_vec.is_empty() && mlx.image_vec.is_empty());
}
