//! Reading images from the engine's raw output.

use maplibre_native::{image_from_render, Image};

fn frame(width: u32, height: u32, data: &[u8]) -> Vec<u8> {
    let mut bytes = Vec::new();
    bytes.extend_from_slice(&width.to_ne_bytes());
    bytes.extend_from_slice(&height.to_ne_bytes());
    bytes.extend_from_slice(data);
    bytes
}

#[test]
fn fewer_than_eight_bytes_hold_no_image() {
    assert!(Image::from_raw(&[]).is_none());
    assert!(Image::from_raw(&[0, 0, 0, 0, 0, 0, 0]).is_none());
}

#[test]
fn header_and_samples_are_read() {
    let data = [10, 20, 30, 255, 40, 50, 60, 128];
    let image = Image::from_raw(&frame(2, 1, &data)).expect("two pixels fit");
    assert_eq!(image.0.width(), 2);
    assert_eq!(image.0.height(), 1);
    assert_eq!(image.0.as_raw().as_slice(), &data[..]);
    assert_eq!(image.0.get_pixel(1, 0).0, [40, 50, 60, 128]);
}

#[test]
fn too_few_samples_are_refused() {
    assert!(Image::from_raw(&frame(2, 2, &[0; 15])).is_none());
    assert!(matches!(
        image_from_render(&frame(2, 2, &[0; 15])),
        Err(maplibre_native::RenderingError::InvalidImageData)
    ));
}

#[test]
fn empty_image_needs_no_samples() {
    let image = Image::from_raw(&frame(0, 0, &[])).expect("an empty image fits");
    assert_eq!(image.0.width(), 0);
    assert_eq!(image.0.height(), 0);
}

#[test]
fn extra_samples_are_kept() {
    let image = Image::from_raw(&frame(1, 1, &[1, 2, 3, 4, 5])).expect("one pixel fits");
    assert_eq!(image.0.as_raw().len(), 5);
    assert_eq!(image.0.get_pixel(0, 0).0, [1, 2, 3, 4]);
}

#[test]
fn huge_dimensions_are_refused() {
    assert!(Image::from_raw(&frame(u32::MAX, u32::MAX, &[0; 16])).is_none());
}

#[test]
fn rendered_bytes_become_an_image() {
    let image = image_from_render(&frame(1, 2, &[9; 8])).expect("two pixels fit");
    assert_eq!(image.0.width(), 1);
    assert_eq!(image.0.height(), 2);
}

#[test]
fn row_size_must_be_a_usize() {
    let image = Image::from_raw(&frame(0x4000_0040, 0, &[]));
    if usize::BITS == 64 {
        let image = image.expect("an empty image of a wide row fits on 64-bit targets");
        assert_eq!(image.0.width(), 0x4000_0040);
        assert_eq!(image.0.height(), 0);
    } else {
        assert!(image.is_none());
    }
}

#[test]
fn cloned_image_is_equal() {
    let image = Image::from_raw(&frame(1, 1, &[1, 2, 3, 4])).expect("one pixel fits");
    let copy = image.clone();
    assert_eq!(copy, image);
    assert_eq!(copy.0.get_pixel(0, 0).0, [1, 2, 3, 4]);
}
