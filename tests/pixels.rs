use bevy_mutate_image::{rgba, MutableImage, MutableImageView};
use image::Rgba;

fn blank(width: u32, height: u32) -> Vec<u8> {
    vec![0u8; (width * height * 4) as usize]
}

#[test]
fn put_then_get_returns_the_pixel() {
    let mut data = blank(3, 2);
    let mut img = MutableImage::new(&mut data, 3, 2).unwrap();
    for y in 0..2u32 {
        for x in 0..3u32 {
            let p = Rgba([x as u8 + 1, y as u8 + 10, 200, 77]);
            img.put_pixel(x, y, p);
            assert_eq!(img.get_pixel(x, y), p);
        }
    }
}

#[test]
fn zeroed_buffer_reads_transparent_black() {
    let data = blank(4, 3);
    let view = MutableImageView::new(&data, 4, 3).unwrap();
    for y in 0..3u32 {
        for x in 0..4u32 {
            assert_eq!(view.get_pixel(x, y), Rgba([0, 0, 0, 0]));
        }
    }
}

#[test]
fn opaque_blend_overwrites_colour() {
    let mut data = blank(2, 2);
    let mut img = MutableImage::new(&mut data, 2, 2).unwrap();
    img.put_pixel(1, 0, Rgba([9, 99, 199, 50]));
    img.blend_pixel(1, 0, Rgba([10, 20, 30, 255]));
    assert_eq!(img.get_pixel(1, 0), Rgba([10, 20, 30, 255]));
}

#[test]
fn transparent_blend_changes_nothing() {
    let mut data = blank(2, 2);
    let mut img = MutableImage::new(&mut data, 2, 2).unwrap();
    img.put_pixel(0, 1, Rgba([9, 99, 199, 50]));
    img.blend_pixel(0, 1, Rgba([10, 20, 30, 0]));
    assert_eq!(img.get_pixel(0, 1), Rgba([9, 99, 199, 50]));
}

#[test]
fn half_blend_uses_truncating_formula() {
    let mut data = blank(1, 1);
    let mut img = MutableImage::new(&mut data, 1, 1).unwrap();
    img.put_pixel(0, 0, Rgba([100, 0, 255, 100]));
    img.blend_pixel(0, 0, Rgba([200, 255, 0, 128]));
    // (100 * 127 + 200 * 128) / 255 = 150, (0 * 127 + 255 * 128) / 255 = 128,
    // (255 * 127 + 0) / 255 = 127, 128 + 100 * 127 / 255 = 177.
    assert_eq!(img.get_pixel(0, 0), Rgba([150, 128, 127, 177]));
}

#[test]
fn two_by_two_scenario() {
    let mut data = blank(2, 2);
    {
        let mut img = MutableImage::new(&mut data, 2, 2).unwrap();
        img.put_pixel(0, 0, Rgba([255, 0, 0, 255]));
        img.put_pixel(1, 1, Rgba([0, 255, 0, 128]));
        assert_eq!(img.get_pixel(0, 0), Rgba([255, 0, 0, 255]));
        assert_eq!(img.get_pixel(1, 1), Rgba([0, 255, 0, 128]));
        assert_eq!(img.get_pixel(1, 0), Rgba([0, 0, 0, 0]));
    }
    assert_eq!(
        data,
        vec![255, 0, 0, 255, 0, 0, 0, 0, 0, 0, 0, 0, 0, 255, 0, 128]
    );
}

#[test]
fn repeated_put_leaves_bytes_unchanged() {
    let mut data = blank(3, 3);
    let p = Rgba([1, 2, 3, 4]);
    let after_first = {
        let mut img = MutableImage::new(&mut data, 3, 3).unwrap();
        img.put_pixel(2, 1, p);
        img.get_pixel(2, 1)
    };
    let snapshot = data.clone();
    {
        let mut img = MutableImage::new(&mut data, 3, 3).unwrap();
        img.put_pixel(2, 1, p);
        img.put_pixel(2, 1, p);
        assert_eq!(img.get_pixel(2, 1), after_first);
    }
    assert_eq!(data, snapshot);
}

#[test]
fn row_major_layout() {
    let mut data = blank(3, 2);
    {
        let mut img = MutableImage::new(&mut data, 3, 2).unwrap();
        img.put_pixel(2, 1, Rgba([7, 8, 9, 10]));
        assert_eq!(img.pixel_range(2, 1), 20..24);
        assert_eq!(img.pixel_range(0, 1), 12..16);
    }
    assert_eq!(&data[20..24], &[7, 8, 9, 10]);
    assert!(data[..20].iter().all(|b| *b == 0));
}

#[test]
fn pixel_mut_writes_through() {
    let mut data = blank(2, 1);
    {
        let mut img = MutableImage::new(&mut data, 2, 1).unwrap();
        let p = img.get_pixel_mut(1, 0);
        assert_eq!(*p, Rgba([0, 0, 0, 0]));
        p.0[2] = 42;
        assert_eq!(img.get_pixel(1, 0), Rgba([0, 0, 42, 0]));
    }
    assert_eq!(data, vec![0, 0, 0, 0, 0, 0, 42, 0]);
}

#[test]
fn view_reads_existing_bytes() {
    let data: Vec<u8> = (0u8..16).collect();
    let view = MutableImageView::new(&data, 2, 2).unwrap();
    assert_eq!(view.get_pixel(0, 0), Rgba([0, 1, 2, 3]));
    assert_eq!(view.get_pixel(1, 0), Rgba([4, 5, 6, 7]));
    assert_eq!(view.get_pixel(0, 1), Rgba([8, 9, 10, 11]));
    assert_eq!(view.get_pixel(1, 1), Rgba([12, 13, 14, 15]));
    assert_eq!(view.pixel_range(1, 1), 12..16);
}

#[test]
fn dimensions_and_bounds() {
    let data = blank(5, 7);
    let view = MutableImageView::new(&data, 5, 7).unwrap();
    assert_eq!(view.dimensions(), (5, 7));
    assert_eq!(view.bounds(), (0, 0, 5, 7));
    assert_eq!(view.width(), 5);
    assert_eq!(view.height(), 7);
    let mut data = blank(5, 7);
    let img = MutableImage::new(&mut data, 5, 7).unwrap();
    assert_eq!(img.dimensions(), (5, 7));
    assert_eq!(img.bounds(), (0, 0, 5, 7));
    assert_eq!(img.width(), 5);
    assert_eq!(img.height(), 7);
}

#[test]
fn wrong_length_is_refused() {
    let data = vec![0u8; 15];
    assert!(MutableImageView::new(&data, 2, 2).is_none());
    let mut data = vec![0u8; 17];
    assert!(MutableImage::new(&mut data, 2, 2).is_none());
    assert_eq!(data.len(), 17);
    let data = vec![0u8; 16];
    assert!(MutableImageView::new(&data, 4, 2).is_none());
    assert!(MutableImageView::new(&data, 1, 4).is_some());
}

#[test]
fn empty_images() {
    let data: Vec<u8> = Vec::new();
    assert!(MutableImageView::new(&data, 0, 0).is_some());
    assert!(MutableImageView::new(&data, 0, 9).is_some());
    assert!(MutableImageView::new(&data, 9, 0).is_some());
    let data = vec![0u8; 4];
    assert!(MutableImageView::new(&data, 0, 1).is_none());
}

#[test]
fn large_dimensions_do_not_overflow() {
    let data = vec![0u8; 4];
    assert!(MutableImageView::new(&data, u32::MAX, u32::MAX).is_none());
    assert!(MutableImageView::new(&data, u32::MAX, 1).is_none());
}

#[test]
fn rgba_orders_channels() {
    assert_eq!(rgba(1, 2, 3, 4), Rgba([1, 2, 3, 4]));
}
