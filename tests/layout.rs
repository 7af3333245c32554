use proy2::render::{pixel_count, pixel_index, pixel_order};
use proy2::texture::{RgbaTexture, Texel, TextureManager};

#[test]
fn pixel_counts() {
    assert_eq!(pixel_count(200, 150), Some(30000));
    assert_eq!(pixel_count(0, 7), Some(0));
}

#[test]
fn pixel_indices_are_row_major() {
    assert_eq!(pixel_index(0, 0, 4, 3), 0);
    assert_eq!(pixel_index(2, 1, 4, 3), 6);
    assert_eq!(pixel_index(3, 2, 4, 3), 11);
}

#[test]
fn pixel_order_row_by_row() {
    assert_eq!(pixel_order(3, 2), vec![(0, 0), (1, 0), (2, 0), (0, 1), (1, 1), (2, 1)]);
    assert!(pixel_order(0, 4).is_empty());
    assert!(pixel_order(4, 0).is_empty());
    for (i, (x, y)) in pixel_order(5, 4).into_iter().enumerate() {
        assert_eq!(pixel_index(x, y, 5, 4), i);
    }
}

/// A 2 by 2 image whose pixel (x, y) has red 10 * (y * 2 + x) + 1.
fn tiles() -> RgbaTexture {
    let mut samples = Vec::new();
    for i in 0..4u8 {
        samples.extend_from_slice(&[10 * i + 1, 100 + i, 200 + i, 255]);
    }
    RgbaTexture::from_raw(2, 2, samples).unwrap()
}

#[test]
fn from_raw_needs_enough_samples() {
    assert!(RgbaTexture::from_raw(2, 2, vec![0; 15]).is_none());
    let t = RgbaTexture::from_raw(2, 1, vec![0; 8]).unwrap();
    assert_eq!((t.width(), t.height()), (2, 1));
    assert!(RgbaTexture::from_raw(0, 0, Vec::new()).is_some());
}

#[test]
fn missing_texture_is_magenta() {
    let m = TextureManager::new();
    assert_eq!(m.sample_texture("grass", 0, 0), Texel { r: 255, g: 0, b: 255 });
    assert_eq!(m.texture_size("grass"), None);
}

#[test]
fn texels_by_coordinates() {
    let mut m = TextureManager::new();
    m.insert_texture("tiles", tiles());
    assert_eq!(m.texture_size("tiles"), Some((2, 2)));
    assert_eq!(m.sample_texture("tiles", 0, 0), Texel { r: 1, g: 100, b: 200 });
    assert_eq!(m.sample_texture("tiles", 1, 0), Texel { r: 11, g: 101, b: 201 });
    assert_eq!(m.sample_texture("tiles", 0, 1), Texel { r: 21, g: 102, b: 202 });
    assert_eq!(m.sample_texture("tiles", 1, 1), Texel { r: 31, g: 103, b: 203 });
    assert_eq!(m.sample_texture("check", 0, 0), Texel { r: 255, g: 0, b: 255 });
}

#[test]
fn coordinates_clamp_to_last_texel() {
    let mut m = TextureManager::new();
    m.insert_texture("tiles", tiles());
    assert_eq!(m.sample_texture("tiles", 7, 0), Texel { r: 11, g: 101, b: 201 });
    assert_eq!(m.sample_texture("tiles", 0, 99), Texel { r: 21, g: 102, b: 202 });
    assert_eq!(m.sample_texture("tiles", u32::MAX, u32::MAX), Texel { r: 31, g: 103, b: 203 });
}

#[test]
fn empty_texture_is_magenta() {
    let mut m = TextureManager::new();
    m.insert_texture("empty", RgbaTexture::from_raw(0, 3, Vec::new()).unwrap());
    assert_eq!(m.texture_size("empty"), Some((0, 3)));
    assert_eq!(m.sample_texture("empty", 0, 0), Texel { r: 255, g: 0, b: 255 });
}

#[test]
fn inserting_again_replaces() {
    let mut m = TextureManager::new();
    m.insert_texture("a", tiles());
    m.insert_texture("b", RgbaTexture::from_raw(1, 1, vec![7, 8, 9, 255]).unwrap());
    m.insert_texture("a", RgbaTexture::from_raw(1, 1, vec![4, 5, 6, 255]).unwrap());
    assert_eq!(m.texture_size("a"), Some((1, 1)));
    assert_eq!(m.sample_texture("a", 1, 1), Texel { r: 4, g: 5, b: 6 });
    assert_eq!(m.sample_texture("b", 0, 0), Texel { r: 7, g: 8, b: 9 });
}
