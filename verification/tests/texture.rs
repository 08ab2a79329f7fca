use image::{DynamicImage, GrayImage, ImageBuffer, RgbImage, RgbaImage};
use meshterial::texture::{bgra_fits, prepare_upload, Loaded, ResourceCache, TextureEntry};

fn entry(texture: u64, width: u32, height: u32) -> TextureEntry {
    TextureEntry { texture, dimensions: [width, height] }
}

#[test]
fn upload_of_an_rgb_picture_is_bgra() {
    let rgb: RgbImage = ImageBuffer::from_raw(2, 1, vec![1, 2, 3, 4, 5, 6]).unwrap();
    let upload = prepare_upload(&DynamicImage::ImageRgb8(rgb)).unwrap();
    assert_eq!(upload.width, 2);
    assert_eq!(upload.height, 1);
    assert_eq!(upload.data, vec![3, 2, 1, 255, 6, 5, 4, 255]);
}

#[test]
fn upload_of_an_rgba_picture_keeps_alpha() {
    let rgba: RgbaImage = ImageBuffer::from_raw(1, 2, vec![10, 20, 30, 40, 50, 60, 70, 80]).unwrap();
    let upload = prepare_upload(&DynamicImage::ImageRgba8(rgba)).unwrap();
    assert_eq!(upload.width, 1);
    assert_eq!(upload.height, 2);
    assert_eq!(upload.data, vec![30, 20, 10, 40, 70, 60, 50, 80]);
}

#[test]
fn upload_of_a_grey_picture_spreads_the_grey() {
    let grey: GrayImage = ImageBuffer::from_raw(3, 1, vec![0, 128, 255]).unwrap();
    let upload = prepare_upload(&DynamicImage::ImageLuma8(grey)).unwrap();
    assert_eq!(upload.width, 3);
    assert_eq!(upload.height, 1);
    assert_eq!(upload.data, vec![0, 0, 0, 255, 128, 128, 128, 255, 255, 255, 255, 255]);
}

#[test]
fn upload_has_four_bytes_for_each_pixel() {
    let upload = prepare_upload(&DynamicImage::new_rgb8(7, 5)).unwrap();
    assert_eq!((upload.width, upload.height), (7, 5));
    assert_eq!(upload.data.len(), 4 * 7 * 5);
}

#[test]
fn upload_of_a_picture_without_pixels_is_empty() {
    let upload = prepare_upload(&DynamicImage::new_rgba8(0, 9)).unwrap();
    assert_eq!((upload.width, upload.height), (0, 9));
    assert!(upload.data.is_empty());
}

#[test]
fn bgra_fits_up_to_the_address_space() {
    assert!(bgra_fits(0, 0));
    assert!(bgra_fits(800, 600));
    assert!(bgra_fits(u32::MAX, 1));
    let largest = u128::from(u32::MAX) * u128::from(u32::MAX) * 4;
    assert_eq!(bgra_fits(u32::MAX, u32::MAX), largest <= usize::MAX as u128);
    let wide = u128::from(u32::MAX) * (1u128 << 31) * 4;
    assert_eq!(bgra_fits(u32::MAX, 1 << 31), wide <= usize::MAX as u128);
}

#[test]
fn bgra_fits_only_where_one_row_can_be_counted() {
    // without rows there are no bytes, but the bytes of one row are counted
    let row = 4 * (1u128 << 30);
    assert_eq!(bgra_fits(1 << 30, 0), row <= usize::MAX as u128);
    assert_eq!(bgra_fits(u32::MAX, 0), 4 * u128::from(u32::MAX) <= usize::MAX as u128);
    assert!(bgra_fits(0, u32::MAX));
}

#[test]
fn upload_of_a_wide_picture_without_rows_is_empty() {
    let wide = DynamicImage::new_luma8(1 << 20, 0);
    let upload = prepare_upload(&wide).unwrap();
    assert_eq!((upload.width, upload.height), (1 << 20, 0));
    assert!(upload.data.is_empty());
}

#[test]
fn new_cache_is_empty() {
    let cache = ResourceCache::new();
    assert_eq!(cache.get(&String::from("a.png")), None);
}

#[test]
fn store_keeps_the_first_entry() {
    let mut cache = ResourceCache::new();
    let key = String::from("a.png");
    assert_eq!(cache.store(&key, entry(1, 8, 8)), entry(1, 8, 8));
    assert_eq!(cache.store(&key, entry(2, 4, 4)), entry(1, 8, 8));
    assert_eq!(cache.get(&key), Some(entry(1, 8, 8)));
}

#[test]
fn get_or_load_runs_the_loader_for_a_new_key() {
    let mut cache = ResourceCache::new();
    let key = String::from("a.png");
    let (found, pending) =
        cache.get_or_load(&key, || Loaded { entry: entry(1, 8, 8), pending: 77 });
    assert_eq!(found, entry(1, 8, 8));
    assert_eq!(pending, Some(77));
    assert_eq!(cache.get(&key), Some(entry(1, 8, 8)));
}

#[test]
fn get_or_load_runs_the_loader_at_most_once_per_key() {
    let mut cache = ResourceCache::new();
    let key = String::from("a.png");
    let mut runs = 0;
    let first = cache.get_or_load(&key, || {
        runs += 1;
        Loaded { entry: entry(1, 8, 8), pending: 77 }
    });
    let second = cache.get_or_load(&key, || {
        runs += 1;
        Loaded { entry: entry(2, 4, 4), pending: 78 }
    });
    assert_eq!(runs, 1);
    assert_eq!(first, (entry(1, 8, 8), Some(77)));
    assert_eq!(second, (entry(1, 8, 8), None));
}

#[test]
fn get_or_load_keeps_keys_apart() {
    let mut cache = ResourceCache::new();
    let a = String::from("a.png");
    let b = String::from("b.png");
    cache.get_or_load(&a, || Loaded { entry: entry(1, 8, 8), pending: 77 });
    let (found, pending) = cache.get_or_load(&b, || Loaded { entry: entry(2, 4, 4), pending: 78 });
    assert_eq!(found, entry(2, 4, 4));
    assert_eq!(pending, Some(78));
    assert_eq!(cache.get(&a), Some(entry(1, 8, 8)));
    assert_eq!(cache.get(&b), Some(entry(2, 4, 4)));
    assert_eq!(cache.get(&String::from("c.png")), None);
}
