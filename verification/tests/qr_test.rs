use image::GenericImageView;
use qrlink::overlay::scaled_dims;
use qrlink::{PixelImage, QrGenError, QrGenerator};

#[test]
fn test_generate_qr_without_logo() {
    let generator = QrGenerator::new(256, None);
    let result = generator.generate("https://example.com");
    assert!(result.is_ok());

    let png_data = result.unwrap();
    assert!(!png_data.is_empty());
    // Check PNG magic bytes
    assert_eq!(&png_data[0..4], &[0x89, 0x50, 0x4E, 0x47]);
}

#[test]
fn test_generate_qr_with_content() {
    let generator = QrGenerator::new(512, None);
    let result = generator.generate("https://s.company.local/Ab3kP9x");
    assert!(result.is_ok());
}

#[test]
fn test_png_signature_full_eight_bytes() {
    let generator = QrGenerator::new(128, None);
    let bytes = generator.generate("signature check").unwrap();
    assert_eq!(&bytes[0..8], &[137, 80, 78, 71, 13, 10, 26, 10]);
}

#[test]
fn test_output_dimensions_match_target() {
    for size in [64u32, 100, 256, 333, 512] {
        let generator = QrGenerator::new(size, None);
        let bytes = generator.generate("https://example.com").unwrap();
        let img = image::load_from_memory(&bytes).unwrap();
        assert_eq!(img.dimensions(), (size, size));
    }
}

#[test]
fn test_scenario_256_no_logo() {
    let generator = QrGenerator::new(256, None);
    let bytes = generator.generate("https://example.com").unwrap();
    assert_eq!(&bytes[0..8], &[137, 80, 78, 71, 13, 10, 26, 10]);
    let img = image::load_from_memory(&bytes).unwrap();
    assert_eq!(img.dimensions(), (256, 256));
}

#[test]
fn test_generate_is_deterministic() {
    let logo = PixelImage::filled(40, 40, 10, 20, 30, 255);
    let g1 = QrGenerator::new(300, Some(logo.clone()));
    let g2 = QrGenerator::new(300, Some(logo));
    let b1 = g1.generate("https://example.com/path?q=1").unwrap();
    let b2 = g2.generate("https://example.com/path?q=1").unwrap();
    assert_eq!(b1, b2);
    let b3 = g1.generate("https://example.com/path?q=1").unwrap();
    assert_eq!(b1, b3);
}

#[test]
fn test_content_too_large_at_level_h() {
    let generator = QrGenerator::new(256, None);
    let content = "a".repeat(3000);
    let result = generator.generate(&content);
    assert_eq!(result, Err(QrGenError::ContentTooLarge));
}

#[test]
fn test_quiet_zone_is_light() {
    let generator = QrGenerator::new(290, None);
    let bytes = generator.generate("https://example.com").unwrap();
    let img = image::load_from_memory(&bytes).unwrap().to_rgba8();
    // The first pixels of each row and column always lie in the quiet zone
    // and are white, whatever symbol version the content selects.
    for d in 0..4 {
        assert_eq!(img.get_pixel(d, d), &image::Rgba([255, 255, 255, 255]));
    }
    // A symbol always holds dark modules; the rendering may not be all white.
    let mut saw_dark = false;
    for p in img.pixels() {
        if p[0] == 0 {
            saw_dark = true;
            break;
        }
    }
    assert!(saw_dark);
}

#[test]
fn test_scenario_512_logo_center_differs_rest_unchanged() {
    let content = "https://s.example/Ab3kP9x";
    let plain = QrGenerator::new(512, None).generate(content).unwrap();
    let logo = PixelImage::filled(64, 64, 200, 30, 30, 255);
    let branded = QrGenerator::new(512, Some(logo)).generate(content).unwrap();

    let plain_img = image::load_from_memory(&plain).unwrap().to_rgba8();
    let branded_img = image::load_from_memory(&branded).unwrap().to_rgba8();
    assert_eq!(plain_img.dimensions(), (512, 512));
    assert_eq!(branded_img.dimensions(), (512, 512));

    // The 64x64 opaque logo stays 64x64 (64 <= 512/5); the backing patch
    // covers 72x72 pixels centred at (256, 256), so columns and rows outside
    // 220..292 are untouched.
    let mut center_differs = false;
    for y in 0..512u32 {
        for x in 0..512u32 {
            let inside = (220..292).contains(&x) && (220..292).contains(&y);
            if inside {
                if plain_img.get_pixel(x, y) != branded_img.get_pixel(x, y) {
                    center_differs = true;
                }
            } else {
                assert_eq!(plain_img.get_pixel(x, y), branded_img.get_pixel(x, y));
            }
        }
    }
    assert!(center_differs);
    // The logo itself is opaque red, so the exact centre shows the logo.
    assert_eq!(branded_img.get_pixel(256, 256), &image::Rgba([200, 30, 30, 255]));
}

#[test]
fn test_logo_is_shrunk_to_safe_area() {
    let content = "https://example.com";
    let plain = QrGenerator::new(512, None).generate(content).unwrap();
    // A 400x400 logo exceeds the 102-pixel footprint bound at 512 and is
    // shrunk to 102x102; the backing patch then spans 201..311 on both axes.
    let logo = PixelImage::filled(400, 400, 200, 30, 30, 255);
    let branded = QrGenerator::new(512, Some(logo)).generate(content).unwrap();
    let plain_img = image::load_from_memory(&plain).unwrap().to_rgba8();
    let branded_img = image::load_from_memory(&branded).unwrap().to_rgba8();
    let mut center_differs = false;
    for y in 0..512u32 {
        for x in 0..512u32 {
            let inside = (201..311).contains(&x) && (201..311).contains(&y);
            if inside {
                if plain_img.get_pixel(x, y) != branded_img.get_pixel(x, y) {
                    center_differs = true;
                }
            } else {
                assert_eq!(plain_img.get_pixel(x, y), branded_img.get_pixel(x, y));
            }
        }
    }
    assert!(center_differs);
}

#[test]
fn test_oversized_logo_is_clipped_safely() {
    let logo = PixelImage::filled(4096, 2048, 0, 0, 255, 255);
    let generator = QrGenerator::new(64, Some(logo));
    let bytes = generator.generate("tiny").unwrap();
    let img = image::load_from_memory(&bytes).unwrap();
    assert_eq!(img.dimensions(), (64, 64));
}

#[test]
fn test_safe_area_bound_for_all_target_sizes() {
    for size in 64u32..=2048 {
        let maxpx = size * 20 / 100;
        let (w, h) = scaled_dims(999, 333, maxpx);
        assert!(w.max(h) <= maxpx);
        let (w2, h2) = scaled_dims(10, 4000, maxpx);
        assert!(w2.max(h2) <= maxpx);
    }
}

#[test]
fn test_scaled_dims_never_enlarges() {
    let (w, h) = scaled_dims(10, 12, 100);
    assert_eq!((w, h), (10, 12));
    let (w, h) = scaled_dims(200, 100, 50);
    assert_eq!((w, h), (50, 25));
}

#[test]
fn test_transparent_logo_pixels_leave_backing_visible() {
    let content = "https://example.com";
    // A fully transparent logo: its pixels are never blended, but the
    // opaque backing patch is still painted.
    let logo = PixelImage::filled(50, 50, 9, 9, 9, 0);
    let bytes = QrGenerator::new(250, Some(logo)).generate(content).unwrap();
    let img = image::load_from_memory(&bytes).unwrap().to_rgba8();
    assert_eq!(img.get_pixel(125, 125), &image::Rgba([255, 255, 255, 255]));
}
