use minecraft_skins::color::color_correct;
use minecraft_skins::convert::convert_to_canonical;
use minecraft_skins::icon::gen_icon;
use minecraft_skins::normalize::normalize;
use minecraft_skins::pixels::Image;
use minecraft_skins::portrait::{gen_portrait, Placement};
use minecraft_skins::SkinError;

fn png_bytes(img: &image::RgbaImage) -> Vec<u8> {
    let mut buf = std::io::Cursor::new(Vec::new());
    img.write_to(&mut buf, image::ImageFormat::Png).unwrap();
    buf.into_inner()
}

fn patterned(width: u32, height: u32) -> Image {
    let n = (width as usize) * (height as usize) * 4;
    let pixels: Vec<u8> = (0..n).map(|i| (i % 249) as u8).collect();
    Image { width, height, pixels }
}

fn corrected_channel(c: u8) -> u8 {
    if c < 128 {
        c - c / 4
    } else {
        c + (255 - c) / 4
    }
}

#[test]
fn color_correct_exact_values() {
    let mut img = Image { width: 1, height: 1, pixels: vec![100, 200, 50, 77] };
    color_correct(&mut img);
    // 100 -> 100 - 25; 200 -> 200 + 13; 50 -> 50 - 12; alpha untouched.
    assert_eq!(img.pixels, vec![75, 213, 38, 77]);
}

#[test]
fn color_correct_deterministic() {
    let mut a = patterned(16, 16);
    let mut b = patterned(16, 16);
    color_correct(&mut a);
    color_correct(&mut b);
    assert_eq!(a.pixels, b.pixels);
}

#[test]
fn convert_dims_and_top_half() {
    let src = patterned(64, 32);
    let out = convert_to_canonical(&src);
    assert_eq!(out.width, 64);
    assert_eq!(out.height, 64);
    assert_eq!(out.pixels.len(), 64 * 64 * 4);
    // The source occupies the top half unchanged.
    assert_eq!(&out.pixels[0..64 * 32 * 4], &src.pixels[..]);
}

#[test]
fn convert_mirrors_leg_region() {
    let src = patterned(64, 32);
    let out = convert_to_canonical(&src);
    // With a 64-wide source the grid unit is 4: the rectangle at source
    // (4..8, 16..20) lands mirrored at destination (20..24, 48..52), so
    // output (20, 48) reads source (7, 16).
    let got = &out.pixels[4 * (48 * 64 + 20)..4 * (48 * 64 + 20) + 4];
    let want = &src.pixels[4 * (16 * 64 + 7)..4 * (16 * 64 + 7) + 4];
    assert_eq!(got, want);
}

#[test]
fn convert_uncovered_bottom_is_transparent() {
    let src = patterned(64, 32);
    let out = convert_to_canonical(&src);
    // The bottom-left corner lies in no synthesized rectangle.
    assert_eq!(&out.pixels[4 * (48 * 64)..4 * (48 * 64) + 4], &[0, 0, 0, 0]);
}

#[test]
fn normalize_legacy_becomes_square() {
    let img = image::RgbaImage::from_fn(64, 32, |x, y| {
        image::Rgba([(x % 256) as u8, (y % 256) as u8, 7, 255])
    });
    let out = normalize(&png_bytes(&img)).unwrap();
    assert_eq!(out.width, 64);
    assert_eq!(out.height, 64);
}

#[test]
fn normalize_canonical_keeps_dims_and_corrects() {
    let img = image::RgbaImage::from_pixel(128, 128, image::Rgba([100, 200, 50, 255]));
    let out = normalize(&png_bytes(&img)).unwrap();
    assert_eq!(out.width, 128);
    assert_eq!(out.height, 128);
    assert_eq!(&out.pixels[0..4], &[75, 213, 38, 255]);
}

#[test]
fn normalize_matches_convert_then_correct() {
    let img = image::RgbaImage::from_fn(64, 32, |x, y| {
        image::Rgba([(3 * x % 256) as u8, (5 * y % 256) as u8, 11, 255])
    });
    let out = normalize(&png_bytes(&img)).unwrap();
    let src = Image { width: 64, height: 32, pixels: img.clone().into_raw() };
    let mut expected = convert_to_canonical(&src);
    color_correct(&mut expected);
    assert_eq!(out.pixels, expected.pixels);
}

#[test]
fn normalize_rejects_garbage() {
    let junk = vec![0x13u8; 64];
    assert_eq!(normalize(&junk).unwrap_err(), SkinError::Decode);
}

#[test]
fn normalize_rejects_oversize() {
    let img = image::RgbaImage::from_pixel(1025, 5, image::Rgba([1, 2, 3, 4]));
    assert_eq!(normalize(&png_bytes(&img)).unwrap_err(), SkinError::Dimensions);
}

#[test]
fn gen_icon_samples_head() {
    // Head face painted one color, overlay left transparent: the icon is
    // uniformly the head color.
    let mut base = Image { width: 64, height: 64, pixels: vec![0u8; 64 * 64 * 4] };
    for y in 8..16usize {
        for x in 8..16usize {
            let i = 4 * (y * 64 + x);
            base.pixels[i] = 200;
            base.pixels[i + 1] = 10;
            base.pixels[i + 2] = 20;
            base.pixels[i + 3] = 255;
        }
    }
    let icon = gen_icon(&base);
    assert_eq!(icon.width, 64);
    assert_eq!(icon.height, 64);
    for px in icon.pixels.chunks(4) {
        assert_eq!(px, &[200, 10, 20, 255]);
    }
}

#[test]
fn gen_icon_overlay_wins_when_opaque() {
    let mut base = Image { width: 64, height: 64, pixels: vec![0u8; 64 * 64 * 4] };
    for y in 8..16usize {
        for x in 40..48usize {
            let i = 4 * (y * 64 + x);
            base.pixels[i] = 1;
            base.pixels[i + 1] = 2;
            base.pixels[i + 2] = 3;
            base.pixels[i + 3] = 255;
        }
    }
    let icon = gen_icon(&base);
    for px in icon.pixels.chunks(4) {
        assert_eq!(px, &[1, 2, 3, 255]);
    }
}

#[test]
fn gen_portrait_masks_and_places() {
    // An opaque red source at scale 1000 (1:1) and no translation covers
    // the mask; outside the source the mask shows through.
    let base = Image { width: 4, height: 4, pixels: vec![255u8; 4 * 4 * 4] };
    let mask = Image { width: 8, height: 8, pixels: vec![9u8; 8 * 8 * 4] };
    let pl = Placement { dx: 0, dy: 0, scale_pm: 1000 };
    let out = gen_portrait(&base, &mask, pl);
    assert_eq!(out.width, 8);
    assert_eq!(out.height, 8);
    // (0, 0) maps into the source: the source pixel is opaque, so it wins.
    assert_eq!(&out.pixels[0..4], &[255, 255, 255, 255]);
    // (6, 6) maps past the 4x4 source: the mask pixel shows.
    let i = 4 * (6 * 8 + 6);
    assert_eq!(&out.pixels[i..i + 4], &[9, 9, 9, 9]);
}

#[test]
fn gen_portrait_scale_halves() {
    // Scale 2000 per mille doubles the source on the output: output (3, 3)
    // samples source (1, 1).
    let mut base = Image { width: 4, height: 4, pixels: vec![0u8; 4 * 4 * 4] };
    let i = 4 * (1 * 4 + 1);
    base.pixels[i] = 42;
    base.pixels[i + 3] = 255;
    let mask = Image { width: 8, height: 8, pixels: vec![7u8; 8 * 8 * 4] };
    let pl = Placement { dx: 0, dy: 0, scale_pm: 2000 };
    let out = gen_portrait(&base, &mask, pl);
    let j = 4 * (3 * 8 + 3);
    assert_eq!(&out.pixels[j..j + 4], &[42, 0, 0, 255]);
}
