use pixel_lanes::engine::grayscale;
use pixel_lanes::engine::grayscale_lanes;
use pixel_lanes::engine::grayscale_simd_16;
use pixel_lanes::engine::grayscale_simd_32;
use pixel_lanes::engine::grayscale_simd_64;
use pixel_lanes::engine::grayscale_simd_8;
use pixel_lanes::engine::invert;
use pixel_lanes::engine::invert_lanes;
use pixel_lanes::engine::invert_simd_16;
use pixel_lanes::engine::invert_simd_32;
use pixel_lanes::engine::invert_simd_64;
use pixel_lanes::engine::invert_simd_8;

fn sample_channels(len: usize) -> (Vec<u8>, Vec<u8>, Vec<u8>) {
    let mut r = Vec::new();
    let mut g = Vec::new();
    let mut b = Vec::new();
    for i in 0..len {
        r.push((i * 7 % 256) as u8);
        g.push((i * 13 + 5) as u8);
        b.push((255 - i % 256) as u8);
    }
    (r, g, b)
}

fn reference_gray(r: &[u8], g: &[u8], b: &[u8]) -> Vec<u8> {
    let mut out = Vec::new();
    for i in 0..r.len() {
        let sum = (r[i] as u32) * 299 + (g[i] as u32) * 587 + (b[i] as u32) * 114;
        out.push((sum / 1000) as u8);
    }
    out
}

#[test]
fn grayscale_concrete_pixel() {
    // (100, 150, 200) -> floor(140750 / 1000) = 140 on all three channels.
    let out = grayscale(vec![100], vec![150], vec![200]);
    assert_eq!(out.0, vec![140]);
    assert_eq!(out.1, vec![140]);
    assert_eq!(out.2, vec![140]);
}

#[test]
fn grayscale_concrete_pixel_every_variant() {
    let expected = (vec![140u8], vec![140u8], vec![140u8]);
    assert_eq!(grayscale(vec![100], vec![150], vec![200]), expected);
    assert_eq!(grayscale_simd_8(vec![100], vec![150], vec![200]), expected);
    assert_eq!(grayscale_simd_16(vec![100], vec![150], vec![200]), expected);
    assert_eq!(grayscale_simd_32(vec![100], vec![150], vec![200]), expected);
    assert_eq!(grayscale_simd_64(vec![100], vec![150], vec![200]), expected);
}

#[test]
fn invert_concrete_pixel() {
    // (0, 255, 128) -> (255, 0, 127).
    let out = invert(vec![0], vec![255], vec![128]);
    assert_eq!(out.0, vec![255]);
    assert_eq!(out.1, vec![0]);
    assert_eq!(out.2, vec![127]);
}

#[test]
fn invert_concrete_pixel_every_variant() {
    let expected = (vec![255u8], vec![0u8], vec![127u8]);
    assert_eq!(invert(vec![0], vec![255], vec![128]), expected);
    assert_eq!(invert_simd_8(vec![0], vec![255], vec![128]), expected);
    assert_eq!(invert_simd_16(vec![0], vec![255], vec![128]), expected);
    assert_eq!(invert_simd_32(vec![0], vec![255], vec![128]), expected);
    assert_eq!(invert_simd_64(vec![0], vec![255], vec![128]), expected);
}

#[test]
fn grayscale_matches_reference_formula() {
    let (r, g, b) = sample_channels(97);
    let expected = reference_gray(&r, &g, &b);
    let out = grayscale(r, g, b);
    assert_eq!(out.0, expected);
    assert_eq!(out.1, expected);
    assert_eq!(out.2, expected);
}

#[test]
fn grayscale_variants_agree_across_remainder_classes() {
    // Lengths cover every remainder class that matters for widths 8..64,
    // including 0, 1, and lengths just around each block boundary.
    for len in [0, 1, 2, 7, 8, 9, 15, 16, 17, 31, 32, 33, 63, 64, 65, 100, 129] {
        let (r, g, b) = sample_channels(len);
        let reference = grayscale(r.clone(), g.clone(), b.clone());
        assert_eq!(grayscale_simd_8(r.clone(), g.clone(), b.clone()), reference);
        assert_eq!(grayscale_simd_16(r.clone(), g.clone(), b.clone()), reference);
        assert_eq!(grayscale_simd_32(r.clone(), g.clone(), b.clone()), reference);
        assert_eq!(grayscale_simd_64(r.clone(), g.clone(), b.clone()), reference);
    }
}

#[test]
fn invert_variants_agree_across_remainder_classes() {
    for len in [0, 1, 2, 7, 8, 9, 15, 16, 17, 31, 32, 33, 63, 64, 65, 100, 129] {
        let (r, g, b) = sample_channels(len);
        let reference = invert(r.clone(), g.clone(), b.clone());
        assert_eq!(invert_simd_8(r.clone(), g.clone(), b.clone()), reference);
        assert_eq!(invert_simd_16(r.clone(), g.clone(), b.clone()), reference);
        assert_eq!(invert_simd_32(r.clone(), g.clone(), b.clone()), reference);
        assert_eq!(invert_simd_64(r.clone(), g.clone(), b.clone()), reference);
    }
}

#[test]
fn length_seven_routes_through_remainder_path() {
    // Length 7 is below every lane width, so every variant takes only the
    // scalar remainder path and must still match the reference exactly.
    let (r, g, b) = sample_channels(7);
    let gray_reference = grayscale(r.clone(), g.clone(), b.clone());
    assert_eq!(gray_reference.0.len(), 7);
    assert_eq!(grayscale_simd_8(r.clone(), g.clone(), b.clone()), gray_reference);
    assert_eq!(grayscale_simd_16(r.clone(), g.clone(), b.clone()), gray_reference);
    assert_eq!(grayscale_simd_32(r.clone(), g.clone(), b.clone()), gray_reference);
    assert_eq!(grayscale_simd_64(r.clone(), g.clone(), b.clone()), gray_reference);
    let inv_reference = invert(r.clone(), g.clone(), b.clone());
    assert_eq!(inv_reference.0.len(), 7);
    assert_eq!(invert_simd_8(r.clone(), g.clone(), b.clone()), inv_reference);
    assert_eq!(invert_simd_16(r.clone(), g.clone(), b.clone()), inv_reference);
    assert_eq!(invert_simd_32(r.clone(), g.clone(), b.clone()), inv_reference);
    assert_eq!(invert_simd_64(r, g, b), inv_reference);
}

#[test]
fn length_is_preserved_by_every_variant() {
    for len in [0, 1, 7, 64, 200] {
        let (r, g, b) = sample_channels(len);
        for out in [
            grayscale(r.clone(), g.clone(), b.clone()),
            grayscale_simd_8(r.clone(), g.clone(), b.clone()),
            grayscale_simd_16(r.clone(), g.clone(), b.clone()),
            grayscale_simd_32(r.clone(), g.clone(), b.clone()),
            grayscale_simd_64(r.clone(), g.clone(), b.clone()),
            invert(r.clone(), g.clone(), b.clone()),
            invert_simd_8(r.clone(), g.clone(), b.clone()),
            invert_simd_16(r.clone(), g.clone(), b.clone()),
            invert_simd_32(r.clone(), g.clone(), b.clone()),
            invert_simd_64(r.clone(), g.clone(), b.clone()),
        ] {
            assert_eq!(out.0.len(), len);
            assert_eq!(out.1.len(), len);
            assert_eq!(out.2.len(), len);
        }
    }
}

#[test]
fn invert_twice_is_identity() {
    // Every channel value 0..=255, inverted twice, comes back unchanged.
    let all: Vec<u8> = (0..=255).collect();
    let once = invert(all.clone(), all.clone(), all.clone());
    let twice = invert(once.0, once.1, once.2);
    assert_eq!(twice.0, all);
    assert_eq!(twice.1, all);
    assert_eq!(twice.2, all);
}

#[test]
fn grayscale_twice_is_stable() {
    // Grayscale output has equal channels; a second pass reproduces it
    // exactly, including near division boundaries.
    let (r, g, b) = sample_channels(300);
    let once = grayscale(r, g, b);
    let twice = grayscale(once.0.clone(), once.1.clone(), once.2.clone());
    assert_eq!(twice, once);
}

#[test]
fn lane_width_one_matches_scalar() {
    let (r, g, b) = sample_channels(41);
    assert_eq!(
        grayscale_lanes(r.clone(), g.clone(), b.clone(), 1),
        grayscale(r.clone(), g.clone(), b.clone())
    );
    assert_eq!(
        invert_lanes(r.clone(), g.clone(), b.clone(), 1),
        invert(r, g, b)
    );
}
