use pixel_lanes::engine::grayscale;
use pixel_lanes::engine::invert;
use pixel_lanes::equivalence::transform_channels;
use pixel_lanes::equivalence::verify_equivalence;
use pixel_lanes::equivalence::Transform;

fn sample_channels(len: usize) -> (Vec<u8>, Vec<u8>, Vec<u8>) {
    let mut r = Vec::new();
    let mut g = Vec::new();
    let mut b = Vec::new();
    for i in 0..len {
        r.push((i * 3 % 256) as u8);
        g.push((i * 5 + 1) as u8);
        b.push((i * 11 + 7) as u8);
    }
    (r, g, b)
}

#[test]
fn all_variants_verified_equal_for_grayscale() {
    // A length not divisible by any lane width exercises every remainder path.
    let (r, g, b) = sample_channels(133);
    assert!(verify_equivalence(Transform::Grayscale, &r, &g, &b));
}

#[test]
fn all_variants_verified_equal_for_invert() {
    let (r, g, b) = sample_channels(133);
    assert!(verify_equivalence(Transform::Invert, &r, &g, &b));
}

#[test]
fn verification_holds_on_empty_input() {
    let empty: Vec<u8> = Vec::new();
    assert!(verify_equivalence(Transform::Grayscale, &empty, &empty, &empty));
    assert!(verify_equivalence(Transform::Invert, &empty, &empty, &empty));
}

#[test]
fn dispatch_selects_grayscale() {
    let (r, g, b) = sample_channels(50);
    let expected = grayscale(r.clone(), g.clone(), b.clone());
    assert_eq!(transform_channels(Transform::Grayscale, r, g, b), expected);
}

#[test]
fn dispatch_selects_invert() {
    let (r, g, b) = sample_channels(50);
    let expected = invert(r.clone(), g.clone(), b.clone());
    assert_eq!(transform_channels(Transform::Invert, r, g, b), expected);
}
