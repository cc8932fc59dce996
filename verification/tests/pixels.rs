//! The pixel converter on concrete buffers.

use capturecard_viewer::pixels::yuy2_to_rgb_naive;

/// The fixed-point BT.601 formula, written out independently.
fn expected_rgb(y: i32, u: i32, v: i32) -> (u8, u8, u8) {
    let c = y - 16;
    let d = u - 128;
    let e = v - 128;
    let r = (1192 * c + 1634 * e) >> 10;
    let g = (1192 * c - 401 * d - 833 * e) >> 10;
    let b = (1192 * c + 2066 * d) >> 10;
    (
        r.clamp(0, 255) as u8,
        g.clamp(0, 255) as u8,
        b.clamp(0, 255) as u8,
    )
}

#[test]
fn output_length_matches_dimensions() {
    // 4x2 frame: 8 pixels, 16 source bytes, 24 output bytes.
    let src = vec![0u8; 4 * 2 * 2];
    let out = yuy2_to_rgb_naive(4, 2, &src);
    assert_eq!(out.len(), 4 * 2 * 3);
}

#[test]
fn output_length_for_720p() {
    let src = vec![0u8; 1280 * 720 * 2];
    let out = yuy2_to_rgb_naive(1280, 720, &src);
    assert_eq!(out.len(), 1280 * 720 * 3);
}

#[test]
fn known_pixel_values() {
    // One pair: (y0, u, y1, v) = (128, 90, 200, 240).
    let src = vec![128u8, 90, 200, 240];
    let out = yuy2_to_rgb_naive(2, 1, &src);
    assert_eq!(out.len(), 6);
    let (r0, g0, b0) = expected_rgb(128, 90, 240);
    let (r1, g1, b1) = expected_rgb(200, 90, 240);
    assert_eq!(&out[..], &[r0, g0, b0, r1, g1, b1]);
}

#[test]
fn every_pair_is_decoded() {
    // Two distinct pairs in one 4x1 row.
    let src = vec![16u8, 128, 235, 128, 81, 90, 145, 54];
    let out = yuy2_to_rgb_naive(4, 1, &src);
    assert_eq!(out.len(), 12);
    let (r0, g0, b0) = expected_rgb(16, 128, 128);
    let (r1, g1, b1) = expected_rgb(235, 128, 128);
    let (r2, g2, b2) = expected_rgb(81, 90, 54);
    let (r3, g3, b3) = expected_rgb(145, 90, 54);
    assert_eq!(
        &out[..],
        &[r0, g0, b0, r1, g1, b1, r2, g2, b2, r3, g3, b3]
    );
}

#[test]
fn uniform_midpoint_chroma_yields_gray() {
    // Every (y, 128, y, 128) quadruple lands on r == g == b exactly.
    for y in [0u8, 16, 100, 128, 200, 235, 255] {
        let src = vec![y, 128, y, 128];
        let out = yuy2_to_rgb_naive(2, 1, &src);
        let (r, g, b) = (out[0] as i32, out[1] as i32, out[2] as i32);
        assert!((r - g).abs() <= 2 && (g - b).abs() <= 2, "y={y}: {r},{g},{b}");
        assert_eq!(r, g, "y={y}");
        assert_eq!(g, b, "y={y}");
        assert_eq!(&out[0..3], &out[3..6]);
    }
}

#[test]
fn channels_are_clamped_at_both_ends() {
    // Saturated chroma drives channels past both ends of the range.
    let bright = yuy2_to_rgb_naive(2, 1, &vec![255u8, 255, 255, 255]);
    let dark = yuy2_to_rgb_naive(2, 1, &vec![0u8, 0, 0, 0]);
    assert_eq!(bright[0], 255); // red saturates high
    assert_eq!(bright[2], 255); // blue saturates high
    assert_eq!(dark[0], 0); // red saturates low
    assert_eq!(dark[2], 0); // blue saturates low
}

#[test]
fn extra_source_bytes_are_ignored() {
    // A source longer than width*height*2 still yields exactly
    // width*height*3 output bytes.
    let src = vec![100u8; 2 * 1 * 2 + 40];
    let out = yuy2_to_rgb_naive(2, 1, &src);
    assert_eq!(out.len(), 6);
}
