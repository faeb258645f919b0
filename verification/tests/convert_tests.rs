use pixelbridge::convert::{bgra_to_yuv420, PlanarImage};

fn solid_frame(w: usize, h: usize, b: u8, g: u8, r: u8, a: u8) -> Vec<u8> {
    let mut v = Vec::new();
    for _ in 0..w * h {
        v.push(b);
        v.push(g);
        v.push(r);
        v.push(a);
    }
    v
}

#[test]
fn black_4x4_frame_yields_24_bytes_luma_16_chroma_128() {
    let bgra = solid_frame(4, 4, 0, 0, 0, 255);
    let out = bgra_to_yuv420(&bgra, 4, 4);
    assert_eq!(out.len(), 24);
    for i in 0..16 {
        assert_eq!(out[i], 16, "luma at {i}");
    }
    for i in 16..24 {
        assert_eq!(out[i], 128, "chroma at {i}");
    }
}

#[test]
fn white_frame_luma_235_chroma_128() {
    let bgra = solid_frame(2, 2, 255, 255, 255, 255);
    let out = bgra_to_yuv420(&bgra, 2, 2);
    assert_eq!(out.len(), 6);
    assert_eq!(out[0], 235);
    assert_eq!(out[4], 128);
    assert_eq!(out[5], 128);
}

#[test]
fn pure_red_frame_exact_values() {
    // r = 255, g = 0, b = 0:
    // y = (16000 + 257 * 255) / 1000 = 81
    // u = (128000 - 148 * 255) / 1000 = 90
    // v = (128000 + 439 * 255) / 1000 = 239
    let bgra = solid_frame(2, 2, 0, 0, 255, 255);
    let out = bgra_to_yuv420(&bgra, 2, 2);
    assert_eq!(&out[..], &[81, 81, 81, 81, 90, 239]);
}

#[test]
fn output_length_is_three_halves_of_pixels_for_various_sizes() {
    for &(w, h) in &[(2usize, 2usize), (4, 2), (6, 8), (16, 16)] {
        let bgra = solid_frame(w, h, 1, 2, 3, 4);
        let out = bgra_to_yuv420(&bgra, w, h);
        assert_eq!(out.len(), w * h * 3 / 2);
        // Trivially, every byte lies in [0, 255]; spot-check the bounds the
        // formulas actually reach.
        assert!(out.iter().all(|&b| (16..=240).contains(&b)));
    }
}

#[test]
fn chroma_samples_top_left_of_each_block() {
    // 2×2 frame: only the top-left pixel is colored; chroma must come from
    // it alone, not an average.
    let mut bgra = solid_frame(2, 2, 0, 0, 0, 255);
    bgra[2] = 255; // red channel of pixel (0, 0)
    let out = bgra_to_yuv420(&bgra, 2, 2);
    assert_eq!(out[4], 90); // u of pure red
    assert_eq!(out[5], 239); // v of pure red
}

#[test]
fn planar_image_carries_dimensions_and_invariant() {
    let bgra = solid_frame(4, 2, 9, 9, 9, 255);
    let img = PlanarImage::from_bgra(&bgra, 4, 2);
    assert_eq!(img.width, 4);
    assert_eq!(img.height, 2);
    assert_eq!(img.data.len(), 12);
    // chroma plane is a quarter of the luma plane
    assert_eq!((img.width / 2) * (img.height / 2), img.width * img.height / 4);
}
