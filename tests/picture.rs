use display_pipeline::picture::{align_image, DisplayImage};
use display_pipeline::request::ImageKind;

fn gradient(width: u32, height: u32) -> Vec<u8> {
    (0..width * height * 4).map(|i| (i % 251) as u8 + 1).collect()
}

#[test]
fn aligned_width_is_kept() {
    let raw = gradient(16, 3);
    assert_eq!(align_image(raw.clone(), 16, 3), raw);
    let raw = gradient(32, 1);
    assert_eq!(align_image(raw.clone(), 32, 1), raw);
}

#[test]
fn width_is_padded_to_next_multiple_of_sixteen() {
    let raw = gradient(17, 2);
    let out = align_image(raw.clone(), 17, 2);
    assert_eq!(out.len(), 32 * 2 * 4);
    for y in 0..2usize {
        for x in 0..32usize {
            for c in 0..4usize {
                let got = out[(y * 32 + x) * 4 + c];
                if x < 17 {
                    assert_eq!(got, raw[(y * 17 + x) * 4 + c]);
                } else {
                    assert_eq!(got, 0);
                }
            }
        }
    }
}

#[test]
fn small_image_gets_zero_columns() {
    // Two pixels per row become sixteen.
    let raw = vec![1, 2, 3, 4, 5, 6, 7, 8, 9, 10, 11, 12, 13, 14, 15, 16];
    let out = align_image(raw, 2, 2);
    assert_eq!(out.len(), 16 * 4 * 2);
    assert_eq!(&out[0..8], &[1, 2, 3, 4, 5, 6, 7, 8]);
    assert!(out[8..64].iter().all(|&b| b == 0));
    assert_eq!(&out[64..72], &[9, 10, 11, 12, 13, 14, 15, 16]);
    assert!(out[72..128].iter().all(|&b| b == 0));
}

#[test]
fn empty_image_stays_empty() {
    assert!(align_image(Vec::new(), 0, 0).is_empty());
    assert!(align_image(Vec::new(), 5, 0).is_empty());
}

#[test]
fn display_image_holds_padded_buffer() {
    let raw = gradient(20, 3);
    let image = DisplayImage::new(raw, 20, 3, 1234, ImageKind::Png);
    assert_eq!(image.width(), 20);
    assert_eq!(image.height(), 3);
    assert_eq!(image.size(), (20, 3));
    assert_eq!(image.len(), 32 * 3 * 4);
    assert_eq!(image.as_raw().len(), 32 * 3 * 4);
    assert_eq!(image.file_size(), 1234);
    assert_eq!(image.format(), ImageKind::Png);
    assert_eq!(image.as_raw()[20 * 4], 0);
}
