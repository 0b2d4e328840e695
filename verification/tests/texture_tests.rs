use mesh_viewer::texture::{flip_rows, holds_rgba, TextureError};

#[test]
fn rows_are_reversed_and_pixels_kept() {
    // Two pixels wide, three rows high; every byte different.
    let pixels: Vec<u8> = (0u8..24).collect();
    let texture = flip_rows(2, 3, pixels).unwrap();
    assert_eq!(texture.width, 2);
    assert_eq!(texture.height, 3);
    let want: Vec<u8> = vec![
        16, 17, 18, 19, 20, 21, 22, 23, // what was the bottom row
        8, 9, 10, 11, 12, 13, 14, 15, // the middle row stays
        0, 1, 2, 3, 4, 5, 6, 7, // what was the top row
    ];
    assert_eq!(texture.pixels, want);
}

#[test]
fn flipping_twice_gives_the_image_back() {
    let pixels: Vec<u8> = (0u8..96).map(|b| b.wrapping_mul(37)).collect();
    let once = flip_rows(3, 8, pixels.clone()).unwrap();
    assert_ne!(once.pixels, pixels);
    let twice = flip_rows(3, 8, once.pixels).unwrap();
    assert_eq!(twice.pixels, pixels);
}

#[test]
fn single_row_is_left_alone() {
    let pixels: Vec<u8> = vec![1, 2, 3, 4, 5, 6, 7, 8];
    let texture = flip_rows(2, 1, pixels.clone()).unwrap();
    assert_eq!(texture.pixels, pixels);
}

#[test]
fn image_without_pixels_is_taken() {
    let texture = flip_rows(0, 0, Vec::new()).unwrap();
    assert_eq!((texture.width, texture.height), (0, 0));
    assert!(texture.pixels.is_empty());
    assert!(flip_rows(0, 5, Vec::new()).is_ok());
    assert!(flip_rows(5, 0, Vec::new()).is_ok());
}

#[test]
fn wrong_length_is_refused() {
    assert_eq!(flip_rows(2, 2, vec![0; 15]).err(), Some(TextureError::SizeMismatch));
    assert_eq!(flip_rows(2, 2, vec![0; 17]).err(), Some(TextureError::SizeMismatch));
    assert_eq!(flip_rows(0, 0, vec![0; 4]).err(), Some(TextureError::SizeMismatch));
    assert_eq!(flip_rows(u32::MAX, u32::MAX, vec![0; 4]).err(), Some(TextureError::SizeMismatch));
}

#[test]
fn length_check_is_exact() {
    assert!(holds_rgba(0, 0, 7));
    assert!(holds_rgba(4, 1, 1));
    assert!(holds_rgba(3145728, 1024, 768));
    assert!(!holds_rgba(3145727, 1024, 768));
    assert!(!holds_rgba(5, 1, 1));
    assert!(!holds_rgba(0, 1, 1));
}
