use shadey::{texture_from_decoded, ErrorKind};

fn png(data: &[u8], width: u32, height: u32, color: image::ColorType) -> Vec<u8> {
    let mut out = Vec::new();
    image::png::PNGEncoder::new(&mut out)
        .encode(data, width, height, color)
        .expect("encode");
    out
}

fn decode(bytes: &[u8]) -> (u32, u32, Vec<u8>) {
    let rgba = image::load_from_memory(bytes).expect("decode").to_rgba();
    let (w, h) = rgba.dimensions();
    (w, h, rgba.into_raw())
}

#[test]
fn decoded_rows_are_flipped() {
    let t = texture_from_decoded(1, 2, vec![1, 2, 3, 4, 5, 6, 7, 8]).ok().unwrap();
    assert_eq!(t.width, 1);
    assert_eq!(t.height, 2);
    assert_eq!(t.rgba, vec![5, 6, 7, 8, 1, 2, 3, 4]);
}

#[test]
fn flip_keeps_pixels_within_a_row() {
    let px: Vec<u8> = (0..24).collect();
    let t = texture_from_decoded(2, 3, px).ok().unwrap();
    let expected: Vec<u8> = (16..24).chain(8..16).chain(0..8).collect();
    assert_eq!(t.rgba, expected);
}

#[test]
fn wrong_buffer_size_is_a_texture_failure() {
    let e = texture_from_decoded(2, 2, vec![0; 15]).err().unwrap();
    assert_eq!(e.kind, ErrorKind::TextureCreate);
}

#[test]
fn empty_image_gives_empty_texture() {
    let t = texture_from_decoded(0, 5, vec![]).ok().unwrap();
    assert!(t.rgba.is_empty());
    let t = texture_from_decoded(3, 0, vec![]).ok().unwrap();
    assert!(t.rgba.is_empty());
}

#[test]
fn png_file_becomes_flipped_rgba() {
    let (w, h, px) = decode(&png(&[1, 2, 3, 4, 5, 6, 7, 8], 1, 2, image::ColorType::RGBA(8)));
    let t = texture_from_decoded(w, h, px).ok().unwrap();
    assert_eq!((t.width, t.height), (1, 2));
    assert_eq!(t.rgba, vec![5, 6, 7, 8, 1, 2, 3, 4]);
}

#[test]
fn grey_file_becomes_four_channels() {
    let (w, h, px) = decode(&png(&[10, 20], 2, 1, image::ColorType::Gray(8)));
    let t = texture_from_decoded(w, h, px).ok().unwrap();
    assert_eq!(t.rgba, vec![10, 10, 10, 255, 20, 20, 20, 255]);
}

#[test]
fn texture_length_matches_its_size() {
    let t = texture_from_decoded(3, 2, vec![7; 24]).ok().unwrap();
    assert_eq!(t.rgba.len(), 4 * 3 * 2);
}

#[test]
fn loading_twice_gives_the_same_pixels() {
    let bytes = png(&[9, 8, 7, 6, 5, 4, 3, 2], 2, 1, image::ColorType::RGBA(8));
    let (w, h, px) = decode(&bytes);
    let a = texture_from_decoded(w, h, px).ok().unwrap();
    let (w, h, px) = decode(&bytes);
    let b = texture_from_decoded(w, h, px).ok().unwrap();
    assert_eq!((a.width, a.height, a.rgba), (b.width, b.height, b.rgba));
}
