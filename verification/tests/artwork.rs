use hadal::library::{decode_picture, first_decodable_picture, ArtworkManager};
use image::{DynamicImage, GenericImageView, ImageFormat, RgbImage};

fn png_bytes(width: u32, height: u32) -> Vec<u8> {
    let img = DynamicImage::ImageRgb8(RgbImage::new(width, height));
    let mut buf = std::io::Cursor::new(Vec::new());
    img.write_to(&mut buf, ImageFormat::Png).unwrap();
    buf.into_inner()
}

#[test]
fn decoding_pictures() {
    assert!(decode_picture(&png_bytes(3, 2)).is_some());
    assert!(decode_picture(b"not a picture").is_none());
    assert!(decode_picture(&[]).is_none());
}

#[test]
fn first_picture_that_decodes_wins() {
    let pictures = vec![b"junk".to_vec(), png_bytes(4, 4), png_bytes(8, 2)];
    let (i, image) = first_decodable_picture(&pictures).unwrap();
    assert_eq!(i, 1);
    assert_eq!(image.dimensions(), (4, 4));
    assert!(first_decodable_picture(&vec![b"junk".to_vec(), Vec::new()]).is_none());
    assert!(first_decodable_picture(&Vec::new()).is_none());
}

#[test]
fn thumbnails_fit_the_square() {
    let manager = ArtworkManager::new("/cache".to_string(), 20);
    let image = decode_picture(&png_bytes(100, 50)).unwrap();
    assert_eq!(manager.create_thumbnail(&image).dimensions(), (20, 10));
}
