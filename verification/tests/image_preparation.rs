use ajazz_sdk::images::{
    convert_image, convert_image_with_format, convert_mad_dog_gk150w_logo, next_logo_step,
    transform_image, ImageFormat, ImageMirroring, ImageMode, ImageRect, ImageRotation, LogoStep,
    Rgb8Image, WriteImageParameters, MAD_DOG_GK150W_LOGO_MAX_BYTES,
};
use ajazz_sdk::info::Kind;
use ajazz_sdk::AjazzError;

const A: [u8; 3] = [10, 11, 12];
const B: [u8; 3] = [20, 21, 22];
const C: [u8; 3] = [30, 31, 32];
const D: [u8; 3] = [40, 41, 42];

/// The 2 x 2 image  A B / C D
fn square() -> Rgb8Image {
    Rgb8Image::new(2, 2, [A, B, C, D].concat()).unwrap()
}

fn solid(width: u32, height: u32, rgb: [u8; 3]) -> Rgb8Image {
    let pixels = (0..width * height).flat_map(|_| rgb).collect();
    Rgb8Image::new(width, height, pixels).unwrap()
}

fn noise(width: u32, height: u32) -> Rgb8Image {
    let mut state: u32 = 0x1234_5678;
    let pixels = (0..width * height * 3)
        .map(|_| {
            state ^= state << 13;
            state ^= state >> 17;
            state ^= state << 5;
            (state >> 24) as u8
        })
        .collect();
    Rgb8Image::new(width, height, pixels).unwrap()
}

fn format(size: (usize, usize), rotation: ImageRotation, mirror: ImageMirroring) -> ImageFormat {
    ImageFormat { mode: ImageMode::JPEG, size, rotation, mirror }
}

fn transformed(rotation: ImageRotation, mirror: ImageMirroring) -> Vec<u8> {
    let out = transform_image(&format((2, 2), rotation, mirror), square());
    assert_eq!((out.width, out.height), (2, 2));
    out.pixels
}

fn decoded_size(bytes: &[u8]) -> (u32, u32) {
    let img = image::load_from_memory_with_format(bytes, image::ImageFormat::Jpeg).unwrap();
    (img.width(), img.height())
}

#[test]
fn rgb8_image_needs_exact_pixel_count() {
    assert!(Rgb8Image::new(2, 2, vec![0; 12]).is_some());
    assert!(Rgb8Image::new(2, 2, vec![0; 11]).is_none());
    assert!(Rgb8Image::new(2, 2, vec![0; 13]).is_none());
    assert!(Rgb8Image::new(0, 5, vec![]).is_some());
}

#[test]
fn default_image_format() {
    let f = ImageFormat::default();
    assert!(matches!(f.mode, ImageMode::NoImage));
    assert_eq!(f.size, (0, 0));
    assert!(matches!(f.rotation, ImageRotation::Rot0));
    assert!(matches!(f.mirror, ImageMirroring::NoMirror));
}

#[test]
fn same_size_without_turning_keeps_pixels() {
    assert_eq!(transformed(ImageRotation::Rot0, ImageMirroring::NoMirror), [A, B, C, D].concat());
}

#[test]
fn rotations_turn_clockwise() {
    assert_eq!(transformed(ImageRotation::Rot90, ImageMirroring::NoMirror), [C, A, D, B].concat());
    assert_eq!(transformed(ImageRotation::Rot180, ImageMirroring::NoMirror), [D, C, B, A].concat());
    assert_eq!(transformed(ImageRotation::Rot270, ImageMirroring::NoMirror), [B, D, A, C].concat());
}

#[test]
fn mirrors_flip_the_picture() {
    assert_eq!(transformed(ImageRotation::Rot0, ImageMirroring::X), [B, A, D, C].concat());
    assert_eq!(transformed(ImageRotation::Rot0, ImageMirroring::Y), [C, D, A, B].concat());
    assert_eq!(transformed(ImageRotation::Rot0, ImageMirroring::Both), [D, C, B, A].concat());
}

#[test]
fn turn_then_mirror() {
    // turned: C A / D B, then mirrored left to right: A C / B D
    assert_eq!(transformed(ImageRotation::Rot90, ImageMirroring::X), [A, C, B, D].concat());
}

#[test]
fn non_square_rotation_swaps_sides() {
    // A B C in one row, turned a quarter clockwise, is one column A / B / C
    let row = Rgb8Image::new(3, 1, [A, B, C].concat()).unwrap();
    let out = transform_image(&format((1, 3), ImageRotation::Rot90, ImageMirroring::NoMirror), row);
    assert_eq!((out.width, out.height), (1, 3));
    assert_eq!(out.pixels, [A, B, C].concat());
    let row = Rgb8Image::new(3, 1, [A, B, C].concat()).unwrap();
    let out = transform_image(&format((1, 3), ImageRotation::Rot270, ImageMirroring::NoMirror), row);
    assert_eq!(out.pixels, [C, B, A].concat());
}

#[test]
fn resize_gives_the_format_size() {
    let out = transform_image(&format((5, 3), ImageRotation::Rot0, ImageMirroring::NoMirror), solid(2, 2, A));
    assert_eq!((out.width, out.height), (5, 3));
    assert_eq!(out.pixels.len(), 5 * 3 * 3);
    let out = transform_image(&format((1, 1), ImageRotation::Rot0, ImageMirroring::NoMirror), solid(4, 4, B));
    assert_eq!(out.pixels, B.to_vec());
}

#[test]
fn no_image_mode_gives_no_bytes() {
    let f = ImageFormat { mode: ImageMode::NoImage, size: (4, 4), rotation: ImageRotation::Rot90, mirror: ImageMirroring::Both };
    assert_eq!(convert_image_with_format(f, square()).unwrap(), Vec::<u8>::new());
}

#[test]
fn jpeg_mode_gives_a_jpeg_of_the_format_size() {
    let f = format((7, 3), ImageRotation::Rot90, ImageMirroring::Y);
    let bytes = convert_image_with_format(f, solid(5, 9, C)).unwrap();
    assert_eq!(&bytes[..2], &[0xFF, 0xD8]);
    assert_eq!(&bytes[bytes.len() - 2..], &[0xFF, 0xD9]);
    assert_eq!(decoded_size(&bytes), (7, 3));
}

#[test]
fn jpeg_of_empty_size_is_an_error() {
    assert!(convert_image_with_format(format((0, 4), ImageRotation::Rot0, ImageMirroring::NoMirror), square()).is_err());
    assert!(convert_image_with_format(format((4, 0), ImageRotation::Rot0, ImageMirroring::NoMirror), square()).is_err());
    assert!(convert_image_with_format(format((70000, 1), ImageRotation::Rot0, ImageMirroring::NoMirror), square()).is_err());
}

#[test]
fn key_images_have_the_key_size() {
    let bytes = convert_image(Kind::Akp153, solid(20, 10, D)).unwrap();
    assert_eq!(decoded_size(&bytes), (85, 85));
    let bytes = convert_image(Kind::Akp815, solid(20, 10, D)).unwrap();
    assert_eq!(decoded_size(&bytes), (100, 100));
    let bytes = convert_image(Kind::Akp03RRev2, solid(20, 10, D)).unwrap();
    assert_eq!(decoded_size(&bytes), (64, 64));
}

#[test]
fn logo_steps() {
    assert_eq!(next_logo_step(0, 100), LogoStep::Accept);
    assert_eq!(next_logo_step(MAD_DOG_GK150W_LOGO_MAX_BYTES, 100), LogoStep::Accept);
    assert_eq!(next_logo_step(MAD_DOG_GK150W_LOGO_MAX_BYTES, 60), LogoStep::Accept);
    assert_eq!(next_logo_step(MAD_DOG_GK150W_LOGO_MAX_BYTES + 1, 100), LogoStep::Retry);
    assert_eq!(next_logo_step(MAD_DOG_GK150W_LOGO_MAX_BYTES + 1, 70), LogoStep::Retry);
    assert_eq!(next_logo_step(MAD_DOG_GK150W_LOGO_MAX_BYTES + 1, 60), LogoStep::Reject);
    assert_eq!(MAD_DOG_GK150W_LOGO_MAX_BYTES, 522_240);
}

#[test]
fn mad_dog_logo_is_a_portrait_jpeg_within_the_limit() {
    let bytes = convert_mad_dog_gk150w_logo(solid(100, 50, A)).unwrap();
    assert!(bytes.len() <= MAD_DOG_GK150W_LOGO_MAX_BYTES);
    assert_eq!(decoded_size(&bytes), (480, 854));
}

#[test]
fn mad_dog_logo_steps_quality_down_until_it_fits() {
    let source = noise(854, 480);
    let buffer = image::RgbImage::from_raw(854, 480, source.pixels.clone()).unwrap();
    let turned = image::imageops::rotate270(&buffer);
    let mut expected = None;
    for quality in [100u8, 90, 80, 70, 60] {
        let mut buf = Vec::new();
        image::codecs::jpeg::JpegEncoder::new_with_quality(&mut buf, quality)
            .encode(turned.as_raw(), 480, 854, image::ExtendedColorType::Rgb8)
            .unwrap();
        if quality == 100 {
            assert!(buf.len() > MAD_DOG_GK150W_LOGO_MAX_BYTES);
        }
        if buf.len() <= MAD_DOG_GK150W_LOGO_MAX_BYTES {
            expected = Some(buf);
            break;
        }
    }
    match (convert_mad_dog_gk150w_logo(source), expected) {
        (Ok(bytes), Some(expected)) => assert_eq!(bytes, expected),
        (Err(_), None) => {},
        (got, expected) => panic!("got {:?} bytes, expected {:?}", got.map(|b| b.len()), expected.map(|b| b.len())),
    }
}

#[test]
fn image_rect_from_image_holds_rgb_rows() {
    let rect = ImageRect::from_image(square()).unwrap();
    assert_eq!((rect.w, rect.h), (2, 2));
    assert_eq!(rect.data.len(), 3 * 2 * 2);
    assert_eq!(rect.data, [A, B, C, D].concat());
    // pixel (x, y) at 3 * (y * w + x)
    assert_eq!(&rect.data[3 * (1 * 2 + 0)..3 * (1 * 2 + 0) + 3], &C);
    let rect = ImageRect::from_image(solid(30, 20, B)).unwrap();
    assert_eq!((rect.w, rect.h), (30, 20));
    assert_eq!(rect.data.len(), 30 * 20 * 3);
}

#[test]
fn image_rect_of_empty_image_is_an_image_error() {
    let empty = Rgb8Image::new(0, 0, vec![]).unwrap();
    assert!(matches!(ImageRect::from_image(empty), Err(AjazzError::ImageError(_))));
    let flat = Rgb8Image::new(5, 0, vec![]).unwrap();
    assert!(matches!(ImageRect::from_image(flat), Err(AjazzError::ImageError(_))));
}

#[test]
fn image_rect_of_too_wide_image_is_an_image_error() {
    let wide = Rgb8Image::new(70000, 1, vec![0; 70000 * 3]).unwrap();
    assert!(matches!(ImageRect::from_image(wide), Err(AjazzError::ImageError(_))));
}

#[test]
fn empty_source_needs_no_intermediate_buffer() {
    let empty = Rgb8Image::new(u32::MAX, 0, vec![]).unwrap();
    let f = ImageFormat { mode: ImageMode::NoImage, size: (1, 1 << 20), rotation: ImageRotation::Rot0, mirror: ImageMirroring::NoMirror };
    assert!(f.fits_image(u32::MAX, 0));
    assert_eq!(convert_image_with_format(f, empty).unwrap(), Vec::<u8>::new());
}

#[test]
fn write_image_parameters() {
    let p = WriteImageParameters::for_kind(Kind::Akp153);
    assert_eq!((p.image_report_length, p.image_report_payload_length), (513, 512));
    let p = WriteImageParameters::for_kind(Kind::Akp815);
    assert_eq!((p.image_report_length, p.image_report_payload_length), (513, 512));
    let p = WriteImageParameters::for_kind(Kind::Akp03R);
    assert_eq!((p.image_report_length, p.image_report_payload_length), (1025, 1024));
}
