use mirage::buffer::ImageBuffer;
use mirage::dispatch::RotateDegrees;
use mirage::pixel::Pixel;

fn px(r: u8, g: u8, b: u8) -> Pixel {
    Pixel { r, g, b }
}

/// A 3×2 image with six distinct pixels.
fn sample_image() -> ImageBuffer {
    let pixels = vec![
        px(1, 0, 0),
        px(2, 0, 0),
        px(3, 0, 0),
        px(4, 0, 0),
        px(5, 0, 0),
        px(6, 0, 0),
    ];
    ImageBuffer::from_pixels(3, 2, &pixels).unwrap()
}

#[test]
fn rotate90_moves_pixels_clockwise() {
    // 1 2 3          4 1
    // 4 5 6  becomes 5 2
    //                6 3
    let img = sample_image();
    let r = img.rotate90();
    assert_eq!(r.width(), 2);
    assert_eq!(r.height(), 3);
    assert_eq!(r.get(0, 0).r, 4);
    assert_eq!(r.get(1, 0).r, 1);
    assert_eq!(r.get(0, 1).r, 5);
    assert_eq!(r.get(1, 1).r, 2);
    assert_eq!(r.get(0, 2).r, 6);
    assert_eq!(r.get(1, 2).r, 3);
}

#[test]
fn rotate180_mirrors_both_axes() {
    let img = sample_image();
    let r = img.rotate180();
    assert_eq!((r.width(), r.height()), (3, 2));
    assert_eq!(r.get(0, 0).r, 6);
    assert_eq!(r.get(2, 1).r, 1);
}

#[test]
fn rotate_by_90_four_times_is_identity() {
    let img = sample_image();
    let r = img.rotate90().rotate90().rotate90().rotate90();
    assert_eq!(r.width(), img.width());
    assert_eq!(r.height(), img.height());
    assert_eq!(r.to_raw(), img.to_raw());
}

#[test]
fn rotate_dispatches_on_the_angle() {
    let img = sample_image();
    assert_eq!(img.rotate(RotateDegrees::R90).to_raw(), img.rotate90().to_raw());
    assert_eq!(img.rotate(RotateDegrees::R180).to_raw(), img.rotate180().to_raw());
    assert_eq!(img.rotate(RotateDegrees::R270).to_raw(), img.rotate270().to_raw());
    // 270 clockwise is the inverse of 90 clockwise.
    assert_eq!(img.rotate90().rotate270().to_raw(), img.to_raw());
}

#[test]
fn invert_complements_every_channel() {
    let pixels = vec![px(0, 128, 255), px(1, 2, 3)];
    let img = ImageBuffer::from_pixels(2, 1, &pixels).unwrap();
    let inv = img.invert();
    let p = inv.get(0, 0);
    assert_eq!((p.r, p.g, p.b), (255, 127, 0));
    let q = inv.get(1, 0);
    assert_eq!((q.r, q.g, q.b), (254, 253, 252));
}

#[test]
fn invert_twice_is_identity() {
    let img = sample_image();
    assert_eq!(img.invert().invert().to_raw(), img.to_raw());
}

#[test]
fn brighten_saturates_at_both_ends() {
    let pixels = vec![px(10, 250, 128)];
    let img = ImageBuffer::from_pixels(1, 1, &pixels).unwrap();
    let up = img.brighten(10);
    let p = up.get(0, 0);
    assert_eq!((p.r, p.g, p.b), (20, 255, 138));
    let down = img.brighten(-20);
    let q = down.get(0, 0);
    assert_eq!((q.r, q.g, q.b), (0, 230, 108));
}

#[test]
fn grayscale_matches_the_codec_luminance() {
    // The library's luminance must agree with what the image codec computes
    // for the same pixels.
    let pixels = vec![px(255, 0, 0), px(0, 255, 0), px(0, 0, 255), px(12, 34, 56)];
    let img = ImageBuffer::from_pixels(4, 1, &pixels).unwrap();
    let gray = img.grayscale();
    let rgb: image::RgbImage = image::RgbImage::from_raw(4, 1, img.to_raw()).unwrap();
    let luma = image::imageops::grayscale(&rgb);
    for x in 0..4usize {
        let p = gray.get(x, 0);
        assert_eq!(p.r, p.g);
        assert_eq!(p.g, p.b);
        assert_eq!(p.r, luma.get_pixel(x as u32, 0).0[0]);
    }
    // One exact value: (2126·12 + 7152·34 + 722·56) / 10000 = 30.
    assert_eq!(gray.get(3, 0).r, 30);
}

#[test]
fn crop_keeps_the_requested_region() {
    // A rectangle fully inside the source yields exactly (width, height)
    // and the matching source pixels.
    let img = sample_image();
    let c = img.crop(1, 0, 2, 2);
    assert_eq!((c.width(), c.height()), (2, 2));
    assert_eq!(c.get(0, 0).r, 2);
    assert_eq!(c.get(1, 0).r, 3);
    assert_eq!(c.get(0, 1).r, 5);
    assert_eq!(c.get(1, 1).r, 6);
}

#[test]
fn try_crop_rejects_rectangles_out_of_bounds() {
    let img = sample_image();
    assert!(img.try_crop(1, 0, 3, 2).is_none());
    assert!(img.try_crop(0, 1, 1, 2).is_none());
    let ok = img.try_crop(0, 0, 3, 2).unwrap();
    assert_eq!(ok.to_raw(), img.to_raw());
}

#[test]
fn raw_bytes_round_trip() {
    let img = sample_image();
    let raw = img.to_raw();
    assert_eq!(raw.len(), 3 * 3 * 2);
    assert_eq!(&raw[0..3], &[1, 0, 0]);
    assert_eq!(&raw[15..18], &[6, 0, 0]);
    let back = ImageBuffer::from_raw(3, 2, &raw).unwrap();
    assert_eq!(back.to_raw(), raw);
}

#[test]
fn from_pixels_rejects_wrong_lengths() {
    let pixels = vec![px(1, 1, 1); 5];
    assert!(ImageBuffer::from_pixels(3, 2, &pixels).is_none());
    assert!(ImageBuffer::from_raw(1, 2, &vec![0u8; 5]).is_none());
}
