use mirage::fractal::fractal_image;
use mirage::gradient::generate;

/// The escape-time iteration of `z ← z² + (-0.4 + 0.6i)` in double
/// precision, exactly as the fractal generator defines it.
fn reference_green(x: u32, y: u32) -> u8 {
    let scale_x = 3.0_f64 / 800.0;
    let scale_y = 3.0_f64 / 800.0;
    let cx = f64::from(y) * scale_x - 1.5;
    let cy = f64::from(x) * scale_y - 1.5;
    let (cre, cim) = (-0.4_f64, 0.6_f64);
    let mut zre = cx;
    let mut zim = cy;
    let mut green: u32 = 0;
    while green < 255 && (zre * zre + zim * zim).sqrt() <= 2.0 {
        let nre = zre * zre - zim * zim + cre;
        let nim = 2.0 * zre * zim + cim;
        zre = nre;
        zim = nim;
        green += 1;
    }
    green as u8
}

#[test]
fn gradient_counter_values_in_visit_order() {
    // With all counters starting at 0, the pixel visited n-th (row-major)
    // carries the counter after n advances: 0 first, then the cyclic ramp
    // 1..=255.
    let img = generate(0, 0, 0);
    assert_eq!(img.width(), 800);
    assert_eq!(img.height(), 800);
    let expected = [(0usize, 0u8), (1, 1), (254, 254), (255, 255), (256, 1)];
    for (n, v) in expected.iter() {
        let p = img.get(n % 800, n / 800);
        assert_eq!((p.r, p.g, p.b), (*v, *v, *v));
    }
}

#[test]
fn gradient_starts_at_the_given_color() {
    let img = generate(10, 200, 255);
    let p0 = img.get(0, 0);
    assert_eq!((p0.r, p0.g, p0.b), (10, 200, 255));
    // After one advance: (c % 255) + 1.
    let p1 = img.get(1, 0);
    assert_eq!((p1.r, p1.g, p1.b), (11, 201, 1));
    // The ramp carries across rows: pixel 800 is pixel (0, 1).
    let p800 = img.get(0, 1);
    assert_eq!(p800.r, ((10 + 800 - 1) % 255 + 1) as u8);
}

#[test]
fn fractal_corner_pixel_is_black() {
    // At (0, 0): red = floor(0.3·0) = 0, blue = 0, and the iteration starts
    // at z = (-1.5, -1.5), whose magnitude already exceeds 2, so green = 0.
    assert_eq!(reference_green(0, 0), 0);
    let mut greens = vec![0u8; 640000];
    greens[0] = reference_green(0, 0);
    let img = fractal_image(&greens);
    let p = img.get(0, 0);
    assert_eq!((p.r, p.g, p.b), (0, 0, 0));
}

#[test]
fn fractal_background_ramps_and_green_plane() {
    let mut greens = vec![0u8; 640000];
    let samples = [(400u32, 400u32), (799, 0), (0, 799), (123, 456)];
    for (x, y) in samples.iter() {
        greens[(*y as usize) * 800 + (*x as usize)] = reference_green(*x, *y);
    }
    let img = fractal_image(&greens);
    for (x, y) in samples.iter() {
        let p = img.get(*x as usize, *y as usize);
        assert_eq!(p.r, (3 * x / 10) as u8);
        assert_eq!(p.b, (3 * y / 10) as u8);
        assert_eq!(p.g, reference_green(*x, *y));
    }
    assert_eq!(img.get(799, 0).r, 239);
    assert_eq!(img.get(0, 799).b, 239);
}

#[test]
fn generated_image_round_trips_through_png() {
    // Encode the generated buffer losslessly, decode it back, and compare
    // every byte.
    let img = generate(5, 100, 200);
    let raw = img.to_raw();
    let rgb: image::RgbImage = image::RgbImage::from_raw(800, 800, raw.clone()).unwrap();
    let mut encoded: Vec<u8> = Vec::new();
    let mut cursor = std::io::Cursor::new(&mut encoded);
    rgb.write_to(&mut cursor, image::ImageFormat::Png).unwrap();
    let decoded = image::load_from_memory(&encoded).unwrap().to_rgb8();
    assert_eq!(decoded.as_raw().as_slice(), raw.as_slice());
}
