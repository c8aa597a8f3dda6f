use computa_use::template::{find_template, Image, TemplateError};

fn image(w: u32, h: u32, f: impl Fn(u32, u32) -> (u8, u8, u8)) -> Image {
    let mut v = Vec::new();
    for y in 0..h {
        for x in 0..w {
            let (r, g, b) = f(x, y);
            v.extend_from_slice(&[r, g, b, 255]);
        }
    }
    Image::from_rgba(w, h, v).unwrap()
}

fn pattern(x: u32, y: u32) -> (u8, u8, u8) {
    ((x * 40 + y * 7) as u8, (y * 50 + x) as u8, ((x * y) % 256) as u8)
}

#[test]
fn from_rgba_checks_the_buffer_size() {
    assert!(Image::from_rgba(2, 2, vec![0; 16]).is_some());
    assert!(Image::from_rgba(2, 2, vec![0; 15]).is_none());
    assert!(Image::from_rgba(0, 5, vec![]).is_some());
}

#[test]
fn finds_an_exact_copy() {
    let screen = image(20, 10, pattern);
    let template = image(5, 3, |x, y| pattern(x + 6, y + 4));
    assert_eq!(find_template(&screen, &template), Ok((6 + 2, 4 + 1)));
}

#[test]
fn odd_offsets_are_found() {
    let screen = image(20, 10, pattern);
    let template = image(5, 3, |x, y| pattern(x + 7, y + 3));
    assert_eq!(find_template(&screen, &template), Ok((7 + 2, 3 + 1)));
    let screen = image(2, 1, |x, _| if x == 1 { (9, 9, 9) } else { (0, 0, 0) });
    let template = image(1, 1, |_, _| (9, 9, 9));
    assert_eq!(find_template(&screen, &template), Ok((1, 0)));
}

#[test]
fn alpha_is_not_compared() {
    let screen = image(6, 6, pattern);
    let mut raw = Vec::new();
    for y in 0..2u32 {
        for x in 0..3u32 {
            let (r, g, b) = pattern(x + 3, y + 1);
            raw.extend_from_slice(&[r, g, b, 0]);
        }
    }
    let template = Image::from_rgba(3, 2, raw).unwrap();
    assert_eq!(find_template(&screen, &template), Ok((3 + 1, 1 + 1)));
}

#[test]
fn a_template_without_pixels_that_does_not_fit_is_too_large() {
    let screen = image(2, 2, pattern);
    let template = Image::from_rgba(0, 3, vec![]).unwrap();
    assert_eq!(find_template(&screen, &template), Err(TemplateError::TooLarge));
}

#[test]
fn too_large_templates_are_rejected() {
    let screen = image(4, 4, pattern);
    assert_eq!(find_template(&screen, &image(5, 1, pattern)), Err(TemplateError::TooLarge));
    assert_eq!(find_template(&screen, &image(1, 5, pattern)), Err(TemplateError::TooLarge));
    assert_eq!(find_template(&screen, &image(4, 4, pattern)), Ok((2, 2)));
}

#[test]
fn small_differences_off_the_probes_are_tolerated() {
    let screen = image(10, 10, |_, _| (100, 100, 100));
    // Corners and centre exact; sample (3, 0) differs by 10, which is allowed.
    let template = image(7, 7, |x, y| if x == 3 && y == 0 { (110, 90, 100) } else { (100, 100, 100) });
    assert_eq!(find_template(&screen, &template), Ok((3, 3)));
    // A difference of 11 at a sampled pixel rejects every position.
    let template = image(7, 7, |x, y| if x == 3 && y == 0 { (111, 100, 100) } else { (100, 100, 100) });
    assert_eq!(find_template(&screen, &template), Err(TemplateError::NotFound));
    // Pixels off the sampling grid are not compared.
    let template = image(7, 7, |x, y| if x == 1 && y == 1 { (0, 0, 0) } else { (100, 100, 100) });
    assert_eq!(find_template(&screen, &template), Ok((3, 3)));
}

#[test]
fn probes_must_match_exactly() {
    let screen = image(10, 10, |_, _| (100, 100, 100));
    let template = image(4, 4, |x, y| if x == 3 && y == 3 { (101, 100, 100) } else { (100, 100, 100) });
    assert_eq!(find_template(&screen, &template), Err(TemplateError::NotFound));
}

#[test]
fn the_first_match_row_by_row_wins() {
    let screen = image(8, 8, |x, y| if (x == 5 && y == 1) || (x == 0 && y == 2) { (1, 2, 3) } else { (0, 0, 0) });
    let template = image(1, 1, |_, _| (1, 2, 3));
    assert_eq!(find_template(&screen, &template), Ok((5, 1)));
}

#[test]
fn error_messages() {
    assert_eq!(TemplateError::TooLarge.message(), "Template larger than monitor");
    assert_eq!(TemplateError::NotFound.message(), "Template not found");
}
