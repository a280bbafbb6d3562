use raytracer::canvas::Canvas;
use raytracer::ppm;
use raytracer::vec3::{Color, Vec3};

fn decimal_of(n: usize) -> String {
    let mut out: Vec<u8> = Vec::new();
    ppm::push_decimal(&mut out, n);
    String::from_utf8(out).unwrap()
}

#[test]
fn decimal_numerals() {
    assert_eq!(decimal_of(0), "0");
    assert_eq!(decimal_of(9), "9");
    assert_eq!(decimal_of(10), "10");
    assert_eq!(decimal_of(255), "255");
    assert_eq!(decimal_of(400), "400");
    assert_eq!(decimal_of(1009), "1009");
    assert_eq!(decimal_of(usize::MAX), format!("{}", usize::MAX));
}

#[test]
fn decimal_is_appended_to_what_is_there() {
    let mut out: Vec<u8> = vec![b'x', b'='];
    ppm::push_decimal(&mut out, 42);
    assert_eq!(out, vec![b'x', b'=', b'4', b'2']);
}

#[test]
fn line_of_one_pixel() {
    let mut out: Vec<u8> = Vec::new();
    let color: Color = Vec3::new(255, 0, 7);
    ppm::push_pixel_line(&mut out, &color);
    assert_eq!(String::from_utf8(out).unwrap(), "255 0 7\n");
}

#[test]
fn image_of_a_new_canvas() {
    let canvas = Canvas::<u8>::new(2, 2);
    let text = String::from_utf8(ppm::render(&canvas)).unwrap();
    assert_eq!(text, "P3\n2 2\n255\n0 0 0\n0 0 0\n0 0 0\n0 0 0\n");
}

#[test]
fn image_lists_the_pixels_row_by_row() {
    let mut canvas = Canvas::<u8>::new(3, 2);
    canvas.set(0, 0, Vec3::new(255, 0, 0));
    canvas.set(0, 1, Vec3::new(0, 255, 0));
    canvas.set(0, 2, Vec3::new(0, 0, 255));
    canvas.set(1, 0, Vec3::new(1, 2, 3));
    canvas.set(1, 1, Vec3::new(10, 20, 30));
    canvas.set(1, 2, Vec3::new(100, 200, 99));
    let text = String::from_utf8(ppm::render(&canvas)).unwrap();
    assert_eq!(
        text,
        "P3\n3 2\n255\n255 0 0\n0 255 0\n0 0 255\n1 2 3\n10 20 30\n100 200 99\n"
    );
}

#[test]
fn image_of_an_empty_canvas_is_the_header() {
    let canvas = Canvas::<u8>::new(0, 0);
    assert_eq!(String::from_utf8(ppm::render(&canvas)).unwrap(), "P3\n0 0\n255\n");
    let wide = Canvas::<u8>::new(400, 0);
    assert_eq!(String::from_utf8(ppm::render(&wide)).unwrap(), "P3\n400 0\n255\n");
}

#[test]
fn image_goes_by_the_rows_that_the_buffer_holds() {
    let canvas = Canvas::<u8> {
        width: 7,
        height: 9,
        buffer: vec![vec![Vec3::new(1, 2, 3)], vec![], vec![Vec3::new(4, 5, 6), Vec3::new(7, 8, 9)]],
    };
    let text = String::from_utf8(ppm::render(&canvas)).unwrap();
    assert_eq!(text, "P3\n7 9\n255\n1 2 3\n4 5 6\n7 8 9\n");
}

#[test]
fn image_of_two_rows_of_sky() {
    let mut canvas = Canvas::<u8>::new(2, 2);
    canvas.set(0, 0, Vec3::new(220, 234, 255));
    canvas.set(0, 1, Vec3::new(220, 234, 255));
    canvas.set(1, 0, Vec3::new(163, 200, 255));
    canvas.set(1, 1, Vec3::new(163, 200, 255));
    let text = String::from_utf8(ppm::render(&canvas)).unwrap();
    assert_eq!(
        text,
        "P3\n2 2\n255\n220 234 255\n220 234 255\n163 200 255\n163 200 255\n"
    );
}

#[test]
fn image_of_a_canvas_as_large_as_a_window() {
    let mut canvas = Canvas::<u8>::new(400, 225);
    canvas.set(224, 399, Vec3::new(1, 2, 3));
    let bytes = ppm::render(&canvas);
    let text = String::from_utf8(bytes).unwrap();
    assert!(text.starts_with("P3\n400 225\n255\n0 0 0\n"));
    assert!(text.ends_with("0 0 0\n1 2 3\n"));
    assert_eq!(text.lines().count(), 3 + 400 * 225);
}
