use raytracer::Canvas;

type Color = (f64, f64, f64);

const BLACK: Color = (0., 0., 0.);
const RED: Color = (1., 0., 0.);
const GREEN: Color = (0., 1., 0.);
const BLUE: Color = (0., 0., 1.);

#[test]
fn canvas_test_new() {
    let canvas = Canvas::new(10, 20, BLACK);
    assert_eq!(canvas.width(), 10);
    assert_eq!(canvas.height(), 20);
    assert_eq!(canvas.pixels().len(), 200);
    assert!(canvas.pixels().iter().all(|c| *c == BLACK));
}

#[test]
fn test_set_pixel_valid() {
    let mut canvas = Canvas::new(3, 2, BLACK);
    canvas.set(0, 0, RED);
    canvas.set(0, 1, GREEN);
    canvas.set(1, 2, BLUE);
    assert_eq!(canvas.get(0, 0), RED);
    assert_eq!(canvas.get(0, 1), GREEN);
    assert_eq!(canvas.get(0, 2), BLACK);
    assert_eq!(canvas.get(1, 0), BLACK);
    assert_eq!(canvas.get(1, 1), BLACK);
    assert_eq!(canvas.get(1, 2), BLUE);
    assert_eq!(
        canvas.pixels(),
        &vec![RED, GREEN, BLACK, BLACK, BLACK, BLUE]
    );
}

#[test]
fn empty_canvas_has_no_pixels() {
    let canvas = Canvas::new(0, 7, 1_u32);
    assert_eq!(canvas.width(), 0);
    assert_eq!(canvas.height(), 7);
    assert!(canvas.pixels().is_empty());
}

#[test]
fn from_fn_fills_row_major() {
    let canvas = Canvas::from_fn(3, 2, |y, x| (y as u32) * 10 + x as u32);
    assert_eq!(canvas.width(), 3);
    assert_eq!(canvas.height(), 2);
    assert_eq!(canvas.pixels(), &vec![0, 1, 2, 10, 11, 12]);
    assert_eq!(canvas.get(1, 2), 12);
    assert_eq!(canvas.get(0, 1), 1);
}

#[test]
fn pixel_index_is_row_major() {
    let mut canvas = Canvas::new(4, 3, 0_u8);
    canvas.set(2, 1, 9);
    assert_eq!(canvas.pixels()[2 * 4 + 1], 9);
    assert_eq!(canvas.pixels().iter().filter(|v| **v == 9).count(), 1);
}
