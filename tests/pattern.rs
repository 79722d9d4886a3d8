use raytracer::{alternate, checker};

type Color = (f64, f64, f64);

const WHITE: Color = (1., 1., 1.);
const BLACK: Color = (0., 0., 0.);

fn stripe(p: (f64, f64, f64)) -> Color {
    alternate(WHITE, BLACK, p.0.floor() as i64)
}

fn ring(x: f64, z: f64) -> Color {
    alternate(WHITE, BLACK, f64::hypot(x, z).floor() as i64)
}

fn checkers(x: f64, y: f64, z: f64) -> Color {
    checker(WHITE, BLACK, x.floor() as i64, y.floor() as i64, z.floor() as i64)
}

#[test]
fn test_color_at_x() {
    assert_eq!(stripe((-2.5, 0., 0.)), BLACK);
    assert_eq!(stripe((-2.0, 0., 0.)), WHITE);
    assert_eq!(stripe((-1.5, 0., 0.)), WHITE);
    assert_eq!(stripe((-1.0, 0., 0.)), BLACK);
    assert_eq!(stripe((-0.5, 0., 0.)), BLACK);
    assert_eq!(stripe((0.0, 0., 0.)), WHITE);
    assert_eq!(stripe((0.5, 0., 0.)), WHITE);
    assert_eq!(stripe((1.0, 0., 0.)), BLACK);
    assert_eq!(stripe((1.5, 0., 0.)), BLACK);
    assert_eq!(stripe((2.0, 0., 0.)), WHITE);
    assert_eq!(stripe((2.5, 0., 0.)), WHITE);
    assert_eq!(stripe((3.0, 0., 0.)), BLACK);
}

#[test]
fn test_color_at_y() {
    assert_eq!(stripe((0., 0., 0.)), WHITE);
    assert_eq!(stripe((0., 1., 0.)), WHITE);
    assert_eq!(stripe((0., 2., 0.)), WHITE);
}

#[test]
fn test_color_at_z() {
    assert_eq!(stripe((0., 0., 0.)), WHITE);
    assert_eq!(stripe((0., 0., 1.)), WHITE);
    assert_eq!(stripe((0., 0., 2.)), WHITE);
}

#[test]
fn test_ring() {
    assert_eq!(ring(0., 0.), WHITE);
    assert_eq!(ring(1., 0.), BLACK);
    assert_eq!(ring(0., 1.), BLACK);
    assert_eq!(ring(0.71, 0.71), BLACK);
}

#[test]
fn test_checker() {
    assert_eq!(checkers(0.5, 0.5, 0.5), WHITE);
    assert_eq!(checkers(0.5, 0.5, -0.5), BLACK);
    assert_eq!(checkers(0.5, -0.5, 0.5), BLACK);
    assert_eq!(checkers(0.5, -0.5, -0.5), WHITE);
    assert_eq!(checkers(-0.5, 0.5, 0.5), BLACK);
    assert_eq!(checkers(-0.5, 0.5, -0.5), WHITE);
    assert_eq!(checkers(-0.5, -0.5, 0.5), WHITE);
    assert_eq!(checkers(-0.5, -0.5, -0.5), BLACK);
    assert_eq!(checkers(42.5, -0.5, 0.5), BLACK);
}

#[test]
fn parity_of_negative_cells() {
    assert_eq!(alternate('a', 'b', -1), 'b');
    assert_eq!(alternate('a', 'b', -2), 'a');
    assert_eq!(alternate('a', 'b', i64::MIN), 'a');
    assert_eq!(alternate('a', 'b', i64::MAX), 'b');
    assert_eq!(checker('a', 'b', i64::MAX, i64::MAX, 1), 'b');
    assert_eq!(checker('a', 'b', i64::MIN, i64::MIN, -1), 'b');
    assert_eq!(checker('a', 'b', i64::MIN, -1, -1), 'a');
}
