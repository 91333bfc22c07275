use smol_engine::camera::Camera;
use smol_engine::math::{Frac, Matrix, Vector2Int};

#[test]
fn camera_projection_unscaled() {
    let cam = Camera::new();
    let m = cam.get_projection(Vector2Int { x: 800, y: 600 });
    // Orthographic over [0, 800] x [600, 0] with depth range [-100, 100].
    assert_eq!(m.sx, Frac { num: 2, den: 800 });
    assert_eq!(m.tx, Frac { num: -800, den: 800 });
    assert_eq!(m.sy, Frac { num: -2, den: 600 });
    assert_eq!(m.ty, Frac { num: 600, den: 600 });
    assert_eq!(m.sz, Frac { num: -2, den: 200 });
    assert_eq!(m.tz, Frac { num: 0, den: 200 });
    // (0, 0) maps to the top-left NDC corner (-1, 1):
    // sx * 0 + tx == -1 and sy * 0 + ty == 1.
    assert_eq!(m.tx.num, -m.tx.den);
    assert_eq!(m.ty.num, m.ty.den);
    // (800, 600) maps to the bottom-right NDC corner (1, -1):
    // 2/800 * 800 - 1 == 1 and -2/600 * 600 + 1 == -1.
    assert_eq!(m.sx.num * 800, 2 * m.sx.den);
    assert_eq!(m.sy.num * 600, -2 * m.sy.den);
}

#[test]
fn camera_projection_zoomed() {
    let cam = Camera { zoom: Frac { num: 3, den: 2 } };
    let m = cam.get_projection(Vector2Int { x: 800, y: 600 });
    // The zoom scales only the x and y axes.
    assert_eq!(m.sx, Frac { num: 6, den: 1600 });
    assert_eq!(m.sy, Frac { num: -6, den: 1200 });
    assert_eq!(m.tx, Frac { num: -800, den: 800 });
    assert_eq!(m.ty, Frac { num: 600, den: 600 });
}

#[test]
fn ortho_matches_window_projection() {
    let m = Matrix::ortho(0, 960, 720, 0, -100, 100);
    assert_eq!(m.sx, Frac { num: 2, den: 960 });
    assert_eq!(m.sy, Frac { num: -2, den: 720 });
}
