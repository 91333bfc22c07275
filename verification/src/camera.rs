use vstd::prelude::*;

use crate::math::{Frac, Matrix, Vector2Int, scale_spec, window_projection};

verus! {

/// A 2D camera: a zoom factor applied on top of the window projection.
/// The projection is derived afresh on every call — the window size may
/// change between calls and callers may mutate `zoom` freely.
#[derive(Clone, Copy, Debug, PartialEq, Eq, Structural)]
pub struct Camera {
    pub zoom: Frac,
}

impl Camera {
    /// A camera with no zoom.
    pub fn new() -> (c: Camera)
        ensures
            c.zoom == (Frac { num: 1, den: 1 }),
    {
        Camera { zoom: Frac::one() }
    }

    /// The orthographic projection over `[0, w] x [h, 0]` (top-left origin,
    /// y down, a symmetric 100-unit depth range) with the camera's zoom
    /// applied uniformly to both axes.
    pub fn get_projection(&self, window_size: Vector2Int) -> (m: Matrix)
        requires
            0 < window_size.x,
            0 < window_size.y,
            self.zoom.bounded(),
        ensures
            m == scale_spec(
                window_projection(window_size.x as int, window_size.y as int),
                self.zoom,
            ),
            m.sx.wf(),
            m.sy.wf(),
    {
        let proj = Matrix::ortho(0, window_size.x, window_size.y, 0, -100, 100);
        proj.scale(self.zoom)
    }
}

/// The camera projection maps the screen corners where an orthographic
/// projection must send them: with window size `w` by `h` and zoom
/// `z = zn / zd > 0`, the point `(0, 0)` lands on the top-left corner
/// `(-1, 1)` of the normalized device volume whatever the zoom, and
/// `(w, h)` lands on `(2z - 1, 1 - 2z)`; with zoom 1 that is exactly the
/// bottom-right corner `(1, -1)`, the unscaled orthographic mapping.
pub proof fn lemma_projection_corners(w: int, h: int, z: Frac)
    requires
        0 < w <= i32::MAX,
        0 < h <= i32::MAX,
        z.bounded(),
        0 < z.num,
    ensures
        ({
            let m = scale_spec(window_projection(w, h), z);
            m.maps_x(0, -1, 1) && m.maps_y(0, 1, 1)
                && m.maps_x(w, 2 * z.num - z.den, z.den as int)
                && m.maps_y(h, z.den - 2 * z.num, z.den as int)
                && (z.num == z.den ==> m.maps_x(w, 1, 1) && m.maps_y(h, -1, 1))
        }),
{
    let p = window_projection(w, h);
    assert(p.sx == (Frac { num: 2, den: w as i64 }));
    assert(p.tx == (Frac { num: (-w) as i64, den: w as i64 }));
    assert(p.sy == (Frac { num: (-2) as i64, den: h as i64 }));
    assert(p.ty == (Frac { num: h as i64, den: h as i64 }));
    let m = scale_spec(p, z);
    assert(2 * z.num <= 0x1_0000_0000_0000 && -0x1_0000_0000_0000 <= 2 * z.num);
    assert(0 < w * z.den <= 0x4000_0000_0000_0000) by (nonlinear_arith)
        requires
            0 < w <= 0x8000_0000,
            0 < z.den <= 0x8000_0000,
    ;
    assert(0 < h * z.den <= 0x4000_0000_0000_0000) by (nonlinear_arith)
        requires
            0 < h <= 0x8000_0000,
            0 < z.den <= 0x8000_0000,
    ;
    assert(m.sx == (Frac { num: (2 * z.num) as i64, den: (w * z.den) as i64 }));
    assert(m.sx.num == 2 * z.num && m.sx.den == w * z.den);
    assert(m.sy.num == -2 * z.num && m.sy.den == h * z.den) by {
        assert(-2 * z.num >= -0x1_0000_0000_0000);
    }

    // x' = sx * x + tx, cross-multiplied against the expected corner values.
    assert(m.maps_x(0, -1, 1)) by (nonlinear_arith)
        requires
            m.sx.num == 2 * z.num,
            m.sx.den == w * z.den,
            m.tx.num == -w,
            m.tx.den == w,
    ;
    assert(m.maps_x(w, 2 * z.num - z.den, z.den as int)) by (nonlinear_arith)
        requires
            m.sx.num == 2 * z.num,
            m.sx.den == w * z.den,
            m.tx.num == -w,
            m.tx.den == w,
    ;
    assert(m.maps_y(0, 1, 1)) by (nonlinear_arith)
        requires
            m.sy.num == -2 * z.num,
            m.sy.den == h * z.den,
            m.ty.num == h,
            m.ty.den == h,
    ;
    assert(m.maps_y(h, z.den - 2 * z.num, z.den as int)) by (nonlinear_arith)
        requires
            m.sy.num == -2 * z.num,
            m.sy.den == h * z.den,
            m.ty.num == h,
            m.ty.den == h,
    ;
    if z.num == z.den {
        assert(m.maps_x(w, 1, 1)) by (nonlinear_arith)
            requires
                m.sx.num == 2 * z.num,
                m.sx.den == w * z.den,
                m.tx.num == -w,
                m.tx.den == w,
                z.num == z.den,
        ;
        assert(m.maps_y(h, -1, 1)) by (nonlinear_arith)
            requires
                m.sy.num == -2 * z.num,
                m.sy.den == h * z.den,
                m.ty.num == h,
                m.ty.den == h,
                z.num == z.den,
        ;
    }
}

} // verus!
