use vstd::prelude::*;

verus! {

/// A rational number `num / den`, kept with a positive denominator.
///
/// The engine's projection matrices need exact fractional entries such as
/// `2 / width`; carrying numerator and denominator keeps every projection
/// computation exact.
#[derive(Clone, Copy, Debug, PartialEq, Eq, Structural)]
pub struct Frac {
    pub num: i64,
    pub den: i64,
}

impl Frac {
    /// Well-formed: the denominator is positive.
    pub open spec fn wf(self) -> bool {
        0 < self.den
    }

    /// This fraction equals the rational `p / q` (cross-multiplied, so `q`
    /// may be negative as long as it is not zero).
    pub open spec fn is_rat(self, p: int, q: int) -> bool {
        self.num * q == p * self.den
    }

    /// Small enough that a product of two such entries fits an `i64`.
    pub open spec fn bounded(self) -> bool {
        -0x8000_0000 <= self.num <= 0x8000_0000 && 0 < self.den <= 0x8000_0000
    }

    /// The fraction representing the integer 1.
    pub fn one() -> (r: Frac)
        ensures
            r == (Frac { num: 1, den: 1 }),
    {
        Frac { num: 1, den: 1 }
    }

    /// `num / den` brought to a positive denominator.
    pub fn normalized(num: i64, den: i64) -> (r: Frac)
        requires
            den != 0,
            -0x7fff_ffff_ffff_ffff <= num,
            -0x7fff_ffff_ffff_ffff <= den,
        ensures
            r == norm_frac(num as int, den as int),
            r.wf(),
            r.is_rat(num as int, den as int),
    {
        let r = if den < 0 {
            Frac { num: -num, den: -den }
        } else {
            Frac { num, den }
        };
        proof {
            assert(r.num * den == num * r.den) by (nonlinear_arith)
                requires
                    (den < 0 ==> r.num == -num && r.den == -den),
                    (den >= 0 ==> r.num == num && r.den == den),
            ;
        }
        r
    }
}

/// `num / den` with the sign moved into the numerator.
pub open spec fn norm_frac(num: int, den: int) -> Frac {
    if den < 0 {
        Frac { num: (-num) as i64, den: (-den) as i64 }
    } else {
        Frac { num: num as i64, den: den as i64 }
    }
}

/// An integer screen vector (pixel coordinates, y grows downward).
#[derive(Clone, Copy, Debug, PartialEq, Eq, Structural)]
pub struct Vector2Int {
    pub x: i32,
    pub y: i32,
}

impl Vector2Int {
    pub fn new(x: i32, y: i32) -> (r: Vector2Int)
        ensures
            r == (Vector2Int { x, y }),
    {
        Vector2Int { x, y }
    }
}

/// A pair of fractions: a per-axis scale factor.
#[derive(Clone, Copy, Debug, PartialEq, Eq, Structural)]
pub struct Vector2Frac {
    pub x: Frac,
    pub y: Frac,
}

/// An axis-aligned rectangle in screen coordinates.
#[derive(Clone, Copy, Debug, PartialEq, Eq, Structural)]
pub struct Rectangle {
    pub x: i64,
    pub y: i64,
    pub w: i64,
    pub h: i64,
}

/// An orthographic projection matrix.
///
/// Every matrix this engine builds is an orthographic projection, possibly
/// followed by a uniform scale of the x and y axes, so of the full 4x4 only
/// the diagonal and the translation column are ever non-trivial:
/// `x' = sx * x + tx`, `y' = sy * y + ty`, `z' = sz * z + tz`, `w' = w`.
#[derive(Clone, Copy, Debug, PartialEq, Eq, Structural)]
pub struct Matrix {
    pub sx: Frac,
    pub sy: Frac,
    pub sz: Frac,
    pub tx: Frac,
    pub ty: Frac,
    pub tz: Frac,
}

/// The matrix `Matrix::ortho` builds, as a function of its arguments.
pub open spec fn ortho_spec(left: int, right: int, bottom: int, top: int, near: int, far: int) -> Matrix {
    Matrix {
        sx: norm_frac(2, right - left),
        tx: norm_frac(-(right + left), right - left),
        sy: norm_frac(2, top - bottom),
        ty: norm_frac(-(top + bottom), top - bottom),
        sz: norm_frac(-2, far - near),
        tz: norm_frac(-(far + near), far - near),
    }
}

/// The projection the render context installs for a `w` by `h` window:
/// orthographic over `[0, w] x [h, 0]` (top-left origin, y down) with a
/// symmetric depth range of 100 units either way.
pub open spec fn window_projection(w: int, h: int) -> Matrix {
    ortho_spec(0, w, h, 0, -100, 100)
}

/// The product of two fractions (meaningful when the products fit an `i64`).
pub open spec fn frac_mul(a: Frac, b: Frac) -> Frac {
    Frac { num: (a.num * b.num) as i64, den: (a.den * b.den) as i64 }
}

/// `m` with its x and y axes scaled by `z`, as `Matrix::scale` computes it.
pub open spec fn scale_spec(m: Matrix, z: Frac) -> Matrix {
    Matrix { sx: frac_mul(m.sx, z), sy: frac_mul(m.sy, z), ..m }
}

impl Matrix {
    /// Every entry has a positive denominator.
    pub open spec fn wf(self) -> bool {
        self.sx.wf() && self.sy.wf() && self.sz.wf() && self.tx.wf() && self.ty.wf()
            && self.tz.wf()
    }

    /// The matrix sends the screen x-coordinate `x` to the clip coordinate
    /// `p / q`: `sx * x + tx == p / q`, cross-multiplied.
    pub open spec fn maps_x(self, x: int, p: int, q: int) -> bool {
        (self.sx.num * x * self.tx.den + self.tx.num * self.sx.den) * q
            == p * (self.sx.den * self.tx.den)
    }

    /// The matrix sends the screen y-coordinate `y` to the clip coordinate
    /// `p / q`: `sy * y + ty == p / q`, cross-multiplied.
    pub open spec fn maps_y(self, y: int, p: int, q: int) -> bool {
        (self.sy.num * y * self.ty.den + self.ty.num * self.sy.den) * q
            == p * (self.sy.den * self.ty.den)
    }

    /// An orthographic projection of the box `[left, right] x [bottom, top]
    /// x [near, far]` onto the normalized device volume `[-1, 1]^3`.
    pub fn ortho(left: i32, right: i32, bottom: i32, top: i32, near: i32, far: i32) -> (m: Matrix)
        requires
            left != right,
            bottom != top,
            near != far,
        ensures
            m == ortho_spec(left as int, right as int, bottom as int, top as int, near as int, far as int),
            m.wf(),
    {
        let rl: i64 = right as i64 - left as i64;
        let tb: i64 = top as i64 - bottom as i64;
        let fan: i64 = far as i64 - near as i64;
        Matrix {
            sx: Frac::normalized(2, rl),
            tx: Frac::normalized(-(right as i64 + left as i64), rl),
            sy: Frac::normalized(2, tb),
            ty: Frac::normalized(-(top as i64 + bottom as i64), tb),
            sz: Frac::normalized(-2, fan),
            tz: Frac::normalized(-(far as i64 + near as i64), fan),
        }
    }

    /// This matrix with a uniform scale of `z` applied to the x and y axes,
    /// as the camera does with its zoom factor.
    pub fn scale(self, z: Frac) -> (m: Matrix)
        requires
            self.sx.bounded(),
            self.sy.bounded(),
            z.bounded(),
        ensures
            m == scale_spec(self, z),
            m.sx.wf(),
            m.sy.wf(),
    {
        proof {
            lemma_bounded_mul(self.sx, z);
            lemma_bounded_mul(self.sy, z);
        }
        Matrix {
            sx: Frac { num: self.sx.num * z.num, den: self.sx.den * z.den },
            sy: Frac { num: self.sy.num * z.num, den: self.sy.den * z.den },
            ..self
        }
    }
}

/// Products of entries of two bounded fractions fit an `i64` and keep the
/// denominator positive.
proof fn lemma_bounded_mul(a: Frac, b: Frac)
    requires
        a.bounded(),
        b.bounded(),
    ensures
        -0x4000_0000_0000_0000 <= a.num * b.num <= 0x4000_0000_0000_0000,
        0 < a.den * b.den <= 0x4000_0000_0000_0000,
{
    assert(-0x4000_0000_0000_0000 <= a.num * b.num <= 0x4000_0000_0000_0000) by (nonlinear_arith)
        requires
            -0x8000_0000 <= a.num <= 0x8000_0000,
            -0x8000_0000 <= b.num <= 0x8000_0000,
    ;
    assert(0 < a.den * b.den <= 0x4000_0000_0000_0000) by (nonlinear_arith)
        requires
            0 < a.den <= 0x8000_0000,
            0 < b.den <= 0x8000_0000,
    ;
}

} // verus!

