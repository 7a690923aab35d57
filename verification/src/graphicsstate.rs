//! Types for representing details in the graphics state.
use vstd::prelude::*;

use crate::emit::frac_bytes;
use crate::emit::tdiv;
use crate::emit::tdiv_to_i64;
use crate::units::UserSpace;

verus! {

/// Line join styles, as described in section 8.4.3.4 of the PDF
/// specification.
#[derive(Debug, PartialEq, Eq, Structural, Hash, Copy, Clone)]
pub enum JoinStyle {
    /// The outer edges continue until they meet.
    Miter,
    /// The lines are joined by a circle of line-width diameter.
    Round,
    /// End the lines as with `CapStyle::Butt` and fill the resulting gap
    /// with a triangle.
    Bevel,
}

impl JoinStyle {
    /// The operand of the `j` operator for this style.
    pub open spec fn spec_code(self) -> u8 {
        match self {
            JoinStyle::Miter => 0,
            JoinStyle::Round => 1,
            JoinStyle::Bevel => 2,
        }
    }

    /// The operand of the `j` operator for this style.
    pub fn code(self) -> (r: u8)
        ensures
            r == self.spec_code(),
    {
        match self {
            JoinStyle::Miter => 0,
            JoinStyle::Round => 1,
            JoinStyle::Bevel => 2,
        }
    }
}

/// Line cap styles, as described in section 8.4.3.4 of the PDF
/// specification.
#[derive(Debug, PartialEq, Eq, Structural, Hash, Copy, Clone)]
pub enum CapStyle {
    /// Truncate the line squarely through the endpoint.
    Butt,
    /// Include a circle of line-width diameter around the endpoint.
    Round,
    /// Include a square around the endpoint, so the line continues for
    /// half a line-width through the endpoint.
    ProjectingSquare,
}

impl CapStyle {
    /// The operand of the `J` operator for this style.
    pub open spec fn spec_code(self) -> u8 {
        match self {
            CapStyle::Butt => 0,
            CapStyle::Round => 1,
            CapStyle::ProjectingSquare => 2,
        }
    }

    /// The operand of the `J` operator for this style.
    pub fn code(self) -> (r: u8)
        ensures
            r == self.spec_code(),
    {
        match self {
            CapStyle::Butt => 0,
            CapStyle::Round => 1,
            CapStyle::ProjectingSquare => 2,
        }
    }
}

/// Any color (or grayscale) value that this library can make PDF
/// represent.
#[derive(Debug, PartialEq, Eq, Structural, Hash, Copy, Clone)]
pub enum Color {
    /// A red/green/blue color; use [`Color::rgb`].
    RGB { red: u8, green: u8, blue: u8 },
    /// A grayscale value; use [`Color::gray`].
    Gray { gray: u8 },
}

/// An eight-bit color component scaled to `0..=100000`, standing for
/// the fraction `c / 255` with five decimal digits.
pub open spec fn color_scaled(c: u8) -> nat {
    (c * 100000) as nat / 255
}

/// A color component as a PDF numeric literal between `0` and `1`.
pub open spec fn color_value_bytes(c: u8) -> Seq<u8> {
    if color_scaled(c) == 100000 {
        seq![49u8]
    } else if color_scaled(c) == 0 {
        seq![48u8]
    } else {
        seq![48u8, 46u8] + frac_bytes(color_scaled(c), 5)
    }
}

/// The operands of a color-setting operator: one value for gray, three
/// for RGB, space separated.
pub open spec fn color_bytes(c: Color) -> Seq<u8> {
    match c {
        Color::RGB { red, green, blue } => color_value_bytes(red) + seq![32u8]
            + color_value_bytes(green) + seq![32u8] + color_value_bytes(blue),
        Color::Gray { gray } => color_value_bytes(gray),
    }
}

/// Append one color component as a decimal between `0` and `1`.
pub fn push_color_value(out: &mut Vec<u8>, c: u8)
    ensures
        final(out)@ == old(out)@ + color_value_bytes(c),
{
    let scaled: u32 = (c as u32) * 100000 / 255;
    if scaled == 100000 {
        out.push(49);
    } else if scaled == 0 {
        out.push(48);
    } else {
        out.push(48);
        out.push(46);
        crate::emit::push_frac(out, scaled as u64, 5);
    }
    assert(final(out)@ =~= old(out)@ + color_value_bytes(c));
}

/// Append the operands for a color-setting operator.
pub fn push_color(out: &mut Vec<u8>, c: Color)
    ensures
        final(out)@ == old(out)@ + color_bytes(c),
{
    match c {
        Color::RGB { red, green, blue } => {
            push_color_value(out, red);
            out.push(32);
            push_color_value(out, green);
            out.push(32);
            push_color_value(out, blue);
        },
        Color::Gray { gray } => {
            push_color_value(out, gray);
        },
    }
    assert(final(out)@ =~= old(out)@ + color_bytes(c));
}

impl Color {
    /// Return a color from a RGB colorspace.
    pub fn rgb(red: u8, green: u8, blue: u8) -> (r: Self)
        ensures
            r == (Color::RGB { red, green, blue }),
    {
        Color::RGB { red, green, blue }
    }

    /// Return a grayscale color value.
    pub fn gray(gray: u8) -> (r: Self)
        ensures
            r == (Color::Gray { gray }),
    {
        Color::Gray { gray }
    }
}

/// The largest magnitude, in thousandths, that a matrix entry may have
/// when two matrices are combined.
pub const MATRIX_LIMIT: i64 = 1_000_000_000;

/// A transformation matrix for the pdf graphics state.
///
/// The six entries are the first two columns of a 3×3 matrix in
/// row-vector convention, each scaled by 1000: the identity is
/// `[1000, 0, 0, 1000, 0, 0]`. Matrices can be created with named
/// constructors and combined with [`Matrix::mul`], which applies the
/// left matrix first.
#[derive(Debug, PartialEq, Copy, Clone)]
pub struct Matrix {
    /// Entries `[a, b, c, d, e, f]`, each in thousandths.
    pub v: [i64; 6],
}

/// All six entries of the matrix are small enough to combine.
pub open spec fn matrix_bounded(m: Matrix) -> bool {
    forall|i: int| 0 <= i < 6 ==> -MATRIX_LIMIT <= #[trigger] m.v[i] <= MATRIX_LIMIT
}

/// One entry of a matrix product: the dot product of two scaled
/// entries, scaled back down.
pub open spec fn mat_dot(x0: int, x1: int, y0: int, y1: int) -> int {
    tdiv(x0 * y0 + x1 * y1, 1000)
}

impl Matrix {
    /// Construct a matrix for translation.
    pub fn translate(dx: UserSpace, dy: UserSpace) -> (r: Self)
        ensures
            r.v@ =~= seq![1000i64, 0i64, 0i64, 1000i64, dx.milli, dy.milli],
    {
        Matrix { v: [1000, 0, 0, 1000, dx.milli, dy.milli] }
    }

    /// Construct a matrix for scaling by `sx` thousandths in the
    /// x-direction and `sy` thousandths in the y-direction.
    pub fn scale(sx: i64, sy: i64) -> (r: Self)
        ensures
            r.v@ =~= seq![sx, 0i64, 0i64, sy, 0i64, 0i64],
    {
        Matrix { v: [sx, 0, 0, sy, 0, 0] }
    }

    /// Construct a matrix for scaling by the same factor, in
    /// thousandths, in both directions.
    pub fn uniform_scale(s: i64) -> (r: Self)
        ensures
            r.v@ =~= seq![s, 0i64, 0i64, s, 0i64, 0i64],
    {
        Matrix::scale(s, s)
    }

    /// Combine two transformations: the result applies `self` first,
    /// then `b` (row-vector convention).
    pub fn mul(self, b: Matrix) -> (r: Matrix)
        requires
            matrix_bounded(self),
            matrix_bounded(b),
        ensures
            r.v@ =~= seq![
                mat_dot(self.v[0] as int, self.v[1] as int, b.v[0] as int, b.v[2] as int) as i64,
                mat_dot(self.v[0] as int, self.v[1] as int, b.v[1] as int, b.v[3] as int) as i64,
                mat_dot(self.v[2] as int, self.v[3] as int, b.v[0] as int, b.v[2] as int) as i64,
                mat_dot(self.v[2] as int, self.v[3] as int, b.v[1] as int, b.v[3] as int) as i64,
                (mat_dot(self.v[4] as int, self.v[5] as int, b.v[0] as int, b.v[2] as int)
                    + b.v[4]) as i64,
                (mat_dot(self.v[4] as int, self.v[5] as int, b.v[1] as int, b.v[3] as int)
                    + b.v[5]) as i64,
            ],
    {
        let a = self.v;
        let bv = b.v;
        let e0 = mat_dot_exec(a[0], a[1], bv[0], bv[2]);
        let e1 = mat_dot_exec(a[0], a[1], bv[1], bv[3]);
        let e2 = mat_dot_exec(a[2], a[3], bv[0], bv[2]);
        let e3 = mat_dot_exec(a[2], a[3], bv[1], bv[3]);
        let e4 = mat_dot_exec(a[4], a[5], bv[0], bv[2]) + bv[4];
        let e5 = mat_dot_exec(a[4], a[5], bv[1], bv[3]) + bv[5];
        Matrix { v: [e0, e1, e2, e3, e4, e5] }
    }
}

/// One entry of a matrix product, on bounded inputs.
fn mat_dot_exec(x0: i64, x1: i64, y0: i64, y1: i64) -> (r: i64)
    requires
        -MATRIX_LIMIT <= x0 <= MATRIX_LIMIT,
        -MATRIX_LIMIT <= x1 <= MATRIX_LIMIT,
        -MATRIX_LIMIT <= y0 <= MATRIX_LIMIT,
        -MATRIX_LIMIT <= y1 <= MATRIX_LIMIT,
    ensures
        r == mat_dot(x0 as int, x1 as int, y0 as int, y1 as int),
        -2_000_000_000_000_000 <= r <= 2_000_000_000_000_000,
{
    proof {
        assert(-1_000_000_000_000_000_000 <= (x0 as int) * (y0 as int) <= 1_000_000_000_000_000_000)
            by (nonlinear_arith)
            requires
                -1_000_000_000 <= x0 <= 1_000_000_000,
                -1_000_000_000 <= y0 <= 1_000_000_000,
        ;
        assert(-1_000_000_000_000_000_000 <= (x1 as int) * (y1 as int) <= 1_000_000_000_000_000_000)
            by (nonlinear_arith)
            requires
                -1_000_000_000 <= x1 <= 1_000_000_000,
                -1_000_000_000 <= y1 <= 1_000_000_000,
        ;
    }
    let s: i128 = (x0 as i128) * (y0 as i128) + (x1 as i128) * (y1 as i128);
    tdiv_to_i64(s, 1000)
}

} // verus!
