//! A visual area where content can be drawn (a page).
//!
//! Provides methods for defining and stroking or filling paths, as
//! well as placing text objects. A canvas collects the content-stream
//! operators of one page in its own buffer, together with the fonts
//! the page uses and the outline items created while drawing; the
//! document writer turns the finished canvas into the page's objects.
use vstd::prelude::*;

use crate::emit::lit_bytes;
use crate::emit::milli_bytes;
use crate::emit::push_bytes;
use crate::emit::push_dec_usize;
use crate::emit::push_milli;
use crate::emit::push_str;
use crate::emit::tdiv;
use crate::emit::tdiv_to_i64;
use crate::fontref::FontRef;
use crate::fontsource::Font;
use crate::fontsource::FontKey;
use crate::fontsource::FontSource;
use crate::fontsource::spec_raw_width;
use crate::graphicsstate::CapStyle;
use crate::graphicsstate::Color;
use crate::graphicsstate::JoinStyle;
use crate::graphicsstate::Matrix;
use crate::graphicsstate::color_bytes;
use crate::graphicsstate::push_color;
use crate::outline::OutlineItem;
use crate::textobject::TextObject;
use crate::textobject::show_bytes;
use crate::textobject::tf_bytes;
use crate::units::UserSpace;

verus! {

/// The numerator, per million, of the control-point offset used in the
/// four-Bézier circle approximation: a truncation of the optimal
/// ratio 4/3·(√2−1) ≈ 0.5519150.
pub const CIRCLE_RATIO_PER_MILLION: i64 = 551915;

/// A coordinate the drawing operators accept: one petameter of
/// slack below the range where their arithmetic could overflow.
pub open spec fn coord_ok(v: UserSpace) -> bool {
    -1_000_000_000_000_000 <= v.milli <= 1_000_000_000_000_000
}

/// A size small enough that a scaled text width always fits.
pub open spec fn size_ok(v: UserSpace) -> bool {
    -1_000_000_000_000 <= v.milli <= 1_000_000_000_000
}

/// Two coordinates followed by an operator, as in `x y m `.
pub open spec fn op2_bytes(x: int, y: int, op: &str) -> Seq<u8> {
    milli_bytes(x) + lit_bytes(" ") + milli_bytes(y) + lit_bytes(op)
}

/// The `re` operator: a rectangle from a corner and extents.
pub open spec fn rect_bytes(x: int, y: int, w: int, h: int) -> Seq<u8> {
    milli_bytes(x) + lit_bytes(" ") + milli_bytes(y) + lit_bytes(" ") + milli_bytes(w) + lit_bytes(
        " ",
    ) + milli_bytes(h) + lit_bytes(" re\n")
}

/// The `c` operator: a Bézier curve through two control points.
pub open spec fn curve_bytes(x1: int, y1: int, x2: int, y2: int, x3: int, y3: int) -> Seq<u8> {
    milli_bytes(x1) + lit_bytes(" ") + milli_bytes(y1) + lit_bytes(" ") + milli_bytes(x2)
        + lit_bytes(" ") + milli_bytes(y2) + lit_bytes(" ") + milli_bytes(x3) + lit_bytes(" ")
        + milli_bytes(y3) + lit_bytes(" c\n")
}

/// The `cm` operator: concatenate a transformation matrix.
pub open spec fn concat_bytes(m: Matrix) -> Seq<u8> {
    milli_bytes(m.v[0] as int) + lit_bytes(" ") + milli_bytes(m.v[1] as int) + lit_bytes(" ")
        + milli_bytes(m.v[2] as int) + lit_bytes(" ") + milli_bytes(m.v[3] as int) + lit_bytes(" ")
        + milli_bytes(m.v[4] as int) + lit_bytes(" ") + milli_bytes(m.v[5] as int) + lit_bytes(
        " cm\n",
    )
}

/// A dash pattern is valid when no value is negative and at least one
/// is positive; an invalid pattern is silently ignored.
pub open spec fn dash_valid(p: Seq<UserSpace>) -> bool {
    (forall|i: int| 0 <= i < p.len() ==> (#[trigger] p[i]).milli >= 0) && (exists|i: int|
        0 <= i < p.len() && (#[trigger] p[i]).milli > 0)
}

/// The values of a dash array, space separated.
pub open spec fn dash_items_bytes(p: Seq<UserSpace>) -> Seq<u8>
    decreases p.len(),
{
    if p.len() == 0 {
        Seq::<u8>::empty()
    } else if p.len() == 1 {
        milli_bytes(p[0].milli as int)
    } else {
        dash_items_bytes(p.drop_last()) + lit_bytes(" ") + milli_bytes(p.last().milli as int)
    }
}

/// The `d` operator: a dash array and its phase.
pub open spec fn dash_bytes(p: Seq<UserSpace>, phase: int) -> Seq<u8> {
    lit_bytes("[") + dash_items_bytes(p) + lit_bytes("] ") + milli_bytes(phase) + lit_bytes(" d\n")
}

/// The control-point offset of the circle approximation for radius
/// `r`, in thousandths.
pub open spec fn circle_dist(r: int) -> int {
    tdiv(r * CIRCLE_RATIO_PER_MILLION, 1_000_000)
}

/// The thirteen path points of the four-Bézier circle approximation
/// around `(x, y)` with radius `r`: the starting point, then three
/// points (two control, one end) for each of the four curves.
pub open spec fn circle_points(x: int, y: int, r: int) -> Seq<(int, int)> {
    let d = circle_dist(r);
    seq![
        (x, y - r),
        (x - d, y - r),
        (x - r, y - d),
        (x - r, y),
        (x - r, y + d),
        (x - d, y + r),
        (x, y + r),
        (x + d, y + r),
        (x + r, y + d),
        (x + r, y),
        (x + r, y - d),
        (x + d, y - r),
        (x, y - r),
    ]
}

/// The operators of the circle approximation: a move to the top of
/// the circle, then four Bézier curves through the remaining points.
pub open spec fn circle_bytes(x: int, y: int, r: int) -> Seq<u8> {
    let p = circle_points(x, y, r);
    op2_bytes(p[0].0, p[0].1, " m ") + curve_bytes(p[1].0, p[1].1, p[2].0, p[2].1, p[3].0, p[3].1)
        + curve_bytes(p[4].0, p[4].1, p[5].0, p[5].1, p[6].0, p[6].1) + curve_bytes(
        p[7].0,
        p[7].1,
        p[8].0,
        p[8].1,
        p[9].0,
        p[9].1,
    ) + curve_bytes(p[10].0, p[10].1, p[11].0, p[11].1, p[12].0, p[12].1)
}

/// The reflection through `(x, y)` of the `i`-th path point is again
/// a path point.
pub open spec fn point_reflected(p: Seq<(int, int)>, x: int, y: int, i: int) -> bool {
    exists|j: int| 0 <= j < p.len() && #[trigger] p[j] == (2 * x - p[i].0, 2 * y - p[i].1)
}

/// The circle approximation starts and ends path construction at the
/// same point, the top of the circle, and every path point's
/// reflection through the center is again a path point.
pub proof fn lemma_circle_closure(x: int, y: int, r: int)
    ensures
        circle_points(x, y, r)[0] == circle_points(x, y, r)[12],
        circle_points(x, y, r)[0] == (x, y - r),
        forall|i: int| 0 <= i < 13 ==> #[trigger] point_reflected(circle_points(x, y, r), x, y, i),
{
    let p = circle_points(x, y, r);
    assert forall|i: int| 0 <= i < 13 implies #[trigger] point_reflected(p, x, y, i) by {
        if i < 6 {
            assert(p[i + 6] == (2 * x - p[i].0, 2 * y - p[i].1));
        } else if i < 12 {
            assert(p[i - 6] == (2 * x - p[i].0, 2 * y - p[i].1));
        } else {
            assert(p[6] == (2 * x - p[12].0, 2 * y - p[12].1));
        }
    }
}

/// No two registered fonts share an identity.
pub open spec fn fonts_distinct(fs: Seq<Font>) -> bool {
    forall|i: int, j: int| 0 <= i < j < fs.len() ==> fs[i].key() != fs[j].key()
}

/// Whether some registered font has the given identity.
pub open spec fn has_font(fs: Seq<Font>, k: FontKey) -> bool {
    exists|i: int| 0 <= i < fs.len() && fs[i].key() == k
}

/// The first index, at or after `i`, of a font with the given
/// identity; the length when there is none.
pub open spec fn font_index_from(fs: Seq<Font>, k: FontKey, i: nat) -> nat
    decreases fs.len() - i,
{
    if i >= fs.len() {
        i
    } else if fs[i as int].key() == k {
        i
    } else {
        font_index_from(fs, k, i + 1)
    }
}

/// The per-page index a font identity resolves to: the index of its
/// registration, or the next free index when it is new.
pub open spec fn font_index(fs: Seq<Font>, k: FontKey) -> nat {
    font_index_from(fs, k, 0)
}

/// The identity [`Canvas::get_font`] registers for a font source.
pub open spec fn source_key<F: FontSource>(font: &F) -> FontKey {
    FontKey {
        name: font.spec_name(),
        base: crate::encoding::BaseEncoding::WinAnsiEncoding,
        enc: font.spec_encoding_kind(),
    }
}

/// A visual area where content can be drawn (a page).
#[derive(Debug, Clone)]
pub struct Canvas {
    /// The content-stream operators drawn so far.
    pub bytes: Vec<u8>,
    /// The fonts this page uses, in first-use order: the font at
    /// index `n` appears in the stream as `/F<n>`.
    pub fonts: Vec<Font>,
    /// The outline items created while drawing this page.
    pub outline_items: Vec<OutlineItem>,
}

impl Canvas {
    /// The canvas registers each font identity at most once.
    pub open spec fn wf(self) -> bool {
        fonts_distinct(self.fonts@)
    }

    /// An empty page under construction.
    pub fn new() -> (r: Canvas)
        ensures
            r.bytes@ == Seq::<u8>::empty(),
            r.fonts@ == Seq::<Font>::empty(),
            r.outline_items@ == Seq::<OutlineItem>::empty(),
            r.wf(),
    {
        Canvas { bytes: Vec::new(), fonts: Vec::new(), outline_items: Vec::new() }
    }

    /// Append a closed rectangle with a corner at (x, y) and extending
    /// width × height to the current path.
    pub fn rectangle(&mut self, x: UserSpace, y: UserSpace, width: UserSpace, height: UserSpace)
        ensures
            final(self).bytes@ == old(self).bytes@ + rect_bytes(
                x.milli as int,
                y.milli as int,
                width.milli as int,
                height.milli as int,
            ),
            final(self).fonts == old(self).fonts,
            final(self).outline_items == old(self).outline_items,
    {
        push_milli(&mut self.bytes, x.milli);
        push_str(&mut self.bytes, " ");
        push_milli(&mut self.bytes, y.milli);
        push_str(&mut self.bytes, " ");
        push_milli(&mut self.bytes, width.milli);
        push_str(&mut self.bytes, " ");
        push_milli(&mut self.bytes, height.milli);
        push_str(&mut self.bytes, " re\n");
        assert(final(self).bytes@ =~= old(self).bytes@ + rect_bytes(
            x.milli as int,
            y.milli as int,
            width.milli as int,
            height.milli as int,
        ));
    }

    /// Set the line join style in the graphics state.
    pub fn set_line_join_style(&mut self, style: JoinStyle)
        ensures
            final(self).bytes@ == old(self).bytes@ + crate::emit::dec_bytes(
                style.spec_code() as nat,
            ) + lit_bytes(" j\n"),
            final(self).fonts == old(self).fonts,
            final(self).outline_items == old(self).outline_items,
    {
        push_dec_usize(&mut self.bytes, style.code() as usize);
        push_str(&mut self.bytes, " j\n");
        assert(final(self).bytes@ =~= old(self).bytes@ + crate::emit::dec_bytes(
            style.spec_code() as nat,
        ) + lit_bytes(" j\n"));
    }

    /// Set the line cap style in the graphics state.
    pub fn set_line_cap_style(&mut self, style: CapStyle)
        ensures
            final(self).bytes@ == old(self).bytes@ + crate::emit::dec_bytes(
                style.spec_code() as nat,
            ) + lit_bytes(" J\n"),
            final(self).fonts == old(self).fonts,
            final(self).outline_items == old(self).outline_items,
    {
        push_dec_usize(&mut self.bytes, style.code() as usize);
        push_str(&mut self.bytes, " J\n");
        assert(final(self).bytes@ =~= old(self).bytes@ + crate::emit::dec_bytes(
            style.spec_code() as nat,
        ) + lit_bytes(" J\n"));
    }

    /// Set the line width in the graphics state.
    pub fn set_line_width(&mut self, width: UserSpace)
        ensures
            final(self).bytes@ == old(self).bytes@ + milli_bytes(width.milli as int) + lit_bytes(
                " w\n",
            ),
            final(self).fonts == old(self).fonts,
            final(self).outline_items == old(self).outline_items,
    {
        push_milli(&mut self.bytes, width.milli);
        push_str(&mut self.bytes, " w\n");
        assert(final(self).bytes@ =~= old(self).bytes@ + milli_bytes(width.milli as int)
            + lit_bytes(" w\n"));
    }

    /// Set the line dash pattern in the graphics state. Values must
    /// not be negative, and not all values may be zero; a pattern that
    /// breaks this rule has no effect, as the format itself
    /// prescribes, and nothing is emitted.
    pub fn set_dash(&mut self, pattern: &[UserSpace], phase: UserSpace)
        ensures
            dash_valid(pattern@) ==> final(self).bytes@ == old(self).bytes@ + dash_bytes(
                pattern@,
                phase.milli as int,
            ),
            !dash_valid(pattern@) ==> final(self).bytes@ == old(self).bytes@,
            final(self).fonts == old(self).fonts,
            final(self).outline_items == old(self).outline_items,
    {
        let mut valid_array = false;
        let mut i: usize = 0;
        while i < pattern.len()
            invariant
                i <= pattern@.len(),
                forall|l: int| 0 <= l < i ==> (#[trigger] pattern@[l]).milli >= 0,
                valid_array == (exists|l: int| 0 <= l < i && (#[trigger] pattern@[l]).milli > 0),
                *self == *old(self),
            decreases pattern@.len() - i,
        {
            let dash = pattern[i];
            if dash.milli < 0 {
                return ;
            } else if dash.milli > 0 {
                valid_array = true;
            }
            i = i + 1;
        }
        if !valid_array {
            return ;
        }
        push_str(&mut self.bytes, "[");
        push_milli(&mut self.bytes, pattern[0].milli);
        let ghost base = self.bytes@;
        let mut j: usize = 1;
        while j < pattern.len()
            invariant
                1 <= j <= pattern@.len(),
                self.fonts == old(self).fonts,
                self.outline_items == old(self).outline_items,
                self.bytes@ == old(self).bytes@ + lit_bytes("[") + dash_items_bytes(
                    pattern@.subrange(0, j as int),
                ),
            decreases pattern@.len() - j,
        {
            push_str(&mut self.bytes, " ");
            push_milli(&mut self.bytes, pattern[j].milli);
            proof {
                let pre = pattern@.subrange(0, j as int);
                let cur = pattern@.subrange(0, j + 1int);
                assert(cur.drop_last() =~= pre);
                assert(cur.last() == pattern@[j as int]);
                assert(self.bytes@ =~= old(self).bytes@ + lit_bytes("[") + dash_items_bytes(cur));
            }
            j = j + 1;
        }
        proof {
            assert(pattern@.subrange(0, pattern@.len() as int) =~= pattern@);
        }
        push_str(&mut self.bytes, "] ");
        push_milli(&mut self.bytes, phase.milli);
        push_str(&mut self.bytes, " d\n");
        assert(final(self).bytes@ =~= old(self).bytes@ + dash_bytes(pattern@, phase.milli as int));
    }

    /// Set color for stroking operations.
    pub fn set_stroke_color(&mut self, color: Color)
        ensures
            final(self).bytes@ == old(self).bytes@ + color_bytes(color) + (match color {
                Color::RGB { .. } => lit_bytes(" SC\n"),
                Color::Gray { .. } => lit_bytes(" G\n"),
            }),
            final(self).fonts == old(self).fonts,
            final(self).outline_items == old(self).outline_items,
    {
        push_color(&mut self.bytes, color);
        match color {
            Color::RGB { .. } => push_str(&mut self.bytes, " SC\n"),
            Color::Gray { .. } => push_str(&mut self.bytes, " G\n"),
        }
        assert(final(self).bytes@ =~= old(self).bytes@ + color_bytes(color) + (match color {
            Color::RGB { .. } => lit_bytes(" SC\n"),
            Color::Gray { .. } => lit_bytes(" G\n"),
        }));
    }

    /// Set color for non-stroking operations.
    pub fn set_fill_color(&mut self, color: Color)
        ensures
            final(self).bytes@ == old(self).bytes@ + color_bytes(color) + (match color {
                Color::RGB { .. } => lit_bytes(" sc\n"),
                Color::Gray { .. } => lit_bytes(" g\n"),
            }),
            final(self).fonts == old(self).fonts,
            final(self).outline_items == old(self).outline_items,
    {
        push_color(&mut self.bytes, color);
        match color {
            Color::RGB { .. } => push_str(&mut self.bytes, " sc\n"),
            Color::Gray { .. } => push_str(&mut self.bytes, " g\n"),
        }
        assert(final(self).bytes@ =~= old(self).bytes@ + color_bytes(color) + (match color {
            Color::RGB { .. } => lit_bytes(" sc\n"),
            Color::Gray { .. } => lit_bytes(" g\n"),
        }));
    }

    /// Modify the current transformation matrix for coordinates by
    /// concatenating the specified matrix.
    #[verifier::rlimit(50)]
    pub fn concat(&mut self, matrix: Matrix)
        ensures
            final(self).bytes@ == old(self).bytes@ + concat_bytes(matrix),
            final(self).fonts == old(self).fonts,
            final(self).outline_items == old(self).outline_items,
    {
        push_milli(&mut self.bytes, matrix.v[0]);
        push_str(&mut self.bytes, " ");
        push_milli(&mut self.bytes, matrix.v[1]);
        push_str(&mut self.bytes, " ");
        push_milli(&mut self.bytes, matrix.v[2]);
        push_str(&mut self.bytes, " ");
        push_milli(&mut self.bytes, matrix.v[3]);
        push_str(&mut self.bytes, " ");
        push_milli(&mut self.bytes, matrix.v[4]);
        push_str(&mut self.bytes, " ");
        push_milli(&mut self.bytes, matrix.v[5]);
        push_str(&mut self.bytes, " cm\n");
        assert(final(self).bytes@ =~= old(self).bytes@ + concat_bytes(matrix));
    }

    /// Append a straight line from (x1, y1) to (x2, y2) to the current
    /// path.
    pub fn line(&mut self, x1: UserSpace, y1: UserSpace, x2: UserSpace, y2: UserSpace)
        ensures
            final(self).bytes@ == old(self).bytes@ + op2_bytes(x1.milli as int, y1.milli as int, " m ")
                + op2_bytes(x2.milli as int, y2.milli as int, " l "),
            final(self).fonts == old(self).fonts,
            final(self).outline_items == old(self).outline_items,
    {
        self.move_to(x1, y1);
        self.line_to(x2, y2);
    }

    /// Add a straight line from the current point to (x, y) to the
    /// current path.
    pub fn line_to(&mut self, x: UserSpace, y: UserSpace)
        ensures
            final(self).bytes@ == old(self).bytes@ + op2_bytes(x.milli as int, y.milli as int, " l "),
            final(self).fonts == old(self).fonts,
            final(self).outline_items == old(self).outline_items,
    {
        push_milli(&mut self.bytes, x.milli);
        push_str(&mut self.bytes, " ");
        push_milli(&mut self.bytes, y.milli);
        push_str(&mut self.bytes, " l ");
        assert(final(self).bytes@ =~= old(self).bytes@ + op2_bytes(
            x.milli as int,
            y.milli as int,
            " l ",
        ));
    }

    /// Begin a new subpath at the point (x, y).
    pub fn move_to(&mut self, x: UserSpace, y: UserSpace)
        ensures
            final(self).bytes@ == old(self).bytes@ + op2_bytes(x.milli as int, y.milli as int, " m "),
            final(self).fonts == old(self).fonts,
            final(self).outline_items == old(self).outline_items,
    {
        push_milli(&mut self.bytes, x.milli);
        push_str(&mut self.bytes, " ");
        push_milli(&mut self.bytes, y.milli);
        push_str(&mut self.bytes, " m ");
        assert(final(self).bytes@ =~= old(self).bytes@ + op2_bytes(
            x.milli as int,
            y.milli as int,
            " m ",
        ));
    }

    /// Add a Bézier curve from the current point to (x3, y3) with
    /// (x1, y1) and (x2, y2) as Bézier control points.
    pub fn curve_to(
        &mut self,
        x1: UserSpace,
        y1: UserSpace,
        x2: UserSpace,
        y2: UserSpace,
        x3: UserSpace,
        y3: UserSpace,
    )
        ensures
            final(self).bytes@ == old(self).bytes@ + curve_bytes(
                x1.milli as int,
                y1.milli as int,
                x2.milli as int,
                y2.milli as int,
                x3.milli as int,
                y3.milli as int,
            ),
            final(self).fonts == old(self).fonts,
            final(self).outline_items == old(self).outline_items,
    {
        push_milli(&mut self.bytes, x1.milli);
        push_str(&mut self.bytes, " ");
        push_milli(&mut self.bytes, y1.milli);
        push_str(&mut self.bytes, " ");
        push_milli(&mut self.bytes, x2.milli);
        push_str(&mut self.bytes, " ");
        push_milli(&mut self.bytes, y2.milli);
        push_str(&mut self.bytes, " ");
        push_milli(&mut self.bytes, x3.milli);
        push_str(&mut self.bytes, " ");
        push_milli(&mut self.bytes, y3.milli);
        push_str(&mut self.bytes, " c\n");
        assert(final(self).bytes@ =~= old(self).bytes@ + curve_bytes(
            x1.milli as int,
            y1.milli as int,
            x2.milli as int,
            y2.milli as int,
            x3.milli as int,
            y3.milli as int,
        ));
    }

    /// Add a circle approximated by four cubic Bézier curves to the
    /// current path.
    #[verifier::rlimit(100)]
    pub fn circle(&mut self, x: UserSpace, y: UserSpace, r: UserSpace)
        requires
            coord_ok(x),
            coord_ok(y),
            coord_ok(r),
        ensures
            final(self).bytes@ == old(self).bytes@ + circle_bytes(
                x.milli as int,
                y.milli as int,
                r.milli as int,
            ),
            final(self).fonts == old(self).fonts,
            final(self).outline_items == old(self).outline_items,
    {
        let top = UserSpace { milli: y.milli - r.milli };
        let bottom = UserSpace { milli: y.milli + r.milli };
        let left = UserSpace { milli: x.milli - r.milli };
        let right = UserSpace { milli: x.milli + r.milli };
        proof {
            assert(-552_000_000_000_000_000_000 <= (r.milli as int) * 551915
                <= 552_000_000_000_000_000_000) by (nonlinear_arith)
                requires
                    -1_000_000_000_000_000 <= r.milli <= 1_000_000_000_000_000,
            ;
        }
        let dist_m = tdiv_to_i64((r.milli as i128) * (CIRCLE_RATIO_PER_MILLION as i128), 1_000_000);
        let up = UserSpace { milli: y.milli - dist_m };
        let down = UserSpace { milli: y.milli + dist_m };
        let leftp = UserSpace { milli: x.milli - dist_m };
        let rightp = UserSpace { milli: x.milli + dist_m };
        let ghost p = circle_points(x.milli as int, y.milli as int, r.milli as int);
        proof {
            assert(dist_m == circle_dist(r.milli as int));
        }
        self.move_to(x, top);
        let ghost b0 = self.bytes@;
        proof {
            assert(b0 == old(self).bytes@ + op2_bytes(p[0].0, p[0].1, " m "));
        }
        self.curve_to(leftp, top, left, up, left, y);
        let ghost b1 = self.bytes@;
        proof {
            assert(b1 =~= old(self).bytes@ + (op2_bytes(p[0].0, p[0].1, " m ") + curve_bytes(
                p[1].0, p[1].1, p[2].0, p[2].1, p[3].0, p[3].1,
            )));
        }
        self.curve_to(left, down, leftp, bottom, x, bottom);
        let ghost b2 = self.bytes@;
        proof {
            assert(b2 =~= old(self).bytes@ + (op2_bytes(p[0].0, p[0].1, " m ") + curve_bytes(
                p[1].0, p[1].1, p[2].0, p[2].1, p[3].0, p[3].1,
            ) + curve_bytes(p[4].0, p[4].1, p[5].0, p[5].1, p[6].0, p[6].1)));
        }
        self.curve_to(rightp, bottom, right, down, right, y);
        let ghost b3 = self.bytes@;
        proof {
            assert(b3 =~= old(self).bytes@ + (op2_bytes(p[0].0, p[0].1, " m ") + curve_bytes(
                p[1].0, p[1].1, p[2].0, p[2].1, p[3].0, p[3].1,
            ) + curve_bytes(p[4].0, p[4].1, p[5].0, p[5].1, p[6].0, p[6].1) + curve_bytes(
                p[7].0, p[7].1, p[8].0, p[8].1, p[9].0, p[9].1,
            )));
        }
        self.curve_to(right, up, rightp, top, x, top);
        assert(final(self).bytes@ =~= old(self).bytes@ + circle_bytes(
            x.milli as int,
            y.milli as int,
            r.milli as int,
        ));
    }

    /// Stroke the current path.
    pub fn stroke(&mut self)
        ensures
            final(self).bytes@ == old(self).bytes@ + lit_bytes("S\n"),
            final(self).fonts == old(self).fonts,
            final(self).outline_items == old(self).outline_items,
    {
        push_str(&mut self.bytes, "S\n");
    }

    /// Close and stroke the current path.
    pub fn close_and_stroke(&mut self)
        ensures
            final(self).bytes@ == old(self).bytes@ + lit_bytes("s\n"),
            final(self).fonts == old(self).fonts,
            final(self).outline_items == old(self).outline_items,
    {
        push_str(&mut self.bytes, "s\n");
    }

    /// Fill the current path.
    pub fn fill(&mut self)
        ensures
            final(self).bytes@ == old(self).bytes@ + lit_bytes("f\n"),
            final(self).fonts == old(self).fonts,
            final(self).outline_items == old(self).outline_items,
    {
        push_str(&mut self.bytes, "f\n");
    }

    /// Get a FontRef for a specific font, registering the font with
    /// this page on its first use.
    pub fn get_font<F: FontSource>(&mut self, font: &F) -> (r: FontRef)
        requires
            old(self).wf(),
        ensures
            final(self).wf(),
            final(self).bytes == old(self).bytes,
            final(self).outline_items == old(self).outline_items,
            final(self).fonts@.len() >= old(self).fonts@.len(),
            forall|i: int|
                0 <= i < old(self).fonts@.len() ==> final(self).fonts@[i] == old(self).fonts@[i],
            final(self).fonts@.map_values(|f: Font| f.key()) == fonts_after_keys(
                old(self).fonts@,
                source_key(font),
            ),
            r.n == font_index(old(self).fonts@, source_key(font)),
            r.n < final(self).fonts@.len(),
            final(self).fonts@[r.n as int].key() == source_key(font),
            r.wf(),
            r.encoding.kind == font.spec_encoding_kind(),
            r.metrics.widths@ == font.spec_widths(),
    {
        let target = Font::from_src(font);
        let mut j: usize = 0;
        while j < self.fonts.len()
            invariant
                j <= self.fonts@.len(),
                old(self).wf(),
                self.bytes == old(self).bytes,
                self.fonts == old(self).fonts,
                self.outline_items == old(self).outline_items,
                target.key() == source_key(font),
                forall|l: int| 0 <= l < j ==> (#[trigger] self.fonts@[l]).key() != target.key(),
                font_index(self.fonts@, target.key()) == font_index_from(
                    self.fonts@,
                    target.key(),
                    j as nat,
                ),
            decreases self.fonts@.len() - j,
        {
            if self.fonts[j].same_identity(&target) {
                proof {
                    assert(self.fonts@[j as int].key() == target.key());
                    lemma_fonts_after_keys_found(self.fonts@, target.key(), j as nat);
                }
                return FontRef::new(j, font.encoding(), font.metrics());
            }
            j = j + 1;
        }
        proof {
            assert(!has_font(self.fonts@, target.key()));
        }
        let n = self.fonts.len();
        self.fonts.push(target);
        proof {
            lemma_fonts_after_keys_new(old(self).fonts@, target);
        }
        FontRef::new(n, font.encoding(), font.metrics())
    }

    /// Create a text object.
    ///
    /// The operators collected in `text` are written between the `BT`
    /// and `ET` bracketing, which this method always closes.
    pub fn text(&mut self, text: TextObject)
        ensures
            final(self).bytes@ == old(self).bytes@ + lit_bytes("BT\n") + text.bytes@ + lit_bytes(
                "ET\n",
            ),
            final(self).fonts == old(self).fonts,
            final(self).outline_items == old(self).outline_items,
    {
        push_str(&mut self.bytes, "BT\n");
        push_bytes(&mut self.bytes, &text.bytes);
        push_str(&mut self.bytes, "ET\n");
        assert(final(self).bytes@ =~= old(self).bytes@ + lit_bytes("BT\n") + text.bytes@
            + lit_bytes("ET\n"));
    }

    /// Utility method for placing a string of text to the left of a
    /// position.
    pub fn left_text<F: FontSource>(
        &mut self,
        x: UserSpace,
        y: UserSpace,
        font: &F,
        size: UserSpace,
        text: &str,
    )
        requires
            old(self).wf(),
        ensures
            final(self).wf(),
            final(self).outline_items == old(self).outline_items,
            final(self).fonts@.map_values(|f: Font| f.key()) == fonts_after_keys(
                old(self).fonts@,
                source_key(font),
            ),
            final(self).bytes@ == old(self).bytes@ + lit_bytes("BT\n") + tf_bytes(
                font_index(old(self).fonts@, source_key(font)),
                size.milli as int,
            ) + op2_bytes(x.milli as int, y.milli as int, " Td\n") + show_bytes(
                font.spec_encoding_kind(),
                text@,
                ") Tj\n",
            ) + lit_bytes("ET\n"),
    {
        let font_ref = self.get_font(font);
        let mut t = TextObject::new();
        t.set_font(&font_ref, size);
        t.pos(x, y);
        t.show(text);
        self.text(t);
        assert(final(self).bytes@ =~= old(self).bytes@ + lit_bytes("BT\n") + tf_bytes(
            font_index(old(self).fonts@, source_key(font)),
            size.milli as int,
        ) + op2_bytes(x.milli as int, y.milli as int, " Td\n") + show_bytes(
            font.spec_encoding_kind(),
            text@,
            ") Tj\n",
        ) + lit_bytes("ET\n"));
    }

    /// Utility method for placing a string of text to the right of a
    /// position: the text ends at `x`.
    pub fn right_text<F: FontSource>(
        &mut self,
        x: UserSpace,
        y: UserSpace,
        font: &F,
        size: UserSpace,
        text: &str,
    )
        requires
            old(self).wf(),
            coord_ok(x),
            size_ok(size),
            spec_raw_width(font.spec_encoding_kind(), font.spec_widths(), text@) <= u32::MAX,
        ensures
            final(self).wf(),
            final(self).outline_items == old(self).outline_items,
            final(self).fonts@.map_values(|f: Font| f.key()) == fonts_after_keys(
                old(self).fonts@,
                source_key(font),
            ),
            final(self).bytes@ == old(self).bytes@ + lit_bytes("BT\n") + tf_bytes(
                font_index(old(self).fonts@, source_key(font)),
                size.milli as int,
            ) + op2_bytes(
                x.milli - tdiv(
                    size.milli * spec_raw_width(font.spec_encoding_kind(), font.spec_widths(), text@),
                    1000,
                ),
                y.milli as int,
                " Td\n",
            ) + show_bytes(font.spec_encoding_kind(), text@, ") Tj\n") + lit_bytes("ET\n"),
    {
        let font_ref = self.get_font(font);
        let text_width = font.text_width(size, text);
        let mut t = TextObject::new();
        t.set_font(&font_ref, size);
        t.pos(UserSpace { milli: x.milli - text_width.milli }, y);
        t.show(text);
        self.text(t);
        assert(final(self).bytes@ =~= old(self).bytes@ + lit_bytes("BT\n") + tf_bytes(
            font_index(old(self).fonts@, source_key(font)),
            size.milli as int,
        ) + op2_bytes(
            x.milli - tdiv(
                size.milli * spec_raw_width(font.spec_encoding_kind(), font.spec_widths(), text@),
                1000,
            ),
            y.milli as int,
            " Td\n",
        ) + show_bytes(font.spec_encoding_kind(), text@, ") Tj\n") + lit_bytes("ET\n"));
    }

    /// Utility method for placing a string of text centered on a
    /// position.
    pub fn center_text<F: FontSource>(
        &mut self,
        x: UserSpace,
        y: UserSpace,
        font: &F,
        size: UserSpace,
        text: &str,
    )
        requires
            old(self).wf(),
            coord_ok(x),
            size_ok(size),
            spec_raw_width(font.spec_encoding_kind(), font.spec_widths(), text@) <= u32::MAX,
        ensures
            final(self).wf(),
            final(self).outline_items == old(self).outline_items,
            final(self).fonts@.map_values(|f: Font| f.key()) == fonts_after_keys(
                old(self).fonts@,
                source_key(font),
            ),
            final(self).bytes@ == old(self).bytes@ + lit_bytes("BT\n") + tf_bytes(
                font_index(old(self).fonts@, source_key(font)),
                size.milli as int,
            ) + op2_bytes(
                x.milli - tdiv(
                    tdiv(
                        size.milli * spec_raw_width(
                            font.spec_encoding_kind(),
                            font.spec_widths(),
                            text@,
                        ),
                        1000,
                    ),
                    2,
                ),
                y.milli as int,
                " Td\n",
            ) + show_bytes(font.spec_encoding_kind(), text@, ") Tj\n") + lit_bytes("ET\n"),
    {
        let font_ref = self.get_font(font);
        let text_width = font.text_width(size, text);
        let half = text_width.half();
        let mut t = TextObject::new();
        t.set_font(&font_ref, size);
        t.pos(UserSpace { milli: x.milli - half.milli }, y);
        t.show(text);
        self.text(t);
        assert(final(self).bytes@ =~= old(self).bytes@ + lit_bytes("BT\n") + tf_bytes(
            font_index(old(self).fonts@, source_key(font)),
            size.milli as int,
        ) + op2_bytes(
            x.milli - tdiv(
                tdiv(
                    size.milli * spec_raw_width(
                        font.spec_encoding_kind(),
                        font.spec_widths(),
                        text@,
                    ),
                    1000,
                ),
                2,
            ),
            y.milli as int,
            " Td\n",
        ) + show_bytes(font.spec_encoding_kind(), text@, ") Tj\n") + lit_bytes("ET\n"));
    }

    /// Add an item for this page in the document outline.
    ///
    /// An outline item associates a name with a location in the
    /// document; this implementation links to the page that this
    /// canvas is for.
    pub fn add_outline(&mut self, title: &str)
        ensures
            final(self).bytes == old(self).bytes,
            final(self).fonts == old(self).fonts,
            final(self).outline_items@.len() == old(self).outline_items@.len() + 1,
            forall|i: int|
                0 <= i < old(self).outline_items@.len() ==> final(self).outline_items@[i] == old(
                    self,
                ).outline_items@[i],
            final(self).outline_items@.last().title@ == title@,
            final(self).outline_items@.last().page == 0,
    {
        self.outline_items.push(OutlineItem::new(title));
    }

    /// Save the current graphics state.
    /// The caller is responsible for restoring it later.
    pub fn gsave(&mut self)
        ensures
            final(self).bytes@ == old(self).bytes@ + lit_bytes("q\n"),
            final(self).fonts == old(self).fonts,
            final(self).outline_items == old(self).outline_items,
    {
        push_str(&mut self.bytes, "q\n");
    }

    /// Restore the current graphics state.
    /// The caller is responsible for having saved it earlier.
    pub fn grestore(&mut self)
        ensures
            final(self).bytes@ == old(self).bytes@ + lit_bytes("Q\n"),
            final(self).fonts == old(self).fonts,
            final(self).outline_items == old(self).outline_items,
    {
        push_str(&mut self.bytes, "Q\n");
    }
}

/// The font identities after a page has used one: unchanged when the
/// identity was present, extended by it otherwise.
pub open spec fn fonts_after_keys(fs: Seq<Font>, k: FontKey) -> Seq<FontKey> {
    if has_font(fs, k) {
        fs.map_values(|f: Font| f.key())
    } else {
        fs.map_values(|f: Font| f.key()).push(k)
    }
}

/// When the identity is registered at `j`, the registrations stay as
/// they are.
proof fn lemma_fonts_after_keys_found(fs: Seq<Font>, k: FontKey, j: nat)
    requires
        j < fs.len(),
        fs[j as int].key() == k,
    ensures
        fonts_after_keys(fs, k) == fs.map_values(|f: Font| f.key()),
{
    assert(has_font(fs, k));
}

/// When the identity is new, it is appended.
proof fn lemma_fonts_after_keys_new(fs: Seq<Font>, f: Font)
    requires
        !has_font(fs, f.key()),
    ensures
        fonts_after_keys(fs, f.key()) == fs.push(f).map_values(|ff: Font| ff.key()),
        fonts_distinct(fs) ==> fonts_distinct(fs.push(f)),
{
    assert(fs.push(f).map_values(|ff: Font| ff.key()) =~= fs.map_values(|ff: Font| ff.key()).push(
        f.key(),
    ));
    if fonts_distinct(fs) {
        assert forall|i: int, j: int| 0 <= i < j < fs.push(f).len() implies fs.push(f)[i].key()
            != fs.push(f)[j].key() by {
            if j < fs.len() {
            } else {
                assert(fs.push(f)[j] == f);
                assert(fs.push(f)[i] == fs[i]);
            }
        }
    }
}

} // verus!
