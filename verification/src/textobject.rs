//! A text object is where text is put on a page.
use vstd::prelude::*;

use crate::emit::dec_bytes;
use crate::emit::lit_bytes;
use crate::emit::milli_bytes;
use crate::emit::push_bytes;
use crate::emit::push_dec_i64;
use crate::emit::push_dec_usize;
use crate::emit::push_milli;
use crate::emit::push_str;
use crate::emit::sdec_bytes;
use crate::encoding::Encoding;
use crate::encoding::enc_string_bytes;
use crate::encoding::get_base_enc;
use crate::fontref::FontRef;
use crate::graphicsstate::Color;
use crate::graphicsstate::color_bytes;
use crate::graphicsstate::push_color;
use crate::units::UserSpace;

verus! {

/// Text rendering modes for
/// [`TextObject::set_render_mode`].
#[derive(Debug, PartialEq, Eq, Structural, Hash, Copy, Clone)]
pub enum RenderMode {
    /// Fills text glyphs with nonstroking color.
    Fill,
    /// Draws outline of text glyphs with stroking color.
    Stroke,
    /// Fills, then strokes text.
    FillAndStroke,
    /// Renders the text invisible.
    Invisible,
    /// Adds the filled text glyphs to clipping path.
    FillAndClipping,
    /// Adds the stroked text glyphs to clipping path.
    StrokeAndClipping,
    /// Adds the filled, then stroked text glyphs to clipping path.
    FillAndStrokeAndClipping,
    /// Adds text to clipping path.
    Clipping,
}

impl RenderMode {
    /// The operand of the `Tr` operator for this mode.
    pub open spec fn spec_code(self) -> u8 {
        match self {
            RenderMode::Fill => 0,
            RenderMode::Stroke => 1,
            RenderMode::FillAndStroke => 2,
            RenderMode::Invisible => 3,
            RenderMode::FillAndClipping => 4,
            RenderMode::StrokeAndClipping => 5,
            RenderMode::FillAndStrokeAndClipping => 6,
            RenderMode::Clipping => 7,
        }
    }

    /// The operand of the `Tr` operator for this mode.
    pub fn code(self) -> (r: u8)
        ensures
            r == self.spec_code(),
    {
        match self {
            RenderMode::Fill => 0,
            RenderMode::Stroke => 1,
            RenderMode::FillAndStroke => 2,
            RenderMode::Invisible => 3,
            RenderMode::FillAndClipping => 4,
            RenderMode::StrokeAndClipping => 5,
            RenderMode::FillAndStrokeAndClipping => 6,
            RenderMode::Clipping => 7,
        }
    }
}

/// The `Tf` operator: select font `n` at a size.
pub open spec fn tf_bytes(n: nat, size: int) -> Seq<u8> {
    lit_bytes("/F") + dec_bytes(n) + lit_bytes(" ") + milli_bytes(size) + lit_bytes(" Tf\n")
}

/// A show operator: the encoded string in parentheses, then `op`.
pub open spec fn show_bytes(k: crate::encoding::EncodingKind, s: Seq<char>, op: &str) -> Seq<u8> {
    lit_bytes("(") + enc_string_bytes(k, s) + lit_bytes(op)
}

/// The items of a `TJ` array: each string in parentheses followed by
/// its position adjustment.
pub open spec fn adj_items_bytes(k: crate::encoding::EncodingKind, items: Seq<(&str, i32)>) -> Seq<
    u8,
>
    decreases items.len(),
{
    if items.len() == 0 {
        Seq::<u8>::empty()
    } else {
        adj_items_bytes(k, items.drop_last()) + lit_bytes("(") + enc_string_bytes(
            k,
            items.last().0@,
        ) + lit_bytes(") ") + sdec_bytes(items.last().1 as int) + lit_bytes(" ")
    }
}

/// A text object, the bracketed region where text operators may
/// appear.
///
/// A TextObject collects its operators in its own buffer; passing it
/// to [`Canvas::text`](crate::canvas::Canvas::text) writes the `BT`
/// and `ET` bracketing around that buffer, so the bracketing is
/// balanced by construction.
#[derive(Debug, Clone)]
pub struct TextObject {
    /// The operator bytes collected so far.
    pub bytes: Vec<u8>,
    /// The encoding of the font selected last, used to encode shown
    /// strings.
    pub encoding: Encoding,
}

impl TextObject {
    /// An empty text object; strings are encoded with the library's
    /// base encoding until a font is selected.
    pub fn new() -> (r: Self)
        ensures
            r.bytes@ == Seq::<u8>::empty(),
            r.encoding.kind == crate::encoding::EncodingKind::WinAnsi,
    {
        TextObject { bytes: Vec::new(), encoding: get_base_enc().to_encoding() }
    }

    /// Set the font and font-size to be used by the following text
    /// operations. Also switches the encoding used for subsequent
    /// strings to the font's.
    pub fn set_font(&mut self, font: &FontRef, size: UserSpace)
        ensures
            final(self).bytes@ == old(self).bytes@ + tf_bytes(font.n as nat, size.milli as int),
            final(self).encoding == font.encoding,
    {
        self.encoding = font.encoding();
        push_str(&mut self.bytes, "/F");
        push_dec_usize(&mut self.bytes, font.n);
        push_str(&mut self.bytes, " ");
        push_milli(&mut self.bytes, size.milli);
        push_str(&mut self.bytes, " Tf\n");
        assert(final(self).bytes@ =~= old(self).bytes@ + tf_bytes(
            font.n as nat,
            size.milli as int,
        ));
    }

    /// Set text render mode, which enables rendering text filled,
    /// stroked or as clipping boundary.
    pub fn set_render_mode(&mut self, mode: RenderMode)
        ensures
            final(self).bytes@ == old(self).bytes@ + dec_bytes(mode.spec_code() as nat)
                + lit_bytes(" Tr\n"),
            final(self).encoding == old(self).encoding,
    {
        push_dec_usize(&mut self.bytes, mode.code() as usize);
        push_str(&mut self.bytes, " Tr\n");
        assert(final(self).bytes@ =~= old(self).bytes@ + dec_bytes(mode.spec_code() as nat)
            + lit_bytes(" Tr\n"));
    }

    /// Set leading, the vertical distance from a line of text to the
    /// next. This is important for the [`show_line`](Self::show_line)
    /// method.
    pub fn set_leading(&mut self, leading: UserSpace)
        ensures
            final(self).bytes@ == old(self).bytes@ + milli_bytes(leading.milli as int) + lit_bytes(
                " TL\n",
            ),
            final(self).encoding == old(self).encoding,
    {
        push_milli(&mut self.bytes, leading.milli);
        push_str(&mut self.bytes, " TL\n");
        assert(final(self).bytes@ =~= old(self).bytes@ + milli_bytes(leading.milli as int)
            + lit_bytes(" TL\n"));
    }

    /// Set the rise above the baseline for coming text. Calling
    /// set_rise again with a zero argument gets back to the old
    /// baseline.
    pub fn set_rise(&mut self, rise: UserSpace)
        ensures
            final(self).bytes@ == old(self).bytes@ + milli_bytes(rise.milli as int) + lit_bytes(
                " Ts\n",
            ),
            final(self).encoding == old(self).encoding,
    {
        push_milli(&mut self.bytes, rise.milli);
        push_str(&mut self.bytes, " Ts\n");
        assert(final(self).bytes@ =~= old(self).bytes@ + milli_bytes(rise.milli as int)
            + lit_bytes(" Ts\n"));
    }

    /// Set the amount of extra space between characters, in 1/1000
    /// text unit.
    pub fn set_char_spacing(&mut self, c_space: UserSpace)
        ensures
            final(self).bytes@ == old(self).bytes@ + milli_bytes(c_space.milli as int) + lit_bytes(
                " Tc\n",
            ),
            final(self).encoding == old(self).encoding,
    {
        push_milli(&mut self.bytes, c_space.milli);
        push_str(&mut self.bytes, " Tc\n");
        assert(final(self).bytes@ =~= old(self).bytes@ + milli_bytes(c_space.milli as int)
            + lit_bytes(" Tc\n"));
    }

    /// Set the amount of extra space between words, in 1/1000 text
    /// unit.
    pub fn set_word_spacing(&mut self, w_space: UserSpace)
        ensures
            final(self).bytes@ == old(self).bytes@ + milli_bytes(w_space.milli as int) + lit_bytes(
                " Tw\n",
            ),
            final(self).encoding == old(self).encoding,
    {
        push_milli(&mut self.bytes, w_space.milli);
        push_str(&mut self.bytes, " Tw\n");
        assert(final(self).bytes@ =~= old(self).bytes@ + milli_bytes(w_space.milli as int)
            + lit_bytes(" Tw\n"));
    }

    /// Set color for stroking operations.
    pub fn set_stroke_color(&mut self, color: Color)
        ensures
            final(self).bytes@ == old(self).bytes@ + color_bytes(color) + (match color {
                Color::RGB { .. } => lit_bytes(" SC\n"),
                Color::Gray { .. } => lit_bytes(" G\n"),
            }),
            final(self).encoding == old(self).encoding,
    {
        push_color(&mut self.bytes, color);
        match color {
            Color::RGB { .. } => push_str(&mut self.bytes, " SC\n"),
            Color::Gray { .. } => push_str(&mut self.bytes, " G\n"),
        }
        assert(final(self).bytes@ =~= old(self).bytes@ + color_bytes(color) + (match color {
            Color::RGB { .. } => lit_bytes(" SC\n"),
            Color::Gray { .. } => lit_bytes(" G\n"),
        }));
    }

    /// Set color for non-stroking operations.
    pub fn set_fill_color(&mut self, color: Color)
        ensures
            final(self).bytes@ == old(self).bytes@ + color_bytes(color) + (match color {
                Color::RGB { .. } => lit_bytes(" sc\n"),
                Color::Gray { .. } => lit_bytes(" g\n"),
            }),
            final(self).encoding == old(self).encoding,
    {
        push_color(&mut self.bytes, color);
        match color {
            Color::RGB { .. } => push_str(&mut self.bytes, " sc\n"),
            Color::Gray { .. } => push_str(&mut self.bytes, " g\n"),
        }
        assert(final(self).bytes@ =~= old(self).bytes@ + color_bytes(color) + (match color {
            Color::RGB { .. } => lit_bytes(" sc\n"),
            Color::Gray { .. } => lit_bytes(" g\n"),
        }));
    }

    /// Move text position.
    ///
    /// The first time `pos` is called in a TextObject, (x, y) refers
    /// to the same point as for
    /// [`Canvas::move_to`](crate::canvas::Canvas::move_to); after
    /// that, the point is relative to the earlier pos.
    pub fn pos(&mut self, x: UserSpace, y: UserSpace)
        ensures
            final(self).bytes@ == old(self).bytes@ + milli_bytes(x.milli as int) + lit_bytes(" ")
                + milli_bytes(y.milli as int) + lit_bytes(" Td\n"),
            final(self).encoding == old(self).encoding,
    {
        push_milli(&mut self.bytes, x.milli);
        push_str(&mut self.bytes, " ");
        push_milli(&mut self.bytes, y.milli);
        push_str(&mut self.bytes, " Td\n");
        assert(final(self).bytes@ =~= old(self).bytes@ + milli_bytes(x.milli as int) + lit_bytes(
            " ",
        ) + milli_bytes(y.milli as int) + lit_bytes(" Td\n"));
    }

    /// Show a text.
    pub fn show(&mut self, text: &str)
        ensures
            final(self).bytes@ == old(self).bytes@ + show_bytes(
                old(self).encoding.kind,
                text@,
                ") Tj\n",
            ),
            final(self).encoding == old(self).encoding,
    {
        push_str(&mut self.bytes, "(");
        let encoded = self.encoding.encode_string(text);
        push_bytes(&mut self.bytes, &encoded);
        push_str(&mut self.bytes, ") Tj\n");
        assert(final(self).bytes@ =~= old(self).bytes@ + show_bytes(
            old(self).encoding.kind,
            text@,
            ") Tj\n",
        ));
    }

    /// Show one or more text strings, allowing individual glyph
    /// positioning.
    ///
    /// Each item in `param` contains a string to show and a number to
    /// adjust the position. The adjustment is measured in thousandths
    /// of unit of text space. Positive adjustment brings letters
    /// closer, negative widens the gap.
    pub fn show_adjusted(&mut self, param: &[(&str, i32)])
        ensures
            final(self).bytes@ == old(self).bytes@ + lit_bytes("[") + adj_items_bytes(
                old(self).encoding.kind,
                param@,
            ) + lit_bytes("] TJ\n"),
            final(self).encoding == old(self).encoding,
    {
        push_str(&mut self.bytes, "[");
        let ghost base = self.bytes@;
        let mut i: usize = 0;
        while i < param.len()
            invariant
                i <= param@.len(),
                self.encoding == old(self).encoding,
                self.bytes@ == base + adj_items_bytes(
                    old(self).encoding.kind,
                    param@.subrange(0, i as int),
                ),
            decreases param@.len() - i,
        {
            let (text, offset) = param[i];
            push_str(&mut self.bytes, "(");
            let encoded = self.encoding.encode_string(text);
            push_bytes(&mut self.bytes, &encoded);
            push_str(&mut self.bytes, ") ");
            push_dec_i64(&mut self.bytes, offset as i64);
            push_str(&mut self.bytes, " ");
            proof {
                let pre = param@.subrange(0, i as int);
                let cur = param@.subrange(0, i + 1int);
                assert(cur.drop_last() =~= pre);
                assert(cur.last() == param@[i as int]);
                assert(self.bytes@ =~= base + adj_items_bytes(old(self).encoding.kind, cur));
            }
            i = i + 1;
        }
        proof {
            assert(param@.subrange(0, param@.len() as int) =~= param@);
        }
        push_str(&mut self.bytes, "] TJ\n");
        assert(final(self).bytes@ =~= old(self).bytes@ + lit_bytes("[") + adj_items_bytes(
            old(self).encoding.kind,
            param@,
        ) + lit_bytes("] TJ\n"));
    }

    /// Show a text as a line. See also [`set_leading`](Self::set_leading).
    pub fn show_line(&mut self, text: &str)
        ensures
            final(self).bytes@ == old(self).bytes@ + show_bytes(
                old(self).encoding.kind,
                text@,
                ") '\n",
            ),
            final(self).encoding == old(self).encoding,
    {
        push_str(&mut self.bytes, "(");
        let encoded = self.encoding.encode_string(text);
        push_bytes(&mut self.bytes, &encoded);
        push_str(&mut self.bytes, ") '\n");
        assert(final(self).bytes@ =~= old(self).bytes@ + show_bytes(
            old(self).encoding.kind,
            text@,
            ") '\n",
        ));
    }

    /// Push the graphics state on a stack.
    pub fn gsave(&mut self)
        ensures
            final(self).bytes@ == old(self).bytes@ + lit_bytes("q\n"),
            final(self).encoding == old(self).encoding,
    {
        push_str(&mut self.bytes, "q\n");
    }

    /// Pop a graphics state from the [`gsave`](Self::gsave) stack and
    /// restore it.
    pub fn grestore(&mut self)
        ensures
            final(self).bytes@ == old(self).bytes@ + lit_bytes("Q\n"),
            final(self).encoding == old(self).encoding,
    {
        push_str(&mut self.bytes, "Q\n");
    }
}

} // verus!
