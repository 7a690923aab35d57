//! The built-in fonts and the capability a font offers the writer.
use vstd::prelude::*;

use crate::encoding::BaseEncoding;
use crate::encoding::Encoding;
use crate::encoding::EncodingKind;
use crate::encoding::FontEncoding;
use crate::encoding::enc_string_bytes;
use crate::encoding::get_base_enc;
use crate::fontmetrics::FontMetrics;
use crate::fontmetrics::pairs_to_widths;
use crate::fontmetrics::widths_sum;
use crate::fontmetrics::lemma_widths_sum_concat;
use crate::units::UserSpace;

verus! {

/// The "Base14" built-in fonts in PDF.
/// Underscores in these names are hyphens in the real names.
#[allow(non_camel_case_types, missing_docs)]
#[derive(Debug, PartialEq, Eq, Structural, Hash, Copy, Clone)]
pub enum BuiltinFont {
    Courier,
    Courier_Bold,
    Courier_Oblique,
    Courier_BoldOblique,
    Helvetica,
    Helvetica_Bold,
    Helvetica_Oblique,
    Helvetica_BoldOblique,
    Times_Roman,
    Times_Bold,
    Times_Italic,
    Times_BoldItalic,
    Symbol,
    ZapfDingbats,
}

/// The PDF base name of a built-in font.
pub open spec fn builtin_name(f: BuiltinFont) -> Seq<char> {
    match f {
        BuiltinFont::Courier => "Courier"@,
        BuiltinFont::Courier_Bold => "Courier-Bold"@,
        BuiltinFont::Courier_Oblique => "Courier-Oblique"@,
        BuiltinFont::Courier_BoldOblique => "Courier-BoldOblique"@,
        BuiltinFont::Helvetica => "Helvetica"@,
        BuiltinFont::Helvetica_Bold => "Helvetica-Bold"@,
        BuiltinFont::Helvetica_Oblique => "Helvetica-Oblique"@,
        BuiltinFont::Helvetica_BoldOblique => "Helvetica-BoldOblique"@,
        BuiltinFont::Times_Roman => "Times-Roman"@,
        BuiltinFont::Times_Bold => "Times-Bold"@,
        BuiltinFont::Times_Italic => "Times-Italic"@,
        BuiltinFont::Times_BoldItalic => "Times-BoldItalic"@,
        BuiltinFont::Symbol => "Symbol"@,
        BuiltinFont::ZapfDingbats => "ZapfDingbats"@,
    }
}

/// The character table a built-in font encodes text with: the two
/// symbolic fonts have their own, every other one uses the library's
/// base encoding.
pub open spec fn builtin_enc_kind(f: BuiltinFont) -> EncodingKind {
    match f {
        BuiltinFont::Symbol => EncodingKind::Symbol,
        BuiltinFont::ZapfDingbats => EncodingKind::ZapfDingbats,
        _ => EncodingKind::WinAnsi,
    }
}

/// The width table of a built-in font.
pub open spec fn builtin_widths(f: BuiltinFont) -> Seq<u16> {
    pairs_to_widths(
        match f {
            BuiltinFont::Courier => crate::fontmetrics::courier_pairs_spec(),
            BuiltinFont::Courier_Bold => crate::fontmetrics::courier_pairs_spec(),
            BuiltinFont::Courier_Oblique => crate::fontmetrics::courier_pairs_spec(),
            BuiltinFont::Courier_BoldOblique => crate::fontmetrics::courier_pairs_spec(),
            BuiltinFont::Helvetica => crate::fontmetrics::helvetica_pairs_spec(),
            BuiltinFont::Helvetica_Oblique => crate::fontmetrics::helvetica_pairs_spec(),
            BuiltinFont::Helvetica_Bold => crate::fontmetrics::helvetica_bold_pairs_spec(),
            BuiltinFont::Helvetica_BoldOblique => crate::fontmetrics::helvetica_bold_pairs_spec(),
            BuiltinFont::Times_Roman => crate::fontmetrics::times_roman_pairs_spec(),
            BuiltinFont::Times_Bold => crate::fontmetrics::times_bold_pairs_spec(),
            BuiltinFont::Times_Italic => crate::fontmetrics::times_italic_pairs_spec(),
            BuiltinFont::Times_BoldItalic => crate::fontmetrics::times_bold_italic_pairs_spec(),
            BuiltinFont::Symbol => crate::fontmetrics::symbol_pairs_spec(),
            BuiltinFont::ZapfDingbats => crate::fontmetrics::zapf_dingbats_pairs_spec(),
        },
    )
}

/// The width, in thousandths of the text-space unit, of a string under
/// an encoding and a width table: the sum of the widths of the bytes
/// the string encodes to.
pub open spec fn spec_raw_width(k: EncodingKind, w: Seq<u16>, s: Seq<char>) -> nat {
    widths_sum(w, enc_string_bytes(k, s))
}

/// Sum the widths of an encoded string against a width table.
pub fn raw_width_exec(enc: &Encoding, metrics: &FontMetrics, text: &str) -> (r: u32)
    requires
        metrics.wf(),
        spec_raw_width(enc.kind, metrics.widths@, text@) <= u32::MAX,
    ensures
        r == spec_raw_width(enc.kind, metrics.widths@, text@),
{
    let bs = enc.encode_string(text);
    let ghost w = metrics.widths@;
    let mut sum: u32 = 0;
    let mut i: usize = 0;
    while i < bs.len()
        invariant
            i <= bs@.len(),
            bs@ == enc_string_bytes(enc.kind, text@),
            metrics.wf(),
            w == metrics.widths@,
            widths_sum(w, bs@) <= u32::MAX,
            sum == widths_sum(w, bs@.subrange(0, i as int)),
        decreases bs@.len() - i,
    {
        let b = bs[i];
        proof {
            let pre = bs@.subrange(0, i as int);
            let cur = bs@.subrange(0, i + 1int);
            assert(cur.drop_last() =~= pre);
            assert(cur.last() == bs@[i as int]);
            assert(bs@ =~= cur + bs@.subrange(i + 1int, bs@.len() as int));
            lemma_widths_sum_concat(w, cur, bs@.subrange(i + 1int, bs@.len() as int));
        }
        match metrics.get_width(b) {
            Some(x) => {
                sum = sum + x as u32;
            },
            None => {
                sum = sum + 100;
            },
        }
        i = i + 1;
    }
    proof {
        assert(bs@.subrange(0, bs@.len() as int) =~= bs@);
    }
    sum
}


/// Width is additive over concatenation: for a fixed encoding and
/// width table, the raw width of `s1` followed by `s2` is the sum of
/// their raw widths. In particular a string repeated `n` times is
/// exactly `n` times as wide as one copy.
pub proof fn lemma_raw_width_additive(k: EncodingKind, w: Seq<u16>, s1: Seq<char>, s2: Seq<char>)
    ensures
        spec_raw_width(k, w, s1 + s2) == spec_raw_width(k, w, s1) + spec_raw_width(k, w, s2),
{
    crate::encoding::lemma_enc_string_concat(k, s1, s2);
    lemma_widths_sum_concat(w, enc_string_bytes(k, s1), enc_string_bytes(k, s2));
}

/// This trait is implemented by any kind of font that the pdf library
/// supports: everything needed to name the font, encode and measure
/// text in it, and write its dictionary.
///
/// Currently, only [`BuiltinFont`] implements this.
pub trait FontSource {
    /// The PDF name of the font.
    spec fn spec_name(&self) -> Seq<char>;

    /// The character table the font encodes text with.
    spec fn spec_encoding_kind(&self) -> EncodingKind;

    /// The font's width table.
    spec fn spec_widths(&self) -> Seq<u16>;

    /// Get the PDF name of this font.
    fn name(&self) -> (r: String)
        ensures
            r@ == self.spec_name(),
    ;

    /// Get the encoding that this font uses.
    fn encoding(&self) -> (r: Encoding)
        ensures
            r.kind == self.spec_encoding_kind(),
    ;

    /// Get the width of a string in thousandths of the text-space
    /// unit. This unit is what is used in some places internally in
    /// pdf files.
    fn raw_text_width(&self, text: &str) -> (r: u32)
        requires
            spec_raw_width(self.spec_encoding_kind(), self.spec_widths(), text@) <= u32::MAX,
        ensures
            r == spec_raw_width(self.spec_encoding_kind(), self.spec_widths(), text@),
    ;

    /// Get the width of a string in this font at the given size,
    /// rounded toward zero to a thousandth of a point.
    fn text_width(&self, size: UserSpace, text: &str) -> (r: UserSpace)
        requires
            spec_raw_width(self.spec_encoding_kind(), self.spec_widths(), text@) <= u32::MAX,
            -1_000_000_000_000 <= size.milli <= 1_000_000_000_000,
        ensures
            r.milli == crate::emit::tdiv(
                size.milli * spec_raw_width(self.spec_encoding_kind(), self.spec_widths(), text@),
                1000,
            ),
            -4_300_000_000_000_000_000 <= r.milli <= 4_300_000_000_000_000_000,
    ;

    /// Get the font metrics for the font.
    fn metrics(&self) -> (r: FontMetrics)
        ensures
            r.wf(),
            r.widths@ == self.spec_widths(),
    ;
}

/// The width of a string at a size: the raw width scaled by the size,
/// rounded toward zero to a thousandth of a point.
pub fn scaled_width(size: UserSpace, raw: u32) -> (r: UserSpace)
    requires
        -1_000_000_000_000 <= size.milli <= 1_000_000_000_000,
    ensures
        r.milli == crate::emit::tdiv(size.milli * raw, 1000),
        -4_300_000_000_000_000_000 <= r.milli <= 4_300_000_000_000_000_000,
{
    proof {
        assert(-4_300_000_000_000_000_000_000 <= (size.milli as int) * (raw as int)
            <= 4_300_000_000_000_000_000_000) by (nonlinear_arith)
            requires
                -1_000_000_000_000 <= size.milli <= 1_000_000_000_000,
                0 <= raw <= 4_294_967_295,
        ;
    }
    let p: i128 = (size.milli as i128) * (raw as i128);
    let m = crate::emit::tdiv_to_i64(p, 1000);
    UserSpace { milli: m }
}

impl FontSource for BuiltinFont {
    open spec fn spec_name(&self) -> Seq<char> {
        builtin_name(*self)
    }

    open spec fn spec_encoding_kind(&self) -> EncodingKind {
        builtin_enc_kind(*self)
    }

    open spec fn spec_widths(&self) -> Seq<u16> {
        builtin_widths(*self)
    }

    fn name(&self) -> (r: String) {
        match *self {
            BuiltinFont::Courier => "Courier".to_owned(),
            BuiltinFont::Courier_Bold => "Courier-Bold".to_owned(),
            BuiltinFont::Courier_Oblique => "Courier-Oblique".to_owned(),
            BuiltinFont::Courier_BoldOblique => "Courier-BoldOblique".to_owned(),
            BuiltinFont::Helvetica => "Helvetica".to_owned(),
            BuiltinFont::Helvetica_Bold => "Helvetica-Bold".to_owned(),
            BuiltinFont::Helvetica_Oblique => "Helvetica-Oblique".to_owned(),
            BuiltinFont::Helvetica_BoldOblique => "Helvetica-BoldOblique".to_owned(),
            BuiltinFont::Times_Roman => "Times-Roman".to_owned(),
            BuiltinFont::Times_Bold => "Times-Bold".to_owned(),
            BuiltinFont::Times_Italic => "Times-Italic".to_owned(),
            BuiltinFont::Times_BoldItalic => "Times-BoldItalic".to_owned(),
            BuiltinFont::Symbol => "Symbol".to_owned(),
            BuiltinFont::ZapfDingbats => "ZapfDingbats".to_owned(),
        }
    }

    fn encoding(&self) -> (r: Encoding) {
        match *self {
            BuiltinFont::Symbol => Encoding::new(EncodingKind::Symbol),
            BuiltinFont::ZapfDingbats => Encoding::new(EncodingKind::ZapfDingbats),
            _ => get_base_enc().to_encoding(),
        }
    }

    fn raw_text_width(&self, text: &str) -> (r: u32) {
        let enc = self.encoding();
        let metrics = self.metrics();
        raw_width_exec(&enc, &metrics, text)
    }

    fn text_width(&self, size: UserSpace, text: &str) -> (r: UserSpace) {
        let raw = self.raw_text_width(text);
        scaled_width(size, raw)
    }

    fn metrics(&self) -> (r: FontMetrics) {
        let pairs = match *self {
            BuiltinFont::Courier => crate::fontmetrics::courier_pairs(),
            BuiltinFont::Courier_Bold => crate::fontmetrics::courier_pairs(),
            BuiltinFont::Courier_Oblique => crate::fontmetrics::courier_pairs(),
            BuiltinFont::Courier_BoldOblique => crate::fontmetrics::courier_pairs(),
            BuiltinFont::Helvetica => crate::fontmetrics::helvetica_pairs(),
            BuiltinFont::Helvetica_Oblique => crate::fontmetrics::helvetica_pairs(),
            BuiltinFont::Helvetica_Bold => crate::fontmetrics::helvetica_bold_pairs(),
            BuiltinFont::Helvetica_BoldOblique => crate::fontmetrics::helvetica_bold_pairs(),
            BuiltinFont::Times_Roman => crate::fontmetrics::times_roman_pairs(),
            BuiltinFont::Times_Bold => crate::fontmetrics::times_bold_pairs(),
            BuiltinFont::Times_Italic => crate::fontmetrics::times_italic_pairs(),
            BuiltinFont::Times_BoldItalic => crate::fontmetrics::times_bold_italic_pairs(),
            BuiltinFont::Symbol => crate::fontmetrics::symbol_pairs(),
            BuiltinFont::ZapfDingbats => crate::fontmetrics::zapf_dingbats_pairs(),
        };
        FontMetrics::from_pairs(&pairs)
    }
}

/// The identity of a font resource: two uses with the same key share
/// one font object in the emitted file.
pub ghost struct FontKey {
    /// The PDF base name of the font.
    pub name: Seq<char>,
    /// The base encoding named in the font dictionary.
    pub base: BaseEncoding,
    /// The font's character table.
    pub enc: EncodingKind,
}

/// Defines a font dictionary to represent text in a specified font. At
/// the moment only Type1 fonts, e.g. the standard fonts (see
/// [`BuiltinFont`]), are supported.
#[derive(Debug, Clone)]
pub struct Font {
    /// The PDF base name of the font.
    pub name: String,
    /// The encodings the font dictionary names.
    pub encoding: FontEncoding,
}

impl Font {
    /// The deduplication identity of this font resource.
    pub open spec fn key(self) -> FontKey {
        FontKey { name: self.name@, base: self.encoding.base, enc: self.encoding.encoding.kind }
    }

    /// The font resource a font source stands for.
    pub fn from_src<F: FontSource>(source: &F) -> (r: Self)
        ensures
            r.key() == (FontKey {
                name: source.spec_name(),
                base: BaseEncoding::WinAnsiEncoding,
                enc: source.spec_encoding_kind(),
            }),
    {
        Font { name: source.name(), encoding: FontEncoding::with_encoding(source.encoding()) }
    }

    /// Whether two font resources share one identity.
    pub fn same_identity(&self, o: &Font) -> (r: bool)
        ensures
            r == (self.key() == o.key()),
    {
        let names_eq = crate::encoding::str_eq_chars(self.name.as_str(), o.name.as_str());
        let r = names_eq && self.encoding.base == o.encoding.base && self.encoding.encoding.kind
            == o.encoding.encoding.kind;
        proof {
            if r {
                assert(self.key() == o.key());
            }
        }
        r
    }
}

} // verus!
