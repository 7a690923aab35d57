//! A font as referenced from a page's content stream.
use vstd::prelude::*;

use crate::encoding::Encoding;
use crate::fontmetrics::FontMetrics;
use crate::fontsource::raw_width_exec;
use crate::fontsource::scaled_width;
use crate::fontsource::spec_raw_width;
use crate::units::UserSpace;

verus! {

/// A font ready to be used in a text object.
///
/// The way to get a FontRef is to call
/// [`Canvas::get_font`](crate::canvas::Canvas::get_font) with a
/// [`FontSource`](crate::fontsource::FontSource).
/// In PDF terms, a FontSource is everything needed to build a font
/// dictionary, while a FontRef is the short name (`/F0`, `/F1`, …)
/// that a page stream uses for a font. Calling `get_font` makes sure
/// the font dictionary will be created in the file, associates it with
/// a name in the page resources, and returns a FontRef representing
/// that name.
#[derive(Debug, Clone)]
pub struct FontRef {
    /// The per-page index of the font: it appears as `/F<n>`.
    pub n: usize,
    /// The character table the font encodes text with.
    pub encoding: Encoding,
    /// The font's width table.
    pub metrics: FontMetrics,
}

impl FontRef {
    /// The carried width table covers every code.
    pub open spec fn wf(self) -> bool {
        self.metrics.wf()
    }

    pub(crate) fn new(n: usize, encoding: Encoding, metrics: FontMetrics) -> (r: FontRef)
        ensures
            r.n == n,
            r.encoding == encoding,
            r.metrics == metrics,
    {
        FontRef { n, encoding, metrics }
    }

    /// Get the encoding used by the referenced font.
    pub fn encoding(&self) -> (r: Encoding)
        ensures
            r == self.encoding,
    {
        self.encoding
    }

    /// Get the width of the given text in this font at the given size,
    /// rounded toward zero to a thousandth of a point.
    pub fn text_width(&self, size: UserSpace, text: &str) -> (r: UserSpace)
        requires
            self.wf(),
            spec_raw_width(self.encoding.kind, self.metrics.widths@, text@) <= u32::MAX,
            -1_000_000_000_000 <= size.milli <= 1_000_000_000_000,
        ensures
            r.milli == crate::emit::tdiv(
                size.milli * spec_raw_width(self.encoding.kind, self.metrics.widths@, text@),
                1000,
            ),
            -4_300_000_000_000_000_000 <= r.milli <= 4_300_000_000_000_000_000,
    {
        let raw = self.raw_text_width(text);
        scaled_width(size, raw)
    }

    /// Get the width of the given text in thousandths of the
    /// text-space unit. This unit is what is used in some places
    /// internally in pdf files and in some methods on a
    /// [`TextObject`](crate::textobject::TextObject).
    pub fn raw_text_width(&self, text: &str) -> (r: u32)
        requires
            self.wf(),
            spec_raw_width(self.encoding.kind, self.metrics.widths@, text@) <= u32::MAX,
        ensures
            r == spec_raw_width(self.encoding.kind, self.metrics.widths@, text@),
    {
        raw_width_exec(&self.encoding, &self.metrics, text)
    }
}

} // verus!
