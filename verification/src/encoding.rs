//! Text encodings used in PDF. An encoding maintains the connection
//! between unicode code points, bytes in PDF strings, and glyph names.
//!
//! Four encodings are supported: WinAnsi, MacRoman, and the symbolic
//! encodings of the Symbol and ZapfDingbats fonts. Each is a fixed
//! table, exposed through the [`Encoding`] type.
use vstd::prelude::*;
use vstd::string::StrSliceExecFns;

verus! {

/// Compare two string slices by their characters.
pub fn str_eq_chars(a: &str, b: &str) -> (r: bool)
    ensures
        r == (a@ == b@),
{
    let an = a.unicode_len();
    let bn = b.unicode_len();
    if an != bn {
        return false;
    }
    let mut i: usize = 0;
    while i < an
        invariant
            i <= an,
            an == a@.len(),
            bn == b@.len(),
            an == bn,
            forall|j: int| 0 <= j < i ==> a@[j] == b@[j],
        decreases an - i,
    {
        if a.get_char(i) != b.get_char(i) {
            return false;
        }
        i = i + 1;
    }
    proof {
        assert(a@ =~= b@);
    }
    true
}

/// Which of the supported code tables an [`Encoding`] uses.
#[derive(Debug, PartialEq, Eq, Structural, Hash, Copy, Clone)]
pub enum EncodingKind {
    /// The Windows Latin-1 table.
    WinAnsi,
    /// The Macintosh Roman table.
    MacRoman,
    /// The table of the Symbol font.
    Symbol,
    /// The table of the ZapfDingbats font.
    ZapfDingbats,
}

/// The byte a character encodes to, if any.
pub open spec fn kind_encode_char(k: EncodingKind, c: char) -> Option<u8> {
    match k {
        EncodingKind::WinAnsi => match win_char_ov(c) {
            Some(b) => Some(b),
            None => if 1 <= c as u32 && c as u32 <= 255 {
                Some((c as u32) as u8)
            } else {
                None
            },
        },
        EncodingKind::MacRoman => match mac_char_ov_a(c) {
            Some(b) => Some(b),
            None => if 1 <= c as u32 && c as u32 <= 254 {
                Some((c as u32) as u8)
            } else {
                None
            },
        },
        EncodingKind::Symbol => match sym_char_ov_a(c) {
            Some(b) => Some(b),
            None => if 1 <= c as u32 && c as u32 <= 254 {
                Some((c as u32) as u8)
            } else {
                None
            },
        },
        EncodingKind::ZapfDingbats => match zapf_char_ov_a(c) {
            Some(b) => Some(b),
            None => if 1 <= c as u32 && c as u32 <= 254 {
                Some((c as u32) as u8)
            } else {
                None
            },
        },
    }
}

/// The code a glyph name stands for, if any.
pub open spec fn kind_code_of_name(k: EncodingKind, n: Seq<char>) -> Option<u8> {
    match k {
        EncodingKind::WinAnsi => win_name_code_a(n),
        EncodingKind::MacRoman => mac_name_code_a(n),
        EncodingKind::Symbol => sym_name_code_a(n),
        EncodingKind::ZapfDingbats => zapf_name_code_a(n),
    }
}

/// The name of the encoding, as used in the font object.
pub open spec fn kind_name(k: EncodingKind) -> Seq<char> {
    match k {
        EncodingKind::WinAnsi => "WinAnsiEncoding"@,
        EncodingKind::MacRoman => "MacRomanEncoding"@,
        EncodingKind::Symbol => "SymbolEncoding"@,
        EncodingKind::ZapfDingbats => "ZapfDingbatsEncoding"@,
    }
}

/// An encoded byte as it appears inside a parenthesized PDF string:
/// the three syntactically significant bytes are backslash-escaped.
pub open spec fn esc_byte(b: u8) -> Seq<u8> {
    if b == 92 || b == 40 || b == 41 {
        seq![92u8, b]
    } else {
        seq![b]
    }
}

/// What one character contributes to an encoded string: its escaped
/// byte, or a question mark when the encoding cannot represent it.
pub open spec fn enc_char_bytes(k: EncodingKind, c: char) -> Seq<u8> {
    match kind_encode_char(k, c) {
        Some(b) => esc_byte(b),
        None => seq![63u8],
    }
}

/// The bytes of a whole string under an encoding.
pub open spec fn enc_string_bytes(k: EncodingKind, s: Seq<char>) -> Seq<u8>
    decreases s.len(),
{
    if s.len() == 0 {
        Seq::<u8>::empty()
    } else {
        enc_string_bytes(k, s.drop_last()) + enc_char_bytes(k, s.last())
    }
}

/// Splitting a string splits its encoding: the encoded bytes of a
/// concatenation are the concatenation of the encoded bytes.
pub proof fn lemma_enc_string_concat(k: EncodingKind, s1: Seq<char>, s2: Seq<char>)
    ensures
        enc_string_bytes(k, s1 + s2) == enc_string_bytes(k, s1) + enc_string_bytes(k, s2),
    decreases s2.len(),
{
    if s2.len() == 0 {
        assert(s1 + s2 =~= s1);
        assert(enc_string_bytes(k, s1) + enc_string_bytes(k, s2) =~= enc_string_bytes(k, s1));
    } else {
        lemma_enc_string_concat(k, s1, s2.drop_last());
        assert((s1 + s2).drop_last() =~= s1 + s2.drop_last());
        assert((s1 + s2).last() == s2.last());
        assert(enc_string_bytes(k, s1) + enc_string_bytes(k, s2.drop_last()) + enc_char_bytes(
            k,
            s2.last(),
        ) =~= enc_string_bytes(k, s1) + (enc_string_bytes(k, s2.drop_last()) + enc_char_bytes(
            k,
            s2.last(),
        )));
    }
}

/// Represent a text encoding used in PDF. An encoding maintains the
/// connection between unicode code points, bytes in PDF strings, and
/// glyph names.
#[derive(Debug, PartialEq, Eq, Structural, Hash, Copy, Clone)]
pub struct Encoding {
    /// Which fixed table this encoding uses.
    pub kind: EncodingKind,
}

impl Encoding {
    /// Creates a new encoding over the given table.
    pub fn new(kind: EncodingKind) -> (r: Self)
        ensures
            r.kind == kind,
    {
        Encoding { kind }
    }

    /// The name of the encoding, as used in the font object.
    pub fn name(&self) -> (r: String)
        ensures
            r@ == kind_name(self.kind),
    {
        match self.kind {
            EncodingKind::WinAnsi => "WinAnsiEncoding".to_owned(),
            EncodingKind::MacRoman => "MacRomanEncoding".to_owned(),
            EncodingKind::Symbol => "SymbolEncoding".to_owned(),
            EncodingKind::ZapfDingbats => "ZapfDingbatsEncoding".to_owned(),
        }
    }

    /// Get the encoded code point from a type1 character name.
    /// Character names are case sensitive and contain only ascii
    /// letters. If the name is not available in the encoding, or is
    /// not a proper character name, `None` is returned.
    pub fn get_code(&self, name: &str) -> (r: Option<u8>)
        ensures
            r == kind_code_of_name(self.kind, name@),
    {
        match self.kind {
            EncodingKind::WinAnsi => win_name_code_a_x(name),
            EncodingKind::MacRoman => mac_name_code_a_x(name),
            EncodingKind::Symbol => sym_name_code_a_x(name),
            EncodingKind::ZapfDingbats => zapf_name_code_a_x(name),
        }
    }

    /// Get the encoded code point from a (unicode) character.
    /// If the character is not available in the encoding, `None` is
    /// returned.
    pub fn encode_char(&self, ch: char) -> (r: Option<u8>)
        ensures
            r == kind_encode_char(self.kind, ch),
    {
        let ov = match self.kind {
            EncodingKind::WinAnsi => win_char_ov_x(ch),
            EncodingKind::MacRoman => mac_char_ov_a_x(ch),
            EncodingKind::Symbol => sym_char_ov_a_x(ch),
            EncodingKind::ZapfDingbats => zapf_char_ov_a_x(ch),
        };
        match ov {
            Some(b) => Some(b),
            None => {
                let limit: u32 = if self.kind == (EncodingKind::WinAnsi) {
                    255
                } else {
                    254
                };
                let cu = ch as u32;
                if 1 <= cu && cu <= limit {
                    Some(cu as u8)
                } else {
                    None
                }
            },
        }
    }

    /// Convert a rust string to a vector of bytes in the encoding.
    /// Every character is mapped through the table; an unmappable
    /// character degrades to a question mark, and the bytes `\`, `(`
    /// and `)` are backslash-escaped.
    pub fn encode_string(&self, text: &str) -> (r: Vec<u8>)
        ensures
            r@ == enc_string_bytes(self.kind, text@),
    {
        let n = text.unicode_len();
        let mut result: Vec<u8> = Vec::new();
        let mut i: usize = 0;
        while i < n
            invariant
                i <= n,
                n == text@.len(),
                result@ == enc_string_bytes(self.kind, text@.subrange(0, i as int)),
            decreases n - i,
        {
            let c = text.get_char(i);
            match self.encode_char(c) {
                Some(b) => {
                    if b == 92 || b == 40 || b == 41 {
                        result.push(92);
                    }
                    result.push(b);
                },
                None => {
                    result.push(63);
                },
            }
            proof {
                let pre = text@.subrange(0, i as int);
                let cur = text@.subrange(0, i + 1int);
                assert(cur.drop_last() =~= pre);
                assert(cur.last() == text@[i as int]);
                assert(result@ =~= enc_string_bytes(self.kind, pre) + enc_char_bytes(self.kind, text@[i as int]));
            }
            i = i + 1;
        }
        proof {
            assert(text@.subrange(0, n as int) =~= text@);
        }
        result
    }
}

/// The library's default base encoding.
///
/// Rather than sniffing the host platform for WinAnsi or MacRoman,
/// the default is a single explicit value; an embedding application
/// that wants another base passes it when it builds a
/// [`FontEncoding`].
pub fn get_base_enc() -> (r: BaseEncoding)
    ensures
        r == BaseEncoding::WinAnsiEncoding,
{
    BaseEncoding::WinAnsiEncoding
}

/// The base encodings a font dictionary may name.
#[derive(Debug, PartialEq, Eq, Structural, Hash, Copy, Clone)]
pub enum BaseEncoding {
    /// The Windows Latin-1 base encoding.
    WinAnsiEncoding,
    /// The Macintosh Roman base encoding.
    MacRomanEncoding,
}

/// The name a base encoding carries in a font dictionary.
pub open spec fn base_name_of(b: BaseEncoding) -> Seq<char> {
    match b {
        BaseEncoding::WinAnsiEncoding => "WinAnsiEncoding"@,
        BaseEncoding::MacRomanEncoding => "MacRomanEncoding"@,
    }
}

impl BaseEncoding {
    /// The character table this base encoding stands for.
    pub fn to_encoding(self) -> (r: Encoding)
        ensures
            self == BaseEncoding::WinAnsiEncoding ==> r.kind == EncodingKind::WinAnsi,
            self == BaseEncoding::MacRomanEncoding ==> r.kind == EncodingKind::MacRoman,
    {
        match self {
            BaseEncoding::WinAnsiEncoding => Encoding { kind: EncodingKind::WinAnsi },
            BaseEncoding::MacRomanEncoding => Encoding { kind: EncodingKind::MacRoman },
        }
    }

    /// The name of the base encoding.
    pub fn name(self) -> (r: String)
        ensures
            r@ == base_name_of(self),
    {
        match self {
            BaseEncoding::WinAnsiEncoding => "WinAnsiEncoding".to_owned(),
            BaseEncoding::MacRomanEncoding => "MacRomanEncoding".to_owned(),
        }
    }
}

/// A FontEncoding holds the base and the actual font encoding needed
/// to represent a font properly in a PDF. The base encoding is the
/// document-wide default; the encoding is specified by the font.
#[derive(Debug, PartialEq, Eq, Structural, Hash, Copy, Clone)]
pub struct FontEncoding {
    /// The document's base encoding, named in the font dictionary.
    pub base: BaseEncoding,
    /// The font's own character table.
    pub encoding: Encoding,
}

impl FontEncoding {
    /// Creates a new FontEncoding with the library's default base
    /// encoding as both base and table.
    pub fn new() -> (r: Self)
        ensures
            r.base == BaseEncoding::WinAnsiEncoding,
            r.encoding.kind == EncodingKind::WinAnsi,
    {
        let enc = get_base_enc();
        FontEncoding { base: enc, encoding: enc.to_encoding() }
    }

    /// Creates a new FontEncoding with the font's encoding.
    pub fn with_encoding(encoding: Encoding) -> (r: Self)
        ensures
            r.base == BaseEncoding::WinAnsiEncoding,
            r.encoding == encoding,
    {
        FontEncoding { base: get_base_enc(), encoding }
    }

    /// Returns the encoding of each character for a font.
    pub fn encoding(&self) -> (r: Encoding)
        ensures
            r == self.encoding,
    {
        self.encoding
    }

    /// Returns the name of the encoding.
    pub fn name(&self) -> (r: String)
        ensures
            r@ == kind_name(self.encoding.kind),
    {
        self.encoding.name()
    }

    /// Returns the base encoding, not to be confused with the
    /// encoding. The values are WinAnsiEncoding and MacRomanEncoding.
    pub fn base_name(&self) -> (r: String)
        ensures
            r@ == base_name_of(self.base),
    {
        self.base.name()
    }

    /// Convert a string to a vector of bytes in the encoding.
    pub fn encode_string(&self, text: &str) -> (r: Vec<u8>)
        ensures
            r@ == enc_string_bytes(self.encoding.kind, text@),
    {
        self.encoding.encode_string(text)
    }
}

/// WinAnsi: characters mapped outside the byte-identity range.
pub open spec fn win_char_ov(c: char) -> Option<u8> {
    match c {
        '\u{20ac}' => Some(128u8),
        '\u{201a}' => Some(130u8),
        '\u{192}' => Some(131u8),
        '\u{201e}' => Some(132u8),
        '\u{2026}' => Some(133u8),
        '\u{2020}' => Some(134u8),
        '\u{2021}' => Some(135u8),
        '\u{2c6}' => Some(136u8),
        '\u{2030}' => Some(137u8),
        '\u{160}' => Some(138u8),
        '\u{2039}' => Some(139u8),
        '\u{152}' => Some(140u8),
        '\u{17d}' => Some(142u8),
        '\u{2018}' => Some(145u8),
        '\u{2019}' => Some(146u8),
        '\u{201c}' => Some(147u8),
        '\u{201d}' => Some(148u8),
        '\u{2022}' => Some(149u8),
        '\u{2013}' => Some(150u8),
        '\u{2014}' => Some(151u8),
        '\u{2dc}' => Some(152u8),
        '\u{2122}' => Some(153u8),
        '\u{161}' => Some(154u8),
        '\u{203a}' => Some(155u8),
        '\u{17e}' => Some(158u8),
        '\u{178}' => Some(159u8),
        _ => None,
    }
}

fn win_char_ov_x(c: char) -> (r: Option<u8>)
    ensures
        r == win_char_ov(c),
{
    match c {
        '\u{20ac}' => Some(128u8),
        '\u{201a}' => Some(130u8),
        '\u{192}' => Some(131u8),
        '\u{201e}' => Some(132u8),
        '\u{2026}' => Some(133u8),
        '\u{2020}' => Some(134u8),
        '\u{2021}' => Some(135u8),
        '\u{2c6}' => Some(136u8),
        '\u{2030}' => Some(137u8),
        '\u{160}' => Some(138u8),
        '\u{2039}' => Some(139u8),
        '\u{152}' => Some(140u8),
        '\u{17d}' => Some(142u8),
        '\u{2018}' => Some(145u8),
        '\u{2019}' => Some(146u8),
        '\u{201c}' => Some(147u8),
        '\u{201d}' => Some(148u8),
        '\u{2022}' => Some(149u8),
        '\u{2013}' => Some(150u8),
        '\u{2014}' => Some(151u8),
        '\u{2dc}' => Some(152u8),
        '\u{2122}' => Some(153u8),
        '\u{161}' => Some(154u8),
        '\u{203a}' => Some(155u8),
        '\u{17e}' => Some(158u8),
        '\u{178}' => Some(159u8),
        _ => None,
    }
}

/// MacRoman: named characters, overriding the byte-identity range.
pub open spec fn mac_char_ov_a(c: char) -> Option<u8> {
    match c {
        '\u{c6}' => Some(174u8),
        '\u{c1}' => Some(231u8),
        '\u{c2}' => Some(229u8),
        '\u{c4}' => Some(128u8),
        '\u{c0}' => Some(203u8),
        '\u{c5}' => Some(129u8),
        '\u{c3}' => Some(204u8),
        '\u{c7}' => Some(130u8),
        '\u{c9}' => Some(131u8),
        '\u{ca}' => Some(230u8),
        '\u{cb}' => Some(232u8),
        '\u{c8}' => Some(233u8),
        '\u{20ac}' => Some(219u8),
        '\u{cd}' => Some(234u8),
        '\u{ce}' => Some(235u8),
        '\u{cf}' => Some(236u8),
        '\u{cc}' => Some(237u8),
        '\u{d1}' => Some(132u8),
        '\u{152}' => Some(206u8),
        '\u{d3}' => Some(238u8),
        '\u{d4}' => Some(239u8),
        '\u{d6}' => Some(133u8),
        '\u{d2}' => Some(241u8),
        '\u{d8}' => Some(175u8),
        '\u{d5}' => Some(205u8),
        '\u{da}' => Some(242u8),
        '\u{db}' => Some(243u8),
        '\u{dc}' => Some(134u8),
        '\u{d9}' => Some(244u8),
        '\u{178}' => Some(217u8),
        '\u{e1}' => Some(135u8),
        '\u{e2}' => Some(137u8),
        '\u{b4}' => Some(171u8),
        '\u{e4}' => Some(138u8),
        '\u{e6}' => Some(190u8),
        '\u{e0}' => Some(136u8),
        '\u{e5}' => Some(140u8),
        '\u{e3}' => Some(139u8),
        '\u{2d8}' => Some(249u8),
        '\u{2022}' => Some(165u8),
        '\u{2c7}' => Some(255u8),
        '\u{e7}' => Some(141u8),
        '\u{b8}' => Some(252u8),
        '\u{2c6}' => Some(246u8),
        '\u{a9}' => Some(169u8),
        '\u{2020}' => Some(160u8),
        '\u{2021}' => Some(224u8),
        '\u{b0}' => Some(161u8),
        '\u{a8}' => Some(172u8),
        '\u{f7}' => Some(214u8),
        '\u{2d9}' => Some(199u8),
        '\u{e9}' => Some(142u8),
        '\u{ea}' => Some(144u8),
        '\u{eb}' => Some(145u8),
        '\u{e8}' => Some(143u8),
        '\u{2026}' => Some(201u8),
        '\u{2014}' => Some(209u8),
        '\u{2013}' => Some(208u8),
        '\u{a1}' => Some(193u8),
        '\u{fb01}' => Some(222u8),
        '\u{fb02}' => Some(223u8),
        '\u{192}' => Some(196u8),
        '\u{2044}' => Some(218u8),
        '\u{2215}' => Some(218u8),
        '\u{df}' => Some(167u8),
        '`' => Some(96u8),
        '\u{ab}' => Some(199u8),
        '\u{bb}' => Some(200u8),
        '\u{2039}' => Some(220u8),
        '\u{203a}' => Some(221u8),
        '\u{2dd}' => Some(253u8),
        '\u{ed}' => Some(146u8),
        '\u{ee}' => Some(148u8),
        '\u{ef}' => Some(149u8),
        '\u{ec}' => Some(147u8),
        '\u{ac}' => Some(194u8),
        '\u{af}' => Some(248u8),
        '\u{2c9}' => Some(248u8),
        '\u{b5}' => Some(181u8),
        '\u{f1}' => Some(150u8),
        '\u{f3}' => Some(151u8),
        '\u{f4}' => Some(153u8),
        '\u{f6}' => Some(154u8),
        '\u{153}' => Some(207u8),
        '\u{2db}' => Some(254u8),
        '\u{f2}' => Some(152u8),
        '\u{aa}' => Some(187u8),
        '\u{ba}' => Some(188u8),
        '\u{f8}' => Some(191u8),
        '\u{f5}' => Some(155u8),
        '\u{b7}' => Some(225u8),
        '\u{2219}' => Some(225u8),
        '\u{2030}' => Some(228u8),
        '\u{b1}' => Some(177u8),
        '\u{bf}' => Some(192u8),
        '\u{201e}' => Some(227u8),
        '\u{201c}' => Some(210u8),
        '\u{201d}' => Some(211u8),
        '\u{2018}' => Some(212u8),
        '\u{2019}' => Some(213u8),
        _ => mac_char_ov_b(c),
    }
}

fn mac_char_ov_a_x(c: char) -> (r: Option<u8>)
    ensures
        r == mac_char_ov_a(c),
{
    match c {
        '\u{c6}' => Some(174u8),
        '\u{c1}' => Some(231u8),
        '\u{c2}' => Some(229u8),
        '\u{c4}' => Some(128u8),
        '\u{c0}' => Some(203u8),
        '\u{c5}' => Some(129u8),
        '\u{c3}' => Some(204u8),
        '\u{c7}' => Some(130u8),
        '\u{c9}' => Some(131u8),
        '\u{ca}' => Some(230u8),
        '\u{cb}' => Some(232u8),
        '\u{c8}' => Some(233u8),
        '\u{20ac}' => Some(219u8),
        '\u{cd}' => Some(234u8),
        '\u{ce}' => Some(235u8),
        '\u{cf}' => Some(236u8),
        '\u{cc}' => Some(237u8),
        '\u{d1}' => Some(132u8),
        '\u{152}' => Some(206u8),
        '\u{d3}' => Some(238u8),
        '\u{d4}' => Some(239u8),
        '\u{d6}' => Some(133u8),
        '\u{d2}' => Some(241u8),
        '\u{d8}' => Some(175u8),
        '\u{d5}' => Some(205u8),
        '\u{da}' => Some(242u8),
        '\u{db}' => Some(243u8),
        '\u{dc}' => Some(134u8),
        '\u{d9}' => Some(244u8),
        '\u{178}' => Some(217u8),
        '\u{e1}' => Some(135u8),
        '\u{e2}' => Some(137u8),
        '\u{b4}' => Some(171u8),
        '\u{e4}' => Some(138u8),
        '\u{e6}' => Some(190u8),
        '\u{e0}' => Some(136u8),
        '\u{e5}' => Some(140u8),
        '\u{e3}' => Some(139u8),
        '\u{2d8}' => Some(249u8),
        '\u{2022}' => Some(165u8),
        '\u{2c7}' => Some(255u8),
        '\u{e7}' => Some(141u8),
        '\u{b8}' => Some(252u8),
        '\u{2c6}' => Some(246u8),
        '\u{a9}' => Some(169u8),
        '\u{2020}' => Some(160u8),
        '\u{2021}' => Some(224u8),
        '\u{b0}' => Some(161u8),
        '\u{a8}' => Some(172u8),
        '\u{f7}' => Some(214u8),
        '\u{2d9}' => Some(199u8),
        '\u{e9}' => Some(142u8),
        '\u{ea}' => Some(144u8),
        '\u{eb}' => Some(145u8),
        '\u{e8}' => Some(143u8),
        '\u{2026}' => Some(201u8),
        '\u{2014}' => Some(209u8),
        '\u{2013}' => Some(208u8),
        '\u{a1}' => Some(193u8),
        '\u{fb01}' => Some(222u8),
        '\u{fb02}' => Some(223u8),
        '\u{192}' => Some(196u8),
        '\u{2044}' => Some(218u8),
        '\u{2215}' => Some(218u8),
        '\u{df}' => Some(167u8),
        '`' => Some(96u8),
        '\u{ab}' => Some(199u8),
        '\u{bb}' => Some(200u8),
        '\u{2039}' => Some(220u8),
        '\u{203a}' => Some(221u8),
        '\u{2dd}' => Some(253u8),
        '\u{ed}' => Some(146u8),
        '\u{ee}' => Some(148u8),
        '\u{ef}' => Some(149u8),
        '\u{ec}' => Some(147u8),
        '\u{ac}' => Some(194u8),
        '\u{af}' => Some(248u8),
        '\u{2c9}' => Some(248u8),
        '\u{b5}' => Some(181u8),
        '\u{f1}' => Some(150u8),
        '\u{f3}' => Some(151u8),
        '\u{f4}' => Some(153u8),
        '\u{f6}' => Some(154u8),
        '\u{153}' => Some(207u8),
        '\u{2db}' => Some(254u8),
        '\u{f2}' => Some(152u8),
        '\u{aa}' => Some(187u8),
        '\u{ba}' => Some(188u8),
        '\u{f8}' => Some(191u8),
        '\u{f5}' => Some(155u8),
        '\u{b7}' => Some(225u8),
        '\u{2219}' => Some(225u8),
        '\u{2030}' => Some(228u8),
        '\u{b1}' => Some(177u8),
        '\u{bf}' => Some(192u8),
        '\u{201e}' => Some(227u8),
        '\u{201c}' => Some(210u8),
        '\u{201d}' => Some(211u8),
        '\u{2018}' => Some(212u8),
        '\u{2019}' => Some(213u8),
        _ => mac_char_ov_b_x(c),
    }
}

/// MacRoman: named characters, overriding the byte-identity range. (continued)
pub open spec fn mac_char_ov_b(c: char) -> Option<u8> {
    match c {
        '\u{201a}' => Some(226u8),
        '\'' => Some(39u8),
        '\u{ae}' => Some(168u8),
        '\u{2da}' => Some(251u8),
        '\u{a7}' => Some(164u8),
        '\u{2dc}' => Some(247u8),
        '\u{2122}' => Some(170u8),
        '\u{fa}' => Some(156u8),
        '\u{fb}' => Some(158u8),
        '\u{fc}' => Some(159u8),
        '\u{f9}' => Some(157u8),
        '\u{ff}' => Some(216u8),
        '\u{a5}' => Some(180u8),
        _ => None,
    }
}

fn mac_char_ov_b_x(c: char) -> (r: Option<u8>)
    ensures
        r == mac_char_ov_b(c),
{
    match c {
        '\u{201a}' => Some(226u8),
        '\'' => Some(39u8),
        '\u{ae}' => Some(168u8),
        '\u{2da}' => Some(251u8),
        '\u{a7}' => Some(164u8),
        '\u{2dc}' => Some(247u8),
        '\u{2122}' => Some(170u8),
        '\u{fa}' => Some(156u8),
        '\u{fb}' => Some(158u8),
        '\u{fc}' => Some(159u8),
        '\u{f9}' => Some(157u8),
        '\u{ff}' => Some(216u8),
        '\u{a5}' => Some(180u8),
        _ => None,
    }
}

/// Symbol: named characters, overriding the byte-identity range.
pub open spec fn sym_char_ov_a(c: char) -> Option<u8> {
    match c {
        ' ' => Some(32u8),
        '\u{a0}' => Some(32u8),
        '!' => Some(33u8),
        '\u{2200}' => Some(34u8),
        '#' => Some(35u8),
        '\u{2203}' => Some(36u8),
        '%' => Some(37u8),
        '&' => Some(38u8),
        '\u{220b}' => Some(39u8),
        '(' => Some(40u8),
        ')' => Some(41u8),
        '\u{2217}' => Some(42u8),
        '+' => Some(43u8),
        ',' => Some(44u8),
        '\u{2212}' => Some(45u8),
        '.' => Some(46u8),
        '/' => Some(47u8),
        '0' => Some(48u8),
        '1' => Some(49u8),
        '2' => Some(50u8),
        '3' => Some(51u8),
        '4' => Some(52u8),
        '5' => Some(53u8),
        '6' => Some(54u8),
        '7' => Some(55u8),
        '8' => Some(56u8),
        '9' => Some(57u8),
        ':' => Some(58u8),
        ';' => Some(59u8),
        '<' => Some(60u8),
        '=' => Some(61u8),
        '>' => Some(62u8),
        '?' => Some(63u8),
        '\u{2245}' => Some(64u8),
        '\u{391}' => Some(65u8),
        '\u{392}' => Some(66u8),
        '\u{3a7}' => Some(67u8),
        '\u{394}' => Some(68u8),
        '\u{2206}' => Some(68u8),
        '\u{395}' => Some(69u8),
        '\u{3a6}' => Some(70u8),
        '\u{393}' => Some(71u8),
        '\u{397}' => Some(72u8),
        '\u{399}' => Some(73u8),
        '\u{3d1}' => Some(74u8),
        '\u{39a}' => Some(75u8),
        '\u{39b}' => Some(76u8),
        '\u{39c}' => Some(77u8),
        '\u{39d}' => Some(78u8),
        '\u{39f}' => Some(79u8),
        '\u{3a0}' => Some(80u8),
        '\u{398}' => Some(81u8),
        '\u{3a1}' => Some(82u8),
        '\u{3a3}' => Some(83u8),
        '\u{3a4}' => Some(84u8),
        '\u{3a5}' => Some(85u8),
        '\u{3c2}' => Some(86u8),
        '\u{3a9}' => Some(87u8),
        '\u{2126}' => Some(87u8),
        '\u{39e}' => Some(88u8),
        '\u{3a8}' => Some(89u8),
        '\u{396}' => Some(90u8),
        '[' => Some(91u8),
        '\u{2234}' => Some(92u8),
        ']' => Some(93u8),
        '\u{22a5}' => Some(94u8),
        '_' => Some(95u8),
        '\u{305}' => Some(96u8),
        '\u{3b1}' => Some(97u8),
        '\u{3b2}' => Some(98u8),
        '\u{3c7}' => Some(99u8),
        '\u{3b4}' => Some(100u8),
        '\u{3b5}' => Some(101u8),
        '\u{3c6}' => Some(102u8),
        '\u{3b3}' => Some(103u8),
        '\u{3b7}' => Some(104u8),
        '\u{3b9}' => Some(105u8),
        '\u{3d5}' => Some(106u8),
        '\u{3ba}' => Some(107u8),
        '\u{3bb}' => Some(108u8),
        '\u{b5}' => Some(109u8),
        '\u{3bc}' => Some(109u8),
        '\u{3bd}' => Some(110u8),
        '\u{3bf}' => Some(111u8),
        '\u{3c0}' => Some(112u8),
        '\u{3b8}' => Some(113u8),
        '\u{3c1}' => Some(114u8),
        '\u{3c3}' => Some(115u8),
        '\u{3c4}' => Some(116u8),
        '\u{3c5}' => Some(117u8),
        '\u{3d6}' => Some(118u8),
        '\u{3c9}' => Some(119u8),
        '\u{3be}' => Some(120u8),
        '\u{3c8}' => Some(121u8),
        '\u{3b6}' => Some(122u8),
        '{' => Some(123u8),
        '|' => Some(124u8),
        '}' => Some(125u8),
        '\u{223c}' => Some(126u8),
        '\u{20ac}' => Some(160u8),
        _ => sym_char_ov_b(c),
    }
}

fn sym_char_ov_a_x(c: char) -> (r: Option<u8>)
    ensures
        r == sym_char_ov_a(c),
{
    match c {
        ' ' => Some(32u8),
        '\u{a0}' => Some(32u8),
        '!' => Some(33u8),
        '\u{2200}' => Some(34u8),
        '#' => Some(35u8),
        '\u{2203}' => Some(36u8),
        '%' => Some(37u8),
        '&' => Some(38u8),
        '\u{220b}' => Some(39u8),
        '(' => Some(40u8),
        ')' => Some(41u8),
        '\u{2217}' => Some(42u8),
        '+' => Some(43u8),
        ',' => Some(44u8),
        '\u{2212}' => Some(45u8),
        '.' => Some(46u8),
        '/' => Some(47u8),
        '0' => Some(48u8),
        '1' => Some(49u8),
        '2' => Some(50u8),
        '3' => Some(51u8),
        '4' => Some(52u8),
        '5' => Some(53u8),
        '6' => Some(54u8),
        '7' => Some(55u8),
        '8' => Some(56u8),
        '9' => Some(57u8),
        ':' => Some(58u8),
        ';' => Some(59u8),
        '<' => Some(60u8),
        '=' => Some(61u8),
        '>' => Some(62u8),
        '?' => Some(63u8),
        '\u{2245}' => Some(64u8),
        '\u{391}' => Some(65u8),
        '\u{392}' => Some(66u8),
        '\u{3a7}' => Some(67u8),
        '\u{394}' => Some(68u8),
        '\u{2206}' => Some(68u8),
        '\u{395}' => Some(69u8),
        '\u{3a6}' => Some(70u8),
        '\u{393}' => Some(71u8),
        '\u{397}' => Some(72u8),
        '\u{399}' => Some(73u8),
        '\u{3d1}' => Some(74u8),
        '\u{39a}' => Some(75u8),
        '\u{39b}' => Some(76u8),
        '\u{39c}' => Some(77u8),
        '\u{39d}' => Some(78u8),
        '\u{39f}' => Some(79u8),
        '\u{3a0}' => Some(80u8),
        '\u{398}' => Some(81u8),
        '\u{3a1}' => Some(82u8),
        '\u{3a3}' => Some(83u8),
        '\u{3a4}' => Some(84u8),
        '\u{3a5}' => Some(85u8),
        '\u{3c2}' => Some(86u8),
        '\u{3a9}' => Some(87u8),
        '\u{2126}' => Some(87u8),
        '\u{39e}' => Some(88u8),
        '\u{3a8}' => Some(89u8),
        '\u{396}' => Some(90u8),
        '[' => Some(91u8),
        '\u{2234}' => Some(92u8),
        ']' => Some(93u8),
        '\u{22a5}' => Some(94u8),
        '_' => Some(95u8),
        '\u{305}' => Some(96u8),
        '\u{3b1}' => Some(97u8),
        '\u{3b2}' => Some(98u8),
        '\u{3c7}' => Some(99u8),
        '\u{3b4}' => Some(100u8),
        '\u{3b5}' => Some(101u8),
        '\u{3c6}' => Some(102u8),
        '\u{3b3}' => Some(103u8),
        '\u{3b7}' => Some(104u8),
        '\u{3b9}' => Some(105u8),
        '\u{3d5}' => Some(106u8),
        '\u{3ba}' => Some(107u8),
        '\u{3bb}' => Some(108u8),
        '\u{b5}' => Some(109u8),
        '\u{3bc}' => Some(109u8),
        '\u{3bd}' => Some(110u8),
        '\u{3bf}' => Some(111u8),
        '\u{3c0}' => Some(112u8),
        '\u{3b8}' => Some(113u8),
        '\u{3c1}' => Some(114u8),
        '\u{3c3}' => Some(115u8),
        '\u{3c4}' => Some(116u8),
        '\u{3c5}' => Some(117u8),
        '\u{3d6}' => Some(118u8),
        '\u{3c9}' => Some(119u8),
        '\u{3be}' => Some(120u8),
        '\u{3c8}' => Some(121u8),
        '\u{3b6}' => Some(122u8),
        '{' => Some(123u8),
        '|' => Some(124u8),
        '}' => Some(125u8),
        '\u{223c}' => Some(126u8),
        '\u{20ac}' => Some(160u8),
        _ => sym_char_ov_b_x(c),
    }
}

/// Symbol: named characters, overriding the byte-identity range. (continued)
pub open spec fn sym_char_ov_b(c: char) -> Option<u8> {
    match c {
        '\u{3d2}' => Some(161u8),
        '\u{2032}' => Some(162u8),
        '\u{2264}' => Some(163u8),
        '\u{2044}' => Some(164u8),
        '\u{2215}' => Some(164u8),
        '\u{221e}' => Some(165u8),
        '\u{192}' => Some(166u8),
        '\u{2663}' => Some(167u8),
        '\u{2666}' => Some(168u8),
        '\u{2665}' => Some(169u8),
        '\u{2660}' => Some(170u8),
        '\u{2194}' => Some(171u8),
        '\u{2190}' => Some(172u8),
        '\u{2191}' => Some(173u8),
        '\u{2192}' => Some(174u8),
        '\u{2193}' => Some(175u8),
        '\u{b0}' => Some(176u8),
        '\u{b1}' => Some(177u8),
        '\u{2033}' => Some(178u8),
        '\u{2265}' => Some(179u8),
        '\u{d7}' => Some(180u8),
        '\u{221d}' => Some(181u8),
        '\u{2202}' => Some(182u8),
        '\u{2022}' => Some(183u8),
        '\u{f7}' => Some(184u8),
        '\u{2260}' => Some(185u8),
        '\u{2261}' => Some(186u8),
        '\u{2248}' => Some(187u8),
        '\u{2026}' => Some(188u8),
        '\u{23d0}' => Some(189u8),
        '\u{23af}' => Some(190u8),
        '\u{21b5}' => Some(191u8),
        '\u{2135}' => Some(192u8),
        '\u{2111}' => Some(193u8),
        '\u{211c}' => Some(194u8),
        '\u{2118}' => Some(195u8),
        '\u{2297}' => Some(196u8),
        '\u{2295}' => Some(197u8),
        '\u{2205}' => Some(198u8),
        '\u{2229}' => Some(199u8),
        '\u{222a}' => Some(200u8),
        '\u{2283}' => Some(201u8),
        '\u{2287}' => Some(202u8),
        '\u{2284}' => Some(203u8),
        '\u{2282}' => Some(204u8),
        '\u{2286}' => Some(205u8),
        '\u{2208}' => Some(206u8),
        '\u{2209}' => Some(207u8),
        '\u{2220}' => Some(208u8),
        '\u{2207}' => Some(209u8),
        '\u{ae}' => Some(226u8),
        '\u{a9}' => Some(227u8),
        '\u{2122}' => Some(228u8),
        '\u{220f}' => Some(213u8),
        '\u{221a}' => Some(214u8),
        '\u{22c5}' => Some(215u8),
        '\u{ac}' => Some(216u8),
        '\u{2227}' => Some(217u8),
        '\u{2228}' => Some(218u8),
        '\u{21d4}' => Some(219u8),
        '\u{21d0}' => Some(220u8),
        '\u{21d1}' => Some(221u8),
        '\u{21d2}' => Some(222u8),
        '\u{21d3}' => Some(223u8),
        '\u{25ca}' => Some(224u8),
        '\u{2329}' => Some(225u8),
        '\u{2211}' => Some(229u8),
        '\u{239b}' => Some(230u8),
        '\u{239c}' => Some(231u8),
        '\u{239d}' => Some(232u8),
        '\u{23a1}' => Some(233u8),
        '\u{23a2}' => Some(234u8),
        '\u{23a3}' => Some(235u8),
        '\u{23a7}' => Some(236u8),
        '\u{23a8}' => Some(237u8),
        '\u{23a9}' => Some(238u8),
        '\u{23aa}' => Some(239u8),
        '\u{232a}' => Some(241u8),
        '\u{222b}' => Some(242u8),
        '\u{2320}' => Some(243u8),
        '\u{23ae}' => Some(244u8),
        '\u{2321}' => Some(245u8),
        '\u{239e}' => Some(246u8),
        '\u{239f}' => Some(247u8),
        '\u{23a0}' => Some(248u8),
        '\u{23a4}' => Some(249u8),
        '\u{23a5}' => Some(250u8),
        '\u{23a6}' => Some(251u8),
        '\u{23ab}' => Some(252u8),
        '\u{23ac}' => Some(253u8),
        '\u{23ad}' => Some(254u8),
        _ => None,
    }
}

fn sym_char_ov_b_x(c: char) -> (r: Option<u8>)
    ensures
        r == sym_char_ov_b(c),
{
    match c {
        '\u{3d2}' => Some(161u8),
        '\u{2032}' => Some(162u8),
        '\u{2264}' => Some(163u8),
        '\u{2044}' => Some(164u8),
        '\u{2215}' => Some(164u8),
        '\u{221e}' => Some(165u8),
        '\u{192}' => Some(166u8),
        '\u{2663}' => Some(167u8),
        '\u{2666}' => Some(168u8),
        '\u{2665}' => Some(169u8),
        '\u{2660}' => Some(170u8),
        '\u{2194}' => Some(171u8),
        '\u{2190}' => Some(172u8),
        '\u{2191}' => Some(173u8),
        '\u{2192}' => Some(174u8),
        '\u{2193}' => Some(175u8),
        '\u{b0}' => Some(176u8),
        '\u{b1}' => Some(177u8),
        '\u{2033}' => Some(178u8),
        '\u{2265}' => Some(179u8),
        '\u{d7}' => Some(180u8),
        '\u{221d}' => Some(181u8),
        '\u{2202}' => Some(182u8),
        '\u{2022}' => Some(183u8),
        '\u{f7}' => Some(184u8),
        '\u{2260}' => Some(185u8),
        '\u{2261}' => Some(186u8),
        '\u{2248}' => Some(187u8),
        '\u{2026}' => Some(188u8),
        '\u{23d0}' => Some(189u8),
        '\u{23af}' => Some(190u8),
        '\u{21b5}' => Some(191u8),
        '\u{2135}' => Some(192u8),
        '\u{2111}' => Some(193u8),
        '\u{211c}' => Some(194u8),
        '\u{2118}' => Some(195u8),
        '\u{2297}' => Some(196u8),
        '\u{2295}' => Some(197u8),
        '\u{2205}' => Some(198u8),
        '\u{2229}' => Some(199u8),
        '\u{222a}' => Some(200u8),
        '\u{2283}' => Some(201u8),
        '\u{2287}' => Some(202u8),
        '\u{2284}' => Some(203u8),
        '\u{2282}' => Some(204u8),
        '\u{2286}' => Some(205u8),
        '\u{2208}' => Some(206u8),
        '\u{2209}' => Some(207u8),
        '\u{2220}' => Some(208u8),
        '\u{2207}' => Some(209u8),
        '\u{ae}' => Some(226u8),
        '\u{a9}' => Some(227u8),
        '\u{2122}' => Some(228u8),
        '\u{220f}' => Some(213u8),
        '\u{221a}' => Some(214u8),
        '\u{22c5}' => Some(215u8),
        '\u{ac}' => Some(216u8),
        '\u{2227}' => Some(217u8),
        '\u{2228}' => Some(218u8),
        '\u{21d4}' => Some(219u8),
        '\u{21d0}' => Some(220u8),
        '\u{21d1}' => Some(221u8),
        '\u{21d2}' => Some(222u8),
        '\u{21d3}' => Some(223u8),
        '\u{25ca}' => Some(224u8),
        '\u{2329}' => Some(225u8),
        '\u{2211}' => Some(229u8),
        '\u{239b}' => Some(230u8),
        '\u{239c}' => Some(231u8),
        '\u{239d}' => Some(232u8),
        '\u{23a1}' => Some(233u8),
        '\u{23a2}' => Some(234u8),
        '\u{23a3}' => Some(235u8),
        '\u{23a7}' => Some(236u8),
        '\u{23a8}' => Some(237u8),
        '\u{23a9}' => Some(238u8),
        '\u{23aa}' => Some(239u8),
        '\u{232a}' => Some(241u8),
        '\u{222b}' => Some(242u8),
        '\u{2320}' => Some(243u8),
        '\u{23ae}' => Some(244u8),
        '\u{2321}' => Some(245u8),
        '\u{239e}' => Some(246u8),
        '\u{239f}' => Some(247u8),
        '\u{23a0}' => Some(248u8),
        '\u{23a4}' => Some(249u8),
        '\u{23a5}' => Some(250u8),
        '\u{23a6}' => Some(251u8),
        '\u{23ab}' => Some(252u8),
        '\u{23ac}' => Some(253u8),
        '\u{23ad}' => Some(254u8),
        _ => None,
    }
}

/// ZapfDingbats: named characters, overriding the byte-identity range.
pub open spec fn zapf_char_ov_a(c: char) -> Option<u8> {
    match c {
        ' ' => Some(32u8),
        '\u{a0}' => Some(32u8),
        '\u{2701}' => Some(33u8),
        '\u{2702}' => Some(34u8),
        '\u{2703}' => Some(35u8),
        '\u{2704}' => Some(36u8),
        '\u{260e}' => Some(37u8),
        '\u{2706}' => Some(38u8),
        '\u{2707}' => Some(39u8),
        '\u{2708}' => Some(40u8),
        '\u{2709}' => Some(41u8),
        '\u{261b}' => Some(42u8),
        '\u{261e}' => Some(43u8),
        '\u{270c}' => Some(44u8),
        '\u{270d}' => Some(45u8),
        '\u{270e}' => Some(46u8),
        '\u{270f}' => Some(47u8),
        '\u{2710}' => Some(48u8),
        '\u{2711}' => Some(49u8),
        '\u{2712}' => Some(50u8),
        '\u{2713}' => Some(51u8),
        '\u{2714}' => Some(52u8),
        '\u{2715}' => Some(53u8),
        '\u{2716}' => Some(54u8),
        '\u{2717}' => Some(55u8),
        '\u{2718}' => Some(56u8),
        '\u{2719}' => Some(57u8),
        '\u{271a}' => Some(58u8),
        '\u{271b}' => Some(59u8),
        '\u{271c}' => Some(60u8),
        '\u{271d}' => Some(61u8),
        '\u{271e}' => Some(62u8),
        '\u{271f}' => Some(63u8),
        '\u{2720}' => Some(64u8),
        '\u{2721}' => Some(65u8),
        '\u{2722}' => Some(66u8),
        '\u{2723}' => Some(67u8),
        '\u{2724}' => Some(68u8),
        '\u{2725}' => Some(69u8),
        '\u{2726}' => Some(70u8),
        '\u{2727}' => Some(71u8),
        '\u{2605}' => Some(72u8),
        '\u{2729}' => Some(73u8),
        '\u{272a}' => Some(74u8),
        '\u{272b}' => Some(75u8),
        '\u{272c}' => Some(76u8),
        '\u{272d}' => Some(77u8),
        '\u{272e}' => Some(78u8),
        '\u{272f}' => Some(79u8),
        '\u{2730}' => Some(80u8),
        '\u{2731}' => Some(81u8),
        '\u{2732}' => Some(82u8),
        '\u{2733}' => Some(83u8),
        '\u{2734}' => Some(84u8),
        '\u{2735}' => Some(85u8),
        '\u{2736}' => Some(86u8),
        '\u{2737}' => Some(87u8),
        '\u{2738}' => Some(88u8),
        '\u{2739}' => Some(89u8),
        '\u{273a}' => Some(90u8),
        '\u{273b}' => Some(91u8),
        '\u{273c}' => Some(92u8),
        '\u{273d}' => Some(93u8),
        '\u{273e}' => Some(94u8),
        '\u{273f}' => Some(95u8),
        '\u{2740}' => Some(96u8),
        '\u{2741}' => Some(97u8),
        '\u{2742}' => Some(98u8),
        '\u{2743}' => Some(99u8),
        '\u{2744}' => Some(100u8),
        '\u{2745}' => Some(101u8),
        '\u{2746}' => Some(102u8),
        '\u{2747}' => Some(103u8),
        '\u{2748}' => Some(104u8),
        '\u{2749}' => Some(105u8),
        '\u{274a}' => Some(106u8),
        '\u{274b}' => Some(107u8),
        '\u{25cf}' => Some(108u8),
        '\u{274d}' => Some(109u8),
        '\u{25a0}' => Some(110u8),
        '\u{274f}' => Some(111u8),
        '\u{2750}' => Some(112u8),
        '\u{2751}' => Some(113u8),
        '\u{2752}' => Some(114u8),
        '\u{25b2}' => Some(115u8),
        '\u{25bc}' => Some(116u8),
        '\u{25c6}' => Some(117u8),
        '\u{2756}' => Some(118u8),
        '\u{25d7}' => Some(119u8),
        '\u{2758}' => Some(120u8),
        '\u{2759}' => Some(121u8),
        '\u{275a}' => Some(122u8),
        '\u{275b}' => Some(123u8),
        '\u{275c}' => Some(124u8),
        '\u{275d}' => Some(125u8),
        '\u{275e}' => Some(126u8),
        '\u{2768}' => Some(128u8),
        '\u{2769}' => Some(129u8),
        '\u{276a}' => Some(130u8),
        '\u{276b}' => Some(131u8),
        _ => zapf_char_ov_b(c),
    }
}

fn zapf_char_ov_a_x(c: char) -> (r: Option<u8>)
    ensures
        r == zapf_char_ov_a(c),
{
    match c {
        ' ' => Some(32u8),
        '\u{a0}' => Some(32u8),
        '\u{2701}' => Some(33u8),
        '\u{2702}' => Some(34u8),
        '\u{2703}' => Some(35u8),
        '\u{2704}' => Some(36u8),
        '\u{260e}' => Some(37u8),
        '\u{2706}' => Some(38u8),
        '\u{2707}' => Some(39u8),
        '\u{2708}' => Some(40u8),
        '\u{2709}' => Some(41u8),
        '\u{261b}' => Some(42u8),
        '\u{261e}' => Some(43u8),
        '\u{270c}' => Some(44u8),
        '\u{270d}' => Some(45u8),
        '\u{270e}' => Some(46u8),
        '\u{270f}' => Some(47u8),
        '\u{2710}' => Some(48u8),
        '\u{2711}' => Some(49u8),
        '\u{2712}' => Some(50u8),
        '\u{2713}' => Some(51u8),
        '\u{2714}' => Some(52u8),
        '\u{2715}' => Some(53u8),
        '\u{2716}' => Some(54u8),
        '\u{2717}' => Some(55u8),
        '\u{2718}' => Some(56u8),
        '\u{2719}' => Some(57u8),
        '\u{271a}' => Some(58u8),
        '\u{271b}' => Some(59u8),
        '\u{271c}' => Some(60u8),
        '\u{271d}' => Some(61u8),
        '\u{271e}' => Some(62u8),
        '\u{271f}' => Some(63u8),
        '\u{2720}' => Some(64u8),
        '\u{2721}' => Some(65u8),
        '\u{2722}' => Some(66u8),
        '\u{2723}' => Some(67u8),
        '\u{2724}' => Some(68u8),
        '\u{2725}' => Some(69u8),
        '\u{2726}' => Some(70u8),
        '\u{2727}' => Some(71u8),
        '\u{2605}' => Some(72u8),
        '\u{2729}' => Some(73u8),
        '\u{272a}' => Some(74u8),
        '\u{272b}' => Some(75u8),
        '\u{272c}' => Some(76u8),
        '\u{272d}' => Some(77u8),
        '\u{272e}' => Some(78u8),
        '\u{272f}' => Some(79u8),
        '\u{2730}' => Some(80u8),
        '\u{2731}' => Some(81u8),
        '\u{2732}' => Some(82u8),
        '\u{2733}' => Some(83u8),
        '\u{2734}' => Some(84u8),
        '\u{2735}' => Some(85u8),
        '\u{2736}' => Some(86u8),
        '\u{2737}' => Some(87u8),
        '\u{2738}' => Some(88u8),
        '\u{2739}' => Some(89u8),
        '\u{273a}' => Some(90u8),
        '\u{273b}' => Some(91u8),
        '\u{273c}' => Some(92u8),
        '\u{273d}' => Some(93u8),
        '\u{273e}' => Some(94u8),
        '\u{273f}' => Some(95u8),
        '\u{2740}' => Some(96u8),
        '\u{2741}' => Some(97u8),
        '\u{2742}' => Some(98u8),
        '\u{2743}' => Some(99u8),
        '\u{2744}' => Some(100u8),
        '\u{2745}' => Some(101u8),
        '\u{2746}' => Some(102u8),
        '\u{2747}' => Some(103u8),
        '\u{2748}' => Some(104u8),
        '\u{2749}' => Some(105u8),
        '\u{274a}' => Some(106u8),
        '\u{274b}' => Some(107u8),
        '\u{25cf}' => Some(108u8),
        '\u{274d}' => Some(109u8),
        '\u{25a0}' => Some(110u8),
        '\u{274f}' => Some(111u8),
        '\u{2750}' => Some(112u8),
        '\u{2751}' => Some(113u8),
        '\u{2752}' => Some(114u8),
        '\u{25b2}' => Some(115u8),
        '\u{25bc}' => Some(116u8),
        '\u{25c6}' => Some(117u8),
        '\u{2756}' => Some(118u8),
        '\u{25d7}' => Some(119u8),
        '\u{2758}' => Some(120u8),
        '\u{2759}' => Some(121u8),
        '\u{275a}' => Some(122u8),
        '\u{275b}' => Some(123u8),
        '\u{275c}' => Some(124u8),
        '\u{275d}' => Some(125u8),
        '\u{275e}' => Some(126u8),
        '\u{2768}' => Some(128u8),
        '\u{2769}' => Some(129u8),
        '\u{276a}' => Some(130u8),
        '\u{276b}' => Some(131u8),
        _ => zapf_char_ov_b_x(c),
    }
}

/// ZapfDingbats: named characters, overriding the byte-identity range. (continued)
pub open spec fn zapf_char_ov_b(c: char) -> Option<u8> {
    match c {
        '\u{276c}' => Some(132u8),
        '\u{276d}' => Some(133u8),
        '\u{276e}' => Some(134u8),
        '\u{276f}' => Some(135u8),
        '\u{2770}' => Some(136u8),
        '\u{2771}' => Some(137u8),
        '\u{2772}' => Some(138u8),
        '\u{2773}' => Some(139u8),
        '\u{2774}' => Some(140u8),
        '\u{2775}' => Some(141u8),
        '\u{2761}' => Some(161u8),
        '\u{2762}' => Some(162u8),
        '\u{2763}' => Some(163u8),
        '\u{2764}' => Some(164u8),
        '\u{2765}' => Some(165u8),
        '\u{2766}' => Some(166u8),
        '\u{2767}' => Some(167u8),
        '\u{2663}' => Some(168u8),
        '\u{2666}' => Some(169u8),
        '\u{2665}' => Some(170u8),
        '\u{2660}' => Some(171u8),
        '\u{2460}' => Some(172u8),
        '\u{2461}' => Some(173u8),
        '\u{2462}' => Some(174u8),
        '\u{2463}' => Some(175u8),
        '\u{2464}' => Some(176u8),
        '\u{2465}' => Some(177u8),
        '\u{2466}' => Some(178u8),
        '\u{2467}' => Some(179u8),
        '\u{2468}' => Some(180u8),
        '\u{2469}' => Some(181u8),
        '\u{2776}' => Some(182u8),
        '\u{2777}' => Some(183u8),
        '\u{2778}' => Some(184u8),
        '\u{2779}' => Some(185u8),
        '\u{277a}' => Some(186u8),
        '\u{277b}' => Some(187u8),
        '\u{277c}' => Some(188u8),
        '\u{277d}' => Some(189u8),
        '\u{277e}' => Some(190u8),
        '\u{277f}' => Some(191u8),
        '\u{2780}' => Some(192u8),
        '\u{2781}' => Some(193u8),
        '\u{2782}' => Some(194u8),
        '\u{2783}' => Some(195u8),
        '\u{2784}' => Some(196u8),
        '\u{2785}' => Some(197u8),
        '\u{2786}' => Some(198u8),
        '\u{2787}' => Some(199u8),
        '\u{2788}' => Some(200u8),
        '\u{2789}' => Some(201u8),
        '\u{278a}' => Some(202u8),
        '\u{278b}' => Some(203u8),
        '\u{278c}' => Some(204u8),
        '\u{278d}' => Some(205u8),
        '\u{278e}' => Some(206u8),
        '\u{278f}' => Some(207u8),
        '\u{2790}' => Some(208u8),
        '\u{2791}' => Some(209u8),
        '\u{2792}' => Some(210u8),
        '\u{2793}' => Some(211u8),
        '\u{2794}' => Some(212u8),
        '\u{2192}' => Some(213u8),
        '\u{2194}' => Some(214u8),
        '\u{2195}' => Some(215u8),
        '\u{2798}' => Some(216u8),
        '\u{2799}' => Some(217u8),
        '\u{279a}' => Some(218u8),
        '\u{279b}' => Some(219u8),
        '\u{279c}' => Some(220u8),
        '\u{279d}' => Some(221u8),
        '\u{279e}' => Some(222u8),
        '\u{279f}' => Some(223u8),
        '\u{27a0}' => Some(224u8),
        '\u{27a1}' => Some(225u8),
        '\u{27a2}' => Some(226u8),
        '\u{27a3}' => Some(227u8),
        '\u{27a4}' => Some(228u8),
        '\u{27a5}' => Some(229u8),
        '\u{27a6}' => Some(230u8),
        '\u{27a7}' => Some(231u8),
        '\u{27a8}' => Some(232u8),
        '\u{27a9}' => Some(233u8),
        '\u{27aa}' => Some(234u8),
        '\u{27ab}' => Some(235u8),
        '\u{27ac}' => Some(236u8),
        '\u{27ad}' => Some(237u8),
        '\u{27ae}' => Some(238u8),
        '\u{27af}' => Some(239u8),
        '\u{27b1}' => Some(241u8),
        '\u{27b2}' => Some(242u8),
        '\u{27b3}' => Some(243u8),
        '\u{27b4}' => Some(244u8),
        '\u{27b5}' => Some(245u8),
        '\u{27b6}' => Some(246u8),
        '\u{27b7}' => Some(247u8),
        '\u{27b8}' => Some(248u8),
        '\u{27b9}' => Some(249u8),
        '\u{27ba}' => Some(250u8),
        '\u{27bb}' => Some(251u8),
        _ => zapf_char_ov_c(c),
    }
}

fn zapf_char_ov_b_x(c: char) -> (r: Option<u8>)
    ensures
        r == zapf_char_ov_b(c),
{
    match c {
        '\u{276c}' => Some(132u8),
        '\u{276d}' => Some(133u8),
        '\u{276e}' => Some(134u8),
        '\u{276f}' => Some(135u8),
        '\u{2770}' => Some(136u8),
        '\u{2771}' => Some(137u8),
        '\u{2772}' => Some(138u8),
        '\u{2773}' => Some(139u8),
        '\u{2774}' => Some(140u8),
        '\u{2775}' => Some(141u8),
        '\u{2761}' => Some(161u8),
        '\u{2762}' => Some(162u8),
        '\u{2763}' => Some(163u8),
        '\u{2764}' => Some(164u8),
        '\u{2765}' => Some(165u8),
        '\u{2766}' => Some(166u8),
        '\u{2767}' => Some(167u8),
        '\u{2663}' => Some(168u8),
        '\u{2666}' => Some(169u8),
        '\u{2665}' => Some(170u8),
        '\u{2660}' => Some(171u8),
        '\u{2460}' => Some(172u8),
        '\u{2461}' => Some(173u8),
        '\u{2462}' => Some(174u8),
        '\u{2463}' => Some(175u8),
        '\u{2464}' => Some(176u8),
        '\u{2465}' => Some(177u8),
        '\u{2466}' => Some(178u8),
        '\u{2467}' => Some(179u8),
        '\u{2468}' => Some(180u8),
        '\u{2469}' => Some(181u8),
        '\u{2776}' => Some(182u8),
        '\u{2777}' => Some(183u8),
        '\u{2778}' => Some(184u8),
        '\u{2779}' => Some(185u8),
        '\u{277a}' => Some(186u8),
        '\u{277b}' => Some(187u8),
        '\u{277c}' => Some(188u8),
        '\u{277d}' => Some(189u8),
        '\u{277e}' => Some(190u8),
        '\u{277f}' => Some(191u8),
        '\u{2780}' => Some(192u8),
        '\u{2781}' => Some(193u8),
        '\u{2782}' => Some(194u8),
        '\u{2783}' => Some(195u8),
        '\u{2784}' => Some(196u8),
        '\u{2785}' => Some(197u8),
        '\u{2786}' => Some(198u8),
        '\u{2787}' => Some(199u8),
        '\u{2788}' => Some(200u8),
        '\u{2789}' => Some(201u8),
        '\u{278a}' => Some(202u8),
        '\u{278b}' => Some(203u8),
        '\u{278c}' => Some(204u8),
        '\u{278d}' => Some(205u8),
        '\u{278e}' => Some(206u8),
        '\u{278f}' => Some(207u8),
        '\u{2790}' => Some(208u8),
        '\u{2791}' => Some(209u8),
        '\u{2792}' => Some(210u8),
        '\u{2793}' => Some(211u8),
        '\u{2794}' => Some(212u8),
        '\u{2192}' => Some(213u8),
        '\u{2194}' => Some(214u8),
        '\u{2195}' => Some(215u8),
        '\u{2798}' => Some(216u8),
        '\u{2799}' => Some(217u8),
        '\u{279a}' => Some(218u8),
        '\u{279b}' => Some(219u8),
        '\u{279c}' => Some(220u8),
        '\u{279d}' => Some(221u8),
        '\u{279e}' => Some(222u8),
        '\u{279f}' => Some(223u8),
        '\u{27a0}' => Some(224u8),
        '\u{27a1}' => Some(225u8),
        '\u{27a2}' => Some(226u8),
        '\u{27a3}' => Some(227u8),
        '\u{27a4}' => Some(228u8),
        '\u{27a5}' => Some(229u8),
        '\u{27a6}' => Some(230u8),
        '\u{27a7}' => Some(231u8),
        '\u{27a8}' => Some(232u8),
        '\u{27a9}' => Some(233u8),
        '\u{27aa}' => Some(234u8),
        '\u{27ab}' => Some(235u8),
        '\u{27ac}' => Some(236u8),
        '\u{27ad}' => Some(237u8),
        '\u{27ae}' => Some(238u8),
        '\u{27af}' => Some(239u8),
        '\u{27b1}' => Some(241u8),
        '\u{27b2}' => Some(242u8),
        '\u{27b3}' => Some(243u8),
        '\u{27b4}' => Some(244u8),
        '\u{27b5}' => Some(245u8),
        '\u{27b6}' => Some(246u8),
        '\u{27b7}' => Some(247u8),
        '\u{27b8}' => Some(248u8),
        '\u{27b9}' => Some(249u8),
        '\u{27ba}' => Some(250u8),
        '\u{27bb}' => Some(251u8),
        _ => zapf_char_ov_c_x(c),
    }
}

/// ZapfDingbats: named characters, overriding the byte-identity range. (continued)
pub open spec fn zapf_char_ov_c(c: char) -> Option<u8> {
    match c {
        '\u{27bc}' => Some(252u8),
        '\u{27bd}' => Some(253u8),
        '\u{27be}' => Some(254u8),
        _ => None,
    }
}

fn zapf_char_ov_c_x(c: char) -> (r: Option<u8>)
    ensures
        r == zapf_char_ov_c(c),
{
    match c {
        '\u{27bc}' => Some(252u8),
        '\u{27bd}' => Some(253u8),
        '\u{27be}' => Some(254u8),
        _ => None,
    }
}

/// WinAnsi: code points by glyph name.
pub open spec fn win_name_code_a(n: Seq<char>) -> Option<u8> {
    if n == "space"@ {
        Some(32u8)
    } else if n == "exclam"@ {
        Some(33u8)
    } else if n == "quotedbl"@ {
        Some(34u8)
    } else if n == "numbersign"@ {
        Some(35u8)
    } else if n == "dollar"@ {
        Some(36u8)
    } else if n == "percent"@ {
        Some(37u8)
    } else if n == "ampersand"@ {
        Some(38u8)
    } else if n == "quotesingle"@ {
        Some(39u8)
    } else if n == "parenleft"@ {
        Some(40u8)
    } else if n == "parenright"@ {
        Some(41u8)
    } else if n == "asterisk"@ {
        Some(42u8)
    } else if n == "plus"@ {
        Some(43u8)
    } else if n == "comma"@ {
        Some(44u8)
    } else if n == "hyphen"@ {
        Some(45u8)
    } else if n == "period"@ {
        Some(46u8)
    } else if n == "slash"@ {
        Some(47u8)
    } else if n == "zero"@ {
        Some(48u8)
    } else if n == "one"@ {
        Some(49u8)
    } else if n == "two"@ {
        Some(50u8)
    } else if n == "three"@ {
        Some(51u8)
    } else if n == "four"@ {
        Some(52u8)
    } else if n == "five"@ {
        Some(53u8)
    } else if n == "six"@ {
        Some(54u8)
    } else if n == "seven"@ {
        Some(55u8)
    } else if n == "eight"@ {
        Some(56u8)
    } else if n == "nine"@ {
        Some(57u8)
    } else if n == "colon"@ {
        Some(58u8)
    } else if n == "semicolon"@ {
        Some(59u8)
    } else if n == "less"@ {
        Some(60u8)
    } else if n == "equal"@ {
        Some(61u8)
    } else if n == "greater"@ {
        Some(62u8)
    } else if n == "question"@ {
        Some(63u8)
    } else if n == "at"@ {
        Some(64u8)
    } else if n == "A"@ {
        Some(65u8)
    } else if n == "B"@ {
        Some(66u8)
    } else if n == "C"@ {
        Some(67u8)
    } else if n == "D"@ {
        Some(68u8)
    } else if n == "E"@ {
        Some(69u8)
    } else if n == "F"@ {
        Some(70u8)
    } else if n == "G"@ {
        Some(71u8)
    } else if n == "H"@ {
        Some(72u8)
    } else if n == "I"@ {
        Some(73u8)
    } else if n == "J"@ {
        Some(74u8)
    } else if n == "K"@ {
        Some(75u8)
    } else if n == "L"@ {
        Some(76u8)
    } else if n == "M"@ {
        Some(77u8)
    } else if n == "N"@ {
        Some(78u8)
    } else if n == "O"@ {
        Some(79u8)
    } else if n == "P"@ {
        Some(80u8)
    } else if n == "Q"@ {
        Some(81u8)
    } else {
        win_name_code_b(n)
    }
}

fn win_name_code_a_x(n: &str) -> (r: Option<u8>)
    ensures
        r == win_name_code_a(n@),
{
    if str_eq_chars(n, "space") {
        Some(32u8)
    } else if str_eq_chars(n, "exclam") {
        Some(33u8)
    } else if str_eq_chars(n, "quotedbl") {
        Some(34u8)
    } else if str_eq_chars(n, "numbersign") {
        Some(35u8)
    } else if str_eq_chars(n, "dollar") {
        Some(36u8)
    } else if str_eq_chars(n, "percent") {
        Some(37u8)
    } else if str_eq_chars(n, "ampersand") {
        Some(38u8)
    } else if str_eq_chars(n, "quotesingle") {
        Some(39u8)
    } else if str_eq_chars(n, "parenleft") {
        Some(40u8)
    } else if str_eq_chars(n, "parenright") {
        Some(41u8)
    } else if str_eq_chars(n, "asterisk") {
        Some(42u8)
    } else if str_eq_chars(n, "plus") {
        Some(43u8)
    } else if str_eq_chars(n, "comma") {
        Some(44u8)
    } else if str_eq_chars(n, "hyphen") {
        Some(45u8)
    } else if str_eq_chars(n, "period") {
        Some(46u8)
    } else if str_eq_chars(n, "slash") {
        Some(47u8)
    } else if str_eq_chars(n, "zero") {
        Some(48u8)
    } else if str_eq_chars(n, "one") {
        Some(49u8)
    } else if str_eq_chars(n, "two") {
        Some(50u8)
    } else if str_eq_chars(n, "three") {
        Some(51u8)
    } else if str_eq_chars(n, "four") {
        Some(52u8)
    } else if str_eq_chars(n, "five") {
        Some(53u8)
    } else if str_eq_chars(n, "six") {
        Some(54u8)
    } else if str_eq_chars(n, "seven") {
        Some(55u8)
    } else if str_eq_chars(n, "eight") {
        Some(56u8)
    } else if str_eq_chars(n, "nine") {
        Some(57u8)
    } else if str_eq_chars(n, "colon") {
        Some(58u8)
    } else if str_eq_chars(n, "semicolon") {
        Some(59u8)
    } else if str_eq_chars(n, "less") {
        Some(60u8)
    } else if str_eq_chars(n, "equal") {
        Some(61u8)
    } else if str_eq_chars(n, "greater") {
        Some(62u8)
    } else if str_eq_chars(n, "question") {
        Some(63u8)
    } else if str_eq_chars(n, "at") {
        Some(64u8)
    } else if str_eq_chars(n, "A") {
        Some(65u8)
    } else if str_eq_chars(n, "B") {
        Some(66u8)
    } else if str_eq_chars(n, "C") {
        Some(67u8)
    } else if str_eq_chars(n, "D") {
        Some(68u8)
    } else if str_eq_chars(n, "E") {
        Some(69u8)
    } else if str_eq_chars(n, "F") {
        Some(70u8)
    } else if str_eq_chars(n, "G") {
        Some(71u8)
    } else if str_eq_chars(n, "H") {
        Some(72u8)
    } else if str_eq_chars(n, "I") {
        Some(73u8)
    } else if str_eq_chars(n, "J") {
        Some(74u8)
    } else if str_eq_chars(n, "K") {
        Some(75u8)
    } else if str_eq_chars(n, "L") {
        Some(76u8)
    } else if str_eq_chars(n, "M") {
        Some(77u8)
    } else if str_eq_chars(n, "N") {
        Some(78u8)
    } else if str_eq_chars(n, "O") {
        Some(79u8)
    } else if str_eq_chars(n, "P") {
        Some(80u8)
    } else if str_eq_chars(n, "Q") {
        Some(81u8)
    } else {
        win_name_code_b_x(n)
    }
}

/// WinAnsi: code points by glyph name. (continued)
pub open spec fn win_name_code_b(n: Seq<char>) -> Option<u8> {
    if n == "R"@ {
        Some(82u8)
    } else if n == "S"@ {
        Some(83u8)
    } else if n == "T"@ {
        Some(84u8)
    } else if n == "U"@ {
        Some(85u8)
    } else if n == "V"@ {
        Some(86u8)
    } else if n == "W"@ {
        Some(87u8)
    } else if n == "X"@ {
        Some(88u8)
    } else if n == "Y"@ {
        Some(89u8)
    } else if n == "Z"@ {
        Some(90u8)
    } else if n == "bracketleft"@ {
        Some(91u8)
    } else if n == "backslash"@ {
        Some(92u8)
    } else if n == "bracketright"@ {
        Some(93u8)
    } else if n == "asciicircum"@ {
        Some(94u8)
    } else if n == "underscore"@ {
        Some(95u8)
    } else if n == "grave"@ {
        Some(96u8)
    } else if n == "a"@ {
        Some(97u8)
    } else if n == "b"@ {
        Some(98u8)
    } else if n == "c"@ {
        Some(99u8)
    } else if n == "d"@ {
        Some(100u8)
    } else if n == "e"@ {
        Some(101u8)
    } else if n == "f"@ {
        Some(102u8)
    } else if n == "g"@ {
        Some(103u8)
    } else if n == "h"@ {
        Some(104u8)
    } else if n == "i"@ {
        Some(105u8)
    } else if n == "j"@ {
        Some(106u8)
    } else if n == "k"@ {
        Some(107u8)
    } else if n == "l"@ {
        Some(108u8)
    } else if n == "m"@ {
        Some(109u8)
    } else if n == "n"@ {
        Some(110u8)
    } else if n == "o"@ {
        Some(111u8)
    } else if n == "p"@ {
        Some(112u8)
    } else if n == "q"@ {
        Some(113u8)
    } else if n == "r"@ {
        Some(114u8)
    } else if n == "s"@ {
        Some(115u8)
    } else if n == "t"@ {
        Some(116u8)
    } else if n == "u"@ {
        Some(117u8)
    } else if n == "v"@ {
        Some(118u8)
    } else if n == "w"@ {
        Some(119u8)
    } else if n == "x"@ {
        Some(120u8)
    } else if n == "y"@ {
        Some(121u8)
    } else if n == "z"@ {
        Some(122u8)
    } else if n == "braceleft"@ {
        Some(123u8)
    } else if n == "bar"@ {
        Some(124u8)
    } else if n == "braceright"@ {
        Some(125u8)
    } else if n == "asciitilde"@ {
        Some(126u8)
    } else if n == "Euro"@ {
        Some(128u8)
    } else if n == "..1"@ {
        Some(129u8)
    } else if n == "quotesinglbase"@ {
        Some(130u8)
    } else if n == "florin"@ {
        Some(131u8)
    } else if n == "quotedblbase"@ {
        Some(132u8)
    } else {
        win_name_code_c(n)
    }
}

fn win_name_code_b_x(n: &str) -> (r: Option<u8>)
    ensures
        r == win_name_code_b(n@),
{
    if str_eq_chars(n, "R") {
        Some(82u8)
    } else if str_eq_chars(n, "S") {
        Some(83u8)
    } else if str_eq_chars(n, "T") {
        Some(84u8)
    } else if str_eq_chars(n, "U") {
        Some(85u8)
    } else if str_eq_chars(n, "V") {
        Some(86u8)
    } else if str_eq_chars(n, "W") {
        Some(87u8)
    } else if str_eq_chars(n, "X") {
        Some(88u8)
    } else if str_eq_chars(n, "Y") {
        Some(89u8)
    } else if str_eq_chars(n, "Z") {
        Some(90u8)
    } else if str_eq_chars(n, "bracketleft") {
        Some(91u8)
    } else if str_eq_chars(n, "backslash") {
        Some(92u8)
    } else if str_eq_chars(n, "bracketright") {
        Some(93u8)
    } else if str_eq_chars(n, "asciicircum") {
        Some(94u8)
    } else if str_eq_chars(n, "underscore") {
        Some(95u8)
    } else if str_eq_chars(n, "grave") {
        Some(96u8)
    } else if str_eq_chars(n, "a") {
        Some(97u8)
    } else if str_eq_chars(n, "b") {
        Some(98u8)
    } else if str_eq_chars(n, "c") {
        Some(99u8)
    } else if str_eq_chars(n, "d") {
        Some(100u8)
    } else if str_eq_chars(n, "e") {
        Some(101u8)
    } else if str_eq_chars(n, "f") {
        Some(102u8)
    } else if str_eq_chars(n, "g") {
        Some(103u8)
    } else if str_eq_chars(n, "h") {
        Some(104u8)
    } else if str_eq_chars(n, "i") {
        Some(105u8)
    } else if str_eq_chars(n, "j") {
        Some(106u8)
    } else if str_eq_chars(n, "k") {
        Some(107u8)
    } else if str_eq_chars(n, "l") {
        Some(108u8)
    } else if str_eq_chars(n, "m") {
        Some(109u8)
    } else if str_eq_chars(n, "n") {
        Some(110u8)
    } else if str_eq_chars(n, "o") {
        Some(111u8)
    } else if str_eq_chars(n, "p") {
        Some(112u8)
    } else if str_eq_chars(n, "q") {
        Some(113u8)
    } else if str_eq_chars(n, "r") {
        Some(114u8)
    } else if str_eq_chars(n, "s") {
        Some(115u8)
    } else if str_eq_chars(n, "t") {
        Some(116u8)
    } else if str_eq_chars(n, "u") {
        Some(117u8)
    } else if str_eq_chars(n, "v") {
        Some(118u8)
    } else if str_eq_chars(n, "w") {
        Some(119u8)
    } else if str_eq_chars(n, "x") {
        Some(120u8)
    } else if str_eq_chars(n, "y") {
        Some(121u8)
    } else if str_eq_chars(n, "z") {
        Some(122u8)
    } else if str_eq_chars(n, "braceleft") {
        Some(123u8)
    } else if str_eq_chars(n, "bar") {
        Some(124u8)
    } else if str_eq_chars(n, "braceright") {
        Some(125u8)
    } else if str_eq_chars(n, "asciitilde") {
        Some(126u8)
    } else if str_eq_chars(n, "Euro") {
        Some(128u8)
    } else if str_eq_chars(n, "..1") {
        Some(129u8)
    } else if str_eq_chars(n, "quotesinglbase") {
        Some(130u8)
    } else if str_eq_chars(n, "florin") {
        Some(131u8)
    } else if str_eq_chars(n, "quotedblbase") {
        Some(132u8)
    } else {
        win_name_code_c_x(n)
    }
}

/// WinAnsi: code points by glyph name. (continued)
pub open spec fn win_name_code_c(n: Seq<char>) -> Option<u8> {
    if n == "ellipsis"@ {
        Some(133u8)
    } else if n == "dagger"@ {
        Some(134u8)
    } else if n == "daggerdbl"@ {
        Some(135u8)
    } else if n == "circumflex"@ {
        Some(136u8)
    } else if n == "perthousand"@ {
        Some(137u8)
    } else if n == "Scaron"@ {
        Some(138u8)
    } else if n == "guilsinglleft"@ {
        Some(139u8)
    } else if n == "OE"@ {
        Some(140u8)
    } else if n == "..5"@ {
        Some(173u8)
    } else if n == "Zcaron"@ {
        Some(142u8)
    } else if n == "..7"@ {
        Some(143u8)
    } else if n == "..0"@ {
        Some(160u8)
    } else if n == "quoteleft"@ {
        Some(145u8)
    } else if n == "quoteright"@ {
        Some(146u8)
    } else if n == "quotedblleft"@ {
        Some(147u8)
    } else if n == "quotedblright"@ {
        Some(148u8)
    } else if n == "bullet"@ {
        Some(149u8)
    } else if n == "endash"@ {
        Some(150u8)
    } else if n == "emdash"@ {
        Some(151u8)
    } else if n == "tilde"@ {
        Some(152u8)
    } else if n == "trademark"@ {
        Some(153u8)
    } else if n == "scaron"@ {
        Some(154u8)
    } else if n == "guilsinglright"@ {
        Some(155u8)
    } else if n == "oe"@ {
        Some(156u8)
    } else if n == "zcaron"@ {
        Some(158u8)
    } else if n == "Ydieresis"@ {
        Some(159u8)
    } else if n == "exclamdown"@ {
        Some(161u8)
    } else if n == "cent"@ {
        Some(162u8)
    } else if n == "sterling"@ {
        Some(163u8)
    } else if n == "currency"@ {
        Some(164u8)
    } else if n == "yen"@ {
        Some(165u8)
    } else if n == "brokenbar"@ {
        Some(166u8)
    } else if n == "section"@ {
        Some(167u8)
    } else if n == "dieresis"@ {
        Some(168u8)
    } else if n == "copyright"@ {
        Some(169u8)
    } else if n == "ordfeminine"@ {
        Some(170u8)
    } else if n == "guillemotleft"@ {
        Some(171u8)
    } else if n == "logicalnot"@ {
        Some(172u8)
    } else if n == "registered"@ {
        Some(174u8)
    } else if n == "macron"@ {
        Some(175u8)
    } else if n == "degree"@ {
        Some(176u8)
    } else if n == "plusminus"@ {
        Some(177u8)
    } else if n == "twosuperior"@ {
        Some(178u8)
    } else if n == "threesuperior"@ {
        Some(179u8)
    } else if n == "acute"@ {
        Some(180u8)
    } else if n == "mu"@ {
        Some(181u8)
    } else if n == "paragraph"@ {
        Some(182u8)
    } else if n == "periodcentered"@ {
        Some(183u8)
    } else if n == "cedilla"@ {
        Some(184u8)
    } else if n == "onesuperior"@ {
        Some(185u8)
    } else {
        win_name_code_d(n)
    }
}

fn win_name_code_c_x(n: &str) -> (r: Option<u8>)
    ensures
        r == win_name_code_c(n@),
{
    if str_eq_chars(n, "ellipsis") {
        Some(133u8)
    } else if str_eq_chars(n, "dagger") {
        Some(134u8)
    } else if str_eq_chars(n, "daggerdbl") {
        Some(135u8)
    } else if str_eq_chars(n, "circumflex") {
        Some(136u8)
    } else if str_eq_chars(n, "perthousand") {
        Some(137u8)
    } else if str_eq_chars(n, "Scaron") {
        Some(138u8)
    } else if str_eq_chars(n, "guilsinglleft") {
        Some(139u8)
    } else if str_eq_chars(n, "OE") {
        Some(140u8)
    } else if str_eq_chars(n, "..5") {
        Some(173u8)
    } else if str_eq_chars(n, "Zcaron") {
        Some(142u8)
    } else if str_eq_chars(n, "..7") {
        Some(143u8)
    } else if str_eq_chars(n, "..0") {
        Some(160u8)
    } else if str_eq_chars(n, "quoteleft") {
        Some(145u8)
    } else if str_eq_chars(n, "quoteright") {
        Some(146u8)
    } else if str_eq_chars(n, "quotedblleft") {
        Some(147u8)
    } else if str_eq_chars(n, "quotedblright") {
        Some(148u8)
    } else if str_eq_chars(n, "bullet") {
        Some(149u8)
    } else if str_eq_chars(n, "endash") {
        Some(150u8)
    } else if str_eq_chars(n, "emdash") {
        Some(151u8)
    } else if str_eq_chars(n, "tilde") {
        Some(152u8)
    } else if str_eq_chars(n, "trademark") {
        Some(153u8)
    } else if str_eq_chars(n, "scaron") {
        Some(154u8)
    } else if str_eq_chars(n, "guilsinglright") {
        Some(155u8)
    } else if str_eq_chars(n, "oe") {
        Some(156u8)
    } else if str_eq_chars(n, "zcaron") {
        Some(158u8)
    } else if str_eq_chars(n, "Ydieresis") {
        Some(159u8)
    } else if str_eq_chars(n, "exclamdown") {
        Some(161u8)
    } else if str_eq_chars(n, "cent") {
        Some(162u8)
    } else if str_eq_chars(n, "sterling") {
        Some(163u8)
    } else if str_eq_chars(n, "currency") {
        Some(164u8)
    } else if str_eq_chars(n, "yen") {
        Some(165u8)
    } else if str_eq_chars(n, "brokenbar") {
        Some(166u8)
    } else if str_eq_chars(n, "section") {
        Some(167u8)
    } else if str_eq_chars(n, "dieresis") {
        Some(168u8)
    } else if str_eq_chars(n, "copyright") {
        Some(169u8)
    } else if str_eq_chars(n, "ordfeminine") {
        Some(170u8)
    } else if str_eq_chars(n, "guillemotleft") {
        Some(171u8)
    } else if str_eq_chars(n, "logicalnot") {
        Some(172u8)
    } else if str_eq_chars(n, "registered") {
        Some(174u8)
    } else if str_eq_chars(n, "macron") {
        Some(175u8)
    } else if str_eq_chars(n, "degree") {
        Some(176u8)
    } else if str_eq_chars(n, "plusminus") {
        Some(177u8)
    } else if str_eq_chars(n, "twosuperior") {
        Some(178u8)
    } else if str_eq_chars(n, "threesuperior") {
        Some(179u8)
    } else if str_eq_chars(n, "acute") {
        Some(180u8)
    } else if str_eq_chars(n, "mu") {
        Some(181u8)
    } else if str_eq_chars(n, "paragraph") {
        Some(182u8)
    } else if str_eq_chars(n, "periodcentered") {
        Some(183u8)
    } else if str_eq_chars(n, "cedilla") {
        Some(184u8)
    } else if str_eq_chars(n, "onesuperior") {
        Some(185u8)
    } else {
        win_name_code_d_x(n)
    }
}

/// WinAnsi: code points by glyph name. (continued)
pub open spec fn win_name_code_d(n: Seq<char>) -> Option<u8> {
    if n == "ordmasculine"@ {
        Some(186u8)
    } else if n == "guillemotright"@ {
        Some(187u8)
    } else if n == "onequarter"@ {
        Some(188u8)
    } else if n == "onehalf"@ {
        Some(189u8)
    } else if n == "threequarters"@ {
        Some(190u8)
    } else if n == "questiondown"@ {
        Some(191u8)
    } else if n == "Agrave"@ {
        Some(192u8)
    } else if n == "Aacute"@ {
        Some(193u8)
    } else if n == "Acircumflex"@ {
        Some(194u8)
    } else if n == "Atilde"@ {
        Some(195u8)
    } else if n == "Adieresis"@ {
        Some(196u8)
    } else if n == "Aring"@ {
        Some(197u8)
    } else if n == "AE"@ {
        Some(198u8)
    } else if n == "Ccedilla"@ {
        Some(199u8)
    } else if n == "Egrave"@ {
        Some(200u8)
    } else if n == "Eacute"@ {
        Some(201u8)
    } else if n == "Ecircumflex"@ {
        Some(202u8)
    } else if n == "Edieresis"@ {
        Some(203u8)
    } else if n == "Igrave"@ {
        Some(204u8)
    } else if n == "Iacute"@ {
        Some(205u8)
    } else if n == "Icircumflex"@ {
        Some(206u8)
    } else if n == "Idieresis"@ {
        Some(207u8)
    } else if n == "Eth"@ {
        Some(208u8)
    } else if n == "Ntilde"@ {
        Some(209u8)
    } else if n == "Ograve"@ {
        Some(210u8)
    } else if n == "Oacute"@ {
        Some(211u8)
    } else if n == "Ocircumflex"@ {
        Some(212u8)
    } else if n == "Otilde"@ {
        Some(213u8)
    } else if n == "Odieresis"@ {
        Some(214u8)
    } else if n == "multiply"@ {
        Some(215u8)
    } else if n == "Oslash"@ {
        Some(216u8)
    } else if n == "Ugrave"@ {
        Some(217u8)
    } else if n == "Uacute"@ {
        Some(218u8)
    } else if n == "Ucircumflex"@ {
        Some(219u8)
    } else if n == "Udieresis"@ {
        Some(220u8)
    } else if n == "Yacute"@ {
        Some(221u8)
    } else if n == "Thorn"@ {
        Some(222u8)
    } else if n == "germandbls"@ {
        Some(223u8)
    } else if n == "agrave"@ {
        Some(224u8)
    } else if n == "aacute"@ {
        Some(225u8)
    } else if n == "acircumflex"@ {
        Some(226u8)
    } else if n == "atilde"@ {
        Some(227u8)
    } else if n == "adieresis"@ {
        Some(228u8)
    } else if n == "aring"@ {
        Some(229u8)
    } else if n == "ae"@ {
        Some(230u8)
    } else if n == "ccedilla"@ {
        Some(231u8)
    } else if n == "egrave"@ {
        Some(232u8)
    } else if n == "eacute"@ {
        Some(233u8)
    } else if n == "ecircumflex"@ {
        Some(234u8)
    } else if n == "edieresis"@ {
        Some(235u8)
    } else {
        win_name_code_e(n)
    }
}

fn win_name_code_d_x(n: &str) -> (r: Option<u8>)
    ensures
        r == win_name_code_d(n@),
{
    if str_eq_chars(n, "ordmasculine") {
        Some(186u8)
    } else if str_eq_chars(n, "guillemotright") {
        Some(187u8)
    } else if str_eq_chars(n, "onequarter") {
        Some(188u8)
    } else if str_eq_chars(n, "onehalf") {
        Some(189u8)
    } else if str_eq_chars(n, "threequarters") {
        Some(190u8)
    } else if str_eq_chars(n, "questiondown") {
        Some(191u8)
    } else if str_eq_chars(n, "Agrave") {
        Some(192u8)
    } else if str_eq_chars(n, "Aacute") {
        Some(193u8)
    } else if str_eq_chars(n, "Acircumflex") {
        Some(194u8)
    } else if str_eq_chars(n, "Atilde") {
        Some(195u8)
    } else if str_eq_chars(n, "Adieresis") {
        Some(196u8)
    } else if str_eq_chars(n, "Aring") {
        Some(197u8)
    } else if str_eq_chars(n, "AE") {
        Some(198u8)
    } else if str_eq_chars(n, "Ccedilla") {
        Some(199u8)
    } else if str_eq_chars(n, "Egrave") {
        Some(200u8)
    } else if str_eq_chars(n, "Eacute") {
        Some(201u8)
    } else if str_eq_chars(n, "Ecircumflex") {
        Some(202u8)
    } else if str_eq_chars(n, "Edieresis") {
        Some(203u8)
    } else if str_eq_chars(n, "Igrave") {
        Some(204u8)
    } else if str_eq_chars(n, "Iacute") {
        Some(205u8)
    } else if str_eq_chars(n, "Icircumflex") {
        Some(206u8)
    } else if str_eq_chars(n, "Idieresis") {
        Some(207u8)
    } else if str_eq_chars(n, "Eth") {
        Some(208u8)
    } else if str_eq_chars(n, "Ntilde") {
        Some(209u8)
    } else if str_eq_chars(n, "Ograve") {
        Some(210u8)
    } else if str_eq_chars(n, "Oacute") {
        Some(211u8)
    } else if str_eq_chars(n, "Ocircumflex") {
        Some(212u8)
    } else if str_eq_chars(n, "Otilde") {
        Some(213u8)
    } else if str_eq_chars(n, "Odieresis") {
        Some(214u8)
    } else if str_eq_chars(n, "multiply") {
        Some(215u8)
    } else if str_eq_chars(n, "Oslash") {
        Some(216u8)
    } else if str_eq_chars(n, "Ugrave") {
        Some(217u8)
    } else if str_eq_chars(n, "Uacute") {
        Some(218u8)
    } else if str_eq_chars(n, "Ucircumflex") {
        Some(219u8)
    } else if str_eq_chars(n, "Udieresis") {
        Some(220u8)
    } else if str_eq_chars(n, "Yacute") {
        Some(221u8)
    } else if str_eq_chars(n, "Thorn") {
        Some(222u8)
    } else if str_eq_chars(n, "germandbls") {
        Some(223u8)
    } else if str_eq_chars(n, "agrave") {
        Some(224u8)
    } else if str_eq_chars(n, "aacute") {
        Some(225u8)
    } else if str_eq_chars(n, "acircumflex") {
        Some(226u8)
    } else if str_eq_chars(n, "atilde") {
        Some(227u8)
    } else if str_eq_chars(n, "adieresis") {
        Some(228u8)
    } else if str_eq_chars(n, "aring") {
        Some(229u8)
    } else if str_eq_chars(n, "ae") {
        Some(230u8)
    } else if str_eq_chars(n, "ccedilla") {
        Some(231u8)
    } else if str_eq_chars(n, "egrave") {
        Some(232u8)
    } else if str_eq_chars(n, "eacute") {
        Some(233u8)
    } else if str_eq_chars(n, "ecircumflex") {
        Some(234u8)
    } else if str_eq_chars(n, "edieresis") {
        Some(235u8)
    } else {
        win_name_code_e_x(n)
    }
}

/// WinAnsi: code points by glyph name. (continued)
pub open spec fn win_name_code_e(n: Seq<char>) -> Option<u8> {
    if n == "igrave"@ {
        Some(236u8)
    } else if n == "iacute"@ {
        Some(237u8)
    } else if n == "icircumflex"@ {
        Some(238u8)
    } else if n == "idieresis"@ {
        Some(239u8)
    } else if n == "eth"@ {
        Some(240u8)
    } else if n == "ntilde"@ {
        Some(241u8)
    } else if n == "ograve"@ {
        Some(242u8)
    } else if n == "oacute"@ {
        Some(243u8)
    } else if n == "ocircumflex"@ {
        Some(244u8)
    } else if n == "otilde"@ {
        Some(245u8)
    } else if n == "odieresis"@ {
        Some(246u8)
    } else if n == "divide"@ {
        Some(247u8)
    } else if n == "oslash"@ {
        Some(248u8)
    } else if n == "ugrave"@ {
        Some(249u8)
    } else if n == "uacute"@ {
        Some(250u8)
    } else if n == "ucircumflex"@ {
        Some(251u8)
    } else if n == "udieresis"@ {
        Some(252u8)
    } else if n == "yacute"@ {
        Some(253u8)
    } else if n == "thorn"@ {
        Some(254u8)
    } else if n == "ydieresis"@ {
        Some(255u8)
    } else {
        None
    }
}

fn win_name_code_e_x(n: &str) -> (r: Option<u8>)
    ensures
        r == win_name_code_e(n@),
{
    if str_eq_chars(n, "igrave") {
        Some(236u8)
    } else if str_eq_chars(n, "iacute") {
        Some(237u8)
    } else if str_eq_chars(n, "icircumflex") {
        Some(238u8)
    } else if str_eq_chars(n, "idieresis") {
        Some(239u8)
    } else if str_eq_chars(n, "eth") {
        Some(240u8)
    } else if str_eq_chars(n, "ntilde") {
        Some(241u8)
    } else if str_eq_chars(n, "ograve") {
        Some(242u8)
    } else if str_eq_chars(n, "oacute") {
        Some(243u8)
    } else if str_eq_chars(n, "ocircumflex") {
        Some(244u8)
    } else if str_eq_chars(n, "otilde") {
        Some(245u8)
    } else if str_eq_chars(n, "odieresis") {
        Some(246u8)
    } else if str_eq_chars(n, "divide") {
        Some(247u8)
    } else if str_eq_chars(n, "oslash") {
        Some(248u8)
    } else if str_eq_chars(n, "ugrave") {
        Some(249u8)
    } else if str_eq_chars(n, "uacute") {
        Some(250u8)
    } else if str_eq_chars(n, "ucircumflex") {
        Some(251u8)
    } else if str_eq_chars(n, "udieresis") {
        Some(252u8)
    } else if str_eq_chars(n, "yacute") {
        Some(253u8)
    } else if str_eq_chars(n, "thorn") {
        Some(254u8)
    } else if str_eq_chars(n, "ydieresis") {
        Some(255u8)
    } else {
        None
    }
}

/// MacRoman: code points by glyph name.
pub open spec fn mac_name_code_a(n: Seq<char>) -> Option<u8> {
    if n == "AE"@ {
        Some(174u8)
    } else if n == "Aacute"@ {
        Some(231u8)
    } else if n == "Acircumflex"@ {
        Some(229u8)
    } else if n == "Adieresis"@ {
        Some(128u8)
    } else if n == "Agrave"@ {
        Some(203u8)
    } else if n == "Aring"@ {
        Some(129u8)
    } else if n == "Atilde"@ {
        Some(204u8)
    } else if n == "Ccedilla"@ {
        Some(130u8)
    } else if n == "Eacute"@ {
        Some(131u8)
    } else if n == "Ecircumflex"@ {
        Some(230u8)
    } else if n == "Edieresis"@ {
        Some(232u8)
    } else if n == "Egrave"@ {
        Some(233u8)
    } else if n == "Euro"@ {
        Some(219u8)
    } else if n == "Iacute"@ {
        Some(234u8)
    } else if n == "Icircumflex"@ {
        Some(235u8)
    } else if n == "Idieresis"@ {
        Some(236u8)
    } else if n == "Igrave"@ {
        Some(237u8)
    } else if n == "Ntilde"@ {
        Some(132u8)
    } else if n == "OE"@ {
        Some(206u8)
    } else if n == "Oacute"@ {
        Some(238u8)
    } else if n == "Ocircumflex"@ {
        Some(239u8)
    } else if n == "Odieresis"@ {
        Some(133u8)
    } else if n == "Ograve"@ {
        Some(241u8)
    } else if n == "Oslash"@ {
        Some(175u8)
    } else if n == "Otilde"@ {
        Some(205u8)
    } else if n == "Uacute"@ {
        Some(242u8)
    } else if n == "Ucircumflex"@ {
        Some(243u8)
    } else if n == "Udieresis"@ {
        Some(134u8)
    } else if n == "Ugrave"@ {
        Some(244u8)
    } else if n == "Ydieresis"@ {
        Some(217u8)
    } else if n == "aacute"@ {
        Some(135u8)
    } else if n == "acircumflex"@ {
        Some(137u8)
    } else if n == "acute"@ {
        Some(171u8)
    } else if n == "adieresis"@ {
        Some(138u8)
    } else if n == "ae"@ {
        Some(190u8)
    } else if n == "agrave"@ {
        Some(136u8)
    } else if n == "aring"@ {
        Some(140u8)
    } else if n == "atilde"@ {
        Some(139u8)
    } else if n == "breve"@ {
        Some(249u8)
    } else if n == "bullet"@ {
        Some(165u8)
    } else if n == "caron"@ {
        Some(255u8)
    } else if n == "ccedilla"@ {
        Some(141u8)
    } else if n == "cedilla"@ {
        Some(252u8)
    } else if n == "circumflex"@ {
        Some(246u8)
    } else if n == "copyright"@ {
        Some(169u8)
    } else if n == "dagger"@ {
        Some(160u8)
    } else if n == "daggerdbl"@ {
        Some(224u8)
    } else if n == "degree"@ {
        Some(161u8)
    } else if n == "dieresis"@ {
        Some(172u8)
    } else if n == "divide"@ {
        Some(214u8)
    } else {
        mac_name_code_b(n)
    }
}

fn mac_name_code_a_x(n: &str) -> (r: Option<u8>)
    ensures
        r == mac_name_code_a(n@),
{
    if str_eq_chars(n, "AE") {
        Some(174u8)
    } else if str_eq_chars(n, "Aacute") {
        Some(231u8)
    } else if str_eq_chars(n, "Acircumflex") {
        Some(229u8)
    } else if str_eq_chars(n, "Adieresis") {
        Some(128u8)
    } else if str_eq_chars(n, "Agrave") {
        Some(203u8)
    } else if str_eq_chars(n, "Aring") {
        Some(129u8)
    } else if str_eq_chars(n, "Atilde") {
        Some(204u8)
    } else if str_eq_chars(n, "Ccedilla") {
        Some(130u8)
    } else if str_eq_chars(n, "Eacute") {
        Some(131u8)
    } else if str_eq_chars(n, "Ecircumflex") {
        Some(230u8)
    } else if str_eq_chars(n, "Edieresis") {
        Some(232u8)
    } else if str_eq_chars(n, "Egrave") {
        Some(233u8)
    } else if str_eq_chars(n, "Euro") {
        Some(219u8)
    } else if str_eq_chars(n, "Iacute") {
        Some(234u8)
    } else if str_eq_chars(n, "Icircumflex") {
        Some(235u8)
    } else if str_eq_chars(n, "Idieresis") {
        Some(236u8)
    } else if str_eq_chars(n, "Igrave") {
        Some(237u8)
    } else if str_eq_chars(n, "Ntilde") {
        Some(132u8)
    } else if str_eq_chars(n, "OE") {
        Some(206u8)
    } else if str_eq_chars(n, "Oacute") {
        Some(238u8)
    } else if str_eq_chars(n, "Ocircumflex") {
        Some(239u8)
    } else if str_eq_chars(n, "Odieresis") {
        Some(133u8)
    } else if str_eq_chars(n, "Ograve") {
        Some(241u8)
    } else if str_eq_chars(n, "Oslash") {
        Some(175u8)
    } else if str_eq_chars(n, "Otilde") {
        Some(205u8)
    } else if str_eq_chars(n, "Uacute") {
        Some(242u8)
    } else if str_eq_chars(n, "Ucircumflex") {
        Some(243u8)
    } else if str_eq_chars(n, "Udieresis") {
        Some(134u8)
    } else if str_eq_chars(n, "Ugrave") {
        Some(244u8)
    } else if str_eq_chars(n, "Ydieresis") {
        Some(217u8)
    } else if str_eq_chars(n, "aacute") {
        Some(135u8)
    } else if str_eq_chars(n, "acircumflex") {
        Some(137u8)
    } else if str_eq_chars(n, "acute") {
        Some(171u8)
    } else if str_eq_chars(n, "adieresis") {
        Some(138u8)
    } else if str_eq_chars(n, "ae") {
        Some(190u8)
    } else if str_eq_chars(n, "agrave") {
        Some(136u8)
    } else if str_eq_chars(n, "aring") {
        Some(140u8)
    } else if str_eq_chars(n, "atilde") {
        Some(139u8)
    } else if str_eq_chars(n, "breve") {
        Some(249u8)
    } else if str_eq_chars(n, "bullet") {
        Some(165u8)
    } else if str_eq_chars(n, "caron") {
        Some(255u8)
    } else if str_eq_chars(n, "ccedilla") {
        Some(141u8)
    } else if str_eq_chars(n, "cedilla") {
        Some(252u8)
    } else if str_eq_chars(n, "circumflex") {
        Some(246u8)
    } else if str_eq_chars(n, "copyright") {
        Some(169u8)
    } else if str_eq_chars(n, "dagger") {
        Some(160u8)
    } else if str_eq_chars(n, "daggerdbl") {
        Some(224u8)
    } else if str_eq_chars(n, "degree") {
        Some(161u8)
    } else if str_eq_chars(n, "dieresis") {
        Some(172u8)
    } else if str_eq_chars(n, "divide") {
        Some(214u8)
    } else {
        mac_name_code_b_x(n)
    }
}

/// MacRoman: code points by glyph name. (continued)
pub open spec fn mac_name_code_b(n: Seq<char>) -> Option<u8> {
    if n == "dotaccent"@ {
        Some(199u8)
    } else if n == "eacute"@ {
        Some(142u8)
    } else if n == "ecircumflex"@ {
        Some(144u8)
    } else if n == "edieresis"@ {
        Some(145u8)
    } else if n == "egrave"@ {
        Some(143u8)
    } else if n == "ellipsis"@ {
        Some(201u8)
    } else if n == "emdash"@ {
        Some(209u8)
    } else if n == "endash"@ {
        Some(208u8)
    } else if n == "exclamdown"@ {
        Some(193u8)
    } else if n == "fi"@ {
        Some(222u8)
    } else if n == "fl"@ {
        Some(223u8)
    } else if n == "florin"@ {
        Some(196u8)
    } else if n == "fraction"@ {
        Some(218u8)
    } else if n == "germandbls"@ {
        Some(167u8)
    } else if n == "grave"@ {
        Some(96u8)
    } else if n == "guillemotleft"@ {
        Some(199u8)
    } else if n == "guillemotright"@ {
        Some(200u8)
    } else if n == "guilsinglleft"@ {
        Some(220u8)
    } else if n == "guilsinglright"@ {
        Some(221u8)
    } else if n == "hungarumlaut"@ {
        Some(253u8)
    } else if n == "iacute"@ {
        Some(146u8)
    } else if n == "icircumflex"@ {
        Some(148u8)
    } else if n == "idieresis"@ {
        Some(149u8)
    } else if n == "igrave"@ {
        Some(147u8)
    } else if n == "logicalnot"@ {
        Some(194u8)
    } else if n == "macron"@ {
        Some(248u8)
    } else if n == "mu"@ {
        Some(181u8)
    } else if n == "ntilde"@ {
        Some(150u8)
    } else if n == "oacute"@ {
        Some(151u8)
    } else if n == "ocircumflex"@ {
        Some(153u8)
    } else if n == "odieresis"@ {
        Some(154u8)
    } else if n == "oe"@ {
        Some(207u8)
    } else if n == "ogonek"@ {
        Some(254u8)
    } else if n == "ograve"@ {
        Some(152u8)
    } else if n == "ordfeminine"@ {
        Some(187u8)
    } else if n == "ordmasculine"@ {
        Some(188u8)
    } else if n == "oslash"@ {
        Some(191u8)
    } else if n == "otilde"@ {
        Some(155u8)
    } else if n == "periodcentered"@ {
        Some(225u8)
    } else if n == "perthousand"@ {
        Some(228u8)
    } else if n == "plusminus"@ {
        Some(177u8)
    } else if n == "questiondown"@ {
        Some(192u8)
    } else if n == "quotedblbase"@ {
        Some(227u8)
    } else if n == "quotedblleft"@ {
        Some(210u8)
    } else if n == "quotedblright"@ {
        Some(211u8)
    } else if n == "quoteleft"@ {
        Some(212u8)
    } else if n == "quoteright"@ {
        Some(213u8)
    } else if n == "quotesinglebase"@ {
        Some(226u8)
    } else if n == "quotesingle"@ {
        Some(39u8)
    } else if n == "registered"@ {
        Some(168u8)
    } else {
        mac_name_code_c(n)
    }
}

fn mac_name_code_b_x(n: &str) -> (r: Option<u8>)
    ensures
        r == mac_name_code_b(n@),
{
    if str_eq_chars(n, "dotaccent") {
        Some(199u8)
    } else if str_eq_chars(n, "eacute") {
        Some(142u8)
    } else if str_eq_chars(n, "ecircumflex") {
        Some(144u8)
    } else if str_eq_chars(n, "edieresis") {
        Some(145u8)
    } else if str_eq_chars(n, "egrave") {
        Some(143u8)
    } else if str_eq_chars(n, "ellipsis") {
        Some(201u8)
    } else if str_eq_chars(n, "emdash") {
        Some(209u8)
    } else if str_eq_chars(n, "endash") {
        Some(208u8)
    } else if str_eq_chars(n, "exclamdown") {
        Some(193u8)
    } else if str_eq_chars(n, "fi") {
        Some(222u8)
    } else if str_eq_chars(n, "fl") {
        Some(223u8)
    } else if str_eq_chars(n, "florin") {
        Some(196u8)
    } else if str_eq_chars(n, "fraction") {
        Some(218u8)
    } else if str_eq_chars(n, "germandbls") {
        Some(167u8)
    } else if str_eq_chars(n, "grave") {
        Some(96u8)
    } else if str_eq_chars(n, "guillemotleft") {
        Some(199u8)
    } else if str_eq_chars(n, "guillemotright") {
        Some(200u8)
    } else if str_eq_chars(n, "guilsinglleft") {
        Some(220u8)
    } else if str_eq_chars(n, "guilsinglright") {
        Some(221u8)
    } else if str_eq_chars(n, "hungarumlaut") {
        Some(253u8)
    } else if str_eq_chars(n, "iacute") {
        Some(146u8)
    } else if str_eq_chars(n, "icircumflex") {
        Some(148u8)
    } else if str_eq_chars(n, "idieresis") {
        Some(149u8)
    } else if str_eq_chars(n, "igrave") {
        Some(147u8)
    } else if str_eq_chars(n, "logicalnot") {
        Some(194u8)
    } else if str_eq_chars(n, "macron") {
        Some(248u8)
    } else if str_eq_chars(n, "mu") {
        Some(181u8)
    } else if str_eq_chars(n, "ntilde") {
        Some(150u8)
    } else if str_eq_chars(n, "oacute") {
        Some(151u8)
    } else if str_eq_chars(n, "ocircumflex") {
        Some(153u8)
    } else if str_eq_chars(n, "odieresis") {
        Some(154u8)
    } else if str_eq_chars(n, "oe") {
        Some(207u8)
    } else if str_eq_chars(n, "ogonek") {
        Some(254u8)
    } else if str_eq_chars(n, "ograve") {
        Some(152u8)
    } else if str_eq_chars(n, "ordfeminine") {
        Some(187u8)
    } else if str_eq_chars(n, "ordmasculine") {
        Some(188u8)
    } else if str_eq_chars(n, "oslash") {
        Some(191u8)
    } else if str_eq_chars(n, "otilde") {
        Some(155u8)
    } else if str_eq_chars(n, "periodcentered") {
        Some(225u8)
    } else if str_eq_chars(n, "perthousand") {
        Some(228u8)
    } else if str_eq_chars(n, "plusminus") {
        Some(177u8)
    } else if str_eq_chars(n, "questiondown") {
        Some(192u8)
    } else if str_eq_chars(n, "quotedblbase") {
        Some(227u8)
    } else if str_eq_chars(n, "quotedblleft") {
        Some(210u8)
    } else if str_eq_chars(n, "quotedblright") {
        Some(211u8)
    } else if str_eq_chars(n, "quoteleft") {
        Some(212u8)
    } else if str_eq_chars(n, "quoteright") {
        Some(213u8)
    } else if str_eq_chars(n, "quotesinglebase") {
        Some(226u8)
    } else if str_eq_chars(n, "quotesingle") {
        Some(39u8)
    } else if str_eq_chars(n, "registered") {
        Some(168u8)
    } else {
        mac_name_code_c_x(n)
    }
}

/// MacRoman: code points by glyph name. (continued)
pub open spec fn mac_name_code_c(n: Seq<char>) -> Option<u8> {
    if n == "ring"@ {
        Some(251u8)
    } else if n == "section"@ {
        Some(164u8)
    } else if n == "tilde"@ {
        Some(247u8)
    } else if n == "trademark"@ {
        Some(170u8)
    } else if n == "uacute"@ {
        Some(156u8)
    } else if n == "ucircumflex"@ {
        Some(158u8)
    } else if n == "udieresis"@ {
        Some(159u8)
    } else if n == "ugrave"@ {
        Some(157u8)
    } else if n == "ydieres"@ {
        Some(216u8)
    } else if n == "yen"@ {
        Some(180u8)
    } else {
        None
    }
}

fn mac_name_code_c_x(n: &str) -> (r: Option<u8>)
    ensures
        r == mac_name_code_c(n@),
{
    if str_eq_chars(n, "ring") {
        Some(251u8)
    } else if str_eq_chars(n, "section") {
        Some(164u8)
    } else if str_eq_chars(n, "tilde") {
        Some(247u8)
    } else if str_eq_chars(n, "trademark") {
        Some(170u8)
    } else if str_eq_chars(n, "uacute") {
        Some(156u8)
    } else if str_eq_chars(n, "ucircumflex") {
        Some(158u8)
    } else if str_eq_chars(n, "udieresis") {
        Some(159u8)
    } else if str_eq_chars(n, "ugrave") {
        Some(157u8)
    } else if str_eq_chars(n, "ydieres") {
        Some(216u8)
    } else if str_eq_chars(n, "yen") {
        Some(180u8)
    } else {
        None
    }
}

/// Symbol: code points by glyph name.
pub open spec fn sym_name_code_a(n: Seq<char>) -> Option<u8> {
    if n == "space"@ {
        Some(32u8)
    } else if n == "exclam"@ {
        Some(33u8)
    } else if n == "universal"@ {
        Some(34u8)
    } else if n == "numbersign"@ {
        Some(35u8)
    } else if n == "existential"@ {
        Some(36u8)
    } else if n == "percent"@ {
        Some(37u8)
    } else if n == "ampersand"@ {
        Some(38u8)
    } else if n == "suchthat"@ {
        Some(39u8)
    } else if n == "parenleft"@ {
        Some(40u8)
    } else if n == "parenright"@ {
        Some(41u8)
    } else if n == "asteriskmath"@ {
        Some(42u8)
    } else if n == "plus"@ {
        Some(43u8)
    } else if n == "comma"@ {
        Some(44u8)
    } else if n == "minus"@ {
        Some(45u8)
    } else if n == "period"@ {
        Some(46u8)
    } else if n == "slash"@ {
        Some(47u8)
    } else if n == "zero"@ {
        Some(48u8)
    } else if n == "one"@ {
        Some(49u8)
    } else if n == "two"@ {
        Some(50u8)
    } else if n == "three"@ {
        Some(51u8)
    } else if n == "four"@ {
        Some(52u8)
    } else if n == "five"@ {
        Some(53u8)
    } else if n == "six"@ {
        Some(54u8)
    } else if n == "seven"@ {
        Some(55u8)
    } else if n == "eight"@ {
        Some(56u8)
    } else if n == "nine"@ {
        Some(57u8)
    } else if n == "colon"@ {
        Some(58u8)
    } else if n == "semicolon"@ {
        Some(59u8)
    } else if n == "less"@ {
        Some(60u8)
    } else if n == "equal"@ {
        Some(61u8)
    } else if n == "greater"@ {
        Some(62u8)
    } else if n == "question"@ {
        Some(63u8)
    } else if n == "congruent"@ {
        Some(64u8)
    } else if n == "Alpha"@ {
        Some(65u8)
    } else if n == "Beta"@ {
        Some(66u8)
    } else if n == "Chi"@ {
        Some(67u8)
    } else if n == "Delta"@ {
        Some(68u8)
    } else if n == "Epsilon"@ {
        Some(69u8)
    } else if n == "Phi"@ {
        Some(70u8)
    } else if n == "Gamma"@ {
        Some(71u8)
    } else if n == "Eta"@ {
        Some(72u8)
    } else if n == "Iota"@ {
        Some(73u8)
    } else if n == "theta1"@ {
        Some(74u8)
    } else if n == "Kappa"@ {
        Some(75u8)
    } else if n == "Lambda"@ {
        Some(76u8)
    } else if n == "Mu"@ {
        Some(77u8)
    } else if n == "Nu"@ {
        Some(78u8)
    } else if n == "Omicron"@ {
        Some(79u8)
    } else if n == "Pi"@ {
        Some(80u8)
    } else if n == "Theta"@ {
        Some(81u8)
    } else {
        sym_name_code_b(n)
    }
}

fn sym_name_code_a_x(n: &str) -> (r: Option<u8>)
    ensures
        r == sym_name_code_a(n@),
{
    if str_eq_chars(n, "space") {
        Some(32u8)
    } else if str_eq_chars(n, "exclam") {
        Some(33u8)
    } else if str_eq_chars(n, "universal") {
        Some(34u8)
    } else if str_eq_chars(n, "numbersign") {
        Some(35u8)
    } else if str_eq_chars(n, "existential") {
        Some(36u8)
    } else if str_eq_chars(n, "percent") {
        Some(37u8)
    } else if str_eq_chars(n, "ampersand") {
        Some(38u8)
    } else if str_eq_chars(n, "suchthat") {
        Some(39u8)
    } else if str_eq_chars(n, "parenleft") {
        Some(40u8)
    } else if str_eq_chars(n, "parenright") {
        Some(41u8)
    } else if str_eq_chars(n, "asteriskmath") {
        Some(42u8)
    } else if str_eq_chars(n, "plus") {
        Some(43u8)
    } else if str_eq_chars(n, "comma") {
        Some(44u8)
    } else if str_eq_chars(n, "minus") {
        Some(45u8)
    } else if str_eq_chars(n, "period") {
        Some(46u8)
    } else if str_eq_chars(n, "slash") {
        Some(47u8)
    } else if str_eq_chars(n, "zero") {
        Some(48u8)
    } else if str_eq_chars(n, "one") {
        Some(49u8)
    } else if str_eq_chars(n, "two") {
        Some(50u8)
    } else if str_eq_chars(n, "three") {
        Some(51u8)
    } else if str_eq_chars(n, "four") {
        Some(52u8)
    } else if str_eq_chars(n, "five") {
        Some(53u8)
    } else if str_eq_chars(n, "six") {
        Some(54u8)
    } else if str_eq_chars(n, "seven") {
        Some(55u8)
    } else if str_eq_chars(n, "eight") {
        Some(56u8)
    } else if str_eq_chars(n, "nine") {
        Some(57u8)
    } else if str_eq_chars(n, "colon") {
        Some(58u8)
    } else if str_eq_chars(n, "semicolon") {
        Some(59u8)
    } else if str_eq_chars(n, "less") {
        Some(60u8)
    } else if str_eq_chars(n, "equal") {
        Some(61u8)
    } else if str_eq_chars(n, "greater") {
        Some(62u8)
    } else if str_eq_chars(n, "question") {
        Some(63u8)
    } else if str_eq_chars(n, "congruent") {
        Some(64u8)
    } else if str_eq_chars(n, "Alpha") {
        Some(65u8)
    } else if str_eq_chars(n, "Beta") {
        Some(66u8)
    } else if str_eq_chars(n, "Chi") {
        Some(67u8)
    } else if str_eq_chars(n, "Delta") {
        Some(68u8)
    } else if str_eq_chars(n, "Epsilon") {
        Some(69u8)
    } else if str_eq_chars(n, "Phi") {
        Some(70u8)
    } else if str_eq_chars(n, "Gamma") {
        Some(71u8)
    } else if str_eq_chars(n, "Eta") {
        Some(72u8)
    } else if str_eq_chars(n, "Iota") {
        Some(73u8)
    } else if str_eq_chars(n, "theta1") {
        Some(74u8)
    } else if str_eq_chars(n, "Kappa") {
        Some(75u8)
    } else if str_eq_chars(n, "Lambda") {
        Some(76u8)
    } else if str_eq_chars(n, "Mu") {
        Some(77u8)
    } else if str_eq_chars(n, "Nu") {
        Some(78u8)
    } else if str_eq_chars(n, "Omicron") {
        Some(79u8)
    } else if str_eq_chars(n, "Pi") {
        Some(80u8)
    } else if str_eq_chars(n, "Theta") {
        Some(81u8)
    } else {
        sym_name_code_b_x(n)
    }
}

/// Symbol: code points by glyph name. (continued)
pub open spec fn sym_name_code_b(n: Seq<char>) -> Option<u8> {
    if n == "Rho"@ {
        Some(82u8)
    } else if n == "Sigma"@ {
        Some(83u8)
    } else if n == "Tau"@ {
        Some(84u8)
    } else if n == "Upsilon"@ {
        Some(85u8)
    } else if n == "sigma1"@ {
        Some(86u8)
    } else if n == "Omega"@ {
        Some(87u8)
    } else if n == "Xi"@ {
        Some(88u8)
    } else if n == "Psi"@ {
        Some(89u8)
    } else if n == "Zeta"@ {
        Some(90u8)
    } else if n == "bracketleft"@ {
        Some(91u8)
    } else if n == "therefore"@ {
        Some(92u8)
    } else if n == "bracketright"@ {
        Some(93u8)
    } else if n == "perpendicular"@ {
        Some(94u8)
    } else if n == "underscore"@ {
        Some(95u8)
    } else if n == "radicalex"@ {
        Some(96u8)
    } else if n == "alpha"@ {
        Some(97u8)
    } else if n == "beta"@ {
        Some(98u8)
    } else if n == "chi"@ {
        Some(99u8)
    } else if n == "delta"@ {
        Some(100u8)
    } else if n == "epsilon"@ {
        Some(101u8)
    } else if n == "phi"@ {
        Some(102u8)
    } else if n == "gamma"@ {
        Some(103u8)
    } else if n == "eta"@ {
        Some(104u8)
    } else if n == "iota"@ {
        Some(105u8)
    } else if n == "phi1"@ {
        Some(106u8)
    } else if n == "kappa"@ {
        Some(107u8)
    } else if n == "lambda"@ {
        Some(108u8)
    } else if n == "mu"@ {
        Some(109u8)
    } else if n == "nu"@ {
        Some(110u8)
    } else if n == "omicron"@ {
        Some(111u8)
    } else if n == "pi"@ {
        Some(112u8)
    } else if n == "theta"@ {
        Some(113u8)
    } else if n == "rho"@ {
        Some(114u8)
    } else if n == "sigma"@ {
        Some(115u8)
    } else if n == "tau"@ {
        Some(116u8)
    } else if n == "upsilon"@ {
        Some(117u8)
    } else if n == "omega1"@ {
        Some(118u8)
    } else if n == "omega"@ {
        Some(119u8)
    } else if n == "xi"@ {
        Some(120u8)
    } else if n == "psi"@ {
        Some(121u8)
    } else if n == "zeta"@ {
        Some(122u8)
    } else if n == "braceleft"@ {
        Some(123u8)
    } else if n == "bar"@ {
        Some(124u8)
    } else if n == "braceright"@ {
        Some(125u8)
    } else if n == "similar"@ {
        Some(126u8)
    } else if n == "Euro"@ {
        Some(160u8)
    } else if n == "Upsilon1"@ {
        Some(161u8)
    } else if n == "minute"@ {
        Some(162u8)
    } else if n == "lessequal"@ {
        Some(163u8)
    } else if n == "fraction"@ {
        Some(164u8)
    } else {
        sym_name_code_c(n)
    }
}

fn sym_name_code_b_x(n: &str) -> (r: Option<u8>)
    ensures
        r == sym_name_code_b(n@),
{
    if str_eq_chars(n, "Rho") {
        Some(82u8)
    } else if str_eq_chars(n, "Sigma") {
        Some(83u8)
    } else if str_eq_chars(n, "Tau") {
        Some(84u8)
    } else if str_eq_chars(n, "Upsilon") {
        Some(85u8)
    } else if str_eq_chars(n, "sigma1") {
        Some(86u8)
    } else if str_eq_chars(n, "Omega") {
        Some(87u8)
    } else if str_eq_chars(n, "Xi") {
        Some(88u8)
    } else if str_eq_chars(n, "Psi") {
        Some(89u8)
    } else if str_eq_chars(n, "Zeta") {
        Some(90u8)
    } else if str_eq_chars(n, "bracketleft") {
        Some(91u8)
    } else if str_eq_chars(n, "therefore") {
        Some(92u8)
    } else if str_eq_chars(n, "bracketright") {
        Some(93u8)
    } else if str_eq_chars(n, "perpendicular") {
        Some(94u8)
    } else if str_eq_chars(n, "underscore") {
        Some(95u8)
    } else if str_eq_chars(n, "radicalex") {
        Some(96u8)
    } else if str_eq_chars(n, "alpha") {
        Some(97u8)
    } else if str_eq_chars(n, "beta") {
        Some(98u8)
    } else if str_eq_chars(n, "chi") {
        Some(99u8)
    } else if str_eq_chars(n, "delta") {
        Some(100u8)
    } else if str_eq_chars(n, "epsilon") {
        Some(101u8)
    } else if str_eq_chars(n, "phi") {
        Some(102u8)
    } else if str_eq_chars(n, "gamma") {
        Some(103u8)
    } else if str_eq_chars(n, "eta") {
        Some(104u8)
    } else if str_eq_chars(n, "iota") {
        Some(105u8)
    } else if str_eq_chars(n, "phi1") {
        Some(106u8)
    } else if str_eq_chars(n, "kappa") {
        Some(107u8)
    } else if str_eq_chars(n, "lambda") {
        Some(108u8)
    } else if str_eq_chars(n, "mu") {
        Some(109u8)
    } else if str_eq_chars(n, "nu") {
        Some(110u8)
    } else if str_eq_chars(n, "omicron") {
        Some(111u8)
    } else if str_eq_chars(n, "pi") {
        Some(112u8)
    } else if str_eq_chars(n, "theta") {
        Some(113u8)
    } else if str_eq_chars(n, "rho") {
        Some(114u8)
    } else if str_eq_chars(n, "sigma") {
        Some(115u8)
    } else if str_eq_chars(n, "tau") {
        Some(116u8)
    } else if str_eq_chars(n, "upsilon") {
        Some(117u8)
    } else if str_eq_chars(n, "omega1") {
        Some(118u8)
    } else if str_eq_chars(n, "omega") {
        Some(119u8)
    } else if str_eq_chars(n, "xi") {
        Some(120u8)
    } else if str_eq_chars(n, "psi") {
        Some(121u8)
    } else if str_eq_chars(n, "zeta") {
        Some(122u8)
    } else if str_eq_chars(n, "braceleft") {
        Some(123u8)
    } else if str_eq_chars(n, "bar") {
        Some(124u8)
    } else if str_eq_chars(n, "braceright") {
        Some(125u8)
    } else if str_eq_chars(n, "similar") {
        Some(126u8)
    } else if str_eq_chars(n, "Euro") {
        Some(160u8)
    } else if str_eq_chars(n, "Upsilon1") {
        Some(161u8)
    } else if str_eq_chars(n, "minute") {
        Some(162u8)
    } else if str_eq_chars(n, "lessequal") {
        Some(163u8)
    } else if str_eq_chars(n, "fraction") {
        Some(164u8)
    } else {
        sym_name_code_c_x(n)
    }
}

/// Symbol: code points by glyph name. (continued)
pub open spec fn sym_name_code_c(n: Seq<char>) -> Option<u8> {
    if n == "infinity"@ {
        Some(165u8)
    } else if n == "florin"@ {
        Some(166u8)
    } else if n == "club"@ {
        Some(167u8)
    } else if n == "diamond"@ {
        Some(168u8)
    } else if n == "heart"@ {
        Some(169u8)
    } else if n == "spade"@ {
        Some(170u8)
    } else if n == "arrowboth"@ {
        Some(171u8)
    } else if n == "arrowleft"@ {
        Some(172u8)
    } else if n == "arrowup"@ {
        Some(173u8)
    } else if n == "arrowright"@ {
        Some(174u8)
    } else if n == "arrowdown"@ {
        Some(175u8)
    } else if n == "degree"@ {
        Some(176u8)
    } else if n == "plusminus"@ {
        Some(177u8)
    } else if n == "second"@ {
        Some(178u8)
    } else if n == "greaterequal"@ {
        Some(179u8)
    } else if n == "multiply"@ {
        Some(180u8)
    } else if n == "proportional"@ {
        Some(181u8)
    } else if n == "partialdiff"@ {
        Some(182u8)
    } else if n == "bullet"@ {
        Some(183u8)
    } else if n == "divide"@ {
        Some(184u8)
    } else if n == "notequal"@ {
        Some(185u8)
    } else if n == "equivalence"@ {
        Some(186u8)
    } else if n == "approxequal"@ {
        Some(187u8)
    } else if n == "ellipsis"@ {
        Some(188u8)
    } else if n == "arrowvertex"@ {
        Some(189u8)
    } else if n == "arrowhorizex"@ {
        Some(190u8)
    } else if n == "carriagereturn"@ {
        Some(191u8)
    } else if n == "aleph"@ {
        Some(192u8)
    } else if n == "Ifraktur"@ {
        Some(193u8)
    } else if n == "Rfraktur"@ {
        Some(194u8)
    } else if n == "weierstrass"@ {
        Some(195u8)
    } else if n == "circlemultiply"@ {
        Some(196u8)
    } else if n == "circleplus"@ {
        Some(197u8)
    } else if n == "emptyset"@ {
        Some(198u8)
    } else if n == "intersection"@ {
        Some(199u8)
    } else if n == "union"@ {
        Some(200u8)
    } else if n == "propersuperset"@ {
        Some(201u8)
    } else if n == "reflexsuperset"@ {
        Some(202u8)
    } else if n == "notsubset"@ {
        Some(203u8)
    } else if n == "propersubset"@ {
        Some(204u8)
    } else if n == "reflexsubset"@ {
        Some(205u8)
    } else if n == "element"@ {
        Some(206u8)
    } else if n == "notelement"@ {
        Some(207u8)
    } else if n == "angle"@ {
        Some(208u8)
    } else if n == "gradient"@ {
        Some(209u8)
    } else if n == "registerserif"@ {
        Some(210u8)
    } else if n == "copyrightserif"@ {
        Some(211u8)
    } else if n == "trademarkserif"@ {
        Some(212u8)
    } else if n == "product"@ {
        Some(213u8)
    } else if n == "radical"@ {
        Some(214u8)
    } else {
        sym_name_code_d(n)
    }
}

fn sym_name_code_c_x(n: &str) -> (r: Option<u8>)
    ensures
        r == sym_name_code_c(n@),
{
    if str_eq_chars(n, "infinity") {
        Some(165u8)
    } else if str_eq_chars(n, "florin") {
        Some(166u8)
    } else if str_eq_chars(n, "club") {
        Some(167u8)
    } else if str_eq_chars(n, "diamond") {
        Some(168u8)
    } else if str_eq_chars(n, "heart") {
        Some(169u8)
    } else if str_eq_chars(n, "spade") {
        Some(170u8)
    } else if str_eq_chars(n, "arrowboth") {
        Some(171u8)
    } else if str_eq_chars(n, "arrowleft") {
        Some(172u8)
    } else if str_eq_chars(n, "arrowup") {
        Some(173u8)
    } else if str_eq_chars(n, "arrowright") {
        Some(174u8)
    } else if str_eq_chars(n, "arrowdown") {
        Some(175u8)
    } else if str_eq_chars(n, "degree") {
        Some(176u8)
    } else if str_eq_chars(n, "plusminus") {
        Some(177u8)
    } else if str_eq_chars(n, "second") {
        Some(178u8)
    } else if str_eq_chars(n, "greaterequal") {
        Some(179u8)
    } else if str_eq_chars(n, "multiply") {
        Some(180u8)
    } else if str_eq_chars(n, "proportional") {
        Some(181u8)
    } else if str_eq_chars(n, "partialdiff") {
        Some(182u8)
    } else if str_eq_chars(n, "bullet") {
        Some(183u8)
    } else if str_eq_chars(n, "divide") {
        Some(184u8)
    } else if str_eq_chars(n, "notequal") {
        Some(185u8)
    } else if str_eq_chars(n, "equivalence") {
        Some(186u8)
    } else if str_eq_chars(n, "approxequal") {
        Some(187u8)
    } else if str_eq_chars(n, "ellipsis") {
        Some(188u8)
    } else if str_eq_chars(n, "arrowvertex") {
        Some(189u8)
    } else if str_eq_chars(n, "arrowhorizex") {
        Some(190u8)
    } else if str_eq_chars(n, "carriagereturn") {
        Some(191u8)
    } else if str_eq_chars(n, "aleph") {
        Some(192u8)
    } else if str_eq_chars(n, "Ifraktur") {
        Some(193u8)
    } else if str_eq_chars(n, "Rfraktur") {
        Some(194u8)
    } else if str_eq_chars(n, "weierstrass") {
        Some(195u8)
    } else if str_eq_chars(n, "circlemultiply") {
        Some(196u8)
    } else if str_eq_chars(n, "circleplus") {
        Some(197u8)
    } else if str_eq_chars(n, "emptyset") {
        Some(198u8)
    } else if str_eq_chars(n, "intersection") {
        Some(199u8)
    } else if str_eq_chars(n, "union") {
        Some(200u8)
    } else if str_eq_chars(n, "propersuperset") {
        Some(201u8)
    } else if str_eq_chars(n, "reflexsuperset") {
        Some(202u8)
    } else if str_eq_chars(n, "notsubset") {
        Some(203u8)
    } else if str_eq_chars(n, "propersubset") {
        Some(204u8)
    } else if str_eq_chars(n, "reflexsubset") {
        Some(205u8)
    } else if str_eq_chars(n, "element") {
        Some(206u8)
    } else if str_eq_chars(n, "notelement") {
        Some(207u8)
    } else if str_eq_chars(n, "angle") {
        Some(208u8)
    } else if str_eq_chars(n, "gradient") {
        Some(209u8)
    } else if str_eq_chars(n, "registerserif") {
        Some(210u8)
    } else if str_eq_chars(n, "copyrightserif") {
        Some(211u8)
    } else if str_eq_chars(n, "trademarkserif") {
        Some(212u8)
    } else if str_eq_chars(n, "product") {
        Some(213u8)
    } else if str_eq_chars(n, "radical") {
        Some(214u8)
    } else {
        sym_name_code_d_x(n)
    }
}

/// Symbol: code points by glyph name. (continued)
pub open spec fn sym_name_code_d(n: Seq<char>) -> Option<u8> {
    if n == "dotmath"@ {
        Some(215u8)
    } else if n == "logicalnot"@ {
        Some(216u8)
    } else if n == "logicaland"@ {
        Some(217u8)
    } else if n == "logicalor"@ {
        Some(218u8)
    } else if n == "arrowdblboth"@ {
        Some(219u8)
    } else if n == "arrowdblleft"@ {
        Some(220u8)
    } else if n == "arrowdblup"@ {
        Some(221u8)
    } else if n == "arrowdblright"@ {
        Some(222u8)
    } else if n == "arrowdbldown"@ {
        Some(223u8)
    } else if n == "lozenge"@ {
        Some(224u8)
    } else if n == "angleleft"@ {
        Some(225u8)
    } else if n == "registersans"@ {
        Some(226u8)
    } else if n == "copyrightsans"@ {
        Some(227u8)
    } else if n == "trademarksans"@ {
        Some(228u8)
    } else if n == "summation"@ {
        Some(229u8)
    } else if n == "parenlefttp"@ {
        Some(230u8)
    } else if n == "parenleftex"@ {
        Some(231u8)
    } else if n == "parenleftbt"@ {
        Some(232u8)
    } else if n == "bracketlefttp"@ {
        Some(233u8)
    } else if n == "bracketleftex"@ {
        Some(234u8)
    } else if n == "bracketleftbt"@ {
        Some(235u8)
    } else if n == "bracelefttp"@ {
        Some(236u8)
    } else if n == "braceleftmid"@ {
        Some(237u8)
    } else if n == "braceleftbt"@ {
        Some(238u8)
    } else if n == "braceex"@ {
        Some(239u8)
    } else if n == "angleright"@ {
        Some(241u8)
    } else if n == "integral"@ {
        Some(242u8)
    } else if n == "integraltp"@ {
        Some(243u8)
    } else if n == "integralex"@ {
        Some(244u8)
    } else if n == "integralbt"@ {
        Some(245u8)
    } else if n == "parenrighttp"@ {
        Some(246u8)
    } else if n == "parenrightex"@ {
        Some(247u8)
    } else if n == "parenrightbt"@ {
        Some(248u8)
    } else if n == "bracketrighttp"@ {
        Some(249u8)
    } else if n == "bracketrightex"@ {
        Some(250u8)
    } else if n == "bracketrightbt"@ {
        Some(251u8)
    } else if n == "bracerighttp"@ {
        Some(252u8)
    } else if n == "bracerightmid"@ {
        Some(253u8)
    } else if n == "bracerightbt"@ {
        Some(254u8)
    } else {
        None
    }
}

fn sym_name_code_d_x(n: &str) -> (r: Option<u8>)
    ensures
        r == sym_name_code_d(n@),
{
    if str_eq_chars(n, "dotmath") {
        Some(215u8)
    } else if str_eq_chars(n, "logicalnot") {
        Some(216u8)
    } else if str_eq_chars(n, "logicaland") {
        Some(217u8)
    } else if str_eq_chars(n, "logicalor") {
        Some(218u8)
    } else if str_eq_chars(n, "arrowdblboth") {
        Some(219u8)
    } else if str_eq_chars(n, "arrowdblleft") {
        Some(220u8)
    } else if str_eq_chars(n, "arrowdblup") {
        Some(221u8)
    } else if str_eq_chars(n, "arrowdblright") {
        Some(222u8)
    } else if str_eq_chars(n, "arrowdbldown") {
        Some(223u8)
    } else if str_eq_chars(n, "lozenge") {
        Some(224u8)
    } else if str_eq_chars(n, "angleleft") {
        Some(225u8)
    } else if str_eq_chars(n, "registersans") {
        Some(226u8)
    } else if str_eq_chars(n, "copyrightsans") {
        Some(227u8)
    } else if str_eq_chars(n, "trademarksans") {
        Some(228u8)
    } else if str_eq_chars(n, "summation") {
        Some(229u8)
    } else if str_eq_chars(n, "parenlefttp") {
        Some(230u8)
    } else if str_eq_chars(n, "parenleftex") {
        Some(231u8)
    } else if str_eq_chars(n, "parenleftbt") {
        Some(232u8)
    } else if str_eq_chars(n, "bracketlefttp") {
        Some(233u8)
    } else if str_eq_chars(n, "bracketleftex") {
        Some(234u8)
    } else if str_eq_chars(n, "bracketleftbt") {
        Some(235u8)
    } else if str_eq_chars(n, "bracelefttp") {
        Some(236u8)
    } else if str_eq_chars(n, "braceleftmid") {
        Some(237u8)
    } else if str_eq_chars(n, "braceleftbt") {
        Some(238u8)
    } else if str_eq_chars(n, "braceex") {
        Some(239u8)
    } else if str_eq_chars(n, "angleright") {
        Some(241u8)
    } else if str_eq_chars(n, "integral") {
        Some(242u8)
    } else if str_eq_chars(n, "integraltp") {
        Some(243u8)
    } else if str_eq_chars(n, "integralex") {
        Some(244u8)
    } else if str_eq_chars(n, "integralbt") {
        Some(245u8)
    } else if str_eq_chars(n, "parenrighttp") {
        Some(246u8)
    } else if str_eq_chars(n, "parenrightex") {
        Some(247u8)
    } else if str_eq_chars(n, "parenrightbt") {
        Some(248u8)
    } else if str_eq_chars(n, "bracketrighttp") {
        Some(249u8)
    } else if str_eq_chars(n, "bracketrightex") {
        Some(250u8)
    } else if str_eq_chars(n, "bracketrightbt") {
        Some(251u8)
    } else if str_eq_chars(n, "bracerighttp") {
        Some(252u8)
    } else if str_eq_chars(n, "bracerightmid") {
        Some(253u8)
    } else if str_eq_chars(n, "bracerightbt") {
        Some(254u8)
    } else {
        None
    }
}

/// ZapfDingbats: code points by glyph name.
pub open spec fn zapf_name_code_a(n: Seq<char>) -> Option<u8> {
    if n == "space"@ {
        Some(32u8)
    } else if n == "a1"@ {
        Some(33u8)
    } else if n == "a2"@ {
        Some(34u8)
    } else if n == "a202"@ {
        Some(35u8)
    } else if n == "a3"@ {
        Some(36u8)
    } else if n == "a4"@ {
        Some(37u8)
    } else if n == "a5"@ {
        Some(38u8)
    } else if n == "a119"@ {
        Some(39u8)
    } else if n == "a118"@ {
        Some(40u8)
    } else if n == "a117"@ {
        Some(41u8)
    } else if n == "a11"@ {
        Some(42u8)
    } else if n == "a12"@ {
        Some(43u8)
    } else if n == "a13"@ {
        Some(44u8)
    } else if n == "a14"@ {
        Some(45u8)
    } else if n == "a15"@ {
        Some(46u8)
    } else if n == "a16"@ {
        Some(47u8)
    } else if n == "a105"@ {
        Some(48u8)
    } else if n == "a17"@ {
        Some(49u8)
    } else if n == "a18"@ {
        Some(50u8)
    } else if n == "a19"@ {
        Some(51u8)
    } else if n == "a20"@ {
        Some(52u8)
    } else if n == "a21"@ {
        Some(53u8)
    } else if n == "a22"@ {
        Some(54u8)
    } else if n == "a23"@ {
        Some(55u8)
    } else if n == "a24"@ {
        Some(56u8)
    } else if n == "a25"@ {
        Some(57u8)
    } else if n == "a26"@ {
        Some(58u8)
    } else if n == "a27"@ {
        Some(59u8)
    } else if n == "a28"@ {
        Some(60u8)
    } else if n == "a6"@ {
        Some(61u8)
    } else if n == "a7"@ {
        Some(62u8)
    } else if n == "a8"@ {
        Some(63u8)
    } else if n == "a9"@ {
        Some(64u8)
    } else if n == "a10"@ {
        Some(65u8)
    } else if n == "a29"@ {
        Some(66u8)
    } else if n == "a30"@ {
        Some(67u8)
    } else if n == "a31"@ {
        Some(68u8)
    } else if n == "a32"@ {
        Some(69u8)
    } else if n == "a33"@ {
        Some(70u8)
    } else if n == "a34"@ {
        Some(71u8)
    } else if n == "a35"@ {
        Some(72u8)
    } else if n == "a36"@ {
        Some(73u8)
    } else if n == "a37"@ {
        Some(74u8)
    } else if n == "a38"@ {
        Some(75u8)
    } else if n == "a39"@ {
        Some(76u8)
    } else if n == "a40"@ {
        Some(77u8)
    } else if n == "a41"@ {
        Some(78u8)
    } else if n == "a42"@ {
        Some(79u8)
    } else if n == "a43"@ {
        Some(80u8)
    } else if n == "a44"@ {
        Some(81u8)
    } else {
        zapf_name_code_b(n)
    }
}

fn zapf_name_code_a_x(n: &str) -> (r: Option<u8>)
    ensures
        r == zapf_name_code_a(n@),
{
    if str_eq_chars(n, "space") {
        Some(32u8)
    } else if str_eq_chars(n, "a1") {
        Some(33u8)
    } else if str_eq_chars(n, "a2") {
        Some(34u8)
    } else if str_eq_chars(n, "a202") {
        Some(35u8)
    } else if str_eq_chars(n, "a3") {
        Some(36u8)
    } else if str_eq_chars(n, "a4") {
        Some(37u8)
    } else if str_eq_chars(n, "a5") {
        Some(38u8)
    } else if str_eq_chars(n, "a119") {
        Some(39u8)
    } else if str_eq_chars(n, "a118") {
        Some(40u8)
    } else if str_eq_chars(n, "a117") {
        Some(41u8)
    } else if str_eq_chars(n, "a11") {
        Some(42u8)
    } else if str_eq_chars(n, "a12") {
        Some(43u8)
    } else if str_eq_chars(n, "a13") {
        Some(44u8)
    } else if str_eq_chars(n, "a14") {
        Some(45u8)
    } else if str_eq_chars(n, "a15") {
        Some(46u8)
    } else if str_eq_chars(n, "a16") {
        Some(47u8)
    } else if str_eq_chars(n, "a105") {
        Some(48u8)
    } else if str_eq_chars(n, "a17") {
        Some(49u8)
    } else if str_eq_chars(n, "a18") {
        Some(50u8)
    } else if str_eq_chars(n, "a19") {
        Some(51u8)
    } else if str_eq_chars(n, "a20") {
        Some(52u8)
    } else if str_eq_chars(n, "a21") {
        Some(53u8)
    } else if str_eq_chars(n, "a22") {
        Some(54u8)
    } else if str_eq_chars(n, "a23") {
        Some(55u8)
    } else if str_eq_chars(n, "a24") {
        Some(56u8)
    } else if str_eq_chars(n, "a25") {
        Some(57u8)
    } else if str_eq_chars(n, "a26") {
        Some(58u8)
    } else if str_eq_chars(n, "a27") {
        Some(59u8)
    } else if str_eq_chars(n, "a28") {
        Some(60u8)
    } else if str_eq_chars(n, "a6") {
        Some(61u8)
    } else if str_eq_chars(n, "a7") {
        Some(62u8)
    } else if str_eq_chars(n, "a8") {
        Some(63u8)
    } else if str_eq_chars(n, "a9") {
        Some(64u8)
    } else if str_eq_chars(n, "a10") {
        Some(65u8)
    } else if str_eq_chars(n, "a29") {
        Some(66u8)
    } else if str_eq_chars(n, "a30") {
        Some(67u8)
    } else if str_eq_chars(n, "a31") {
        Some(68u8)
    } else if str_eq_chars(n, "a32") {
        Some(69u8)
    } else if str_eq_chars(n, "a33") {
        Some(70u8)
    } else if str_eq_chars(n, "a34") {
        Some(71u8)
    } else if str_eq_chars(n, "a35") {
        Some(72u8)
    } else if str_eq_chars(n, "a36") {
        Some(73u8)
    } else if str_eq_chars(n, "a37") {
        Some(74u8)
    } else if str_eq_chars(n, "a38") {
        Some(75u8)
    } else if str_eq_chars(n, "a39") {
        Some(76u8)
    } else if str_eq_chars(n, "a40") {
        Some(77u8)
    } else if str_eq_chars(n, "a41") {
        Some(78u8)
    } else if str_eq_chars(n, "a42") {
        Some(79u8)
    } else if str_eq_chars(n, "a43") {
        Some(80u8)
    } else if str_eq_chars(n, "a44") {
        Some(81u8)
    } else {
        zapf_name_code_b_x(n)
    }
}

/// ZapfDingbats: code points by glyph name. (continued)
pub open spec fn zapf_name_code_b(n: Seq<char>) -> Option<u8> {
    if n == "a45"@ {
        Some(82u8)
    } else if n == "a46"@ {
        Some(83u8)
    } else if n == "a47"@ {
        Some(84u8)
    } else if n == "a48"@ {
        Some(85u8)
    } else if n == "a49"@ {
        Some(86u8)
    } else if n == "a50"@ {
        Some(87u8)
    } else if n == "a51"@ {
        Some(88u8)
    } else if n == "a52"@ {
        Some(89u8)
    } else if n == "a53"@ {
        Some(90u8)
    } else if n == "a54"@ {
        Some(91u8)
    } else if n == "a55"@ {
        Some(92u8)
    } else if n == "a56"@ {
        Some(93u8)
    } else if n == "a57"@ {
        Some(94u8)
    } else if n == "a58"@ {
        Some(95u8)
    } else if n == "a59"@ {
        Some(96u8)
    } else if n == "a60"@ {
        Some(97u8)
    } else if n == "a61"@ {
        Some(98u8)
    } else if n == "a62"@ {
        Some(99u8)
    } else if n == "a63"@ {
        Some(100u8)
    } else if n == "a64"@ {
        Some(101u8)
    } else if n == "a65"@ {
        Some(102u8)
    } else if n == "a66"@ {
        Some(103u8)
    } else if n == "a67"@ {
        Some(104u8)
    } else if n == "a68"@ {
        Some(105u8)
    } else if n == "a69"@ {
        Some(106u8)
    } else if n == "a70"@ {
        Some(107u8)
    } else if n == "a71"@ {
        Some(108u8)
    } else if n == "a72"@ {
        Some(109u8)
    } else if n == "a73"@ {
        Some(110u8)
    } else if n == "a74"@ {
        Some(111u8)
    } else if n == "a203"@ {
        Some(112u8)
    } else if n == "a75"@ {
        Some(113u8)
    } else if n == "a204"@ {
        Some(114u8)
    } else if n == "a76"@ {
        Some(115u8)
    } else if n == "a77"@ {
        Some(116u8)
    } else if n == "a78"@ {
        Some(117u8)
    } else if n == "a79"@ {
        Some(118u8)
    } else if n == "a81"@ {
        Some(119u8)
    } else if n == "a82"@ {
        Some(120u8)
    } else if n == "a83"@ {
        Some(121u8)
    } else if n == "a84"@ {
        Some(122u8)
    } else if n == "a97"@ {
        Some(123u8)
    } else if n == "a98"@ {
        Some(124u8)
    } else if n == "a99"@ {
        Some(125u8)
    } else if n == "a100"@ {
        Some(126u8)
    } else if n == "a89"@ {
        Some(128u8)
    } else if n == "a90"@ {
        Some(129u8)
    } else if n == "a93"@ {
        Some(130u8)
    } else if n == "a94"@ {
        Some(131u8)
    } else if n == "a91"@ {
        Some(132u8)
    } else {
        zapf_name_code_c(n)
    }
}

fn zapf_name_code_b_x(n: &str) -> (r: Option<u8>)
    ensures
        r == zapf_name_code_b(n@),
{
    if str_eq_chars(n, "a45") {
        Some(82u8)
    } else if str_eq_chars(n, "a46") {
        Some(83u8)
    } else if str_eq_chars(n, "a47") {
        Some(84u8)
    } else if str_eq_chars(n, "a48") {
        Some(85u8)
    } else if str_eq_chars(n, "a49") {
        Some(86u8)
    } else if str_eq_chars(n, "a50") {
        Some(87u8)
    } else if str_eq_chars(n, "a51") {
        Some(88u8)
    } else if str_eq_chars(n, "a52") {
        Some(89u8)
    } else if str_eq_chars(n, "a53") {
        Some(90u8)
    } else if str_eq_chars(n, "a54") {
        Some(91u8)
    } else if str_eq_chars(n, "a55") {
        Some(92u8)
    } else if str_eq_chars(n, "a56") {
        Some(93u8)
    } else if str_eq_chars(n, "a57") {
        Some(94u8)
    } else if str_eq_chars(n, "a58") {
        Some(95u8)
    } else if str_eq_chars(n, "a59") {
        Some(96u8)
    } else if str_eq_chars(n, "a60") {
        Some(97u8)
    } else if str_eq_chars(n, "a61") {
        Some(98u8)
    } else if str_eq_chars(n, "a62") {
        Some(99u8)
    } else if str_eq_chars(n, "a63") {
        Some(100u8)
    } else if str_eq_chars(n, "a64") {
        Some(101u8)
    } else if str_eq_chars(n, "a65") {
        Some(102u8)
    } else if str_eq_chars(n, "a66") {
        Some(103u8)
    } else if str_eq_chars(n, "a67") {
        Some(104u8)
    } else if str_eq_chars(n, "a68") {
        Some(105u8)
    } else if str_eq_chars(n, "a69") {
        Some(106u8)
    } else if str_eq_chars(n, "a70") {
        Some(107u8)
    } else if str_eq_chars(n, "a71") {
        Some(108u8)
    } else if str_eq_chars(n, "a72") {
        Some(109u8)
    } else if str_eq_chars(n, "a73") {
        Some(110u8)
    } else if str_eq_chars(n, "a74") {
        Some(111u8)
    } else if str_eq_chars(n, "a203") {
        Some(112u8)
    } else if str_eq_chars(n, "a75") {
        Some(113u8)
    } else if str_eq_chars(n, "a204") {
        Some(114u8)
    } else if str_eq_chars(n, "a76") {
        Some(115u8)
    } else if str_eq_chars(n, "a77") {
        Some(116u8)
    } else if str_eq_chars(n, "a78") {
        Some(117u8)
    } else if str_eq_chars(n, "a79") {
        Some(118u8)
    } else if str_eq_chars(n, "a81") {
        Some(119u8)
    } else if str_eq_chars(n, "a82") {
        Some(120u8)
    } else if str_eq_chars(n, "a83") {
        Some(121u8)
    } else if str_eq_chars(n, "a84") {
        Some(122u8)
    } else if str_eq_chars(n, "a97") {
        Some(123u8)
    } else if str_eq_chars(n, "a98") {
        Some(124u8)
    } else if str_eq_chars(n, "a99") {
        Some(125u8)
    } else if str_eq_chars(n, "a100") {
        Some(126u8)
    } else if str_eq_chars(n, "a89") {
        Some(128u8)
    } else if str_eq_chars(n, "a90") {
        Some(129u8)
    } else if str_eq_chars(n, "a93") {
        Some(130u8)
    } else if str_eq_chars(n, "a94") {
        Some(131u8)
    } else if str_eq_chars(n, "a91") {
        Some(132u8)
    } else {
        zapf_name_code_c_x(n)
    }
}

/// ZapfDingbats: code points by glyph name. (continued)
pub open spec fn zapf_name_code_c(n: Seq<char>) -> Option<u8> {
    if n == "a92"@ {
        Some(133u8)
    } else if n == "a205"@ {
        Some(134u8)
    } else if n == "a85"@ {
        Some(135u8)
    } else if n == "a206"@ {
        Some(136u8)
    } else if n == "a86"@ {
        Some(137u8)
    } else if n == "a87"@ {
        Some(138u8)
    } else if n == "a88"@ {
        Some(139u8)
    } else if n == "a95"@ {
        Some(140u8)
    } else if n == "a96"@ {
        Some(141u8)
    } else if n == "a101"@ {
        Some(161u8)
    } else if n == "a102"@ {
        Some(162u8)
    } else if n == "a103"@ {
        Some(163u8)
    } else if n == "a104"@ {
        Some(164u8)
    } else if n == "a106"@ {
        Some(165u8)
    } else if n == "a107"@ {
        Some(166u8)
    } else if n == "a108"@ {
        Some(167u8)
    } else if n == "a112"@ {
        Some(168u8)
    } else if n == "a111"@ {
        Some(169u8)
    } else if n == "a110"@ {
        Some(170u8)
    } else if n == "a109"@ {
        Some(171u8)
    } else if n == "a120"@ {
        Some(172u8)
    } else if n == "a121"@ {
        Some(173u8)
    } else if n == "a122"@ {
        Some(174u8)
    } else if n == "a123"@ {
        Some(175u8)
    } else if n == "a124"@ {
        Some(176u8)
    } else if n == "a125"@ {
        Some(177u8)
    } else if n == "a126"@ {
        Some(178u8)
    } else if n == "a127"@ {
        Some(179u8)
    } else if n == "a128"@ {
        Some(180u8)
    } else if n == "a129"@ {
        Some(181u8)
    } else if n == "a130"@ {
        Some(182u8)
    } else if n == "a131"@ {
        Some(183u8)
    } else if n == "a132"@ {
        Some(184u8)
    } else if n == "a133"@ {
        Some(185u8)
    } else if n == "a134"@ {
        Some(186u8)
    } else if n == "a135"@ {
        Some(187u8)
    } else if n == "a136"@ {
        Some(188u8)
    } else if n == "a137"@ {
        Some(189u8)
    } else if n == "a138"@ {
        Some(190u8)
    } else if n == "a139"@ {
        Some(191u8)
    } else if n == "a140"@ {
        Some(192u8)
    } else if n == "a141"@ {
        Some(193u8)
    } else if n == "a142"@ {
        Some(194u8)
    } else if n == "a143"@ {
        Some(195u8)
    } else if n == "a144"@ {
        Some(196u8)
    } else if n == "a145"@ {
        Some(197u8)
    } else if n == "a146"@ {
        Some(198u8)
    } else if n == "a147"@ {
        Some(199u8)
    } else if n == "a148"@ {
        Some(200u8)
    } else if n == "a149"@ {
        Some(201u8)
    } else {
        zapf_name_code_d(n)
    }
}

fn zapf_name_code_c_x(n: &str) -> (r: Option<u8>)
    ensures
        r == zapf_name_code_c(n@),
{
    if str_eq_chars(n, "a92") {
        Some(133u8)
    } else if str_eq_chars(n, "a205") {
        Some(134u8)
    } else if str_eq_chars(n, "a85") {
        Some(135u8)
    } else if str_eq_chars(n, "a206") {
        Some(136u8)
    } else if str_eq_chars(n, "a86") {
        Some(137u8)
    } else if str_eq_chars(n, "a87") {
        Some(138u8)
    } else if str_eq_chars(n, "a88") {
        Some(139u8)
    } else if str_eq_chars(n, "a95") {
        Some(140u8)
    } else if str_eq_chars(n, "a96") {
        Some(141u8)
    } else if str_eq_chars(n, "a101") {
        Some(161u8)
    } else if str_eq_chars(n, "a102") {
        Some(162u8)
    } else if str_eq_chars(n, "a103") {
        Some(163u8)
    } else if str_eq_chars(n, "a104") {
        Some(164u8)
    } else if str_eq_chars(n, "a106") {
        Some(165u8)
    } else if str_eq_chars(n, "a107") {
        Some(166u8)
    } else if str_eq_chars(n, "a108") {
        Some(167u8)
    } else if str_eq_chars(n, "a112") {
        Some(168u8)
    } else if str_eq_chars(n, "a111") {
        Some(169u8)
    } else if str_eq_chars(n, "a110") {
        Some(170u8)
    } else if str_eq_chars(n, "a109") {
        Some(171u8)
    } else if str_eq_chars(n, "a120") {
        Some(172u8)
    } else if str_eq_chars(n, "a121") {
        Some(173u8)
    } else if str_eq_chars(n, "a122") {
        Some(174u8)
    } else if str_eq_chars(n, "a123") {
        Some(175u8)
    } else if str_eq_chars(n, "a124") {
        Some(176u8)
    } else if str_eq_chars(n, "a125") {
        Some(177u8)
    } else if str_eq_chars(n, "a126") {
        Some(178u8)
    } else if str_eq_chars(n, "a127") {
        Some(179u8)
    } else if str_eq_chars(n, "a128") {
        Some(180u8)
    } else if str_eq_chars(n, "a129") {
        Some(181u8)
    } else if str_eq_chars(n, "a130") {
        Some(182u8)
    } else if str_eq_chars(n, "a131") {
        Some(183u8)
    } else if str_eq_chars(n, "a132") {
        Some(184u8)
    } else if str_eq_chars(n, "a133") {
        Some(185u8)
    } else if str_eq_chars(n, "a134") {
        Some(186u8)
    } else if str_eq_chars(n, "a135") {
        Some(187u8)
    } else if str_eq_chars(n, "a136") {
        Some(188u8)
    } else if str_eq_chars(n, "a137") {
        Some(189u8)
    } else if str_eq_chars(n, "a138") {
        Some(190u8)
    } else if str_eq_chars(n, "a139") {
        Some(191u8)
    } else if str_eq_chars(n, "a140") {
        Some(192u8)
    } else if str_eq_chars(n, "a141") {
        Some(193u8)
    } else if str_eq_chars(n, "a142") {
        Some(194u8)
    } else if str_eq_chars(n, "a143") {
        Some(195u8)
    } else if str_eq_chars(n, "a144") {
        Some(196u8)
    } else if str_eq_chars(n, "a145") {
        Some(197u8)
    } else if str_eq_chars(n, "a146") {
        Some(198u8)
    } else if str_eq_chars(n, "a147") {
        Some(199u8)
    } else if str_eq_chars(n, "a148") {
        Some(200u8)
    } else if str_eq_chars(n, "a149") {
        Some(201u8)
    } else {
        zapf_name_code_d_x(n)
    }
}

/// ZapfDingbats: code points by glyph name. (continued)
pub open spec fn zapf_name_code_d(n: Seq<char>) -> Option<u8> {
    if n == "a150"@ {
        Some(202u8)
    } else if n == "a151"@ {
        Some(203u8)
    } else if n == "a152"@ {
        Some(204u8)
    } else if n == "a153"@ {
        Some(205u8)
    } else if n == "a154"@ {
        Some(206u8)
    } else if n == "a155"@ {
        Some(207u8)
    } else if n == "a156"@ {
        Some(208u8)
    } else if n == "a157"@ {
        Some(209u8)
    } else if n == "a158"@ {
        Some(210u8)
    } else if n == "a159"@ {
        Some(211u8)
    } else if n == "a160"@ {
        Some(212u8)
    } else if n == "a161"@ {
        Some(213u8)
    } else if n == "a163"@ {
        Some(214u8)
    } else if n == "a164"@ {
        Some(215u8)
    } else if n == "a196"@ {
        Some(216u8)
    } else if n == "a165"@ {
        Some(217u8)
    } else if n == "a192"@ {
        Some(218u8)
    } else if n == "a166"@ {
        Some(219u8)
    } else if n == "a167"@ {
        Some(220u8)
    } else if n == "a168"@ {
        Some(221u8)
    } else if n == "a169"@ {
        Some(222u8)
    } else if n == "a170"@ {
        Some(223u8)
    } else if n == "a171"@ {
        Some(224u8)
    } else if n == "a172"@ {
        Some(225u8)
    } else if n == "a173"@ {
        Some(226u8)
    } else if n == "a162"@ {
        Some(227u8)
    } else if n == "a174"@ {
        Some(228u8)
    } else if n == "a175"@ {
        Some(229u8)
    } else if n == "a176"@ {
        Some(230u8)
    } else if n == "a177"@ {
        Some(231u8)
    } else if n == "a178"@ {
        Some(232u8)
    } else if n == "a179"@ {
        Some(233u8)
    } else if n == "a193"@ {
        Some(234u8)
    } else if n == "a180"@ {
        Some(235u8)
    } else if n == "a199"@ {
        Some(236u8)
    } else if n == "a181"@ {
        Some(237u8)
    } else if n == "a200"@ {
        Some(238u8)
    } else if n == "a182"@ {
        Some(239u8)
    } else if n == "a201"@ {
        Some(241u8)
    } else if n == "a183"@ {
        Some(242u8)
    } else if n == "a184"@ {
        Some(243u8)
    } else if n == "a197"@ {
        Some(244u8)
    } else if n == "a185"@ {
        Some(245u8)
    } else if n == "a194"@ {
        Some(246u8)
    } else if n == "a198"@ {
        Some(247u8)
    } else if n == "a186"@ {
        Some(248u8)
    } else if n == "a195"@ {
        Some(249u8)
    } else if n == "a187"@ {
        Some(250u8)
    } else if n == "a188"@ {
        Some(251u8)
    } else if n == "a189"@ {
        Some(252u8)
    } else {
        zapf_name_code_e(n)
    }
}

fn zapf_name_code_d_x(n: &str) -> (r: Option<u8>)
    ensures
        r == zapf_name_code_d(n@),
{
    if str_eq_chars(n, "a150") {
        Some(202u8)
    } else if str_eq_chars(n, "a151") {
        Some(203u8)
    } else if str_eq_chars(n, "a152") {
        Some(204u8)
    } else if str_eq_chars(n, "a153") {
        Some(205u8)
    } else if str_eq_chars(n, "a154") {
        Some(206u8)
    } else if str_eq_chars(n, "a155") {
        Some(207u8)
    } else if str_eq_chars(n, "a156") {
        Some(208u8)
    } else if str_eq_chars(n, "a157") {
        Some(209u8)
    } else if str_eq_chars(n, "a158") {
        Some(210u8)
    } else if str_eq_chars(n, "a159") {
        Some(211u8)
    } else if str_eq_chars(n, "a160") {
        Some(212u8)
    } else if str_eq_chars(n, "a161") {
        Some(213u8)
    } else if str_eq_chars(n, "a163") {
        Some(214u8)
    } else if str_eq_chars(n, "a164") {
        Some(215u8)
    } else if str_eq_chars(n, "a196") {
        Some(216u8)
    } else if str_eq_chars(n, "a165") {
        Some(217u8)
    } else if str_eq_chars(n, "a192") {
        Some(218u8)
    } else if str_eq_chars(n, "a166") {
        Some(219u8)
    } else if str_eq_chars(n, "a167") {
        Some(220u8)
    } else if str_eq_chars(n, "a168") {
        Some(221u8)
    } else if str_eq_chars(n, "a169") {
        Some(222u8)
    } else if str_eq_chars(n, "a170") {
        Some(223u8)
    } else if str_eq_chars(n, "a171") {
        Some(224u8)
    } else if str_eq_chars(n, "a172") {
        Some(225u8)
    } else if str_eq_chars(n, "a173") {
        Some(226u8)
    } else if str_eq_chars(n, "a162") {
        Some(227u8)
    } else if str_eq_chars(n, "a174") {
        Some(228u8)
    } else if str_eq_chars(n, "a175") {
        Some(229u8)
    } else if str_eq_chars(n, "a176") {
        Some(230u8)
    } else if str_eq_chars(n, "a177") {
        Some(231u8)
    } else if str_eq_chars(n, "a178") {
        Some(232u8)
    } else if str_eq_chars(n, "a179") {
        Some(233u8)
    } else if str_eq_chars(n, "a193") {
        Some(234u8)
    } else if str_eq_chars(n, "a180") {
        Some(235u8)
    } else if str_eq_chars(n, "a199") {
        Some(236u8)
    } else if str_eq_chars(n, "a181") {
        Some(237u8)
    } else if str_eq_chars(n, "a200") {
        Some(238u8)
    } else if str_eq_chars(n, "a182") {
        Some(239u8)
    } else if str_eq_chars(n, "a201") {
        Some(241u8)
    } else if str_eq_chars(n, "a183") {
        Some(242u8)
    } else if str_eq_chars(n, "a184") {
        Some(243u8)
    } else if str_eq_chars(n, "a197") {
        Some(244u8)
    } else if str_eq_chars(n, "a185") {
        Some(245u8)
    } else if str_eq_chars(n, "a194") {
        Some(246u8)
    } else if str_eq_chars(n, "a198") {
        Some(247u8)
    } else if str_eq_chars(n, "a186") {
        Some(248u8)
    } else if str_eq_chars(n, "a195") {
        Some(249u8)
    } else if str_eq_chars(n, "a187") {
        Some(250u8)
    } else if str_eq_chars(n, "a188") {
        Some(251u8)
    } else if str_eq_chars(n, "a189") {
        Some(252u8)
    } else {
        zapf_name_code_e_x(n)
    }
}

/// ZapfDingbats: code points by glyph name. (continued)
pub open spec fn zapf_name_code_e(n: Seq<char>) -> Option<u8> {
    if n == "a190"@ {
        Some(253u8)
    } else if n == "a191"@ {
        Some(254u8)
    } else {
        None
    }
}

fn zapf_name_code_e_x(n: &str) -> (r: Option<u8>)
    ensures
        r == zapf_name_code_e(n@),
{
    if str_eq_chars(n, "a190") {
        Some(253u8)
    } else if str_eq_chars(n, "a191") {
        Some(254u8)
    } else {
        None
    }
}

} // verus!
