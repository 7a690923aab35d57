use simple_pdf::encoding::BaseEncoding;
use simple_pdf::encoding::Encoding;
use simple_pdf::encoding::EncodingKind;
use simple_pdf::encoding::FontEncoding;
use simple_pdf::fontsource::BuiltinFont;
use simple_pdf::fontsource::FontSource;

#[test]
fn test_get_winansi_points() {
    let enc = Encoding::new(EncodingKind::WinAnsi);
    assert_eq!(Some('A' as u8), enc.get_code("A"));
    assert_eq!(Some('Z' as u8), enc.get_code("Z"));
    assert_eq!(Some('a' as u8), enc.get_code("a"));
    assert_eq!(Some('z' as u8), enc.get_code("z"));
    assert_eq!(Some(' ' as u8), enc.get_code("space"));
    assert_eq!(Some('&' as u8), enc.get_code("ampersand"));
}

#[test]
fn test_get_code_names() {
    let enc = Encoding::new(EncodingKind::WinAnsi);
    assert_eq!(Some(32), enc.get_code("space"));
    assert_eq!(Some(65), enc.get_code("A"));
    assert_eq!(Some(229), enc.get_code("aring"));
    assert_eq!(None, enc.get_code("Lslash"));
    assert_eq!(None, enc.get_code(""));
    assert_eq!(None, enc.get_code("\u{263a}"));
}

#[test]
fn test_encode_char() {
    let enc = Encoding::new(EncodingKind::WinAnsi);
    assert_eq!(Some(b' '), enc.encode_char(' '));
    assert_eq!(Some(b'A'), enc.encode_char('A'));
    assert_eq!(Some(b'\\'), enc.encode_char('\\'));
    assert_eq!(Some(229), enc.encode_char('\u{e5}'));
    assert_eq!(None, enc.encode_char('\u{141}'));
    assert_eq!(None, enc.encode_char(char::from(0)));
    assert_eq!(None, enc.encode_char('\u{263a}'));
}

#[test]
fn test_encode_string_escapes() {
    let enc = Encoding::new(EncodingKind::WinAnsi);
    assert_eq!(
        vec![92, 92, 92, 40, 65, 66, 67, 92, 41, 92, 92],
        enc.encode_string("\\(ABC)\\")
    );
    assert_eq!(
        vec![82, 228, 107, 115, 109, 246, 114, 103, 229, 115],
        enc.encode_string("R\u{e4}ksm\u{f6}rg\u{e5}s")
    );
    assert_eq!(
        vec![67, 111, 102, 102, 101, 101, 32, 128, 49, 46, 50, 48],
        enc.encode_string("Coffee \u{20ac}1.20")
    );
}

#[test]
fn test_encode_string_symbol() {
    let symb_enc = Encoding::new(EncodingKind::Symbol);
    assert_eq!(
        vec![97, 32, 206, 32, 194],
        symb_enc.encode_string("\u{3b1} \u{2208} \u{211c}")
    );
}

#[test]
fn test_unmappable_degrades_to_question_mark() {
    let enc = Encoding::new(EncodingKind::WinAnsi);
    assert_eq!(vec![b'a', b'?', b'b'], enc.encode_string("a\u{263a}b"));
}

#[test]
fn test_encoding_names() {
    assert_eq!("WinAnsiEncoding", BuiltinFont::Helvetica.encoding().name());
    assert_eq!("SymbolEncoding", BuiltinFont::Symbol.encoding().name());
    assert_eq!(
        "ZapfDingbatsEncoding",
        BuiltinFont::ZapfDingbats.encoding().name()
    );
    assert_eq!("MacRomanEncoding", BaseEncoding::MacRomanEncoding.name());
}

#[test]
fn test_font_encoding() {
    let fe = FontEncoding::new();
    assert_eq!("WinAnsiEncoding", fe.name());
    assert_eq!("WinAnsiEncoding", fe.base_name());
    let se = FontEncoding::with_encoding(Encoding::new(EncodingKind::Symbol));
    assert_eq!("SymbolEncoding", se.name());
    assert_eq!("WinAnsiEncoding", se.base_name());
    assert_eq!(vec![b'A'], fe.encode_string("A"));
}

#[test]
fn test_builtin_font_names() {
    assert_eq!("Times-Roman", BuiltinFont::Times_Roman.name());
    assert_eq!("Courier-BoldOblique", BuiltinFont::Courier_BoldOblique.name());
    assert_eq!("Helvetica", BuiltinFont::Helvetica.name());
}
