use simple_pdf::Pdf;
use simple_pdf::canvas::Canvas;
use simple_pdf::fontsource::BuiltinFont;
use simple_pdf::fontsource::FontSource;
use simple_pdf::graphicsstate::Color;
use simple_pdf::units::UserSpace;

fn pt(v: i64) -> UserSpace {
    UserSpace::pt(v)
}

fn find(haystack: &[u8], needle: &[u8], from: usize) -> Option<usize> {
    if needle.len() > haystack.len() {
        return None;
    }
    let mut i = from;
    while i + needle.len() <= haystack.len() {
        if &haystack[i..i + needle.len()] == needle {
            return Some(i);
        }
        i += 1;
    }
    None
}

fn count(haystack: &[u8], needle: &[u8]) -> usize {
    let mut n = 0;
    let mut at = 0;
    while let Some(i) = find(haystack, needle, at) {
        n += 1;
        at = i + needle.len();
    }
    n
}

/// The decimal number starting at `at`.
fn parse_num(bytes: &[u8], at: usize) -> usize {
    let mut v = 0usize;
    let mut i = at;
    while i < bytes.len() && bytes[i].is_ascii_digit() {
        v = v * 10 + (bytes[i] - b'0') as usize;
        i += 1;
    }
    v
}

/// The xref entries of the file: for each object id from 1 on, the
/// recorded byte offset.
fn xref_offsets(bytes: &[u8]) -> Vec<usize> {
    let xr = find(bytes, b"\nxref\n0 ", 0).expect("no xref") + 1;
    let n = parse_num(bytes, xr + 7);
    // skip "xref\n0 N\n" and the free entry line (20 bytes)
    let first = find(bytes, b"\n", xr + 7).unwrap() + 1 + 20;
    let mut offsets = Vec::new();
    for k in 0..n - 1 {
        let line = first + 19 * k;
        offsets.push(parse_num(bytes, line));
    }
    offsets
}

fn simple_document() -> Vec<u8> {
    let mut document = Pdf::new();
    let font = BuiltinFont::Times_Roman;
    let mut canvas = Canvas::new();
    let hello = "Hello World!";
    let w = font
        .text_width(pt(24), hello)
        .add(pt(8));
    canvas.set_stroke_color(Color::rgb(0, 0, 248));
    canvas.rectangle(pt(90).sub(w.half()), pt(194), w, pt(26));
    canvas.stroke();
    canvas.center_text(pt(90), pt(200), &font, pt(24), hello);
    document.render_page(pt(180), pt(240), canvas);
    document.finish_with_timestamp(None)
}

#[test]
fn test_end_to_end_structure() {
    let bytes = simple_document();
    assert!(bytes.starts_with(b"%PDF-1.7\n"));
    assert!(bytes.ends_with(b"%%EOF\n"));
    // exactly the catalog, the pages tree, the content stream, its
    // length object, one font object and the page dictionary
    let offsets = xref_offsets(&bytes);
    assert_eq!(6, offsets.len());
    assert_eq!(1, count(&bytes, b"/Type /Catalog"));
    assert_eq!(1, count(&bytes, b"/Type /Pages"));
    assert_eq!(1, count(&bytes, b"/Type /Page\n"));
    assert_eq!(1, count(&bytes, b"/Type /Font"));
    assert_eq!(1, count(&bytes, b"/MediaBox [0 0 180 240]"));
    assert_eq!(1, count(&bytes, b"trailer"));
    assert!(find(&bytes, b"/Root 1 0 R", 0).is_some());
    // no metadata was set, so there is no info object
    assert!(find(&bytes, b"/Info", 0).is_none());
}

#[test]
fn test_offset_integrity() {
    let bytes = simple_document();
    let offsets = xref_offsets(&bytes);
    for (k, &off) in offsets.iter().enumerate() {
        let id = k + 1;
        let tok = format!("{} 0 obj\n", id);
        assert_eq!(
            &bytes[off..off + tok.len()],
            tok.as_bytes(),
            "offset of object {} does not point at its token",
            id
        );
    }
    // the startxref value points at the xref keyword
    let sx = find(&bytes, b"startxref\n", 0).unwrap() + 10;
    let xref_pos = parse_num(&bytes, sx);
    assert_eq!(&bytes[xref_pos..xref_pos + 5], b"xref\n");
}

#[test]
fn test_length_correctness() {
    let bytes = simple_document();
    // the stream's /Length names the following object
    let lenref = find(&bytes, b"<< /Length ", 0).unwrap() + 11;
    let len_id = parse_num(&bytes, lenref);
    // the byte count between the stream keyword's line end and the
    // endstream token
    let start = find(&bytes, b"stream\n", 0).unwrap() + 7;
    let end = find(&bytes, b"endstream", start).unwrap();
    let measured = end - start;
    // the integer held by the length object
    let tok = format!("{} 0 obj\n", len_id);
    let at = find(&bytes, tok.as_bytes(), 0).unwrap() + tok.len();
    let written = parse_num(&bytes, at);
    assert_eq!(measured, written);
}

#[test]
fn test_font_deduplication() {
    let mut document = Pdf::new();
    let font = BuiltinFont::Helvetica;
    for _ in 0..2 {
        let mut canvas = Canvas::new();
        canvas.left_text(pt(10), pt(100), &font, pt(12), "same font twice");
        document.render_page(pt(180), pt(240), canvas);
    }
    let bytes = document.finish_with_timestamp(None);
    // one font object, referenced by both pages' resource tables
    assert_eq!(1, count(&bytes, b"/Type /Font"));
    assert_eq!(1, count(&bytes, b"/BaseFont /Helvetica"));
    assert_eq!(2, count(&bytes, b"/Type /Page\n"));
    // both pages name the same font object
    let r1 = find(&bytes, b"/Font << /F0 ", 0).unwrap() + 13;
    let r2 = find(&bytes, b"/Font << /F0 ", r1).unwrap() + 13;
    assert_eq!(parse_num(&bytes, r1), parse_num(&bytes, r2));
}

#[test]
fn test_outline_chain() {
    let mut document = Pdf::new();
    let font = BuiltinFont::Helvetica;
    let mut first_page = Canvas::new();
    first_page.add_outline("One");
    first_page.add_outline("Two");
    first_page.left_text(pt(10), pt(100), &font, pt(12), "first");
    document.render_page(pt(180), pt(240), first_page);
    let mut second_page = Canvas::new();
    second_page.add_outline("Three");
    second_page.left_text(pt(10), pt(100), &font, pt(12), "second");
    document.render_page(pt(180), pt(240), second_page);
    let bytes = document.finish_with_timestamp(None);

    assert_eq!(1, count(&bytes, b"/Type /Outlines"));
    assert_eq!(1, count(&bytes, b"/Count 3\n"));
    assert_eq!(3, count(&bytes, b"/Title ("));

    // walk the chain from /First: it visits all three items exactly
    // once and ends at /Last
    let root = find(&bytes, b"/Type /Outlines", 0).unwrap();
    let first_at = find(&bytes, b"/First ", root).unwrap() + 7;
    let last_at = find(&bytes, b"/Last ", root).unwrap() + 6;
    let first_id = parse_num(&bytes, first_at);
    let last_id = parse_num(&bytes, last_at);
    let mut visited = Vec::new();
    let mut cur = first_id;
    loop {
        assert!(!visited.contains(&cur), "chain visits an item twice");
        visited.push(cur);
        let tok = format!("{} 0 obj\n", cur);
        let obj = find(&bytes, tok.as_bytes(), 0).unwrap();
        let endobj = find(&bytes, b"endobj", obj).unwrap();
        assert!(find(&bytes, b"/Title (", obj).unwrap() < endobj);
        // the backward reference names the previous item
        if visited.len() > 1 {
            let prev_at = find(&bytes, b"/Prev ", obj).unwrap();
            assert!(prev_at < endobj);
            assert_eq!(visited[visited.len() - 2], parse_num(&bytes, prev_at + 6));
        }
        match find(&bytes, b"/Next ", obj) {
            Some(next_at) if next_at < endobj => {
                cur = parse_num(&bytes, next_at + 6);
            },
            _ => break,
        }
    }
    assert_eq!(3, visited.len());
    assert_eq!(last_id, *visited.last().unwrap());
}

#[test]
fn test_metadata_info_object() {
    let mut document = Pdf::new();
    document.set_title("Example Document");
    document.set_author("Jane Roe");
    document.set_subject("Testing");
    document.set_keywords("pdf test");
    document.set_creator("a text editor");
    document.set_producer("this library");
    let canvas = Canvas::new();
    document.render_page(pt(100), pt(100), canvas);
    let bytes = document.finish();
    assert!(find(&bytes, b" /Title (Example Document)\n", 0).is_some());
    assert!(find(&bytes, b" /Author (Jane Roe)\n", 0).is_some());
    assert!(find(&bytes, b" /Subject (Testing)\n", 0).is_some());
    assert!(find(&bytes, b" /Keywords (pdf test)\n", 0).is_some());
    assert!(find(&bytes, b" /Creator (a text editor)\n", 0).is_some());
    assert!(find(&bytes, b" /Producer (this library)\n", 0).is_some());
    // the info object carries the generation timestamps and is named
    // in the trailer
    assert!(find(&bytes, b" /CreationDate (D:", 0).is_some());
    assert!(find(&bytes, b" /ModDate (D:", 0).is_some());
    assert!(find(&bytes, b"/Info ", 0).is_some());
    // fields appear in alphabetical key order
    let a = find(&bytes, b" /Author (", 0).unwrap();
    let c = find(&bytes, b" /Creator (", 0).unwrap();
    let t = find(&bytes, b" /Title (", 0).unwrap();
    assert!(a < c && c < t);
}

#[test]
fn test_no_metadata_no_info() {
    let mut document = Pdf::new();
    let canvas = Canvas::new();
    document.render_page(pt(100), pt(100), canvas);
    let bytes = document.finish_with_timestamp(None);
    assert!(find(&bytes, b"/Info", 0).is_none());
    assert!(find(&bytes, b"/CreationDate", 0).is_none());
}

#[test]
fn test_timestamp_format() {
    let mut document = Pdf::new();
    document.set_title("t");
    let bytes = document.finish();
    let at = find(&bytes, b" /CreationDate (D:", 0).unwrap() + 18;
    let close = find(&bytes, b")", at).unwrap();
    let stamp = &bytes[at..close];
    // YYYYMMDDHHMMSS then a sign and a four-digit zone offset
    assert_eq!(19, stamp.len());
    for k in 0..14 {
        assert!(stamp[k].is_ascii_digit());
    }
    assert!(stamp[14] == b'+' || stamp[14] == b'-');
    for k in 15..19 {
        assert!(stamp[k].is_ascii_digit());
    }
}

#[test]
fn test_pages_tree_lists_pages_in_order() {
    let mut document = Pdf::new();
    document.render_page(pt(10), pt(10), Canvas::new());
    document.render_page(pt(20), pt(20), Canvas::new());
    let bytes = document.finish_with_timestamp(None);
    let at = find(&bytes, b"/Count 2\n   /Kids [ ", 0).unwrap() + 20;
    let first = parse_num(&bytes, at);
    let rest = find(&bytes, b" 0 R ", at).unwrap() + 5;
    let second = parse_num(&bytes, rest);
    assert!(first < second);
    let tok = format!("{} 0 obj", first);
    assert!(find(&bytes, tok.as_bytes(), 0).is_some());
}
