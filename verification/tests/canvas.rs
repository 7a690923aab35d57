use simple_pdf::canvas::Canvas;
use simple_pdf::fontsource::BuiltinFont;
use simple_pdf::fontsource::FontSource;
use simple_pdf::graphicsstate::CapStyle;
use simple_pdf::graphicsstate::Color;
use simple_pdf::graphicsstate::JoinStyle;
use simple_pdf::graphicsstate::Matrix;
use simple_pdf::textobject::RenderMode;
use simple_pdf::textobject::TextObject;
use simple_pdf::units::UserSpace;

fn pt(v: i64) -> UserSpace {
    UserSpace::pt(v)
}

fn text_of(bytes: &[u8]) -> String {
    String::from_utf8_lossy(bytes).to_string()
}

#[test]
fn test_dash_rejects_all_zero() {
    let mut c = Canvas::new();
    c.set_dash(&[pt(0)], pt(0));
    assert!(c.bytes.is_empty());
}

#[test]
fn test_dash_rejects_negative() {
    let mut c = Canvas::new();
    c.set_dash(&[pt(-1), pt(2)], pt(0));
    assert!(c.bytes.is_empty());
}

#[test]
fn test_dash_emits_valid_pattern() {
    let mut c = Canvas::new();
    c.set_dash(&[pt(1), pt(2)], pt(0));
    assert_eq!("[1 2] 0 d\n", text_of(&c.bytes));
}

#[test]
fn test_dash_rejects_empty() {
    let mut c = Canvas::new();
    c.set_dash(&[], pt(0));
    assert!(c.bytes.is_empty());
}

#[test]
fn test_circle_starts_and_ends_at_top() {
    let mut c = Canvas::new();
    c.circle(pt(0), pt(0), pt(10));
    let s = text_of(&c.bytes);
    // path construction starts at the top of the circle ...
    assert!(s.starts_with("0 -10 m "));
    // ... and the last curve ends on the same point
    assert!(s.ends_with(" 0 -10 c\n"));
    // four curves in all
    assert_eq!(4, s.matches(" c\n").count());
    // the control-point offset is 0.551915 of the radius
    assert!(s.contains("5.519"));
}

#[test]
fn test_circle_control_points_symmetric() {
    let mut c = Canvas::new();
    c.circle(pt(7), pt(11), pt(10));
    let s = text_of(&c.bytes);
    // collect the path points, in thousandths: the move target and
    // each curve's points
    let mut points: Vec<(i64, i64)> = Vec::new();
    let mut nums: Vec<i64> = Vec::new();
    for tok in s.split_whitespace() {
        if tok == "m" || tok == "c" {
            let mut i = 0;
            while i + 1 < nums.len() {
                points.push((nums[i], nums[i + 1]));
                i += 2;
            }
            nums.clear();
        } else {
            let v: f64 = tok.parse().unwrap();
            nums.push((v * 1000.0).round() as i64);
        }
    }
    assert_eq!(13, points.len());
    assert_eq!(points[0], points[12]);
    for &(x, y) in &points {
        let mirrored = (2 * 7000 - x, 2 * 11000 - y);
        assert!(points.iter().any(|&p| p == mirrored));
    }
}

#[test]
fn test_path_operators() {
    let mut c = Canvas::new();
    c.rectangle(pt(10), pt(20), pt(30), pt(40));
    c.line(pt(0), pt(0), pt(5), pt(5));
    c.stroke();
    c.close_and_stroke();
    c.fill();
    assert_eq!("10 20 30 40 re\n0 0 m 5 5 l S\ns\nf\n", text_of(&c.bytes));
}

#[test]
fn test_line_styles() {
    let mut c = Canvas::new();
    c.set_line_width(pt(2));
    c.set_line_join_style(JoinStyle::Round);
    c.set_line_cap_style(CapStyle::ProjectingSquare);
    assert_eq!("2 w\n1 j\n2 J\n", text_of(&c.bytes));
}

#[test]
fn test_colors() {
    let mut c = Canvas::new();
    c.set_stroke_color(Color::rgb(0, 0, 248));
    c.set_fill_color(Color::gray(128));
    c.set_fill_color(Color::gray(255));
    c.set_fill_color(Color::gray(0));
    assert_eq!("0 0 0.97254 SC\n0.50196 g\n1 g\n0 g\n", text_of(&c.bytes));
}

#[test]
fn test_concat_matrix() {
    let mut c = Canvas::new();
    c.concat(Matrix::translate(pt(10), pt(24)));
    assert_eq!("1 0 0 1 10 24 cm\n", text_of(&c.bytes));
}

#[test]
fn test_matrix_mul_translations_add() {
    let a = Matrix::translate(pt(7), pt(0));
    let b = Matrix::translate(pt(3), pt(5));
    let m = a.mul(b);
    assert_eq!([1000, 0, 0, 1000, 10000, 5000], m.v);
}

#[test]
fn test_matrix_mul_scale() {
    // scaling by 2 then by 1/2 is the identity
    let m = Matrix::uniform_scale(2000).mul(Matrix::uniform_scale(500));
    assert_eq!([1000, 0, 0, 1000, 0, 0], m.v);
}

#[test]
fn test_gsave_grestore() {
    let mut c = Canvas::new();
    c.gsave();
    c.grestore();
    assert_eq!("q\nQ\n", text_of(&c.bytes));
}

#[test]
fn test_text_object() {
    let mut c = Canvas::new();
    let font = c.get_font(&BuiltinFont::Helvetica);
    let mut t = TextObject::new();
    t.set_font(&font, pt(14));
    t.set_leading(pt(18));
    t.pos(pt(10), pt(300));
    t.show("Some text");
    t.show_line("more text");
    c.text(t);
    let s = text_of(&c.bytes);
    assert!(s.starts_with("BT\n/F0 14 Tf\n18 TL\n10 300 Td\n(Some text) Tj\n(more text) '\nET\n"));
}

#[test]
fn test_text_object_escaping() {
    let mut t = TextObject::new();
    t.show("a(b)c\\");
    assert_eq!("(a\\(b\\)c\\\\) Tj\n", text_of(&t.bytes));
}

#[test]
fn test_show_adjusted() {
    let mut t = TextObject::new();
    t.show_adjusted(&[("W", 130), ("AN", -40), ("D", 0)]);
    assert_eq!("[(W) 130 (AN) -40 (D) 0 ] TJ\n", text_of(&t.bytes));
}

#[test]
fn test_render_mode() {
    let mut t = TextObject::new();
    t.set_render_mode(RenderMode::Stroke);
    t.set_render_mode(RenderMode::Clipping);
    assert_eq!("1 Tr\n7 Tr\n", text_of(&t.bytes));
}

#[test]
fn test_get_font_deduplicates_per_page() {
    let mut c = Canvas::new();
    let a = c.get_font(&BuiltinFont::Helvetica);
    let b = c.get_font(&BuiltinFont::Times_Roman);
    let a2 = c.get_font(&BuiltinFont::Helvetica);
    assert_eq!(0, a.n);
    assert_eq!(1, b.n);
    assert_eq!(0, a2.n);
    assert_eq!(2, c.fonts.len());
}

#[test]
fn test_add_outline_collects_items() {
    let mut c = Canvas::new();
    c.add_outline("Chapter One");
    c.add_outline("Chapter Two");
    assert_eq!(2, c.outline_items.len());
    assert_eq!("Chapter One", c.outline_items[0].title);
    assert!(c.bytes.is_empty());
}
