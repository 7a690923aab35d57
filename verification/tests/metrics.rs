use simple_pdf::fontsource::BuiltinFont;
use simple_pdf::fontsource::FontSource;
use simple_pdf::units::UserSpace;

fn is_close(a: f32, b: f32) -> bool {
    let comparision = (a - b).abs() / (a.abs() + b.abs());
    println!("Checking if {} and {} is close: {}", a, b, comparision);
    comparision < 1e-7
}

fn width_pt(font: BuiltinFont, size_pt: i64, text: &str) -> f32 {
    let w = font.text_width(UserSpace::pt(size_pt), text);
    w.milli as f32 / 1000.0
}

#[test]
fn metrics_for_long_string() {
    let font = BuiltinFont::Times_Roman;
    let some_text = "This is a test. ";
    let some_len = width_pt(font, 12, some_text);
    let n = 500;
    assert_eq!(66.336, some_len);
    let mut long_text = String::new();
    for _ in 0..n {
        long_text = long_text + some_text;
    }
    assert!(is_close(n as f32 * some_len, width_pt(font, 12, &long_text)));
}

#[test]
fn test_raw_text_width_values() {
    assert_eq!(5167, BuiltinFont::Helvetica.raw_text_width("Hello World"));
    assert_eq!(600, BuiltinFont::Courier.raw_text_width("A"));
    assert_eq!(5528, BuiltinFont::Times_Roman.raw_text_width("This is a test. "));
}

#[test]
fn test_raw_width_additive() {
    let font = BuiltinFont::Times_Roman;
    let s = "This is a test. ";
    let one = font.raw_text_width(s);
    let two = font.raw_text_width(&(s.to_string() + s));
    assert_eq!(2 * one, two);
    let n = 500;
    let mut long_text = String::new();
    for _ in 0..n {
        long_text = long_text + s;
    }
    assert_eq!(n * one, font.raw_text_width(&long_text));
}

#[test]
fn test_text_width_examples() {
    let proportional = BuiltinFont::Helvetica;
    assert_eq!(
        62004,
        proportional.text_width(UserSpace::pt(12), "Hello World").milli
    );
    let fixed = BuiltinFont::Courier;
    assert_eq!(
        60000,
        fixed.text_width(UserSpace::pt(10), "0123456789").milli
    );
}

#[test]
fn test_metrics_lookup() {
    let m = BuiltinFont::Times_Roman.metrics();
    assert_eq!(Some(250), m.get_width(b' '));
    assert_eq!(Some(611), m.get_width(b'T'));
    // a code the table does not cover
    assert_eq!(None, m.get_width(1));
}

#[test]
fn test_units() {
    assert_eq!(12000, UserSpace::pt(12).milli);
    assert_eq!(2834, UserSpace::mm(1).milli);
    assert_eq!(UserSpace::pt(3), UserSpace::pt(1).add(UserSpace::pt(2)));
    assert_eq!(UserSpace::pt(-1), UserSpace::pt(1).sub(UserSpace::pt(2)));
    assert_eq!(500, UserSpace::pt(1).half().milli);
}
