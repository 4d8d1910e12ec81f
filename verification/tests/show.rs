use showable::{show_to, Show};

#[test]
fn render_zero() {
    assert_eq!(0u8.show(), "0");
}

#[test]
fn render_max() {
    assert_eq!(255u8.show(), "255");
}

#[test]
fn render_one_digit() {
    assert_eq!(7u8.show(), "7");
}

#[test]
fn render_two_digits() {
    assert_eq!(10u8.show(), "10");
    assert_eq!(42u8.show(), "42");
    assert_eq!(99u8.show(), "99");
}

#[test]
fn render_three_digits() {
    assert_eq!(100u8.show(), "100");
    assert_eq!(200u8.show(), "200");
}

#[test]
fn render_every_u8_has_no_sign_or_leading_zero() {
    let mut n: u16 = 0;
    while n <= 255 {
        let out = (n as u8).show();
        assert_eq!(out.parse::<u16>().unwrap(), n);
        assert!(out.chars().all(|c| c.is_ascii_digit()));
        if n > 0 {
            assert!(!out.starts_with('0'));
        }
        n += 1;
    }
}

#[test]
fn render_text() {
    assert_eq!("hello".show(), "hello");
}

#[test]
fn render_empty_text() {
    assert_eq!("".show(), "");
}

#[test]
fn render_text_unmodified() {
    assert_eq!("  a \"b\" \\c\n".show(), "  a \"b\" \\c\n");
}

#[test]
fn sequential_renders_concatenate() {
    let mut out = String::new();
    show_to(&"hello", &mut out);
    show_to(&255u8, &mut out);
    assert_eq!(out, "hello255");
}

#[test]
fn show_to_appends_to_existing_content() {
    let mut out = String::from("> ");
    show_to(&0u8, &mut out);
    show_to(&"", &mut out);
    show_to(&"!", &mut out);
    assert_eq!(out, "> 0!");
}
