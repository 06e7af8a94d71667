use smolbar::protocol::{Align, Markup};
use smolbar::text::{affixed, ascii_eq_ignore_case, parse_bool, parse_u32, split_lines, text_eq};

#[test]
fn lines_follow_str_lines() {
    for s in ["", "a", "a\n", "a\r\nb\n\nc\r", "\n", "\n\n", "x\ry\n", "héllo\nwörld"] {
        let expected: Vec<String> = s.lines().map(|l| l.to_string()).collect();
        assert_eq!(split_lines(s), expected, "input {:?}", s);
    }
}

#[test]
fn lines_exact_values() {
    assert_eq!(split_lines("a\r\nb\n\nc\r"), vec!["a", "b", "", "c\r"]);
    assert!(split_lines("").is_empty());
    assert_eq!(split_lines("x\n"), vec!["x"]);
}

#[test]
fn u32_parsing() {
    assert_eq!(parse_u32("42"), Some(42));
    assert_eq!(parse_u32("+42"), Some(42));
    assert_eq!(parse_u32("007"), Some(7));
    assert_eq!(parse_u32("4294967295"), Some(u32::MAX));
    assert_eq!(parse_u32("4294967296"), None);
    assert_eq!(parse_u32("99999999999999999999"), None);
    assert_eq!(parse_u32(""), None);
    assert_eq!(parse_u32("+"), None);
    assert_eq!(parse_u32("-1"), None);
    assert_eq!(parse_u32(" 1"), None);
    assert_eq!(parse_u32("1a"), None);
    for s in ["0", "+0", "12x", "++1", "65536", "4294967295", "4294967296"] {
        assert_eq!(parse_u32(s), s.parse::<u32>().ok(), "input {:?}", s);
    }
}

#[test]
fn bool_parsing() {
    assert_eq!(parse_bool("true"), Some(true));
    assert_eq!(parse_bool("false"), Some(false));
    assert_eq!(parse_bool("True"), None);
    assert_eq!(parse_bool(""), None);
    assert_eq!(parse_bool("true "), None);
}

#[test]
fn align_and_markup_parsing() {
    assert_eq!(Align::parse("left"), Some(Align::Left));
    assert_eq!(Align::parse("RIGHT"), Some(Align::Right));
    assert_eq!(Align::parse("Center"), Some(Align::Center));
    assert_eq!(Align::parse("middle"), None);
    assert_eq!(Markup::parse("PANGO"), Some(Markup::Pango));
    assert_eq!(Markup::parse("none"), Some(Markup::Plain));
    assert_eq!(Markup::parse("html"), None);
    assert_eq!("center".parse::<Align>(), Ok(Align::Center));
    assert_eq!("nope".parse::<Markup>(), Err(()));
}

#[test]
fn text_comparisons() {
    assert!(ascii_eq_ignore_case("HeLLo", "hello"));
    assert!(!ascii_eq_ignore_case("hello", "hell"));
    assert!(!ascii_eq_ignore_case("É", "é"));
    assert!(text_eq("abc", "abc"));
    assert!(!text_eq("abc", "abd"));
    assert!(text_eq("", ""));
}

#[test]
fn affixes() {
    assert_eq!(affixed(&Some("CPU: ".to_string()), "idle", &Some("%".to_string())), "CPU: idle%");
    assert_eq!(affixed(&None, "idle", &None), "idle");
    assert_eq!(affixed(&None, "", &Some("!".to_string())), "!");
}
