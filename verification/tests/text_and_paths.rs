use rscapt::paths::{file_name_string, join_str, parent_chars, stem_and_extension};
use rscapt::text::{decimal_string, join_strings, parse_u32_str, replace_char_str, split_chars, str_contains, trim_str};

fn parent(p: &str) -> Option<String> {
    parent_chars(&p.chars().collect()).map(|v| v.into_iter().collect())
}

#[test]
fn file_names_stems_and_extensions() {
    assert_eq!(file_name_string("C:\\Videos\\clip.mp4"), "clip.mp4");
    assert_eq!(file_name_string("C:/Videos/clip.mp4"), "clip.mp4");
    assert_eq!(file_name_string("C:\\Videos\\"), "Videos");
    assert_eq!(file_name_string("C:\\Videos\\.."), "");
    assert_eq!(file_name_string(""), "");
    assert_eq!(stem_and_extension("C:\\v\\a.b.mkv"), ("a.b".to_string(), "mkv".to_string()));
    assert_eq!(stem_and_extension("C:\\v\\.hidden"), (".hidden".to_string(), String::new()));
    assert_eq!(stem_and_extension("C:\\v\\noext"), ("noext".to_string(), String::new()));
    assert_eq!(stem_and_extension("C:\\v\\trail."), ("trail".to_string(), String::new()));
}

#[test]
fn parents_and_joins() {
    assert_eq!(parent("C:\\Videos\\clip.mp4").as_deref(), Some("C:\\Videos"));
    assert_eq!(parent("clip.mp4").as_deref(), Some(""));
    assert_eq!(parent("\\clip.mp4").as_deref(), Some("\\"));
    assert_eq!(parent(""), None);
    assert_eq!(join_str("C:\\out", "x.mp4"), "C:\\out\\x.mp4");
    assert_eq!(join_str("C:\\out\\", "x.mp4"), "C:\\out\\x.mp4");
    assert_eq!(join_str("", "x.mp4"), "x.mp4");
}

#[test]
fn small_text_helpers() {
    assert_eq!(trim_str(" \t hi there \r\n"), "hi there");
    assert_eq!(trim_str("\u{3000}x\u{a0}"), "x");
    assert_eq!(parse_u32_str("42"), Some(42));
    assert_eq!(parse_u32_str("+42"), Some(42));
    assert_eq!(parse_u32_str("4294967295"), Some(u32::MAX));
    assert_eq!(parse_u32_str("4294967296"), None);
    assert_eq!(parse_u32_str(""), None);
    assert_eq!(parse_u32_str("-1"), None);
    assert_eq!(parse_u32_str(" 1"), None);
    assert_eq!(decimal_string(0), "0");
    assert_eq!(decimal_string(1234567890), "1234567890");
    assert_eq!(replace_char_str("a_b_c", '_', ""), "abc");
    assert!(str_contains("rscapt-v1-windows-x64.exe", "windows-x64"));
    let parts: Vec<String> = split_chars(&"a,,b".chars().collect(), ',').into_iter().map(|v| v.into_iter().collect()).collect();
    assert_eq!(parts, vec!["a", "", "b"]);
    assert_eq!(join_strings(&vec!["x".to_string(), "y".to_string()], ","), "x,y");
}
