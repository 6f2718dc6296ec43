use cxgledit::datastructure::Vec2;
use cxgledit::debuginfo::{ProcessInfo, ProcessInfoError};
use cxgledit::ui::basic::coordinate::Size;
use cxgledit::ui::font::{calculate_text_dimensions, dimensions_of_text_line, Font, GlyphInfo};
use cxgledit::ui::inputbox::path_matches;

fn glyph(advance: i32) -> GlyphInfo {
    GlyphInfo {
        x0: 0,
        x1: 0,
        y0: 0,
        y1: 0,
        advance,
        offsets: Vec2::new(0, 0),
        size: Vec2::new(0, 0),
        bearing: Vec2::new(0, 0),
    }
}

fn test_font() -> Font {
    let mut f = Font::new(20);
    for c in "abcdef <>!".chars() {
        f.add_glyph(c, glyph(10));
    }
    f.add_glyph('=', glyph(7));
    f.add_glyph('\u{2264}', glyph(12));
    f.add_glyph('\u{2260}', glyph(13));
    f
}

#[test]
fn text_dimensions_over_rows() {
    let font = test_font();
    let text: Vec<char> = "abc\nab\nabcd".chars().collect();
    assert_eq!(calculate_text_dimensions(&text, &font), Size { width: 40, height: 60 });
    let empty: Vec<char> = Vec::new();
    assert_eq!(calculate_text_dimensions(&empty, &font), Size { width: 0, height: 20 });
}

#[test]
fn two_character_signs_take_one_glyph() {
    let font = test_font();
    // "a<=b": a, the sign for <=, nothing for =, b
    let text: Vec<char> = "a<=b".chars().collect();
    assert_eq!(calculate_text_dimensions(&text, &font), Size { width: 10 + 12 + 10, height: 20 });
    let ne: Vec<char> = "a!=b".chars().collect();
    assert_eq!(dimensions_of_text_line(&ne, &font), Size { width: 10 + 13 + 10, height: 20 });
    // a lone = has its own glyph
    let eq: Vec<char> = "a=b".chars().collect();
    assert_eq!(dimensions_of_text_line(&eq, &font), Size { width: 27, height: 20 });
    // characters without a glyph take no room on a line
    let unknown: Vec<char> = "azz".chars().collect();
    assert_eq!(dimensions_of_text_line(&unknown, &font), Size { width: 10, height: 20 });
}

#[test]
fn file_list_filter() {
    assert!(path_matches("./src/main.rs", "main"));
    assert!(path_matches("./src/Main.rs", "MAIN"));
    assert!(path_matches("./src/main.rs", ""));
    assert!(!path_matches("./src/main.rs", "lib"));
    assert!(!path_matches("a", "abc"));
}

fn lines(n: usize, f: impl Fn(usize) -> String) -> Vec<String> {
    (0..n).map(f).collect()
}

#[test]
fn process_info_from_lines() {
    let status = lines(30, |i| match i {
        0 => "Name:\tcxgledit".to_string(),
        5 => "Pid:\t4242".to_string(),
        16 => "VmPeak:\t  1000 kB".to_string(),
        17 => "VmSize:\t   900 kB".to_string(),
        28 => "VmLib:\t    12 kB".to_string(),
        _ => "Other:\tx".to_string(),
    });
    let smaps = vec!["header".to_string(), "Rss:    5120 kB".to_string()];
    let p = ProcessInfo::from_lines(&status, &smaps).unwrap();
    assert_eq!(p.name, "cxgledit");
    assert_eq!((p.pid, p.virtual_mem_usage_peak, p.virtual_mem_usage, p.rss, p.shared_lib_code), (4242, 1000, 900, 5120, 12));
    let bad = lines(6, |i| if i == 5 { "Pid:\tnone".to_string() } else { "x".to_string() });
    assert_eq!(ProcessInfo::from_lines(&bad, &smaps).err(), Some(ProcessInfoError::InvalidInput));
}
