use rsbuild::text::{
    chars_of, first_line_exec, has_infix_exec, join_strings, push_padded_decimal, replace_all_exec, same_text,
    split_lines, string_of, strip_exec, Strip,
};

fn s(v: &[char]) -> String {
    v.iter().collect()
}

#[test]
fn replace_is_leftmost_and_not_recursive() {
    let r = replace_all_exec(&chars_of("aaa"), &chars_of("aa"), &chars_of("b"));
    assert_eq!(s(&r), "ba");
    let r = replace_all_exec(&chars_of("[out[output] put] x"), &chars_of("[output] "), &Vec::new());
    assert_eq!(s(&r), "[output] x");
}

#[test]
fn lines_like_str_lines() {
    for text in ["", "a", "a\n", "a\r\nb", "a\n\nb\n", "\n", "x\r", "x\r\r\n"] {
        let got: Vec<String> = split_lines(&chars_of(text)).iter().map(|l| s(l)).collect();
        let want: Vec<String> = text.lines().map(|l| l.to_string()).collect();
        assert_eq!(got, want, "lines of {:?}", text);
        let first = first_line_exec(&chars_of(text)).map(|l| s(&l));
        assert_eq!(first, text.lines().next().map(|l| l.to_string()));
    }
}

#[test]
fn trims_like_str_trim() {
    for text in ["", "  a b  ", "\t\nx\u{3000}", "   ", "\"q\""] {
        assert_eq!(s(&strip_exec(&chars_of(text), Strip::Whitespace)), text.trim());
        assert_eq!(s(&strip_exec(&chars_of(text), Strip::Char('"'))), text.trim_matches('"'));
    }
}

#[test]
fn infix_and_equality() {
    assert!(has_infix_exec(&chars_of("/a/.git/b"), &chars_of("/.")));
    assert!(!has_infix_exec(&chars_of("/a/b"), &chars_of("/.")));
    assert!(has_infix_exec(&chars_of("x"), &chars_of("")));
    assert!(same_text("abc", "abc"));
    assert!(!same_text("abc", "abd"));
}

#[test]
fn joins_and_numbers() {
    let parts = vec!["a".to_string(), "b".to_string(), "c".to_string()];
    assert_eq!(join_strings(&parts, ", "), "a, b, c");
    assert_eq!(join_strings(&Vec::new(), ", "), "");
    let mut out = Vec::new();
    push_padded_decimal(&mut out, 7, 2);
    push_padded_decimal(&mut out, 12345, 4);
    assert_eq!(string_of(&out), "0712345");
}

#[test]
fn white_space_agrees_with_std_everywhere() {
    for u in 0u32..0x110000 {
        if let Some(c) = char::from_u32(u) {
            assert_eq!(rsbuild::text::is_white_space(c), c.is_whitespace(), "U+{:04X}", u);
        }
    }
}
