use comment_banner::text::byte_len;
use comment_banner::text::same_text;
use comment_banner::text::trim;

#[test]
fn trim_removes_white_space_around() {
    assert_eq!(trim("  some comment  "), "some comment");
    assert_eq!(trim("\t\nx y\r\n"), "x y");
    assert_eq!(trim("x"), "x");
    assert_eq!(trim(""), "");
    assert_eq!(trim("   "), "");
    assert_eq!(trim("\u{a0}é\u{3000}"), "é");
}

#[test]
fn trim_agrees_with_the_standard_trim() {
    let pieces = ["", " ", "a", "\t", "é", "\u{2003}", "b c", "\n", "\u{85}", "-"];
    for a in pieces {
        for b in pieces {
            for c in pieces {
                let text = format!("{}{}{}", a, b, c);
                assert_eq!(trim(&text), text.trim(), "{:?}", text);
            }
        }
    }
}

#[test]
fn same_text_compares_characters() {
    assert!(same_text("", ""));
    assert!(same_text("ls", "ls"));
    assert!(same_text("héllo", "héllo"));
    assert!(!same_text("ls", "l"));
    assert!(!same_text("ls", "lS"));
    assert!(!same_text("", "_"));
    assert!(!same_text("é", "e"));
}

#[test]
fn byte_len_counts_bytes() {
    assert_eq!(byte_len(""), 0);
    assert_eq!(byte_len("<%--"), 4);
    assert_eq!(byte_len("é"), 2);
    assert_eq!(byte_len("日本語"), 9);
}
