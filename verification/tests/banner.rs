use comment_banner::banner::center;
use comment_banner::banner::frame;
use comment_banner::banner::get_comment;
use comment_banner::banner::pad_text;
use comment_banner::language::supported_languages;
use comment_banner::language::CommentSyntax;

#[test]
fn test_get_comment_default_to_shell() {
    let given = get_comment(CommentSyntax::get(""), 80, "some comment");
    let expected = String::from(
        "# ------------------------------- some comment ------------------------------- #",
    );
    assert_eq!(given, expected);
}

#[test]
fn test_get_comment() {
    let given = get_comment(CommentSyntax::get("c"), 80, "some comment");
    let expected = String::from(
        "/* ------------------------------ some comment ------------------------------ */",
    );
    assert_eq!(given, expected);
}

#[test]
fn test_get_comment_empty() {
    let given = get_comment(CommentSyntax::get("html"), 80, "");
    let expected = String::from(
        "<!- ------------------------------------------------------------------------- ->",
    );
    assert_eq!(given, expected);
}

#[test]
fn banners_of_width_eighty_take_eighty_bytes() {
    assert_eq!(get_comment(CommentSyntax::get(""), 80, "some comment").len(), 80);
    assert_eq!(get_comment(CommentSyntax::get("c"), 80, "some comment").len(), 80);
    assert_eq!(get_comment(CommentSyntax::get("html"), 80, "").len(), 80);
}

#[test]
fn ocaml_banner_of_width_twenty() {
    let given = get_comment(CommentSyntax::get("ocaml"), 20, "hi");
    assert_eq!(given, "(* ----- hi ----- *)");
    assert_eq!(given.len(), 20);
}

#[test]
fn odd_fill_puts_the_extra_dash_on_the_right() {
    let given = get_comment(CommentSyntax::get("shell"), 21, "hi");
    assert_eq!(given, "# ------ hi ------- #");
    assert_eq!(center(" hi ", 17), "------ hi -------");
    assert_eq!(center("ab", 3), "ab-");
    assert_eq!(center("", 1), "-");
}

#[test]
fn center_leaves_a_long_body_alone() {
    assert_eq!(center("abc", 3), "abc");
    assert_eq!(center("abcd", 3), "abcd");
    assert_eq!(center("", 0), "");
    assert_eq!(center("abc", 0), "abc");
}

#[test]
fn center_counts_characters() {
    assert_eq!(center("éé", 6), "--éé--");
    assert_eq!(center("日本語", 4), "日本語-");
}

#[test]
fn text_is_trimmed_and_set_between_spaces() {
    assert_eq!(pad_text("hi"), " hi ");
    assert_eq!(pad_text("  hi there \t\n"), " hi there ");
    assert_eq!(pad_text("\u{a0}hi\u{2003}"), " hi ");
    assert_eq!(pad_text("a  b"), " a  b ");
}

#[test]
fn blank_text_leaves_no_body() {
    assert_eq!(pad_text(""), "");
    assert_eq!(pad_text(" "), "");
    assert_eq!(pad_text(" \t\r\n  "), "");
    assert_eq!(pad_text("\u{3000}\u{2028}"), "");
}

#[test]
fn blank_text_gives_a_solid_run_of_dashes() {
    assert_eq!(get_comment(CommentSyntax::get("c"), 12, "   "), "/* ------ */");
    assert_eq!(get_comment(CommentSyntax::get("shell"), 5, ""), "# - #");
}

#[test]
fn no_room_gives_the_bare_form() {
    let c = CommentSyntax::get("c");
    assert_eq!(get_comment(c.clone(), 10, "some comment"), "/* some comment */");
    assert_eq!(get_comment(c.clone(), 0, "some comment"), "/* some comment */");
    assert_eq!(get_comment(c.clone(), 0, ""), "/**/");
    assert_eq!(get_comment(c.clone(), 6, ""), "/**/");
    assert_eq!(get_comment(c.clone(), 7, ""), "/* - */");
}

#[test]
fn bare_form_may_be_longer_than_the_width() {
    let given = get_comment(CommentSyntax::get("jsp"), 12, "a long comment");
    assert_eq!(given, "<%-- a long comment --%>");
    assert!(given.len() > 12);
}

#[test]
fn width_at_the_boundary() {
    let shell = CommentSyntax::get("shell");
    // The frame takes 4 and the body 4: a width of 8 leaves no room, 9 does.
    assert_eq!(get_comment(shell.clone(), 8, "hi"), "# hi #");
    assert_eq!(get_comment(shell.clone(), 9, "hi"), "#  hi - #");
    assert_eq!(get_comment(shell.clone(), 10, "hi"), "# - hi - #");
}

#[test]
fn width_below_the_frame_never_decorates() {
    let jsp = CommentSyntax::get("jsp");
    for width in 0..10 {
        assert_eq!(get_comment(jsp.clone(), width, "x"), "<%-- x --%>");
        assert_eq!(get_comment(jsp.clone(), width, ""), "<%----%>");
    }
}

#[test]
fn banner_has_the_width_whenever_there_is_room() {
    for name in supported_languages() {
        let syntax = CommentSyntax::get(name);
        let frame_len = syntax.start.len() + syntax.end.len() + 2;
        for text in ["", "x", "some comment", "  padded  ", "two  words"] {
            let body = pad_text(text);
            for width in 0..100 {
                let line = get_comment(syntax.clone(), width, text);
                if frame_len + body.len() < width {
                    assert_eq!(line.len(), width, "{} {:?} {}", name, text, width);
                    assert!(line.starts_with(&format!("{} ", syntax.start)));
                    assert!(line.ends_with(&format!(" {}", syntax.end)));
                } else {
                    assert_eq!(line, format!("{}{}{}", syntax.start, body, syntax.end));
                }
            }
        }
    }
}

#[test]
fn frame_takes_the_body_as_it_is() {
    let syntax = CommentSyntax::new("<", ">");
    assert_eq!(frame(&syntax, 12, "ab"), "< ---ab--- >");
    assert_eq!(frame(&syntax, 6, "ab"), "<ab>");
    assert_eq!(frame(&syntax, 7, "ab"), "< ab- >");
}

#[test]
fn room_is_measured_in_bytes_and_the_field_in_characters() {
    let shell = CommentSyntax::get("shell");
    // " é " is three characters in four bytes.
    assert_eq!(get_comment(shell.clone(), 8, "é"), "# é #");
    assert_eq!(get_comment(shell.clone(), 9, "é"), "# - é - #");
    let quotes = CommentSyntax::new("«", "»");
    // Each delimiter takes two bytes: the frame is 6 of the 20.
    let line = get_comment(quotes, 20, "hi");
    assert_eq!(line, "« ----- hi ----- »");
    assert_eq!(line.chars().count(), 18);
}

/// The banner as the formatting of the standard library gives it.
fn formatted(start: &str, end: &str, width: usize, text: &str) -> String {
    let inner = text.trim();
    let body = if inner.is_empty() { String::new() } else { format!(" {} ", inner) };
    let frame = start.len() + end.len() + 2;
    if frame + body.len() >= width {
        format!("{}{}{}", start, body, end)
    } else {
        format!("{} {:-^3$} {}", start, body, end, width - frame)
    }
}

#[test]
fn centering_agrees_with_the_standard_formatter() {
    for body in ["", "a", "ab", " hi ", " é ", "日本語", " a  b ", "-", "\t"] {
        for field in 0..40 {
            let expected = format!("{:-^1$}", body, field);
            assert_eq!(center(body, field), expected, "{:?} {}", body, field);
        }
    }
}

#[test]
fn banner_agrees_with_the_standard_formatter() {
    let pairs = [("#", "#"), ("/*", "*/"), ("<%--", "--%>"), ("", ""), ("«", "»"), ("{", "}}}")];
    let texts =
        ["", " ", "x", "some comment", " é ", "日本語 text", "\u{a0}wide\u{3000}", "a\tb"];
    for (start, end) in pairs {
        for text in texts {
            for width in 0..60 {
                assert_eq!(
                    get_comment(CommentSyntax::new(start, end), width, text),
                    formatted(start, end, width, text),
                    "{:?} {:?} {:?} {}",
                    start,
                    end,
                    text,
                    width
                );
            }
        }
    }
}
