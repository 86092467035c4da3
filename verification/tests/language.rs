use std::collections::HashSet;

use comment_banner::language::resolve;
use comment_banner::language::supported_languages;
use comment_banner::language::CommentSyntax;

/// Every known language with the delimiters of its comments.
fn table() -> Vec<(&'static str, &'static str, &'static str)> {
    let mut table = Vec::new();
    for name in ["shell", "r", "perl", "ruby", "elixir", "python"] {
        table.push((name, "#", "#"));
    }
    for name in [
        "java",
        "scala",
        "kotlin",
        "rust",
        "objective-c",
        "swift",
        "go",
        "js",
        "ts",
        "c",
        "cpp",
        "csharp",
        "php",
    ] {
        table.push((name, "/*", "*/"));
    }
    for name in ["html", "xml"] {
        table.push((name, "<!-", "->"));
    }
    for name in ["erlang", "tex", "latex", "matlab"] {
        table.push((name, "%", "%"));
    }
    table.push(("curl", "|#", "#|"));
    table.push(("julia", "#=", "=#"));
    table.push(("haskell", "{-", "-}"));
    table.push(("clojure", ";;", ";;"));
    for name in ["sql", "lua"] {
        table.push((name, "--", "--"));
    }
    table.push(("ps", "<#", "#>"));
    table.push(("lisp", "#|", "|#"));
    table.push(("pascal", "{", "}"));
    table.push(("jsp", "<%--", "--%>"));
    table.push(("ocaml", "(*", "*)"));
    for name in ["assembly", "obj"] {
        table.push((name, ";", ";"));
    }
    table
}

#[test]
fn test_default_syntax() {
    let given = CommentSyntax::get("");
    let expected = CommentSyntax::new("#", "#");
    assert_eq!(given, expected);
}

#[test]
fn new_keeps_both_delimiters() {
    let syntax = CommentSyntax::new("<<", ">>");
    assert_eq!(syntax.start, "<<");
    assert_eq!(syntax.end, ">>");
}

#[test]
fn clone_is_equal() {
    let syntax = CommentSyntax::new("(*", "*)");
    let copy = syntax.clone();
    assert_eq!(copy, syntax);
    assert_eq!(copy.start, "(*");
    assert_eq!(copy.end, "*)");
}

#[test]
fn syntaxes_differ_by_either_delimiter() {
    assert_ne!(CommentSyntax::new("#", "#"), CommentSyntax::new("#", "%"));
    assert_ne!(CommentSyntax::new("#", "#"), CommentSyntax::new("%", "#"));
}

#[test]
fn every_language_resolves_to_its_pair() {
    let table = table();
    assert_eq!(table.len(), 38);
    for (name, start, end) in table {
        assert_eq!(CommentSyntax::get(name), CommentSyntax::new(start, end), "{}", name);
        let found = CommentSyntax::lookup(name);
        assert_eq!(found, Some(CommentSyntax::new(start, end)), "{}", name);
        let resolution = resolve(name);
        assert_eq!(resolution.syntax, CommentSyntax::new(start, end), "{}", name);
        assert_eq!(resolution.notice, None, "{}", name);
    }
}

#[test]
fn unknown_languages_resolve_to_shell_style() {
    let names = ["", "unknown-lang", "Python", "C", "shell ", " shell", "_", "ls", "c++", "объект"];
    for name in names {
        assert_eq!(CommentSyntax::get(name), CommentSyntax::new("#", "#"), "{:?}", name);
        assert_eq!(CommentSyntax::lookup(name), None, "{:?}", name);
    }
}

#[test]
fn unknown_language_gives_a_notice_that_names_it() {
    let resolution = resolve("unknown-lang");
    assert_eq!(resolution.syntax, CommentSyntax::new("#", "#"));
    let notice = resolution.notice.expect("a notice");
    assert!(notice.contains("unknown-lang"));
    assert_eq!(notice, "language `unknown-lang` not found, defaults to shell style");
}

#[test]
fn empty_language_gives_a_notice() {
    let resolution = resolve("");
    assert_eq!(resolution.syntax, CommentSyntax::new("#", "#"));
    assert_eq!(
        resolution.notice,
        Some(String::from("language `` not found, defaults to shell style"))
    );
}

#[test]
fn identifiers_are_case_sensitive() {
    assert_eq!(CommentSyntax::get("ocaml"), CommentSyntax::new("(*", "*)"));
    assert_eq!(CommentSyntax::get("OCaml"), CommentSyntax::new("#", "#"));
    assert!(resolve("HTML").notice.is_some());
}

#[test]
fn supported_languages_are_the_whole_table() {
    let listed = supported_languages();
    assert_eq!(listed.len(), 38);
    let listed: HashSet<&str> = listed.into_iter().collect();
    let expected: HashSet<&str> = table().into_iter().map(|entry| entry.0).collect();
    assert_eq!(listed.len(), 38);
    assert_eq!(listed, expected);
}

#[test]
fn every_supported_language_is_found() {
    for name in supported_languages() {
        assert!(CommentSyntax::lookup(name).is_some(), "{}", name);
        assert!(resolve(name).notice.is_none(), "{}", name);
    }
}
