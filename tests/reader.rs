use ai_coding_agent::{
    check_content, check_target, is_markdown_extension, is_markdown_file, path_extension,
    MarkdownError, MAX_FILE_SIZE,
};
use std::path::Path;

#[test]
fn test_is_markdown_file_with_md_extension() {
    assert!(is_markdown_file("README.md"));
    assert!(is_markdown_file("README.MD"));
    assert!(is_markdown_file("README.Md"));
}

#[test]
fn test_is_markdown_file_with_markdown_extension() {
    assert!(is_markdown_file("docs/index.markdown"));
    assert!(is_markdown_file("docs/index.MARKDOWN"));
}

#[test]
fn test_is_markdown_file_with_invalid_extension() {
    assert!(!is_markdown_file("data.txt"));
    assert!(!is_markdown_file("main.rs"));
    assert!(!is_markdown_file("README"));
}

#[test]
fn test_is_markdown_file_with_nested_paths() {
    assert!(is_markdown_file("docs/guides/walkthrough.md"));
    assert!(is_markdown_file("a/b/c/d/e/file.md"));
}

#[test]
fn markdown_check_ignores_case_of_every_variant() {
    for ext in ["md", "mD", "Md", "MD", "markdown", "MarkDown", "MARKDOWN", "mArKdOwN"] {
        assert!(is_markdown_file(&format!("notes.{}", ext)), "{}", ext);
        assert!(is_markdown_file(&format!("a/b.c/notes.{}", ext)), "{}", ext);
    }
    for ext in ["txt", "TXT", "mdx", "MDX", "m", "markdow", "mkd", ""] {
        assert!(!is_markdown_file(&format!("notes.{}", ext)), "{}", ext);
    }
}

#[test]
fn markdown_check_follows_unicode_lowercase() {
    // U+212A KELVIN SIGN lowercases to 'k'.
    assert!(is_markdown_file("notes.mar\u{212A}down"));
    assert!(!is_markdown_file("notes.m\u{e4}"));
}

#[test]
fn markdown_check_is_stable() {
    for p in ["README.md", "README.MD", "a.txt", "README"] {
        assert_eq!(is_markdown_file(p), is_markdown_file(p));
    }
}

#[test]
fn hidden_files_and_odd_names_have_no_markdown_extension() {
    assert!(!is_markdown_file(".md"));
    assert!(!is_markdown_file("docs/.markdown"));
    assert!(!is_markdown_file(".."));
    assert!(!is_markdown_file("/"));
    assert!(!is_markdown_file(""));
    assert!(is_markdown_file("..md"));
    assert!(is_markdown_file("docs/a.md/"));
    assert!(is_markdown_file("docs/a.md/."));
}

#[test]
fn is_markdown_extension_wants_lower_case() {
    assert!(is_markdown_extension("md"));
    assert!(is_markdown_extension("markdown"));
    assert!(!is_markdown_extension("MD"));
    assert!(!is_markdown_extension("txt"));
    assert!(!is_markdown_extension(""));
}

#[test]
fn path_extension_agrees_with_std_path() {
    let cases = [
        "README.md", "README", "docs/index.markdown", "a/b/c.tar.gz", ".hidden", ".hidden.md",
        "..", ".", "./", "../", "/", "", "a.", "a..", "...", "..md", "dir.d/file", "dir.d/file/",
        "x.md//", "x.md/./", "x.md/.", "a/./b.txt", "/abs/p.MD", "测试.Markdown", "a/../b.rs",
        "a/..", "./.md", "//", "a//b.c",
    ];
    for c in cases {
        let expected = Path::new(c).extension().and_then(|e| e.to_str()).map(|s| s.to_string());
        assert_eq!(path_extension(c), expected, "path {:?}", c);
    }
}

#[test]
fn target_missing_is_file_not_found() {
    match check_target("missing.md", false, false) {
        Err(MarkdownError::FileNotFound(p)) => {
            assert_eq!(p, "missing.md");
            let e = MarkdownError::FileNotFound(p);
            assert!(e.message().contains("File not found"));
            assert!(e.message().contains("missing.md"));
        }
        _ => panic!("Expected FileNotFound error"),
    }
}

#[test]
fn target_directory_is_not_a_file() {
    match check_target("some/dir", true, false) {
        Err(e @ MarkdownError::NotAFile(_)) => assert!(e.message().contains("not a file")),
        _ => panic!("Expected NotAFile error"),
    }
    // A directory is reported as such even when its name looks like markdown.
    assert!(matches!(
        check_target("docs.md", true, false),
        Err(MarkdownError::NotAFile(_))
    ));
}

#[test]
fn target_with_other_extension_is_invalid_extension() {
    match check_target("notes.txt", true, true) {
        Err(MarkdownError::InvalidExtension(p, ext)) => {
            assert_eq!(p, "notes.txt");
            assert_eq!(ext, "txt");
            let msg = MarkdownError::InvalidExtension(p, ext).message();
            assert!(msg.contains("invalid extension"));
            assert!(msg.contains("txt"));
        }
        _ => panic!("Expected InvalidExtension error"),
    }
    match check_target("LICENSE", true, true) {
        Err(MarkdownError::InvalidExtension(_, ext)) => assert_eq!(ext, "none"),
        _ => panic!("Expected InvalidExtension error"),
    }
}

#[test]
fn target_markdown_file_may_be_read() {
    assert!(check_target("README.md", true, true).is_ok());
    assert!(check_target("docs/x.MARKDOWN", true, true).is_ok());
}

#[test]
fn content_comes_back_unchanged() {
    for text in [
        "# Hi\n",
        "",
        "# 测试\n\nThis has émojis 🦀 and üñíçödé characters.",
        "# Title\n\n## Subtitle\n\n- Item 1\n- Item 2\n- Item 3",
        "  leading and trailing whitespace \r\n\t",
    ] {
        match check_content("README.md", text.to_string()) {
            Ok(out) => assert_eq!(out.as_bytes(), text.as_bytes()),
            Err(_) => panic!("Expected the content back"),
        }
    }
}

#[test]
fn content_at_the_ceiling_is_accepted() {
    let text = "a".repeat(MAX_FILE_SIZE);
    assert_eq!(check_content("big.md", text.clone()).ok(), Some(text));
}

#[test]
fn content_over_the_ceiling_is_too_large() {
    let text = "a".repeat(10_485_761);
    match check_content("big.md", text) {
        Err(e @ MarkdownError::FileTooLarge(_, _)) => {
            match &e {
                MarkdownError::FileTooLarge(p, n) => {
                    assert_eq!(p, "big.md");
                    assert_eq!(*n, 10_485_761);
                }
                _ => unreachable!(),
            }
            let msg = e.message();
            assert!(msg.contains("too large"));
            assert!(msg.contains("10485761"));
        }
        _ => panic!("Expected FileTooLarge error"),
    }
}

#[test]
fn content_size_counts_bytes_not_characters() {
    // 3_495_254 three-byte characters make 10_485_762 bytes.
    let text = "测".repeat(3_495_254);
    match check_content("wide.md", text) {
        Err(MarkdownError::FileTooLarge(_, n)) => assert_eq!(n, 10_485_762),
        _ => panic!("Expected FileTooLarge error"),
    }
}
