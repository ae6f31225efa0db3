use finder::paths::{extension, name_extension};
use std::path::Path;

fn by_std(path: &str) -> Option<&str> {
    Path::new(path).extension().and_then(|ext| ext.to_str())
}

#[test]
fn the_extension_follows_the_last_dot() {
    assert_eq!(name_extension("a.txt"), Some("txt"));
    assert_eq!(name_extension("archive.tar.gz"), Some("gz"));
    assert_eq!(name_extension("a.b.c.d"), Some("d"));
}

#[test]
fn a_name_without_a_dot_has_no_extension() {
    assert_eq!(name_extension("b"), None);
    assert_eq!(name_extension("Makefile"), None);
    assert_eq!(name_extension(""), None);
}

#[test]
fn a_dot_in_front_starts_no_extension() {
    assert_eq!(name_extension(".bashrc"), None);
    assert_eq!(name_extension("."), None);
    assert_eq!(name_extension(".config.toml"), Some("toml"));
    assert_eq!(name_extension("..a"), Some("a"));
}

#[test]
fn a_dot_at_the_end_is_an_empty_extension() {
    assert_eq!(name_extension("a."), Some(""));
    assert_eq!(name_extension("a.."), Some(""));
    assert_eq!(name_extension("..."), Some(""));
}

#[test]
fn an_extension_keeps_its_letters() {
    assert_eq!(name_extension("r\u{e9}sum\u{e9}.\u{e9}t\u{e9}"), Some("\u{e9}t\u{e9}"));
    assert_eq!(name_extension("\u{6771}.\u{4eac}"), Some("\u{4eac}"));
    assert_eq!(name_extension("a.TXT"), Some("TXT"));
    assert_eq!(name_extension("a.t x"), Some("t x"));
}

#[test]
fn the_extension_of_a_path_is_that_of_its_file_name() {
    assert_eq!(extension("/home/u/docs/report.pdf"), Some("pdf"));
    assert_eq!(extension("/home/u.d/report"), None);
    assert_eq!(extension("/home/u/.bashrc"), None);
    assert_eq!(extension("relative/dir/a.b"), Some("b"));
    assert_eq!(extension("/dir.d/"), Some("d"));
}

#[test]
fn a_path_without_a_file_name_has_no_extension() {
    assert_eq!(extension("/"), None);
    assert_eq!(extension(""), None);
    assert_eq!(extension(".."), None);
    assert_eq!(extension("/a.b/.."), None);
}

#[test]
fn name_extension_is_what_std_gives() {
    for name in [
        "", "a", "a.txt", ".a", ".", "...", "..a", "a.", "a..", "a.b.c", ".a.", ".a.b", "a b.c d",
        "\u{e9}.\u{e9}", "\u{6771}\u{4eac}", "x.\u{1f600}", "tar.gz.", "_.-", "a\\b.c",
    ] {
        assert_eq!(name_extension(name), by_std(name), "{:?}", name);
    }
}

#[test]
fn extension_is_what_std_gives() {
    for path in [
        "", "/", "//", ".", "..", "/..", "/.", "a", "/a", "a/", "/a.b", "/a.b/", "/a.b//", "/a.b/.",
        "/a.b/./", "/a.b/..", "/a.b/c", "/a.b/c.d", "/a.b/.c", "/a.b/.c.d", "a.b/c.", "./a.b",
        "../a.b", "/x/...", "/x/..y", "/home/u/docs/report.pdf", "/home/u/photo.pdf",
        "/t\u{e9}l\u{e9}/r\u{e9}sum\u{e9}.\u{e9}t\u{e9}", "C:\\dir.d\\file", "\\\\?\\C:\\a.txt",
    ] {
        assert_eq!(extension(path), by_std(path), "{:?}", path);
    }
}
