use sss::entry::{ContentEntry, FileKind};
use sss::path::{extension_of, find_extension_dot, replace_extension, stays_inside_of};

fn ext(path: &str) -> Option<String> {
    extension_of(path)
}

#[test]
fn extension_is_what_follows_the_last_dot_of_the_name() {
    assert_eq!(ext("a.md"), Some("md".to_string()));
    assert_eq!(ext("post/a.md"), Some("md".to_string()));
    assert_eq!(ext("a.tar.gz"), Some("gz".to_string()));
    assert_eq!(ext("a."), Some("".to_string()));
    assert_eq!(ext("a..b"), Some("b".to_string()));
    assert_eq!(ext(".a.md"), Some("md".to_string()));
    assert_eq!(ext("é.md"), Some("md".to_string()));
    assert_eq!(ext("a.é"), Some("é".to_string()));
}

#[test]
fn extension_is_missing_without_a_dot_inside_the_name() {
    assert_eq!(ext(""), None);
    assert_eq!(ext("a"), None);
    assert_eq!(ext("post/a"), None);
    assert_eq!(ext(".md"), None);
    assert_eq!(ext("post/.md"), None);
    assert_eq!(ext("post.d/a"), None);
    assert_eq!(ext("post/a/"), None);
    assert_eq!(ext("/"), None);
    assert_eq!(ext("."), None);
}

#[test]
fn extension_dot_is_counted_in_characters() {
    assert_eq!(find_extension_dot("a.md"), Some(1));
    assert_eq!(find_extension_dot("éé.md"), Some(2));
    assert_eq!(find_extension_dot("post/a.b.md"), Some(8));
    assert_eq!(find_extension_dot("post/a"), None);
}

#[test]
fn replace_extension_swaps_or_adds() {
    assert_eq!(replace_extension("post/a.md", "html"), "post/a.html");
    assert_eq!(replace_extension("post/a", "html"), "post/a.html");
    assert_eq!(replace_extension("post/a.tar.gz", "html"), "post/a.tar.html");
    assert_eq!(replace_extension("post/.md", "html"), "post/.md.html");
    assert_eq!(replace_extension("post.d/a", "html"), "post.d/a.html");
    assert_eq!(replace_extension("a.", "html"), "a.html");
    assert_eq!(replace_extension("é.md", "html"), "é.html");
    assert_eq!(replace_extension("", "html"), "");
}

#[test]
fn kind_goes_by_extension() {
    assert_eq!(FileKind::of("a.md"), FileKind::Markdown);
    assert_eq!(FileKind::of("post/a.md"), FileKind::Markdown);
    assert_eq!(FileKind::of("a.html"), FileKind::Template);
    assert_eq!(FileKind::of("style.css"), FileKind::Passthrough);
    assert_eq!(FileKind::of("logo.png"), FileKind::Passthrough);
    assert_eq!(FileKind::of("README"), FileKind::Passthrough);
}

#[test]
fn kind_is_passthrough_on_near_misses() {
    assert_eq!(FileKind::of(".md"), FileKind::Passthrough);
    assert_eq!(FileKind::of("post/.html"), FileKind::Passthrough);
    assert_eq!(FileKind::of("a.MD"), FileKind::Passthrough);
    assert_eq!(FileKind::of("a.htm"), FileKind::Passthrough);
    assert_eq!(FileKind::of("a.md.bak"), FileKind::Passthrough);
    assert_eq!(FileKind::of("md"), FileKind::Passthrough);
    assert_eq!(FileKind::of(""), FileKind::Passthrough);
}

#[test]
fn entry_of_markdown_goes_to_html() {
    let entry = ContentEntry::new("post/a.md");
    assert_eq!(entry.source, "post/a.md");
    assert_eq!(entry.kind, FileKind::Markdown);
    assert_eq!(entry.output, "post/a.html");
}

#[test]
fn entry_of_other_kinds_keeps_its_path() {
    let entry = ContentEntry::new("about.html");
    assert_eq!(entry.kind, FileKind::Template);
    assert_eq!(entry.output, "about.html");
    let entry = ContentEntry::new("css/style.css");
    assert_eq!(entry.kind, FileKind::Passthrough);
    assert_eq!(entry.output, "css/style.css");
    let entry = ContentEntry::new("notes.md.txt");
    assert_eq!(entry.kind, FileKind::Passthrough);
    assert_eq!(entry.output, "notes.md.txt");
}

#[test]
fn separators_that_end_a_path_are_not_counted_to_its_name() {
    assert_eq!(ext("a.md/"), Some("md".to_string()));
    assert_eq!(ext("post.d/"), Some("d".to_string()));
    assert_eq!(ext("post/a.tar.gz//"), Some("gz".to_string()));
    assert_eq!(find_extension_dot("post/a.md///"), Some(6));
    assert_eq!(FileKind::of("a.md/"), FileKind::Markdown);
    assert_eq!(replace_extension("post/", "html"), "post.html");
    assert_eq!(replace_extension("post/a.md//", "html"), "post/a.html");
    assert_eq!(replace_extension("/", "html"), "/");
    assert_eq!(replace_extension("//", "html"), "//");
}

#[test]
fn paths_with_a_parent_segment_or_from_the_root_do_not_stay_inside() {
    for path in ["..", "../a", "a/..", "a/../b", "/", "/a", "a/b/../../..", "../.."] {
        assert!(!stays_inside_of(path), "{}", path);
    }
    for path in ["", "a", "a/b", ".", "./a", "...", "..a", "a..", "a/..b", "a../b", "a/.../b", "a//b"] {
        assert!(stays_inside_of(path), "{}", path);
    }
}
