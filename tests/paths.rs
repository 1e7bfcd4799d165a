use blog_editor::paths::{component_list, join_path, normalize_path, path_starts_with, relative_path};

#[test]
fn normalize_drops_dots_and_collapses_parents() {
    assert_eq!(normalize_path("/a/./b/../c"), "/a/c");
    assert_eq!(normalize_path("/srv/blog/a/../b/../../etc/passwd"), "/srv/etc/passwd");
    assert_eq!(normalize_path("a/../b/../../etc/passwd"), "etc/passwd");
}

#[test]
fn normalize_keeps_the_root() {
    assert_eq!(normalize_path("/"), "/");
    assert_eq!(normalize_path("/.."), "/");
    assert_eq!(normalize_path("/../../x"), "/x");
    assert_eq!(normalize_path(""), "");
    assert_eq!(normalize_path("a//b/"), "a/b");
}

#[test]
fn join_inserts_one_separator() {
    assert_eq!(join_path("/srv/blog", "hello.md"), "/srv/blog/hello.md");
    assert_eq!(join_path("/srv/blog/", "hello.md"), "/srv/blog/hello.md");
    assert_eq!(join_path("/srv/blog", "/etc/passwd"), "/etc/passwd");
    assert_eq!(join_path("", "x"), "x");
}

#[test]
fn starts_with_compares_components() {
    assert!(path_starts_with("/srv/blog/post.md", "/srv/blog"));
    assert!(path_starts_with("/srv/blog", "/srv/blog"));
    assert!(path_starts_with("/srv/blog/", "/srv/blog"));
    assert!(!path_starts_with("/srv/blogger/post.md", "/srv/blog"));
    assert!(!path_starts_with("/srv/etc/passwd", "/srv/blog"));
    assert!(!path_starts_with("srv/blog/x", "/srv/blog"));
}

#[test]
fn components_skip_empty_and_current() {
    assert_eq!(component_list("/a//./b"), vec!["a".to_string(), "b".to_string()]);
}

#[test]
fn relative_path_drops_the_root() {
    assert_eq!(relative_path("/srv/blog/posts/x.md", "/srv/blog"), "posts/x.md");
    assert_eq!(relative_path("/srv/blog", "/srv/blog"), "");
}
