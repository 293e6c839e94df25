use std::path::Path;

use bois::helper::expand_home;
use bois::paths::{is_absolute_path, join};

fn samples() -> Vec<&'static str> {
    vec![
        "",
        "/",
        "a",
        "a/",
        "/a",
        "/a/",
        "a/b",
        "/etc/custom",
        "/etc/custom/",
        ".bashrc",
        "~/.config",
        "dir with space/file",
        "ä/ö",
        "//",
        "a//b",
        ".",
        "..",
        "../x",
    ]
}

#[test]
fn join_is_the_join_of_paths() {
    for base in samples() {
        for tail in samples() {
            let expected = Path::new(base).join(tail);
            assert_eq!(join(base, tail), expected.to_str().unwrap(), "{base:?} {tail:?}");
        }
    }
}

#[test]
fn absolute_is_what_paths_call_absolute() {
    for path in samples() {
        assert_eq!(is_absolute_path(path), Path::new(path).is_absolute(), "{path:?}");
    }
}

#[test]
fn join_puts_one_separator_between() {
    assert_eq!(join("/etc", "custom"), "/etc/custom");
    assert_eq!(join("/etc/", "custom"), "/etc/custom");
    assert_eq!(join("", "custom"), "custom");
    assert_eq!(join("/etc", ""), "/etc/");
    assert_eq!(join("/home/user", "/etc/custom"), "/etc/custom");
}

#[test]
fn home_is_expanded() {
    let home = Some("/home/user".to_string());
    assert_eq!(expand_home("~", &home), "/home/user");
    assert_eq!(expand_home("~/.config/x", &home), "/home/user/.config/x");
    assert_eq!(expand_home("~other/x", &home), "~other/x");
    assert_eq!(expand_home("/etc/~/x", &home), "/etc/~/x");
    assert_eq!(expand_home("x", &home), "x");
    assert_eq!(expand_home("", &home), "");
}

#[test]
fn home_is_left_alone_where_it_is_unknown() {
    assert_eq!(expand_home("~/.config/x", &None), "~/.config/x");
    assert_eq!(expand_home("~", &None), "~");
}
