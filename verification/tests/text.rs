use gitspace::text::{contained_name, join, push, same};

#[test]
fn join_puts_one_separator() {
    assert_eq!(join(".space", "config.json"), ".space/config.json");
    assert_eq!(join("", "x"), "/x");
    assert_eq!(join("a/", "b"), "a//b");
    assert_eq!(join("a", ""), "a/");
}

#[test]
fn push_adds_a_separator_only_where_needed() {
    assert_eq!(push("/home/ada", ".ssh/id_rsa"), "/home/ada/.ssh/id_rsa");
    assert_eq!(push("/home/ada/", ".ssh/id_rsa"), "/home/ada/.ssh/id_rsa");
    assert_eq!(push("", ".ssh/id_rsa"), ".ssh/id_rsa");
    assert_eq!(push("~", ".ssh/id_rsa"), "~/.ssh/id_rsa");
}

#[test]
fn push_agrees_with_the_standard_path_join() {
    for base in ["/home/ada", "/home/ada/", "", "/", "relative/dir", "h\u{e9}"] {
        let expected = std::path::Path::new(base).join(".ssh/id_rsa");
        assert_eq!(push(base, ".ssh/id_rsa"), expected.to_str().unwrap());
    }
}

#[test]
fn same_compares_characters() {
    assert!(same("", ""));
    assert!(same("widgets", "widgets"));
    assert!(!same("widgets", "widget"));
    assert!(!same("widgets", "widgetz"));
    assert!(same("h\u{e9}llo", "h\u{e9}llo"));
    assert!(!same("h\u{e9}llo", "hello"));
}

#[test]
fn contained_names() {
    assert!(contained_name("widgets"));
    assert!(contained_name("a.b"));
    assert!(contained_name("a/b"));
    assert!(contained_name(".hidden"));
    assert!(contained_name("."));
    assert!(!contained_name(""));
    assert!(!contained_name("/"));
    assert!(!contained_name("/abs"));
    assert!(!contained_name(".."));
    assert!(!contained_name("a/.."));
    assert!(!contained_name("../a"));
    assert!(!contained_name("a..b"));
}
