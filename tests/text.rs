use debmagic::text::{
    components_below_of, contains_char, decimal_text, join_components_of, join_path,
    path_components_of, replace_all, same_text,
};

#[test]
fn join_path_adds_one_separator() {
    assert_eq!(join_path("/tmp/x", "work"), "/tmp/x/work");
    assert_eq!(join_path("/tmp/x/", "work"), "/tmp/x/work");
    assert_eq!(join_path("", "work"), "work");
}

#[test]
fn replace_all_replaces_every_occurrence() {
    assert_eq!(replace_all("a{x}b{x}", "{x}", "yy"), "ayybyy");
    assert_eq!(replace_all("aaa", "aa", "b"), "ba");
    assert_eq!(replace_all("none", "{x}", "y"), "none");
}

fn strings(v: &[&str]) -> Vec<String> {
    v.iter().map(|s| s.to_string()).collect()
}

#[test]
fn path_components_follow_std() {
    assert_eq!(path_components_of("/x/root/"), strings(&["/", "x", "root"]));
    assert_eq!(path_components_of("/x//root/./a"), strings(&["/", "x", "root", "a"]));
    assert_eq!(path_components_of("./a/."), strings(&[".", "a"]));
    assert_eq!(path_components_of("a/../b"), strings(&["a", "..", "b"]));
    assert_eq!(path_components_of(""), strings(&[]));
}

#[test]
fn relative_paths_below_a_root() {
    assert_eq!(components_below_of("/r", "/r/work/p"), Some(strings(&["work", "p"])));
    assert_eq!(components_below_of("/x/root/", "/x/root"), Some(strings(&[])));
    assert_eq!(components_below_of("/x/root", "/x/root//a/./b"), Some(strings(&["a", "b"])));
    assert_eq!(components_below_of("/r", "/rx/work"), None);
    assert_eq!(components_below_of("/r", "/elsewhere"), None);
    assert_eq!(components_below_of("/r", "r/a"), None);
}

#[test]
fn components_joined_onto_a_directory() {
    assert_eq!(join_components_of("/debmagic", &strings(&["a", "b"])), "/debmagic/a/b");
    assert_eq!(join_components_of("/debmagic", &strings(&[])), "/debmagic/");
    assert_eq!(join_components_of("/debmagic", &strings(&["/", "a"])), "/a");
}

#[test]
fn decimal_text_writes_digits() {
    assert_eq!(decimal_text(0), "0");
    assert_eq!(decimal_text(1000), "1000");
    assert_eq!(decimal_text(4294967295), "4294967295");
}

#[test]
fn character_tests() {
    assert!(contains_char("3:1.0", ':'));
    assert!(!contains_char("1.0", ':'));
    assert!(same_text("abc", "abc"));
    assert!(!same_text("abc", "abd"));
}
