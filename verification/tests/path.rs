use epic_backend::path::is_confined;

#[test]
fn plain_relative_paths_are_confined() {
    assert!(is_confined("readme.txt"));
    assert!(is_confined("docs/readme.txt"));
    assert!(is_confined("docs/"));
    assert!(is_confined("a/b/c/d"));
    assert!(is_confined(""));
    assert!(is_confined("."));
    assert!(is_confined("./a"));
    assert!(is_confined("a//b"));
}

#[test]
fn parent_traversal_is_not_confined() {
    assert!(!is_confined("../../etc/passwd"));
    assert!(!is_confined(".."));
    assert!(!is_confined("../x"));
    assert!(!is_confined("a/../../x"));
    assert!(!is_confined("a/b/../../../x"));
    assert!(!is_confined("./../x"));
    assert!(!is_confined("..\\x"));
    assert!(!is_confined("a\\..\\..\\x"));
}

#[test]
fn climbing_back_to_the_start_is_confined() {
    assert!(is_confined("a/.."));
    assert!(is_confined("a/../b"));
    assert!(is_confined("a/b/../../c"));
    assert!(is_confined("a/./../b"));
}

#[test]
fn rooted_paths_are_not_confined() {
    assert!(!is_confined("/etc/passwd"));
    assert!(!is_confined("/"));
    assert!(!is_confined("\\windows"));
}

#[test]
fn dots_inside_names_are_ordinary() {
    assert!(is_confined("..."));
    assert!(is_confined("..a/b"));
    assert!(is_confined("a../.b"));
    assert!(is_confined(".hidden"));
    assert!(is_confined(".../.."));
    assert!(!is_confined(".../../.."));
}

#[test]
fn names_beyond_ascii_are_read_by_component() {
    assert!(is_confined("donn\u{e9}es/\u{e9}t\u{e9}.txt"));
    assert!(!is_confined("donn\u{e9}es/../../\u{e9}t\u{e9}.txt"));
}
