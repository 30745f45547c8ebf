use rustfs_mimalloc::windows_link_libs::windows_link_libs;

#[test]
fn no_libraries_are_linked_off_windows() {
    assert!(windows_link_libs("linux").is_empty());
    assert!(windows_link_libs("macos").is_empty());
    assert!(!windows_link_libs("windows").is_empty());
}
