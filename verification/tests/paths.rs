use slotsfx::paths::{path_parts, paths_equal};

fn same(a: &str, b: &str) -> bool {
    paths_equal(&a.as_bytes().to_vec(), &b.as_bytes().to_vec(), false)
}

#[test]
fn repeated_and_trailing_separators_do_not_matter() {
    assert!(same("m//x.nam", "m/x.nam"));
    assert!(same("m/x.nam/", "m/x.nam"));
    assert!(same("/a//b", "/a/b"));
}

#[test]
fn inner_dot_components_are_dropped() {
    assert!(same("m/./x.nam", "m/x.nam"));
    assert!(same("a/b/.", "a/b"));
    assert!(same("/./a", "/a"));
}

#[test]
fn leading_dot_root_and_parent_steps_count() {
    assert!(!same("./a", "a"));
    assert!(same("./a", "././a"));
    assert!(!same("/a", "a"));
    assert!(!same("a/../b", "b"));
    assert!(!same("m/x.nam", "m/y.nam"));
    assert!(!same("M/x.nam", "m/x.nam"));
}

#[test]
fn path_parts_split_into_components() {
    let parts = path_parts(&b"/lib//ir/./cab.wav".to_vec(), false);
    assert!(parts.rooted);
    assert!(!parts.cur_dir);
    assert_eq!(parts.names, vec![b"lib".to_vec(), b"ir".to_vec(), b"cab.wav".to_vec()]);
    let parts = path_parts(&b"./x".to_vec(), false);
    assert!(!parts.rooted);
    assert!(parts.cur_dir);
    assert_eq!(parts.names, vec![b"x".to_vec()]);
    let parts = path_parts(&b"".to_vec(), false);
    assert!(!parts.rooted && !parts.cur_dir && parts.names.is_empty());
}

#[test]
fn non_utf8_paths_stay_apart() {
    assert!(!paths_equal(&vec![b'm', b'/', 0xff], &vec![b'm', b'/', 0xfe], false));
}

fn same_on_windows(a: &str, b: &str) -> bool {
    paths_equal(&a.as_bytes().to_vec(), &b.as_bytes().to_vec(), true)
}

#[test]
fn windows_paths_split_on_both_separators() {
    assert!(same_on_windows(r"C:\IR\\a.wav", r"C:\IR\a.wav"));
    assert!(same_on_windows(r"C:\IR/a.wav", r"C:\IR\a.wav"));
    assert!(same_on_windows(r"C:\IR\.\a.wav\", r"C:\IR\a.wav"));
    assert!(!same(r"C:\IR\\a.wav", r"C:\IR\a.wav"));
}

#[test]
fn windows_drive_prefix_is_compared_by_letter() {
    assert!(same_on_windows(r"c:\IR\a.wav", r"C:\IR\a.wav"));
    assert!(!same_on_windows(r"D:\IR\a.wav", r"C:\IR\a.wav"));
    assert!(!same_on_windows(r"C:IR\a.wav", r"C:\IR\a.wav"));
    assert!(!same_on_windows(r"C:\ir\a.wav", r"C:\IR\a.wav"));
    let parts = path_parts(&br"c:\x".to_vec(), true);
    assert_eq!(parts.drive, Some(b'C'));
    assert!(parts.rooted);
}

#[test]
fn windows_double_prefix_paths_compare_bytes() {
    assert!(same_on_windows(r"\\server\share\a.wav", r"\\server\share\a.wav"));
    assert!(!same_on_windows(r"\\server\share\\a.wav", r"\\server\share\a.wav"));
    assert!(path_parts(&br"\\?\C:\x".to_vec(), true).double_prefix);
}
