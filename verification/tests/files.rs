use slotsfx::files::{comes_before, extension_matches, sorted_listing_order, top_file_index};
use slotsfx::webview::cycle_index;

fn names(list: &[&str]) -> Vec<String> {
    list.iter().map(|s| s.to_string()).collect()
}

#[test]
fn extension_is_text_after_last_dot() {
    assert!(extension_matches("model.nam", "nam"));
    assert!(extension_matches("a.b.nam", "nam"));
    assert!(!extension_matches("a.nam.bak", "nam"));
    assert!(!extension_matches("model", "nam"));
}

#[test]
fn extension_ignores_ascii_case() {
    assert!(extension_matches("Cab.WAV", "wav"));
    assert!(extension_matches("cab.wav", "WAV"));
    assert!(extension_matches("cab.WaV", "wAv"));
    assert!(!extension_matches("cab.wave", "wav"));
    assert!(!extension_matches("cab.wa", "wav"));
}

#[test]
fn leading_dot_is_no_extension() {
    assert!(!extension_matches(".nam", "nam"));
    assert!(extension_matches(".hidden.nam", "nam"));
    assert!(!extension_matches("..", ""));
    assert!(extension_matches("name.", ""));
}

#[test]
fn name_order_is_code_point_order() {
    assert!(comes_before("a", "b"));
    assert!(!comes_before("b", "a"));
    assert!(comes_before("B", "a"));
    assert!(comes_before("ab", "abc"));
    assert!(!comes_before("abc", "ab"));
    assert!(!comes_before("same", "same"));
    assert!(comes_before("", "x"));
    assert!(comes_before("z", "é"));
}

#[test]
fn top_file_is_first_matching_name_in_order() {
    let list = names(&["Zeta.nam", "readme.txt", "Alpha.NAM", "beta.nam"]);
    assert_eq!(top_file_index(&list, "nam"), Some(2));
}

#[test]
fn top_file_none_without_match() {
    let list = names(&["a.wav", "b.txt", ".nam"]);
    assert_eq!(top_file_index(&list, "nam"), None);
    assert_eq!(top_file_index(&Vec::new(), "nam"), None);
}

#[test]
fn top_file_keeps_first_of_equal_names() {
    let list = names(&["b.wav", "a.wav", "a.wav"]);
    assert_eq!(top_file_index(&list, "wav"), Some(1));
}

#[test]
fn top_file_same_for_any_listing_order() {
    let one = names(&["c.wav", "a.wav", "b.wav", "0.txt"]);
    let two = names(&["0.txt", "b.wav", "c.wav", "a.wav"]);
    let i = top_file_index(&one, "wav").unwrap();
    let j = top_file_index(&two, "wav").unwrap();
    assert_eq!(one[i], "a.wav");
    assert_eq!(one[i], two[j]);
}

#[test]
fn listing_keeps_matching_files_in_name_order() {
    let list = names(&["c.wav", "notes.txt", "A.WAV", "b.wav", ".wav", "b.wave"]);
    let order = sorted_listing_order(&list, "wav");
    let picked: Vec<&str> = order.iter().map(|&i| list[i].as_str()).collect();
    assert_eq!(picked, vec!["A.WAV", "b.wav", "c.wav"]);
}

#[test]
fn listing_empty_without_matches() {
    assert!(sorted_listing_order(&names(&["a.txt", "b"]), "nam").is_empty());
    assert!(sorted_listing_order(&Vec::new(), "nam").is_empty());
}

#[test]
fn listing_starts_with_top_file() {
    let list = names(&["m2.nam", "m10.nam", "m1.nam", "x.wav"]);
    let order = sorted_listing_order(&list, "nam");
    let top = top_file_index(&list, "nam").unwrap();
    assert_eq!(list[order[0]], list[top]);
    let picked: Vec<&str> = order.iter().map(|&i| list[i].as_str()).collect();
    assert_eq!(picked, vec!["m1.nam", "m10.nam", "m2.nam"]);
}

#[test]
fn stepping_next_then_previous_returns() {
    for count in 1usize..6 {
        for k in 0..count {
            let next = cycle_index(k, 1, count);
            assert_eq!(cycle_index(next, -1, count), k);
            let prev = cycle_index(k, -1, count);
            assert_eq!(cycle_index(prev, 1, count), k);
        }
    }
}
