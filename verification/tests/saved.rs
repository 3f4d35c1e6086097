use slotsfx::dsp::EffectKind;
use slotsfx::saved::{find_member, list_text_or_empty, parse_saved_slots, restore_plan, saved_slots_text, slot_fields, MemberValue, SavedSlot};

fn value(text: &str) -> serde_json::Value {
    serde_json::from_str(text).unwrap()
}

#[test]
fn saved_slots_are_the_items_of_a_json_array() {
    let slots = parse_saved_slots(r#"[{"id":"a"},{"id":"b"}]"#);
    assert_eq!(slots.len(), 2);
    assert_eq!(slots[1], value(r#"{"id":"b"}"#));
}

#[test]
fn saved_slots_are_empty_for_other_text() {
    assert!(parse_saved_slots("").is_empty());
    assert!(parse_saved_slots("{\"id\":\"a\"}").is_empty());
    assert!(parse_saved_slots("[1,").is_empty());
}

fn text(k: &str, v: &str) -> (String, MemberValue) {
    (k.to_string(), MemberValue::Text(v.to_string()))
}

#[test]
fn slot_fields_are_read_with_defaults() {
    let slot = SavedSlot {
        members: vec![
            text("bypassed", "no"),
            (String::from("bypassed"), MemberValue::Flag(true)),
            text("id", "s1"),
            text("lane", "parallel"),
            text("name", "Model"),
            (String::from("pan"), MemberValue::Other),
            text("path", "/m/x.nam"),
            text("type", "amp"),
        ],
    };
    let f = slot_fields(&slot);
    assert_eq!(f.id, "s1");
    assert_eq!(f.slot_type, "amp");
    assert_eq!(f.name, "Model");
    assert_eq!(f.path, Some("/m/x.nam".to_string()));
    assert!(!f.bypassed);
    assert_eq!(f.lane, "parallel");

    let slot = SavedSlot {
        members: vec![
            (String::from("bypassed"), MemberValue::Flag(true)),
            (String::from("id"), MemberValue::Other),
            (String::from("path"), MemberValue::Other),
        ],
    };
    let f = slot_fields(&slot);
    assert_eq!(f.id, "");
    assert_eq!(f.slot_type, "");
    assert_eq!(f.name, "");
    assert_eq!(f.path, None);
    assert!(f.bypassed);
    assert_eq!(f.lane, "serial");

    let f = slot_fields(&SavedSlot { members: vec![] });
    assert_eq!(f.lane, "serial");
    assert_eq!(f.id, "");
    assert!(!f.bypassed);
}

#[test]
fn first_member_with_a_key_counts() {
    let members = vec![text("a", "1"), text("b", "2"), text("a", "3")];
    assert!(matches!(find_member(&members, "a"), Some(MemberValue::Text(t)) if t == "1"));
    assert!(matches!(find_member(&members, "b"), Some(MemberValue::Text(t)) if t == "2"));
    assert!(find_member(&members, "c").is_none());
}

#[test]
fn restore_plan_keeps_known_slots_in_order() {
    let types: Vec<String> = ["pitch", "amp", "tremolo", "verb", "cab"].iter().map(|s| s.to_string()).collect();
    assert_eq!(
        restore_plan(&types, false),
        vec![(1, EffectKind::Nam), (3, EffectKind::Reverb), (4, EffectKind::Cab)]
    );
    assert_eq!(
        restore_plan(&types, true),
        vec![(0, EffectKind::Pitch), (1, EffectKind::Nam), (3, EffectKind::Reverb), (4, EffectKind::Cab)]
    );
    assert!(restore_plan(&Vec::new(), true).is_empty());
}

#[test]
fn lists_are_written_as_json_text() {
    let slots = vec![value(r#"{"id":"a"}"#), value("2")];
    assert_eq!(saved_slots_text(&slots), Some(r#"[{"id":"a"},2]"#.to_string()));
    assert_eq!(list_text_or_empty(&Vec::new()), "[]");
    assert_eq!(list_text_or_empty(&slots), r#"[{"id":"a"},2]"#);
}

#[test]
fn written_list_reads_back() {
    let slots = vec![value(r#"{"id":"a","type":"cab"}"#), value(r#"{"id":"b"}"#)];
    let text = saved_slots_text(&slots).unwrap();
    assert_eq!(parse_saved_slots(&text), slots);
}
