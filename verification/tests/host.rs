use slotsfx::host::{buffer_routing, sweep_segment, BufferRouting, Capture, CaptureEvent, SweepSegment};
use slotsfx::registry::{next_instance_id, parse_macro_mappings, parse_snapshots, InstanceRegistry};
use slotsfx::dsp::ring::{clamp_decay, clamp_delay, clamp_to_last, read_behind, step_back, step_forward};

#[test]
fn sender_plays_triggered_sweep_and_skips_rack() {
    let r = buffer_routing(true, false, 0, false, true, false);
    assert_eq!(
        r,
        BufferRouting {
            start_sweep: true,
            play_sweep: true,
            use_streamed_dry: false,
            apply_input_gain: false,
            stream_out: false,
            skip_processing: true,
        }
    );
}

#[test]
fn receiver_routing() {
    let r = buffer_routing(false, true, 2, false, false, true);
    assert!(r.use_streamed_dry && !r.apply_input_gain && !r.skip_processing);
    let r = buffer_routing(false, true, 2, false, false, false);
    assert!(!r.use_streamed_dry && r.apply_input_gain);
    let r = buffer_routing(false, true, 1, false, false, false);
    assert!(r.skip_processing && r.apply_input_gain);
    let r = buffer_routing(true, false, 2, false, false, false);
    assert!(r.stream_out && r.apply_input_gain && !r.skip_processing);
    let r = buffer_routing(false, false, 0, true, true, false);
    assert!(!r.play_sweep && !r.start_sweep && r.apply_input_gain);
}

#[test]
fn sweep_segments() {
    assert_eq!(sweep_segment(0, 100, 10), SweepSegment::FadeIn);
    assert_eq!(sweep_segment(10, 100, 10), SweepSegment::Hold);
    assert_eq!(sweep_segment(90, 100, 10), SweepSegment::Hold);
    assert_eq!(sweep_segment(91, 100, 10), SweepSegment::FadeOut);
    assert_eq!(sweep_segment(100, 100, 10), SweepSegment::Done);
}

#[test]
fn capture_records_blocks_until_full() {
    let mut c: Capture<i32> = Capture::new();
    assert_eq!(c.step(false, 5, 0, &[1, 2]), (false, CaptureEvent::Idle));
    assert!(!c.is_active());
    assert_eq!(c.step(true, 5, 0, &[1, 2]), (true, CaptureEvent::Progress(2)));
    assert_eq!(c.samples(), &vec![1, 2, 0, 0, 0]);
    assert_eq!(c.step(true, 5, 0, &[3, 4]), (false, CaptureEvent::Progress(4)));
    assert_eq!(c.step(false, 5, 0, &[5, 6, 7]), (false, CaptureEvent::Finished));
    assert_eq!(c.samples(), &vec![1, 2, 3, 4, 5]);
    assert!(!c.is_active());
    assert_eq!(c.step(false, 5, 0, &[9]), (false, CaptureEvent::Idle));
    assert_eq!(c.step(true, 0, 0, &[9]), (true, CaptureEvent::Finished));
}

#[test]
fn instance_ids_count_up_and_registry_lookups() {
    let mut reg: InstanceRegistry<&str> = InstanceRegistry::new();
    assert_eq!(reg.next_id(), 0);
    let a = next_instance_id(&mut reg);
    let b = next_instance_id(&mut reg);
    assert_eq!((a, b), (0, 1));
    assert!(a < b);
    reg.register(a, "first");
    reg.register(b, "second");
    assert_eq!(reg.get(a), Some(&"first"));
    reg.unregister(a);
    assert_eq!(reg.get(a), None);
    assert_eq!(reg.get(b), Some(&"second"));
}

#[test]
fn new_instance_registers_fresh_and_leaves_cleanly() {
    let mut reg: InstanceRegistry<&str> = InstanceRegistry::new();
    let a = next_instance_id(&mut reg);
    reg.register(a, "first");
    let b = next_instance_id(&mut reg);
    assert_eq!(reg.get(b), None);
    reg.register(b, "second");
    reg.unregister(b);
    assert_eq!(reg.get(a), Some(&"first"));
    assert_eq!(reg.get(b), None);
    let c = next_instance_id(&mut reg);
    assert!(c > b);
    assert_eq!(reg.get(c), None);
}

#[test]
fn saved_lists_parse() {
    let v = parse_snapshots(r#"[{"slots": [], "params": {}}, 3]"#);
    assert_eq!(v.len(), 2);
    assert_eq!(v[1], serde_json::Value::from(3));
    assert!(parse_snapshots("not json").is_empty());
    assert!(parse_macro_mappings("{}").is_empty());
    assert_eq!(parse_macro_mappings("[1, 2, 3]").len(), 3);
}

#[test]
fn ring_indices() {
    assert_eq!(step_forward(3, 4), 0);
    assert_eq!(step_forward(1, 4), 2);
    assert_eq!(step_back(0, 4), 3);
    assert_eq!(step_back(2, 4), 1);
    assert_eq!(read_behind(5, 2, 10), 3);
    assert_eq!(read_behind(1, 3, 10), 8);
    assert_eq!(read_behind(0, 10, 10), 0);
    assert_eq!(clamp_delay(12000, 48000), 12000);
    assert_eq!(clamp_delay(0, 48000), 1);
    assert_eq!(clamp_delay(60000, 48000), 47999);
    assert_eq!(clamp_decay(10, 96000), 1000);
    assert_eq!(clamp_decay(100000, 96000), 95999);
    assert_eq!(clamp_to_last(30, 10), 9);
    assert_eq!(clamp_to_last(3, 0), 0);
}
