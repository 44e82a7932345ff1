use hello_rs::grpc_server::header_value_text;
use hello_rs::sampler::{should_sample, ParentContext, SamplingDecision};
use hello_rs::trace_id::trace_id_text;

#[test]
fn trace_id_text_zero() {
    assert_eq!(trace_id_text([0u8; 16]), "00000000000000000000000000000000");
}

#[test]
fn trace_id_text_example() {
    let id: [u8; 16] = [
        0x4b, 0xf9, 0x2f, 0x35, 0x77, 0xb3, 0x4d, 0xa6, 0xa3, 0xce, 0x92, 0x9d, 0x0e, 0x0e, 0x47,
        0x36,
    ];
    assert_eq!(trace_id_text(id), "4bf92f3577b34da6a3ce929d0e0e4736");
    assert_eq!(trace_id_text(id), format!("{:032x}", u128::from_be_bytes(id)));
}

#[test]
fn trace_id_text_all_ones() {
    assert_eq!(trace_id_text([0xff; 16]), "ffffffffffffffffffffffffffffffff");
    assert_eq!(trace_id_text([0xff; 16]).len(), 32);
}

#[test]
fn trace_id_text_distinct_ids() {
    let mut a = [0u8; 16];
    let mut b = [0u8; 16];
    a[15] = 1;
    b[0] = 0x10;
    assert_ne!(trace_id_text(a), trace_id_text(b));
    assert_eq!(trace_id_text(a), format!("{:032x}", 1u128));
}

#[test]
fn header_value_text_visible_ascii() {
    assert_eq!(header_value_text(b"00-abc-01"), Some("00-abc-01"));
    assert_eq!(header_value_text(b"a\tb c~"), Some("a\tb c~"));
    assert_eq!(header_value_text(b""), Some(""));
}

#[test]
fn header_value_text_rejects_control_and_non_ascii() {
    assert_eq!(header_value_text(b"a\x7f"), None);
    assert_eq!(header_value_text(b"a\nb"), None);
    assert_eq!(header_value_text("é".as_bytes()), None);
}

fn parent(has_active_span: bool, is_sampled: bool) -> Option<ParentContext> {
    Some(ParentContext { has_active_span, is_sampled })
}

#[test]
fn sampled_parent_is_followed() {
    for draw in [false, true] {
        let plan = should_sample(parent(true, true), draw);
        assert_eq!(plan.decision, SamplingDecision::RecordAndSample);
        assert!(plan.inherit_trace_state);
    }
}

#[test]
fn unsampled_parent_is_followed() {
    for draw in [false, true] {
        let plan = should_sample(parent(true, false), draw);
        assert_eq!(plan.decision, SamplingDecision::Drop);
    }
}

#[test]
fn root_span_follows_draw() {
    assert_eq!(should_sample(None, true).decision, SamplingDecision::RecordAndSample);
    assert_eq!(should_sample(None, false).decision, SamplingDecision::Drop);
    assert!(!should_sample(None, true).inherit_trace_state);
}

#[test]
fn inactive_parent_counts_as_root() {
    let plan = should_sample(parent(false, true), false);
    assert_eq!(plan.decision, SamplingDecision::Drop);
    assert!(plan.inherit_trace_state);
    assert_eq!(should_sample(parent(false, false), true).decision, SamplingDecision::RecordAndSample);
}
