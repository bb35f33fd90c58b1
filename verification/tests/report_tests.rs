use ir_trace::report::{
    count_steps, encode, format_count, make_input_value, output_status, output_summary, OutputStatus, OutputSummary,
};
use ir_trace::trace_types::{PrimOp, TraceStep};
use ir_trace::value::Value;

#[test]
fn test_output_statuses() {
    let status = |bytes: Vec<u8>| match output_summary(&Value::ByteArray(bytes)) {
        OutputSummary::Bytes { status, .. } => status,
        _ => panic!("expected bytes"),
    };
    assert!(matches!(status(vec![]), OutputStatus::Empty));
    assert!(matches!(status(vec![0xFF]), OutputStatus::StateDecodeError));
    assert!(matches!(status(vec![0xFE, 1]), OutputStatus::BlockDecodeError));
    match status(vec![0xFD, b'o', b'k']) {
        OutputStatus::StfError(msg) => assert_eq!(msg, b"ok".to_vec()),
        _ => panic!("expected an STF error"),
    }
    assert!(matches!(status(vec![0x12, 0]), OutputStatus::Success(0x12)));
    match output_summary(&Value::ByteArray(vec![1, 2, 3])) {
        OutputSummary::Bytes { size, .. } => assert_eq!(size, 3),
        _ => panic!("expected bytes"),
    }
    assert!(matches!(output_summary(&Value::Scalar(9)), OutputSummary::Scalar(9)));
    assert!(matches!(output_summary(&Value::Irrelevant), OutputSummary::Other));
}

#[test]
fn test_step_counts() {
    let steps = vec![
        TraceStep::Branch { scrutinee: 0, chosen_tag: 0 },
        TraceStep::PrimResult { op: PrimOp::NatAdd, args: vec![], result: 0 },
        TraceStep::Branch { scrutinee: 0, chosen_tag: 1 },
        TraceStep::ProjResult { obj: 0, idx: 0, result: 0 },
        TraceStep::SetResult { obj: 0, idx: 0, val: 0, result: 0 },
        TraceStep::CtorCreate { tag: 0, fields: vec![], scalar_data: vec![], result: 0 },
    ];
    let c = count_steps(&steps);
    assert_eq!((c.branch, c.prim, c.ctor, c.proj, c.set), (2, 1, 1, 1, 1));
}

#[test]
fn test_input_value() {
    assert_eq!(make_input_value(Some(5), &[1, 2]), Value::Scalar(5));
    assert_eq!(make_input_value(None, &[1, 2]), Value::ByteArray(vec![1, 2]));
}

#[test]
fn test_hex_encode() {
    assert_eq!(encode(&[0xde, 0xad, 0x00, 0x0f]), "dead000f");
    assert_eq!(encode(&[]), "");
}

#[test]
fn test_serialize_to_bytes() {
    assert_eq!(Value::ByteArray(vec![4, 5]).serialize_to_bytes(), Some(vec![4, 5]));
    assert_eq!(Value::Scalar(0x0102).serialize_to_bytes(), Some(vec![2, 1, 0, 0, 0, 0, 0, 0]));
    assert_eq!(Value::Irrelevant.serialize_to_bytes(), None);
}

#[test]
fn test_format_count() {
    assert_eq!(format_count(0), "0");
    assert_eq!(format_count(999), "999");
    assert_eq!(format_count(1_000), "1,000");
    assert_eq!(format_count(79_510), "79,510");
    assert_eq!(format_count(1_000_000), "1,000,000");
    assert_eq!(format_count(1_234_567), "1,234,567");
    assert_eq!(format_count(u64::MAX), "18446744073709,551,615");
}

#[test]
fn test_output_status_direct() {
    assert!(matches!(output_status(&[]), OutputStatus::Empty));
    assert!(matches!(output_status(&[0xFF, 1, 2]), OutputStatus::StateDecodeError));
    match output_status(&[0xFD]) {
        OutputStatus::StfError(msg) => assert!(msg.is_empty()),
        _ => panic!("expected an STF error"),
    }
    assert!(matches!(output_status(&[0x00]), OutputStatus::Success(0)));
}
