use ir_trace::trace_check::{check_trace, verify_trace, StepFault, VerifyError};
use ir_trace::trace_format::{compact_trace, sha256};
use ir_trace::trace_types::{PrimOp, Trace, TraceHeader, TraceStep, TRACE_MAGIC};
use ir_trace::value::Value;

fn header(values: u32, steps: u64) -> TraceHeader {
    TraceHeader {
        magic: TRACE_MAGIC,
        ir_program_hash: [0u8; 32],
        input_hash: [0u8; 32],
        output_hash: [0u8; 32],
        value_count: values,
        step_count: steps,
    }
}

fn add_trace() -> Trace {
    Trace {
        header: header(3, 1),
        value_table: vec![Value::Scalar(2), Value::Scalar(3), Value::Scalar(5)],
        steps: vec![TraceStep::PrimResult { op: PrimOp::NatAdd, args: vec![0, 1], result: 2 }],
        output_value_id: 2,
    }
}

#[test]
fn test_valid_trace_accepted() {
    assert_eq!(check_trace(&add_trace()), Ok(()));
    verify_trace(&add_trace());
}

#[test]
fn test_bad_magic() {
    let mut t = add_trace();
    t.header.magic = *b"LT02";
    assert_eq!(check_trace(&t), Err(VerifyError::BadMagic));
}

#[test]
fn test_value_count_mismatch() {
    let mut t = add_trace();
    t.header.value_count = 4;
    assert_eq!(check_trace(&t), Err(VerifyError::ValueCountMismatch));
}

#[test]
fn test_step_count_mismatch() {
    let mut t = add_trace();
    t.header.step_count = 0;
    assert_eq!(check_trace(&t), Err(VerifyError::StepCountMismatch));
}

#[test]
fn test_output_out_of_range() {
    let mut t = add_trace();
    t.output_value_id = 3;
    assert_eq!(check_trace(&t), Err(VerifyError::OutputIdOutOfRange));
}

#[test]
fn test_primitive_mismatch() {
    let mut t = add_trace();
    t.value_table[2] = Value::Scalar(6);
    assert_eq!(check_trace(&t), Err(VerifyError::Step { index: 0, fault: StepFault::PrimitiveMismatch }));
}

#[test]
fn test_id_out_of_range_in_step() {
    let mut t = add_trace();
    t.steps[0] = TraceStep::PrimResult { op: PrimOp::NatAdd, args: vec![0, 7], result: 2 };
    assert_eq!(check_trace(&t), Err(VerifyError::Step { index: 0, fault: StepFault::IdOutOfRange }));
}

#[test]
fn test_branch_mismatch_reports_first_fault() {
    let mut t = add_trace();
    t.steps.push(TraceStep::Branch { scrutinee: 0, chosen_tag: 9 });
    t.steps.push(TraceStep::Branch { scrutinee: 0, chosen_tag: 8 });
    t.header.step_count = 3;
    assert_eq!(check_trace(&t), Err(VerifyError::Step { index: 1, fault: StepFault::BranchTagMismatch }));
}

#[test]
fn test_ctor_checks() {
    let obj = Value::Object { tag: 1, fields: vec![Value::Scalar(2)], scalars: vec![7] };
    let mut t = Trace {
        header: header(2, 1),
        value_table: vec![Value::Scalar(2), obj],
        steps: vec![TraceStep::CtorCreate { tag: 1, fields: vec![0], scalar_data: vec![7], result: 1 }],
        output_value_id: 1,
    };
    assert_eq!(check_trace(&t), Ok(()));
    verify_trace(&t);
    t.steps[0] = TraceStep::CtorCreate { tag: 1, fields: vec![0], scalar_data: vec![8], result: 1 };
    assert_eq!(check_trace(&t), Err(VerifyError::Step { index: 0, fault: StepFault::CtorScalarMismatch }));
    t.steps[0] = TraceStep::CtorCreate { tag: 2, fields: vec![0], scalar_data: vec![7], result: 1 };
    assert_eq!(check_trace(&t), Err(VerifyError::Step { index: 0, fault: StepFault::CtorTagMismatch }));
    t.steps[0] = TraceStep::CtorCreate { tag: 1, fields: vec![], scalar_data: vec![7], result: 1 };
    assert_eq!(check_trace(&t), Err(VerifyError::Step { index: 0, fault: StepFault::CtorFieldCountMismatch }));
}

#[test]
fn test_proj_and_set_checks() {
    let obj = Value::Object { tag: 0, fields: vec![Value::Scalar(1), Value::Scalar(2)], scalars: vec![] };
    let set = Value::Object { tag: 0, fields: vec![Value::Scalar(1), Value::Scalar(9)], scalars: vec![] };
    let mut t = Trace {
        header: header(5, 2),
        value_table: vec![obj, Value::Scalar(2), Value::Scalar(9), set, Value::Scalar(1)],
        steps: vec![
            TraceStep::ProjResult { obj: 0, idx: 1, result: 1 },
            TraceStep::SetResult { obj: 0, idx: 1, val: 2, result: 3 },
        ],
        output_value_id: 3,
    };
    assert_eq!(check_trace(&t), Ok(()));
    verify_trace(&t);
    t.steps[0] = TraceStep::ProjResult { obj: 0, idx: 0, result: 1 };
    assert_eq!(check_trace(&t), Err(VerifyError::Step { index: 0, fault: StepFault::ProjMismatch }));
    t.steps[0] = TraceStep::ProjResult { obj: 0, idx: 0, result: 4 };
    t.steps[1] = TraceStep::SetResult { obj: 0, idx: 0, val: 2, result: 3 };
    assert_eq!(check_trace(&t), Err(VerifyError::Step { index: 1, fault: StepFault::SetMismatch }));
}

#[test]
fn test_compaction_drops_unreferenced_values() {
    let mut t = Trace {
        header: header(4, 1),
        value_table: vec![Value::Scalar(1), Value::Scalar(2), Value::Scalar(3), Value::Scalar(4)],
        steps: vec![TraceStep::Branch { scrutinee: 2, chosen_tag: 3 }],
        output_value_id: 0,
    };
    compact_trace(&mut t);
    assert_eq!(t.value_table, vec![Value::Scalar(1), Value::Scalar(3)]);
    assert!(matches!(t.steps[0], TraceStep::Branch { scrutinee: 1, chosen_tag: 3 }));
    assert_eq!(t.output_value_id, 0);
    assert_eq!(t.header.value_count, 2);
    assert_eq!(t.header.step_count, 1);
    assert_eq!(check_trace(&t), Ok(()));
    verify_trace(&t);
}

#[test]
fn test_compaction_renumbers_all_ids() {
    let mut t = Trace {
        header: header(6, 1),
        value_table: vec![
            Value::Irrelevant,
            Value::Scalar(2),
            Value::Irrelevant,
            Value::Scalar(3),
            Value::Irrelevant,
            Value::Scalar(5),
        ],
        steps: vec![TraceStep::PrimResult { op: PrimOp::NatAdd, args: vec![1, 3], result: 5 }],
        output_value_id: 5,
    };
    compact_trace(&mut t);
    assert_eq!(t.value_table, vec![Value::Scalar(2), Value::Scalar(3), Value::Scalar(5)]);
    match &t.steps[0] {
        TraceStep::PrimResult { args, result, .. } => {
            assert_eq!(args, &vec![0, 1]);
            assert_eq!(*result, 2);
        }
        other => panic!("unexpected step {:?}", other),
    }
    assert_eq!(t.output_value_id, 2);
    assert_eq!(check_trace(&t), Ok(()));
    verify_trace(&t);
}

#[test]
fn test_sha256_known_digests() {
    let abc = sha256(b"abc");
    assert_eq!(abc[0], 0xba);
    assert_eq!(abc[1], 0x78);
    assert_eq!(abc[31], 0xad);
    let empty = sha256(b"");
    assert_eq!(empty[0], 0xe3);
    assert_eq!(empty[31], 0x55);
}

#[test]
fn test_compaction_twice_is_once() {
    let mut t = Trace {
        header: header(6, 2),
        value_table: vec![
            Value::Irrelevant,
            Value::Scalar(2),
            Value::Scalar(7),
            Value::Scalar(3),
            Value::Irrelevant,
            Value::Scalar(5),
        ],
        steps: vec![
            TraceStep::PrimResult { op: PrimOp::NatAdd, args: vec![1, 3], result: 5 },
            TraceStep::Branch { scrutinee: 1, chosen_tag: 2 },
        ],
        output_value_id: 2,
    };
    compact_trace(&mut t);
    let once = format!("{:?}", t);
    compact_trace(&mut t);
    assert_eq!(format!("{:?}", t), once);
    assert_eq!(t.value_table[t.output_value_id as usize], Value::Scalar(7));
}

#[test]
fn test_compaction_keeps_a_fault() {
    let mut t = add_trace();
    t.value_table[2] = Value::Scalar(6);
    t.value_table.push(Value::Irrelevant);
    t.header.value_count = 4;
    assert_eq!(check_trace(&t), Err(VerifyError::Step { index: 0, fault: StepFault::PrimitiveMismatch }));
    compact_trace(&mut t);
    assert_eq!(t.value_table.len(), 3);
    assert_eq!(check_trace(&t), Err(VerifyError::Step { index: 0, fault: StepFault::PrimitiveMismatch }));
}

#[test]
fn test_verdict_ignores_unreferenced_value() {
    // value 3 is named by no step and is not the output
    let mut t = add_trace();
    t.value_table.push(Value::Scalar(7));
    t.header.value_count = 4;
    assert_eq!(check_trace(&t), Ok(()));
    t.value_table[3] = Value::Str("anything".to_string());
    assert_eq!(check_trace(&t), Ok(()));
    // a rejected trace stays rejected with the same fault
    t.value_table[2] = Value::Scalar(6);
    let fault = Err(VerifyError::Step { index: 0, fault: StepFault::PrimitiveMismatch });
    assert_eq!(check_trace(&t), fault);
    t.value_table[3] = Value::Scalar(0);
    assert_eq!(check_trace(&t), fault);
}
