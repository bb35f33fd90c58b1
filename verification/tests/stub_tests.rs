use ir_trace::stubs::{eval_stub, Stub};
use ir_trace::value::Value;

fn arr(vals: Vec<u64>) -> Value {
    Value::Array(vals.into_iter().map(Value::Scalar).collect())
}

fn list(vals: Vec<u64>) -> Value {
    let mut result = Value::Object { tag: 0, fields: vec![], scalars: vec![] };
    for v in vals.into_iter().rev() {
        result = Value::Object { tag: 1, fields: vec![Value::Scalar(v), result], scalars: vec![] };
    }
    result
}

#[test]
fn test_stub_array_uget() {
    // With erased prefix
    let result = eval_stub(&Stub::ArrayGet, &[Value::Irrelevant, arr(vec![10, 20, 30]), Value::Scalar(1)]).unwrap();
    assert_eq!(result.as_u64(), 20);
    // Without erased prefix
    let result = eval_stub(&Stub::ArrayGet, &[arr(vec![10, 20, 30]), Value::Scalar(2)]).unwrap();
    assert_eq!(result.as_u64(), 30);
}

#[test]
fn test_stub_array_uset() {
    let result = eval_stub(
        &Stub::ArraySet,
        &[Value::Irrelevant, arr(vec![10, 20, 30]), Value::Scalar(1), Value::Scalar(99)],
    )
    .unwrap();
    match result {
        Value::Array(v) => assert_eq!(v[1].as_u64(), 99),
        other => panic!("expected Array, got {:?}", other),
    }
}

#[test]
fn test_stub_array_fget() {
    // Fin is passed as Scalar(idx) in IR
    let result = eval_stub(&Stub::ArrayGet, &[Value::Irrelevant, arr(vec![100, 200, 300]), Value::Scalar(2)]).unwrap();
    assert_eq!(result.as_u64(), 300);
}

#[test]
fn test_stub_array_fset() {
    let result = eval_stub(
        &Stub::ArraySet,
        &[Value::Irrelevant, arr(vec![1, 2, 3]), Value::Scalar(0), Value::Scalar(42)],
    )
    .unwrap();
    match result {
        Value::Array(v) => assert_eq!(v[0].as_u64(), 42),
        other => panic!("expected Array, got {:?}", other),
    }
}

#[test]
fn test_stub_array_mkarray() {
    let result = eval_stub(&Stub::Replicate, &[Value::Irrelevant, Value::Scalar(3), Value::Scalar(7)]).unwrap();
    match result {
        Value::Array(v) => {
            assert_eq!(v.len(), 3);
            assert!(v.iter().all(|x| x.as_u64() == 7));
        }
        other => panic!("expected Array, got {:?}", other),
    }
}

#[test]
fn test_stub_list_length_tr_aux_zero_acc() {
    let result = eval_stub(&Stub::ListLength, &[Value::Irrelevant, list(vec![1, 2, 3]), Value::Scalar(0)]).unwrap();
    assert_eq!(result.as_u64(), 3);
}

#[test]
fn test_stub_list_length_tr_aux_nonzero_acc() {
    let result = eval_stub(&Stub::ListLength, &[Value::Irrelevant, list(vec![1, 2]), Value::Scalar(5)]).unwrap();
    assert_eq!(result.as_u64(), 7);
}
