use ir_trace::interpreter::primitives::call_primitive;
use ir_trace::primitives::eval_primitive;
use ir_trace::trace_types::PrimOp;
use ir_trace::value::Value;

fn arr(vals: Vec<u64>) -> Value {
    Value::Array(vals.into_iter().map(Value::Scalar).collect())
}

#[test]
fn test_array_size_with_irr() {
    let result = eval_primitive(&PrimOp::ArraySize, &[Value::Irrelevant, arr(vec![1, 2, 3])]);
    assert_eq!(result.as_u64(), 3);
}

#[test]
fn test_array_size_without_irr() {
    let result = eval_primitive(&PrimOp::ArraySize, &[arr(vec![1, 2, 3])]);
    assert_eq!(result.as_u64(), 3);
}

#[test]
fn test_array_get_3args() {
    let result = eval_primitive(&PrimOp::ArrayGet, &[Value::Irrelevant, arr(vec![10, 20, 30]), Value::Scalar(1)]);
    assert_eq!(result.as_u64(), 20);
}

#[test]
fn test_array_get_4args() {
    let result = eval_primitive(
        &PrimOp::ArrayGet,
        &[Value::Irrelevant, arr(vec![10, 20, 30]), Value::Scalar(1), Value::Irrelevant],
    );
    assert_eq!(result.as_u64(), 20);
}

#[test]
fn test_array_get_out_of_bounds() {
    let result = eval_primitive(&PrimOp::ArrayGet, &[Value::Irrelevant, arr(vec![10, 20]), Value::Scalar(5)]);
    assert!(matches!(result, Value::Irrelevant));
}

#[test]
fn test_array_set() {
    let result = eval_primitive(
        &PrimOp::ArraySet,
        &[Value::Irrelevant, arr(vec![10, 20, 30]), Value::Scalar(0), Value::Scalar(99)],
    );
    match result {
        Value::Array(v) => {
            assert_eq!(v.len(), 3);
            assert_eq!(v[0].as_u64(), 99);
            assert_eq!(v[1].as_u64(), 20);
        }
        other => panic!("expected Array, got {:?}", other),
    }
}

#[test]
fn test_array_push() {
    let result = eval_primitive(&PrimOp::ArrayPush, &[Value::Irrelevant, arr(vec![10, 20]), Value::Scalar(30)]);
    match result {
        Value::Array(v) => {
            assert_eq!(v.len(), 3);
            assert_eq!(v[2].as_u64(), 30);
        }
        other => panic!("expected Array, got {:?}", other),
    }
}

#[test]
fn test_scalar_bytes_read_back() {
    let mut v = Value::Object { tag: 3, fields: vec![Value::Scalar(1)], scalars: vec![9, 9] };
    v.set_scalar_bytes(0, 4, &[1, 2, 3]);
    assert_eq!(v.get_scalar_bytes(0, 4, 3), vec![1, 2, 3]);
    assert_eq!(v.get_scalar_bytes(7, 4, 3), vec![1, 2, 3]);
    assert_eq!(v, Value::Object { tag: 3, fields: vec![Value::Scalar(1)], scalars: vec![9, 9, 0, 0, 1, 2, 3] });
    v.set_scalar_bytes(0, 1, &[5]);
    assert_eq!(v.get_scalar_bytes(0, 0, 7), vec![9, 5, 0, 0, 1, 2, 3]);
    let mut s = Value::Scalar(5);
    s.set_scalar_bytes(0, 0, &[1]);
    assert_eq!(s, Value::Scalar(5));
}

#[test]
fn test_call_primitive_is_eval_primitive() {
    let cases: Vec<(PrimOp, Vec<u64>)> = vec![
        (PrimOp::NatAdd, vec![2, 3]),
        (PrimOp::NatSub, vec![2, 3]),
        (PrimOp::NatMul, vec![7, 6]),
        (PrimOp::NatDecEq, vec![4, 4]),
    ];
    for (op, xs) in cases {
        let args: Vec<Value> = xs.iter().map(|x| Value::Scalar(*x)).collect();
        let again: Vec<Value> = xs.iter().map(|x| Value::Scalar(*x)).collect();
        assert_eq!(call_primitive(&op, args), eval_primitive(&op, &again));
    }
}
