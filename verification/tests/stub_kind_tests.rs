use ir_trace::interpreter::primitives::lookup_primitive;
use ir_trace::primitives::{BinKind, RelKind, Width};
use ir_trace::stubs::{eval_stub, Stub};
use ir_trace::trace_types::PrimOp;
use ir_trace::value::Value;

fn yes() -> Value {
    Value::Object { tag: 1, fields: vec![], scalars: vec![] }
}

fn no() -> Value {
    Value::Object { tag: 0, fields: vec![], scalars: vec![] }
}

#[test]
fn test_lookup_primitive_names() {
    assert_eq!(lookup_primitive("Nat.add"), Some(PrimOp::NatAdd));
    assert_eq!(lookup_primitive("Nat.decEq"), Some(PrimOp::NatBeq));
    assert_eq!(lookup_primitive("Array.getD"), Some(PrimOp::ArrayGet));
    assert_eq!(lookup_primitive("UInt64.ofNat'"), Some(PrimOp::NatToUInt64));
    assert_eq!(lookup_primitive("dbgTrace"), Some(PrimOp::DbgTrace));
    assert_eq!(lookup_primitive("Nat.pow"), None);
}

#[test]
fn test_decide_stubs() {
    let lt = Stub::Decide { width: Width::W64, rel: RelKind::Lt };
    assert_eq!(eval_stub(&lt, &[Value::Scalar(3), Value::Scalar(5)]), Some(yes()));
    let eq8 = Stub::Decide { width: Width::W8, rel: RelKind::Eq };
    assert_eq!(eval_stub(&eq8, &[Value::Scalar(0x101), Value::Scalar(1)]), Some(yes()));
    let le32 = Stub::Decide { width: Width::W32, rel: RelKind::Le };
    assert_eq!(eval_stub(&le32, &[Value::Scalar(0x1_0000_0005), Value::Scalar(4)]), Some(no()));
    assert_eq!(eval_stub(&lt, &[Value::Scalar(3)]), None);
    assert_eq!(eval_stub(&lt, &[Value::ByteArray(vec![]), Value::Scalar(3)]), None);
}

#[test]
fn test_arith_stubs() {
    let sub = Stub::NatArith(BinKind::Sub);
    assert_eq!(eval_stub(&sub, &[Value::Scalar(3), Value::Scalar(5)]), Some(Value::Scalar(0)));
    let wsub = Stub::WordArith(BinKind::Sub);
    assert_eq!(eval_stub(&wsub, &[Value::Scalar(3), Value::Scalar(5)]), Some(Value::Scalar(u64::MAX - 1)));
    let div = Stub::WordArith(BinKind::Div);
    assert_eq!(eval_stub(&div, &[Value::Scalar(3), Value::Scalar(0)]), Some(Value::Scalar(0)));
    assert_eq!(eval_stub(&Stub::Pow, &[Value::Scalar(3), Value::Scalar(4)]), Some(Value::Scalar(81)));
    assert_eq!(eval_stub(&Stub::Pow, &[Value::Scalar(2), Value::Scalar(64)]), Some(Value::Scalar(0)));
    assert_eq!(eval_stub(&Stub::Pow, &[Value::Scalar(2), Value::Scalar(0x1_0000_0003)]), Some(Value::Scalar(8)));
    assert_eq!(eval_stub(&Stub::Log2, &[Value::Scalar(1)]), Some(Value::Scalar(0)));
    assert_eq!(eval_stub(&Stub::Log2, &[Value::Scalar(1024)]), Some(Value::Scalar(10)));
    assert_eq!(eval_stub(&Stub::Log2, &[Value::Scalar(u64::MAX)]), Some(Value::Scalar(63)));
    assert_eq!(eval_stub(&Stub::Truncate(Width::W8), &[Value::Scalar(0x1234)]), Some(Value::Scalar(0x34)));
    assert_eq!(eval_stub(&Stub::Const(64), &[]), Some(Value::Scalar(64)));
}

#[test]
fn test_byte_array_stubs() {
    let ba = Value::ByteArray(vec![1, 2, 3, 4, 5]);
    assert_eq!(
        eval_stub(&Stub::ByteArrayExtract, &[ba.clone_value(), Value::Scalar(1), Value::Scalar(3)]),
        Some(Value::ByteArray(vec![2, 3]))
    );
    assert_eq!(
        eval_stub(&Stub::ByteArrayExtract, &[ba.clone_value(), Value::Scalar(4), Value::Scalar(99)]),
        Some(Value::ByteArray(vec![5]))
    );
    assert_eq!(
        eval_stub(&Stub::ByteArrayExtract, &[ba.clone_value(), Value::Scalar(3), Value::Scalar(1)]),
        Some(Value::ByteArray(vec![]))
    );
    assert_eq!(eval_stub(&Stub::ByteArrayGet, &[ba.clone_value(), Value::Scalar(4)]), Some(Value::Scalar(5)));
    assert_eq!(eval_stub(&Stub::ByteArrayGet, &[ba.clone_value(), Value::Scalar(5)]), Some(Value::Scalar(0)));
    assert_eq!(
        eval_stub(&Stub::ByteArraySet, &[ba.clone_value(), Value::Scalar(0), Value::Scalar(0x1FF)]),
        Some(Value::ByteArray(vec![0xFF, 2, 3, 4, 5]))
    );
    assert_eq!(eval_stub(&Stub::ByteArrayBeq, &[ba.clone_value(), ba.clone_value()]), Some(yes()));
    assert_eq!(eval_stub(&Stub::ByteArrayBeq, &[ba.clone_value(), Value::Scalar(1)]), Some(no()));
}

#[test]
fn test_list_and_string_stubs() {
    let nil = Value::Object { tag: 0, fields: vec![], scalars: vec![] };
    let l = Value::Object {
        tag: 1,
        fields: vec![Value::Scalar(0x141), Value::Object { tag: 1, fields: vec![Value::Scalar(2), nil], scalars: vec![] }],
        scalars: vec![],
    };
    assert_eq!(eval_stub(&Stub::ByteArrayOfList, &[l]), Some(Value::ByteArray(vec![0x41, 2])));
    let bad = Value::Object { tag: 1, fields: vec![Value::ByteArray(vec![])], scalars: vec![] };
    assert_eq!(eval_stub(&Stub::ByteArrayOfList, &[bad]), None);
    assert_eq!(
        eval_stub(&Stub::StringToUtf8, &[Value::Str("h\u{e9}!".to_string())]),
        Some(Value::ByteArray(vec![0x68, 0xC3, 0xA9, 0x21]))
    );
    assert_eq!(
        eval_stub(&Stub::StringDecEq, &[Value::Str("a".to_string()), Value::Str("a".to_string())]),
        Some(yes())
    );
    assert_eq!(eval_stub(&Stub::EmptyList, &[]), Some(no()));
}

#[test]
fn test_array_stubs() {
    let a = Value::Array(vec![Value::Scalar(10), Value::Scalar(20)]);
    assert_eq!(
        eval_stub(&Stub::ArrayGetOrDefault, &[Value::Irrelevant, a.clone_value(), Value::Scalar(1), Value::Scalar(0)]),
        Some(Value::Scalar(20))
    );
    assert_eq!(
        eval_stub(&Stub::ArrayGetOrDefault, &[a.clone_value(), Value::Scalar(5), Value::Scalar(99)]),
        Some(Value::Scalar(99))
    );
    assert_eq!(
        eval_stub(&Stub::ArrayGetOrDefault, &[Value::Scalar(1), Value::Scalar(2)]),
        Some(Value::Scalar(2))
    );
    assert_eq!(eval_stub(&Stub::ArraySize, &[Value::Irrelevant, a.clone_value()]), Some(Value::Scalar(2)));
    assert_eq!(eval_stub(&Stub::ArrayGet, &[Value::Scalar(1), Value::Scalar(0)]), None);
}

#[test]
fn test_digest_stub() {
    match eval_stub(&Stub::Sha256, &[Value::ByteArray(b"abc".to_vec())]) {
        Some(Value::ByteArray(d)) => {
            assert_eq!(d.len(), 32);
            assert_eq!(&d[..3], &[0xba, 0x78, 0x16]);
        }
        other => panic!("unexpected {:?}", other),
    }
    assert_eq!(eval_stub(&Stub::Accept, &[]), Some(yes()));
}
