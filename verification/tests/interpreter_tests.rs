use ir_trace::interpreter::{InterpError, Interpreter, MAX_CALL_DEPTH};
use ir_trace::ir_loader::load_ir_program;
use ir_trace::json::Json;
use ir_trace::stubs::{register_eth2_stubs, register_runtime_stubs};
use ir_trace::trace_check::{check_trace, verify_trace};
use ir_trace::trace_format::{build_trace, sha256};
use ir_trace::trace_types::{PrimOp, TraceStep};
use ir_trace::value::Value;

fn s(x: &str) -> Json {
    Json::String(x.to_string())
}

fn n(x: u64) -> Json {
    Json::Number(Some(x), x.to_string())
}

fn obj(members: Vec<(&str, Json)>) -> Json {
    Json::Object(members.into_iter().map(|(k, v)| (k.to_string(), v)).collect())
}

fn var_arg(v: u64) -> Json {
    obj(vec![("kind", s("var")), ("var", n(v))])
}

fn param(v: u64) -> Json {
    obj(vec![("var", n(v)), ("ty", s("Object")), ("borrowed", Json::Bool(false))])
}

fn ret(v: u64) -> Json {
    obj(vec![("kind", s("ret")), ("arg", var_arg(v))])
}

fn fap(fun: &str, args: Vec<u64>) -> Json {
    obj(vec![("kind", s("fap")), ("fun", s(fun)), ("args", Json::Array(args.into_iter().map(var_arg).collect()))])
}

fn vdecl(var: u64, ty: &str, expr: Json, cont: Json) -> Json {
    obj(vec![("kind", s("vdecl")), ("var", n(var)), ("ty", s(ty)), ("expr", expr), ("cont", cont)])
}

fn fdecl(name: &str, params: Vec<u64>, body: Json) -> Json {
    obj(vec![
        ("kind", s("fdecl")),
        ("name", s(name)),
        ("params", Json::Array(params.into_iter().map(param).collect())),
        ("ret_type", s("Object")),
        ("body", body),
    ])
}

fn extern_decl(name: &str) -> Json {
    obj(vec![("kind", s("extern")), ("name", s(name)), ("params", Json::Array(vec![])), ("ret_type", s("Object"))])
}

fn ctor_info(cidx: u64, size: u64) -> Json {
    obj(vec![
        ("name", s("Pair.mk")),
        ("cidx", n(cidx)),
        ("size", n(size)),
        ("usize_fields", n(0)),
        ("scalar_size", n(0)),
    ])
}

/// double x = x + x; quad x = double (double x); pick x = proj 0 of (ctor 1 [x, x]) after a case.
fn program() -> Vec<Json> {
    let double = fdecl("double", vec![0], vdecl(1, "Object", fap("Nat.add", vec![0, 0]), ret(1)));
    let quad = fdecl(
        "quad",
        vec![0],
        vdecl(1, "Object", fap("double", vec![0]), vdecl(2, "Object", fap("double", vec![1]), ret(2))),
    );
    let ctor = obj(vec![
        ("kind", s("ctor")),
        ("info", ctor_info(1, 2)),
        ("args", Json::Array(vec![var_arg(0), var_arg(0)])),
    ]);
    let proj = obj(vec![("kind", s("proj")), ("idx", n(0)), ("var", n(1))]);
    let case = obj(vec![
        ("kind", s("case")),
        ("tid", s("Pair")),
        ("scrutinee", n(1)),
        (
            "alts",
            Json::Array(vec![
                obj(vec![("kind", s("ctor")), ("info", ctor_info(0, 0)), ("body", obj(vec![("kind", s("unreachable"))]))]),
                obj(vec![("kind", s("default")), ("body", ret(2))]),
            ]),
        ),
    ]);
    let pick = fdecl("pick", vec![0], vdecl(1, "Object", ctor, vdecl(2, "Object", proj, case)));
    let bad = fdecl("bad", vec![0], vdecl(1, "Object", fap("Nat.add", vec![0]), ret(1)));
    let unbound = fdecl("unbound", vec![0], ret(9));
    let stuck = fdecl("stuck", vec![0], obj(vec![("kind", s("unreachable"))]));
    let forever = fdecl("forever", vec![0], vdecl(1, "Object", fap("forever", vec![0]), ret(1)));
    vec![double, quad, pick, bad, unbound, stuck, forever, extern_decl("opaque"), extern_decl("Nat.add._boxed")]
}

fn interpreter() -> Interpreter {
    let decls = load_ir_program(&Json::Array(program())).unwrap();
    let mut interp = Interpreter::new(decls);
    register_runtime_stubs(&mut interp);
    register_eth2_stubs(&mut interp);
    interp
}

#[test]
fn test_call_declared_function() {
    let mut interp = interpreter();
    let r = interp.call_function("double", vec![Value::Scalar(21)]).unwrap();
    assert_eq!(r, Value::Scalar(42));
    assert_eq!(interp.trace_steps.len(), 1);
    assert!(matches!(interp.trace_steps[0], TraceStep::PrimResult { op: PrimOp::NatAdd, .. }));
}

#[test]
fn test_call_through_continuations() {
    let mut interp = interpreter();
    let r = interp.call_function("quad", vec![Value::Scalar(5)]).unwrap();
    assert_eq!(r, Value::Scalar(20));
    assert_eq!(interp.trace_steps.len(), 2);
    assert_eq!(interp.call_depth, 0);
}

#[test]
fn test_ctor_proj_case() {
    let mut interp = interpreter();
    let r = interp.call_function("pick", vec![Value::Scalar(7)]).unwrap();
    assert_eq!(r, Value::Scalar(7));
    let kinds: Vec<&str> = interp
        .trace_steps
        .iter()
        .map(|s| match s {
            TraceStep::CtorCreate { .. } => "ctor",
            TraceStep::ProjResult { .. } => "proj",
            TraceStep::Branch { .. } => "branch",
            TraceStep::PrimResult { .. } => "prim",
            TraceStep::SetResult { .. } => "set",
        })
        .collect();
    assert_eq!(kinds, vec!["ctor", "proj", "branch"]);
}

#[test]
fn test_trace_of_run_verifies() {
    let mut interp = interpreter();
    let r = interp.call_function("pick", vec![Value::Scalar(3)]).unwrap();
    let r2 = interp.call_function("quad", vec![Value::Scalar(3)]).unwrap();
    assert_eq!(r2, Value::Scalar(12));
    let out_id = interp.register_value(&r).unwrap();
    let out_bytes = r.serialize_to_bytes().unwrap();
    let trace = build_trace(&mut interp, b"program", b"input", b"unused", out_id);
    assert_eq!(trace.header.output_hash, sha256(&out_bytes));
    assert_eq!(trace.header.ir_program_hash, sha256(b"program"));
    assert_eq!(check_trace(&trace), Ok(()));
    verify_trace(&trace);
    assert_eq!(trace.header.value_count as usize, trace.value_table.len());
    assert_eq!(trace.header.step_count as usize, trace.steps.len());
    assert_eq!(trace.value_table[trace.output_value_id as usize], Value::Scalar(3));
    assert!(interp.trace_steps.is_empty());
    assert!(interp.value_registry.table.is_empty());
}

#[test]
fn test_primitive_called_directly() {
    let mut interp = interpreter();
    let r = interp.call_function("UInt8.add", vec![Value::Scalar(200), Value::Scalar(100)]).unwrap();
    assert_eq!(r, Value::Scalar(44));
}

#[test]
fn test_stub_called() {
    let mut interp = interpreter();
    let r = interp.call_function("Nat.decLt", vec![Value::Scalar(3), Value::Scalar(5)]).unwrap();
    assert_eq!(r, Value::Object { tag: 1, fields: vec![], scalars: vec![] });
    assert!(interp.trace_steps.is_empty());
}

/// A run the interpreter aborts: the error it reports.
#[test]
fn test_function_not_found() {
    let mut interp = interpreter();
    let r = interp.call_function("nope", vec![]);
    assert_eq!(r, Err(InterpError::FunctionNotFound("nope".to_string())));
}

/// A run the interpreter aborts: the error it reports.
#[test]
fn test_primitive_undefined() {
    let mut interp = interpreter();
    let r = interp.call_function("bad", vec![Value::Scalar(1)]);
    assert_eq!(r, Err(InterpError::PrimitiveUndefined(PrimOp::NatAdd)));
}

/// A run the interpreter aborts: the error it reports.
#[test]
fn test_stub_undefined() {
    let mut interp = interpreter();
    let r = interp.call_function("Array.uget", vec![Value::Scalar(1), Value::Scalar(0)]);
    assert_eq!(r, Err(InterpError::StubUndefined("Array.uget".to_string())));
}

/// A run the interpreter aborts: the error it reports.
#[test]
fn test_unbound_variable() {
    let mut interp = interpreter();
    let r = interp.call_function("unbound", vec![Value::Scalar(1)]);
    assert_eq!(r, Err(InterpError::UnboundVariable(9)));
}

/// A run the interpreter aborts: the error it reports.
#[test]
fn test_unreachable_body() {
    let mut interp = interpreter();
    let r = interp.call_function("stuck", vec![Value::Scalar(1)]);
    assert_eq!(r, Err(InterpError::Unreachable));
}

#[test]
fn test_step_budget() {
    let mut interp = interpreter();
    interp.fuel = 50;
    let r = interp.call_function("forever", vec![Value::Scalar(1)]);
    assert_eq!(r, Err(InterpError::StepBudgetExhausted));
}

/// A run the interpreter aborts: the error it reports.
#[test]
fn test_call_depth_exceeded() {
    let mut interp = interpreter();
    interp.call_depth = MAX_CALL_DEPTH;
    let r = interp.call_function("double", vec![Value::Scalar(1)]);
    assert_eq!(r, Err(InterpError::CallDepthExceeded("double".to_string())));
    // the refused call did nothing and left the depth as it was
    assert_eq!(interp.call_depth, MAX_CALL_DEPTH);
    assert_eq!(interp.trace_steps.len(), 0);
    assert_eq!(interp.value_registry.table.len(), 0);
}

#[test]
fn test_call_depth_restored_after_calls() {
    let mut interp = interpreter();
    for _ in 0..3 {
        interp.call_function("quad", vec![Value::Scalar(5)]).unwrap();
        assert_eq!(interp.call_depth, 0);
    }
    // one level below the limit a call runs, but not a call nested in it
    interp.call_depth = MAX_CALL_DEPTH - 1;
    let r = interp.call_function("Nat.add", vec![Value::Scalar(1), Value::Scalar(2)]);
    assert_eq!(r, Ok(Value::Scalar(3)));
    let r = interp.call_function("double", vec![Value::Scalar(1)]);
    assert_eq!(r, Err(InterpError::CallDepthExceeded("Nat.add".to_string())));
    assert_eq!(interp.call_depth, MAX_CALL_DEPTH - 1);
}

#[test]
fn test_unhandled_extern_is_irrelevant() {
    let mut interp = interpreter();
    let r = interp.call_function("opaque", vec![Value::Scalar(1)]).unwrap();
    assert_eq!(r, Value::Irrelevant);
}

#[test]
fn test_boxed_extern_runs_primitive() {
    let mut interp = interpreter();
    let r = interp.call_function("Nat.add._boxed", vec![Value::Scalar(2), Value::Scalar(3)]).unwrap();
    assert_eq!(r, Value::Scalar(5));
    assert_eq!(interp.trace_steps.len(), 1);
}

#[test]
fn test_later_declaration_wins() {
    let first = fdecl("f", vec![0], ret(0));
    let second = fdecl("f", vec![0], vdecl(1, "Object", fap("Nat.add", vec![0, 0]), ret(1)));
    let decls = load_ir_program(&Json::Array(vec![first, second])).unwrap();
    let mut interp = Interpreter::new(decls);
    assert_eq!(interp.call_function("f", vec![Value::Scalar(4)]).unwrap(), Value::Scalar(8));
}

#[test]
fn test_registry_deduplicates() {
    let mut interp = interpreter();
    let a = interp.register_value(&Value::ByteArray(vec![1, 2, 3])).unwrap();
    let b = interp.register_value(&Value::ByteArray(vec![1, 2, 3])).unwrap();
    let c = interp.register_value(&Value::ByteArray(vec![1, 2])).unwrap();
    assert_eq!(a, b);
    assert_ne!(a, c);
    assert_eq!(interp.value_registry.table.len(), 2);
}

#[test]
fn test_object_output_committed_by_json() {
    let mut interp = interpreter();
    let r = interp.call_function("double", vec![Value::Scalar(1)]).unwrap();
    assert_eq!(r, Value::Scalar(2));
    let obj = Value::Object { tag: 1, fields: vec![Value::Scalar(2)], scalars: vec![] };
    let id = interp.register_value(&obj).unwrap();
    let trace = build_trace(&mut interp, b"p", b"i", b"{\"json\":1}", id);
    assert_eq!(trace.header.output_hash, sha256(b"{\"json\":1}"));
    assert_eq!(trace.value_table[trace.output_value_id as usize], obj);
}
