use ir_trace::interpreter::{InterpError, Interpreter};
use ir_trace::ir_loader::load_ir_program;
use ir_trace::json::Json;
use ir_trace::stubs::register_runtime_stubs;
use ir_trace::trace_check::{check_trace, verify_trace, StepFault, VerifyError};
use ir_trace::trace_format::{build_trace, sha256};
use ir_trace::trace_types::{PrimOp, Trace, TraceHeader, TraceStep, TRACE_MAGIC};
use ir_trace::value::Value;

fn s(x: &str) -> Json {
    Json::String(x.to_string())
}

fn n(x: u64) -> Json {
    Json::Number(Some(x), x.to_string())
}

fn obj(members: Vec<(&str, Json)>) -> Json {
    Json::Object(members.into_iter().map(|(k, v)| (k.to_string(), v)).collect())
}

fn var_arg(v: u64) -> Json {
    obj(vec![("kind", s("var")), ("var", n(v))])
}

fn args(vs: Vec<u64>) -> Json {
    Json::Array(vs.into_iter().map(var_arg).collect())
}

fn param(v: u64) -> Json {
    obj(vec![("var", n(v)), ("ty", s("Object")), ("borrowed", Json::Bool(false))])
}

fn ret(v: u64) -> Json {
    obj(vec![("kind", s("ret")), ("arg", var_arg(v))])
}

fn vdecl(var: u64, ty: &str, expr: Json, cont: Json) -> Json {
    obj(vec![("kind", s("vdecl")), ("var", n(var)), ("ty", s(ty)), ("expr", expr), ("cont", cont)])
}

fn lit(x: u64) -> Json {
    obj(vec![("kind", s("lit")), ("val", obj(vec![("kind", s("num")), ("val", n(x))]))])
}

fn info(cidx: u64, size: u64, scalar_size: u64) -> Json {
    obj(vec![
        ("name", s("T.mk")),
        ("cidx", n(cidx)),
        ("size", n(size)),
        ("usize_fields", n(0)),
        ("scalar_size", n(scalar_size)),
    ])
}

fn ctor(cidx: u64, scalar_size: u64, fields: Vec<u64>) -> Json {
    let size = fields.len() as u64;
    obj(vec![("kind", s("ctor")), ("info", info(cidx, size, scalar_size)), ("args", args(fields))])
}

fn proj(idx: u64, var: u64) -> Json {
    obj(vec![("kind", s("proj")), ("idx", n(idx)), ("var", n(var))])
}

fn fdecl(name: &str, params: Vec<u64>, body: Json) -> Json {
    obj(vec![
        ("kind", s("fdecl")),
        ("name", s(name)),
        ("params", Json::Array(params.into_iter().map(param).collect())),
        ("ret_type", s("Object")),
        ("body", body),
    ])
}

/// Runs `name` on one argument in a program of the given declarations.
fn run(decls: Vec<Json>, name: &str, arg: Value) -> (Result<Value, InterpError>, Interpreter) {
    let decls = load_ir_program(&Json::Array(decls)).unwrap();
    let mut interp = Interpreter::new(decls);
    register_runtime_stubs(&mut interp);
    let r = interp.call_function(name, vec![arg]);
    (r, interp)
}

#[test]
fn test_join_point_binds_parameters() {
    // f x = let jp 0 (p5) := ret p5 in jmp 0 (x)
    let body = obj(vec![
        ("kind", s("jdecl")),
        ("jp", n(0)),
        ("params", Json::Array(vec![param(5)])),
        ("body", ret(5)),
        ("cont", obj(vec![("kind", s("jmp")), ("jp", n(0)), ("args", args(vec![0]))])),
    ]);
    let (r, _) = run(vec![fdecl("f", vec![0], body)], "f", Value::Scalar(11));
    assert_eq!(r, Ok(Value::Scalar(11)));
}

/// A run the interpreter aborts: the error it reports.
#[test]
fn test_jump_to_unknown_join_point() {
    let body = obj(vec![("kind", s("jmp")), ("jp", n(3)), ("args", args(vec![0]))]);
    let (r, _) = run(vec![fdecl("f", vec![0], body)], "f", Value::Scalar(1));
    assert_eq!(r, Err(InterpError::UnboundJoinPoint(3)));
}

#[test]
fn test_closure_application() {
    // g x = let c := pap Nat.add (x); let y := ap c (x); ret y
    let pap = obj(vec![("kind", s("pap")), ("fun", s("Nat.add")), ("args", args(vec![0]))]);
    let ap = obj(vec![("kind", s("ap")), ("fun", n(1)), ("args", args(vec![0]))]);
    let body = vdecl(1, "Object", pap, vdecl(2, "Object", ap, ret(2)));
    let (r, interp) = run(vec![fdecl("g", vec![0], body)], "g", Value::Scalar(8));
    assert_eq!(r, Ok(Value::Scalar(16)));
    assert_eq!(interp.trace_steps.len(), 1);
}

/// A run the interpreter aborts: the error it reports.
#[test]
fn test_apply_non_closure() {
    let ap = obj(vec![("kind", s("ap")), ("fun", n(0)), ("args", args(vec![0]))]);
    let body = vdecl(1, "Object", ap, ret(1));
    let (r, _) = run(vec![fdecl("g", vec![0], body)], "g", Value::Scalar(8));
    assert_eq!(r, Err(InterpError::ApOnNonClosure));
}

#[test]
fn test_set_writes_back_into_parent() {
    // a := T[x, x]; b := T[a, x]; c := proj 0 b; y := 9; set c[1] := y;
    // d := proj 0 b; e := proj 1 d; ret e
    let set = obj(vec![
        ("kind", s("set")),
        ("var", n(3)),
        ("idx", n(1)),
        ("val", var_arg(4)),
        (
            "cont",
            vdecl(5, "Object", proj(0, 2), vdecl(6, "Object", proj(1, 5), ret(6))),
        ),
    ]);
    let body = vdecl(
        1,
        "Object",
        ctor(0, 0, vec![0, 0]),
        vdecl(2, "Object", ctor(0, 0, vec![1, 0]), vdecl(3, "Object", proj(0, 2), vdecl(4, "Object", lit(9), set))),
    );
    let (r, mut interp) = run(vec![fdecl("h", vec![0], body)], "h", Value::Scalar(1));
    assert_eq!(r, Ok(Value::Scalar(9)));
    assert!(interp.trace_steps.iter().any(|st| matches!(st, TraceStep::SetResult { idx: 1, .. })));
    let out = r.unwrap();
    let id = interp.register_value(&out).unwrap();
    let bytes = out.serialize_to_bytes().unwrap();
    let trace = build_trace(&mut interp, b"p", b"i", b"", id);
    assert_eq!(trace.header.output_hash, sha256(&bytes));
    assert_eq!(check_trace(&trace), Ok(()));
    verify_trace(&trace);
}

#[test]
fn test_scalar_store_and_load() {
    // o := T[] with 8 scalar bytes; v := 0x0102; sset o 0 @0 := v : UInt16; w := sproj 1 @0 o; ret w
    let sset = obj(vec![
        ("kind", s("sset")),
        ("var", n(1)),
        ("n", n(0)),
        ("offset", n(0)),
        ("val", n(2)),
        ("ty", s("UInt16")),
        (
            "cont",
            vdecl(
                3,
                "UInt16",
                obj(vec![("kind", s("sproj")), ("n", n(1)), ("offset", n(0)), ("var", n(1))]),
                ret(3),
            ),
        ),
    ]);
    let body = vdecl(1, "Object", ctor(0, 8, vec![]), vdecl(2, "UInt16", lit(0x0102), sset));
    let (r, _) = run(vec![fdecl("k", vec![0], body)], "k", Value::Scalar(0));
    assert_eq!(r, Ok(Value::Scalar(0x0102)));
}

/// A run the interpreter aborts: the error it reports.
#[test]
fn test_store_of_non_scalar() {
    // o := T[]; c := pap Nat.add (); uset o[0] := c
    let pap = obj(vec![("kind", s("pap")), ("fun", s("Nat.add")), ("args", args(vec![]))]);
    let uset = obj(vec![
        ("kind", s("uset")),
        ("var", n(1)),
        ("idx", n(0)),
        ("val", n(2)),
        ("cont", ret(1)),
    ]);
    let body = vdecl(1, "Object", ctor(0, 8, vec![]), vdecl(2, "Object", pap, uset));
    let (r, _) = run(vec![fdecl("k", vec![0], body)], "k", Value::Scalar(0));
    assert_eq!(r, Err(InterpError::NotScalar));
}

#[test]
fn test_set_tag_then_case() {
    // o := T0[x]; setTag o := 3; case o of T3 => ret x | _ => unreachable
    let case = obj(vec![
        ("kind", s("case")),
        ("tid", s("T")),
        ("scrutinee", n(1)),
        (
            "alts",
            Json::Array(vec![
                obj(vec![("kind", s("ctor")), ("info", info(3, 1, 0)), ("body", ret(0))]),
                obj(vec![("kind", s("default")), ("body", obj(vec![("kind", s("unreachable"))]))]),
            ]),
        ),
    ]);
    let set_tag = obj(vec![("kind", s("setTag")), ("var", n(1)), ("cidx", n(3)), ("cont", case)]);
    let body = vdecl(1, "Object", ctor(0, 0, vec![0]), set_tag);
    let (r, interp) = run(vec![fdecl("t", vec![0], body)], "t", Value::Scalar(4));
    assert_eq!(r, Ok(Value::Scalar(4)));
    assert!(interp.trace_steps.iter().any(|st| matches!(st, TraceStep::Branch { chosen_tag: 3, .. })));
}

/// A run the interpreter aborts: the error it reports.
#[test]
fn test_case_without_alternatives() {
    let case = obj(vec![("kind", s("case")), ("tid", s("T")), ("scrutinee", n(0)), ("alts", Json::Array(vec![]))]);
    let (r, _) = run(vec![fdecl("t", vec![0], case)], "t", Value::Scalar(4));
    assert_eq!(r, Err(InterpError::NoMatchingAlt));
}

#[test]
fn test_box_then_unbox_keeps_low_bytes() {
    // v := 0x12345; b := box v : UInt16; u := unbox b; ret u
    let boxed = obj(vec![("kind", s("box")), ("ty", s("UInt16")), ("var", n(1))]);
    let unboxed = obj(vec![("kind", s("unbox")), ("var", n(2))]);
    let body = vdecl(1, "UInt32", lit(0x12345), vdecl(2, "Object", boxed, vdecl(3, "UInt16", unboxed, ret(3))));
    let (r, interp) = run(vec![fdecl("b", vec![0], body)], "b", Value::Scalar(0));
    assert_eq!(r, Ok(Value::Scalar(0x2345)));
    assert!(interp.trace_steps.is_empty());
}

#[test]
fn test_wide_field_index_is_recorded_truncated() {
    // o := T[x]; f := proj 65536 o; ret f  -- the step records index 0
    let body = vdecl(1, "Object", ctor(0, 0, vec![0]), vdecl(2, "Object", proj(65536, 1), ret(2)));
    let (r, mut interp) = run(vec![fdecl("w", vec![0], body)], "w", Value::Scalar(4));
    assert_eq!(r, Ok(Value::Irrelevant));
    assert!(interp.trace_steps.iter().any(|st| matches!(st, TraceStep::ProjResult { idx: 0, .. })));
    let out = r.unwrap();
    let id = interp.register_value(&out).unwrap();
    let trace = build_trace(&mut interp, b"p", b"i", b"", id);
    assert!(matches!(check_trace(&trace), Err(VerifyError::Step { fault: StepFault::ProjMismatch, .. })));
}

#[test]
fn test_new_steps_check_out_after_a_bad_step() {
    // f x = let y := ctor 1 [x, x]; let z := proj 0 y; ret z
    let body = vdecl(1, "Object", ctor(1, 0, vec![0, 0]), vdecl(2, "Object", proj(0, 1), ret(2)));
    let decls = load_ir_program(&Json::Array(vec![fdecl("f", vec![0], body)])).unwrap();
    let mut interp = Interpreter::new(decls);
    // a step recorded earlier that does not check out (1 + 1 is not 1)
    let id = interp.register_value(&Value::Scalar(1)).unwrap();
    interp.trace_steps.push(TraceStep::PrimResult { op: PrimOp::NatAdd, args: vec![id, id], result: id });
    let r = interp.call_function("f", vec![Value::Scalar(4)]);
    assert_eq!(r, Ok(Value::Scalar(4)));
    assert_eq!(interp.trace_steps.len(), 3);
    let value_count = interp.value_registry.table.len();
    let new_steps: Vec<TraceStep> = interp.trace_steps[1..].to_vec();
    let all_steps: Vec<TraceStep> = interp.trace_steps.clone();
    let table = std::mem::take(&mut interp.value_registry.table);
    let mut t = Trace {
        header: TraceHeader {
            magic: TRACE_MAGIC,
            ir_program_hash: [0u8; 32],
            input_hash: [0u8; 32],
            output_hash: [0u8; 32],
            value_count: value_count as u32,
            step_count: 2,
        },
        value_table: table,
        steps: new_steps,
        output_value_id: 0,
    };
    assert_eq!(check_trace(&t), Ok(()));
    // the whole record still fails on the earlier step
    t.steps = all_steps;
    t.header.step_count = 3;
    assert_eq!(check_trace(&t), Err(VerifyError::Step { index: 0, fault: StepFault::PrimitiveMismatch }));
}
