use ir_trace::ir_loader::{load_ir_program, load_ir_program_text, parse_expr, parse_fn_body, parse_ir_type};
use ir_trace::ir_types::{Arg, Decl, Expr, FnBody, IRType};
use ir_trace::json::{read_json, Json};

fn s(x: &str) -> Json {
    Json::String(x.to_string())
}

fn n(x: u64) -> Json {
    Json::Number(Some(x), x.to_string())
}

fn obj(members: Vec<(&str, Json)>) -> Json {
    Json::Object(members.into_iter().map(|(k, v)| (k.to_string(), v)).collect())
}

#[test]
fn test_parse_ir_types() {
    assert_eq!(parse_ir_type(&s("UInt8")), Ok(IRType::UInt8));
    assert_eq!(parse_ir_type(&s("TObject")), Ok(IRType::TObject));
    assert_eq!(parse_ir_type(&s("Int9")), Err("Unknown IRType: Int9".to_string()));
    assert_eq!(parse_ir_type(&n(1)), Err("Expected string for IRType, got Number(1)".to_string()));
}

#[test]
fn test_non_string_type_error_shows_the_value() {
    let text = r#"{"b": [1, -2, 2.5, "x\n\"y"], "a": null, "c": {"t": true}, "d": []}"#;
    let j = read_json(text).unwrap();
    let expected = r#"Expected string for IRType, got Object {"a": Null, "b": Array [Number(1), Number(-2), Number(2.5), String("x\n\"y")], "c": Object {"t": Bool(true)}, "d": Array []}"#;
    assert_eq!(parse_ir_type(&j), Err(expected.to_string()));
    let v: serde_json::Value = serde_json::from_str(text).unwrap();
    assert_eq!(parse_ir_type(&j), Err(format!("Expected string for IRType, got {:?}", v)));
    assert_eq!(parse_ir_type(&Json::Bool(false)), Err("Expected string for IRType, got Bool(false)".to_string()));
    assert_eq!(parse_ir_type(&Json::Object(vec![])), Err("Expected string for IRType, got Object {}".to_string()));
}

#[test]
fn test_parse_fap_expr() {
    let e = obj(vec![
        ("kind", s("fap")),
        ("fun", s("Nat.add")),
        ("args", Json::Array(vec![obj(vec![("kind", s("var")), ("var", n(3))]), obj(vec![("kind", s("irrelevant"))])])),
    ]);
    match parse_expr(&e).unwrap() {
        Expr::FAp { fun, args } => {
            assert_eq!(fun, "Nat.add");
            assert_eq!(args, vec![Arg::Var(3), Arg::Irrelevant]);
        }
        other => panic!("unexpected expression {:?}", other),
    }
}

#[test]
fn test_number_fields_are_cut_to_32_bits() {
    let e = obj(vec![("kind", s("proj")), ("idx", n(0x1_0000_0002)), ("var", n(1))]);
    match parse_expr(&e).unwrap() {
        Expr::Proj { idx, var } => {
            assert_eq!(idx, 2);
            assert_eq!(var, 1);
        }
        other => panic!("unexpected expression {:?}", other),
    }
}

#[test]
fn test_parse_body_errors() {
    assert_eq!(parse_fn_body(&n(0)).unwrap_err(), "Missing or non-string field: kind");
    assert_eq!(parse_fn_body(&obj(vec![("kind", s("jump"))])).unwrap_err(), "Unknown FnBody kind: jump");
    let no_cont = obj(vec![
        ("kind", s("setTag")),
        ("var", n(1)),
        ("cidx", n(2)),
    ]);
    assert_eq!(parse_fn_body(&no_cont).unwrap_err(), "missing cont");
    let bad_var = obj(vec![("kind", s("ret")), ("arg", obj(vec![("kind", s("var")), ("var", s("x"))]))]);
    assert_eq!(parse_fn_body(&bad_var).unwrap_err(), "Missing or non-number field: var");
    let no_alts = obj(vec![("kind", s("case")), ("tid", s("T")), ("scrutinee", n(0)), ("alts", n(1))]);
    assert_eq!(parse_fn_body(&no_alts).unwrap_err(), "missing alts");
}

#[test]
fn test_parse_nested_body() {
    let body = obj(vec![
        ("kind", s("sset")),
        ("var", n(1)),
        ("n", n(2)),
        ("offset", n(8)),
        ("val", n(3)),
        ("ty", s("UInt32")),
        ("cont", obj(vec![("kind", s("unreachable"))])),
    ]);
    match parse_fn_body(&body).unwrap() {
        FnBody::SSet { var, n, offset, val, ty, cont } => {
            assert_eq!((var, n, offset, val, ty), (1, 2, 8, 3, IRType::UInt32));
            assert!(matches!(*cont, FnBody::Unreachable));
        }
        other => panic!("unexpected body {:?}", other),
    }
}

#[test]
fn test_load_program() {
    let prog = Json::Array(vec![
        obj(vec![
            ("kind", s("extern")),
            ("name", s("ext")),
            ("params", Json::Array(vec![obj(vec![("var", n(0)), ("ty", s("Object")), ("borrowed", Json::Bool(true))])])),
            ("ret_type", s("Object")),
        ]),
        obj(vec![
            ("kind", s("fdecl")),
            ("name", s("main")),
            ("params", Json::Array(vec![])),
            ("ret_type", s("UInt8")),
            ("body", obj(vec![("kind", s("ret")), ("arg", obj(vec![("kind", s("irrelevant"))]))])),
        ]),
    ]);
    let decls = load_ir_program(&prog).unwrap();
    assert_eq!(decls.len(), 2);
    assert_eq!(decls[0].name(), "ext");
    assert!(decls[0].params()[0].borrowed);
    assert!(matches!(decls[1], Decl::FnDecl { ret_type: IRType::UInt8, .. }));
}

#[test]
fn test_load_program_errors() {
    assert_eq!(load_ir_program(&obj(vec![])).unwrap_err(), "Expected JSON array at top level");
    let bad = Json::Array(vec![obj(vec![("kind", s("class")), ("name", s("x"))])]);
    assert_eq!(load_ir_program(&bad).unwrap_err(), "Unknown decl kind: class");
    let no_params = Json::Array(vec![obj(vec![("kind", s("extern")), ("name", s("x"))])]);
    assert_eq!(load_ir_program(&no_params).unwrap_err(), "missing params");
}

#[test]
fn test_load_program_text() {
    let text = r#"[{"kind": "fdecl", "name": "main", "params": [{"var": 3, "ty": "Object", "borrowed": false}],
        "ret_type": "Object", "body": {"kind": "ret", "arg": {"kind": "var", "var": 3}}}]"#;
    let decls = load_ir_program_text(text).unwrap();
    assert_eq!(decls.len(), 1);
    assert_eq!(decls[0].name(), "main");
    assert_eq!(decls[0].params()[0].var, 3);
    assert_eq!(load_ir_program_text("{}").unwrap_err(), "Expected JSON array at top level");
    assert!(load_ir_program_text("[1,").unwrap_err().starts_with("Failed to parse JSON: "));
}

#[test]
fn test_load_deeply_nested_text() {
    let mut body = String::from(r#"{"kind": "ret", "arg": {"kind": "irrelevant"}}"#);
    for i in 0..300 {
        body = format!(
            r#"{{"kind": "vdecl", "var": {}, "ty": "Object", "expr": {{"kind": "lit", "val": {{"kind": "num", "val": 1}}}}, "cont": {}}}"#,
            i, body
        );
    }
    let text = format!(r#"[{{"kind": "fdecl", "name": "f", "params": [], "ret_type": "Object", "body": {}}}]"#, body);
    let decls = load_ir_program_text(&text).unwrap();
    assert_eq!(decls.len(), 1);
}
