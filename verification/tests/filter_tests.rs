use ir_trace::ir_filter::{collect_references, reachable_decls};
use ir_trace::json::Json;

fn s(x: &str) -> Json {
    Json::String(x.to_string())
}

fn obj(members: Vec<(&str, Json)>) -> Json {
    Json::Object(members.into_iter().map(|(k, v)| (k.to_string(), v)).collect())
}

fn calling(name: &str, callees: Vec<&str>) -> Json {
    let calls: Vec<Json> = callees
        .into_iter()
        .map(|c| obj(vec![("kind", s("fap")), ("fun", s(c))]))
        .collect();
    obj(vec![("kind", s("fdecl")), ("name", s(name)), ("body", Json::Array(calls))])
}

#[test]
fn test_collect_references() {
    let v = obj(vec![
        ("kind", s("pap")),
        ("fun", s("outer")),
        ("args", Json::Array(vec![obj(vec![("kind", s("fap")), ("fun", s("inner"))]), obj(vec![("kind", s("ap")), ("fun", s("no"))])])),
    ]);
    let mut refs = vec!["seed".to_string()];
    collect_references(&v, &mut refs);
    assert_eq!(refs, vec!["seed".to_string(), "outer".to_string(), "inner".to_string()]);
}

#[test]
fn test_reachable_decls() {
    let all = vec![
        calling("main", vec!["a", "missing"]),
        calling("unused", vec!["b"]),
        calling("a", vec!["b", "a"]),
        calling("b", vec![]),
        obj(vec![("kind", s("extern"))]),
    ];
    assert_eq!(reachable_decls(&all, "main"), vec![0, 2, 3]);
    assert_eq!(reachable_decls(&all, "unused"), vec![1, 3]);
    assert_eq!(reachable_decls(&all, "nothing"), Vec::<usize>::new());
}
