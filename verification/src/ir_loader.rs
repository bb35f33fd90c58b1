use vstd::prelude::*;

use crate::ir_types::{
    model_alt, model_alts, model_body, model_decl, Alt, Arg, CtorInfo, Decl, Expr, FnBody, IRType,
    LitValue, Param, SAlt, SCtorInfo, SDecl, SExpr, SFnBody, SLitValue,
};
use crate::interpreter::primitives::str_equal;
use crate::json::{
    bool_at, error_text, error_with, find_key, json_debug, spec_bool_at, spec_find_key, spec_json_debug, spec_str_at,
    spec_u32_at, str_at, u32_at, Json, lemma_find_key_range, read_json, spec_parse_json,
};

verus! {

/// The IR type that a JSON string names.
pub open spec fn spec_parse_ir_type(j: Json) -> Result<IRType, Seq<char>> {
    match j {
        Json::String(s) => {
            if s@ == "Float"@ {
                Ok(IRType::Float)
            } else if s@ == "UInt8"@ {
                Ok(IRType::UInt8)
            } else if s@ == "UInt16"@ {
                Ok(IRType::UInt16)
            } else if s@ == "UInt32"@ {
                Ok(IRType::UInt32)
            } else if s@ == "UInt64"@ {
                Ok(IRType::UInt64)
            } else if s@ == "USize"@ {
                Ok(IRType::USize)
            } else if s@ == "Object"@ {
                Ok(IRType::Object)
            } else if s@ == "TObject"@ {
                Ok(IRType::TObject)
            } else if s@ == "Irrelevant"@ {
                Ok(IRType::Irrelevant)
            } else {
                Err("Unknown IRType: "@ + s@)
            }
        },
        _ => Err("Expected string for IRType, got "@ + spec_json_debug(j)),
    }
}

/// A member of an object, if it has one with that key.
pub open spec fn spec_member(ms: Seq<(String, Json)>, key: Seq<char>) -> Option<Json> {
    match spec_find_key(ms, key, 0) {
        Some(i) => Some(ms[i].1),
        None => None,
    }
}

/// The type member `ty`.
pub open spec fn spec_ty_at(ms: Seq<(String, Json)>) -> Result<IRType, Seq<char>> {
    match spec_member(ms, "ty"@) {
        Some(t) => spec_parse_ir_type(t),
        None => Err("missing ty"@),
    }
}

pub open spec fn spec_parse_param(j: Json) -> Result<Param, Seq<char>> {
    match j {
        Json::Object(ms) => match spec_u32_at(ms@, "var"@) {
            Err(e) => Err(e),
            Ok(var) => match spec_ty_at(ms@) {
                Err(e) => Err(e),
                Ok(ty) => Ok(Param { var, ty, borrowed: spec_bool_at(ms@, "borrowed"@) }),
            },
        },
        _ => Err("Missing or non-number field: var"@),
    }
}

pub open spec fn spec_parse_param_items(items: Seq<Json>, k: int) -> Result<Seq<Param>, Seq<char>>
    decreases k,
{
    if k <= 0 {
        Ok(Seq::empty())
    } else {
        match spec_parse_param_items(items, k - 1) {
            Err(e) => Err(e),
            Ok(xs) => match spec_parse_param(items[k - 1]) {
                Err(e) => Err(e),
                Ok(x) => Ok(xs.push(x)),
            },
        }
    }
}

/// The first error among the items before `i` is the error of them all.
pub proof fn lemma_param_items_err(items: Seq<Json>, i: int, k: int)
    requires
        0 <= i <= k,
        spec_parse_param_items(items, i) is Err,
    ensures
        spec_parse_param_items(items, k) == spec_parse_param_items(items, i),
    decreases k - i,
{
    if i < k {
        lemma_param_items_err(items, i, k - 1);
    }
}

pub open spec fn spec_parse_params(j: Json) -> Result<Seq<Param>, Seq<char>> {
    match j {
        Json::Array(items) => spec_parse_param_items(items@, items@.len() as int),
        _ => Err("Expected array for params"@),
    }
}

/// The parameter list member `params`.
pub open spec fn spec_params_at(ms: Seq<(String, Json)>) -> Result<Seq<Param>, Seq<char>> {
    match spec_member(ms, "params"@) {
        Some(p) => spec_parse_params(p),
        None => Err("missing params"@),
    }
}

pub open spec fn spec_parse_arg(j: Json) -> Result<Arg, Seq<char>> {
    match j {
        Json::Object(ms) => match spec_str_at(ms@, "kind"@) {
            Err(e) => Err(e),
            Ok(kind) => if kind == "var"@ {
                match spec_u32_at(ms@, "var"@) {
                    Err(e) => Err(e),
                    Ok(v) => Ok(Arg::Var(v)),
                }
            } else if kind == "irrelevant"@ {
                Ok(Arg::Irrelevant)
            } else {
                Err("Unknown Arg kind: "@ + kind)
            },
        },
        _ => Err("Missing or non-string field: kind"@),
    }
}

pub open spec fn spec_parse_arg_items(items: Seq<Json>, k: int) -> Result<Seq<Arg>, Seq<char>>
    decreases k,
{
    if k <= 0 {
        Ok(Seq::empty())
    } else {
        match spec_parse_arg_items(items, k - 1) {
            Err(e) => Err(e),
            Ok(xs) => match spec_parse_arg(items[k - 1]) {
                Err(e) => Err(e),
                Ok(x) => Ok(xs.push(x)),
            },
        }
    }
}

/// The first error among the items before `i` is the error of them all.
pub proof fn lemma_arg_items_err(items: Seq<Json>, i: int, k: int)
    requires
        0 <= i <= k,
        spec_parse_arg_items(items, i) is Err,
    ensures
        spec_parse_arg_items(items, k) == spec_parse_arg_items(items, i),
    decreases k - i,
{
    if i < k {
        lemma_arg_items_err(items, i, k - 1);
    }
}

pub open spec fn spec_parse_args(j: Json) -> Result<Seq<Arg>, Seq<char>> {
    match j {
        Json::Array(items) => spec_parse_arg_items(items@, items@.len() as int),
        _ => Err("Expected array for args"@),
    }
}

/// The argument list member `args`.
pub open spec fn spec_args_at(ms: Seq<(String, Json)>) -> Result<Seq<Arg>, Seq<char>> {
    match spec_member(ms, "args"@) {
        Some(a) => spec_parse_args(a),
        None => Err("missing args"@),
    }
}

/// The argument member `key`, with the error for its absence.
pub open spec fn spec_arg_at(ms: Seq<(String, Json)>, key: Seq<char>, missing: Seq<char>) -> Result<Arg, Seq<char>> {
    match spec_member(ms, key) {
        Some(a) => spec_parse_arg(a),
        None => Err(missing),
    }
}

pub open spec fn spec_parse_ctor_info(j: Json) -> Result<SCtorInfo, Seq<char>> {
    match j {
        Json::Object(ms) => match spec_str_at(ms@, "name"@) {
            Err(e) => Err(e),
            Ok(name) => match spec_u32_at(ms@, "cidx"@) {
                Err(e) => Err(e),
                Ok(cidx) => match spec_u32_at(ms@, "size"@) {
                    Err(e) => Err(e),
                    Ok(size) => match spec_u32_at(ms@, "usize_fields"@) {
                        Err(e) => Err(e),
                        Ok(usize_fields) => match spec_u32_at(ms@, "scalar_size"@) {
                            Err(e) => Err(e),
                            Ok(scalar_size) => Ok(
                                SCtorInfo { name, cidx: cidx as u16, size, usize_fields, scalar_size },
                            ),
                        },
                    },
                },
            },
        },
        _ => Err("Missing or non-string field: name"@),
    }
}

/// The constructor member `info`.
pub open spec fn spec_info_at(ms: Seq<(String, Json)>) -> Result<SCtorInfo, Seq<char>> {
    match spec_member(ms, "info"@) {
        Some(i) => spec_parse_ctor_info(i),
        None => Err("missing info"@),
    }
}

pub open spec fn spec_parse_lit_val(j: Json) -> Result<SLitValue, Seq<char>> {
    match j {
        Json::Object(ms) => match spec_str_at(ms@, "kind"@) {
            Err(e) => Err(e),
            Ok(kind) => if kind == "num"@ {
                match spec_member(ms@, "val"@) {
                    Some(Json::Number(Some(n), _)) => Ok(SLitValue::Num(n)),
                    _ => Err("missing num val"@),
                }
            } else if kind == "str"@ {
                match spec_str_at(ms@, "val"@) {
                    Err(e) => Err(e),
                    Ok(s) => Ok(SLitValue::Str(s)),
                }
            } else {
                Err("Unknown LitVal kind: "@ + kind)
            },
        },
        _ => Err("Missing or non-string field: kind"@),
    }
}

/// Two number members, in order.
pub open spec fn spec_u32_pair(ms: Seq<(String, Json)>, a: Seq<char>, b: Seq<char>) -> Result<(u32, u32), Seq<char>> {
    match spec_u32_at(ms, a) {
        Err(e) => Err(e),
        Ok(x) => match spec_u32_at(ms, b) {
            Err(e) => Err(e),
            Ok(y) => Ok((x, y)),
        },
    }
}

/// The expression of a JSON object, by its `kind`.
pub open spec fn spec_parse_expr(j: Json) -> Result<SExpr, Seq<char>> {
    match j {
        Json::Object(ms) => {
            let ms = ms@;
            match spec_str_at(ms, "kind"@) {
                Err(e) => Err(e),
                Ok(kind) => if kind == "ctor"@ {
                    match spec_info_at(ms) {
                        Err(e) => Err(e),
                        Ok(info) => match spec_args_at(ms) {
                            Err(e) => Err(e),
                            Ok(args) => Ok(SExpr::Ctor { info, args }),
                        },
                    }
                } else if kind == "proj"@ {
                    match spec_u32_pair(ms, "idx"@, "var"@) {
                        Err(e) => Err(e),
                        Ok((idx, var)) => Ok(SExpr::Proj { idx, var }),
                    }
                } else if kind == "uproj"@ {
                    match spec_u32_pair(ms, "idx"@, "var"@) {
                        Err(e) => Err(e),
                        Ok((idx, var)) => Ok(SExpr::UProj { idx, var }),
                    }
                } else if kind == "sproj"@ {
                    match spec_u32_pair(ms, "n"@, "offset"@) {
                        Err(e) => Err(e),
                        Ok((n, offset)) => match spec_u32_at(ms, "var"@) {
                            Err(e) => Err(e),
                            Ok(var) => Ok(SExpr::SProj { n, offset, var }),
                        },
                    }
                } else if kind == "fap"@ || kind == "pap"@ {
                    match spec_str_at(ms, "fun"@) {
                        Err(e) => Err(e),
                        Ok(fun) => match spec_args_at(ms) {
                            Err(e) => Err(e),
                            Ok(args) => if kind == "fap"@ {
                                Ok(SExpr::FAp { fun, args })
                            } else {
                                Ok(SExpr::PAp { fun, args })
                            },
                        },
                    }
                } else if kind == "ap"@ {
                    match spec_u32_at(ms, "fun"@) {
                        Err(e) => Err(e),
                        Ok(fun) => match spec_args_at(ms) {
                            Err(e) => Err(e),
                            Ok(args) => Ok(SExpr::Ap { fun, args }),
                        },
                    }
                } else if kind == "box"@ {
                    match spec_ty_at(ms) {
                        Err(e) => Err(e),
                        Ok(ty) => match spec_u32_at(ms, "var"@) {
                            Err(e) => Err(e),
                            Ok(var) => Ok(SExpr::Box { ty, var }),
                        },
                    }
                } else if kind == "unbox"@ {
                    match spec_u32_at(ms, "var"@) {
                        Err(e) => Err(e),
                        Ok(var) => Ok(SExpr::Unbox { var }),
                    }
                } else if kind == "lit"@ {
                    match spec_member(ms, "val"@) {
                        None => Err("missing val"@),
                        Some(v) => match spec_parse_lit_val(v) {
                            Err(e) => Err(e),
                            Ok(val) => Ok(SExpr::Lit { val }),
                        },
                    }
                } else if kind == "isShared"@ {
                    match spec_u32_at(ms, "var"@) {
                        Err(e) => Err(e),
                        Ok(var) => Ok(SExpr::IsShared { var }),
                    }
                } else if kind == "reset"@ {
                    match spec_u32_pair(ms, "n"@, "var"@) {
                        Err(e) => Err(e),
                        Ok((n, var)) => Ok(SExpr::Reset { n, var }),
                    }
                } else if kind == "reuse"@ {
                    match spec_u32_at(ms, "var"@) {
                        Err(e) => Err(e),
                        Ok(var) => match spec_info_at(ms) {
                            Err(e) => Err(e),
                            Ok(info) => match spec_args_at(ms) {
                                Err(e) => Err(e),
                                Ok(args) => Ok(
                                    SExpr::Reuse { var, info, upd_header: spec_bool_at(ms, "upd_header"@), args },
                                ),
                            },
                        },
                    }
                } else {
                    Err("Unknown Expr kind: "@ + kind)
                },
            }
        },
        _ => Err("Missing or non-string field: kind"@),
    }
}
/// The body member `key` (with the error for its absence), read as a function body.
pub open spec fn spec_body_at(ms: Seq<(String, Json)>, key: Seq<char>, missing: Seq<char>) -> Result<SFnBody, Seq<char>>
    decreases ms, 0int,
{
    match spec_find_key(ms, key, 0) {
        Some(i) => if 0 <= i < ms.len() {
            spec_parse_body(ms[i].1)
        } else {
            Err(missing)
        },
        None => Err(missing),
    }
}

/// The case alternatives among `items[..k]`, or the first error.
pub open spec fn spec_parse_alt_items(items: Seq<Json>, k: int) -> Result<Seq<SAlt>, Seq<char>>
    decreases items, k,
{
    if k <= 0 || k > items.len() {
        Ok(Seq::empty())
    } else {
        match spec_parse_alt_items(items, k - 1) {
            Err(e) => Err(e),
            Ok(xs) => match spec_parse_alt(items[k - 1]) {
                Err(e) => Err(e),
                Ok(x) => Ok(xs.push(x)),
            },
        }
    }
}

/// The alternatives member `alts`.
pub open spec fn spec_alts_at(ms: Seq<(String, Json)>) -> Result<Seq<SAlt>, Seq<char>>
    decreases ms, 0int,
{
    match spec_find_key(ms, "alts"@, 0) {
        Some(i) => if 0 <= i < ms.len() {
            match ms[i].1 {
                Json::Array(items) => spec_parse_alt_items(items@, items@.len() as int),
                _ => Err("missing alts"@),
            }
        } else {
            Err("missing alts"@)
        },
        None => Err("missing alts"@),
    }
}

/// A case alternative: a constructor's or the default one, with its body.
pub open spec fn spec_parse_alt(j: Json) -> Result<SAlt, Seq<char>>
    decreases j, 0int,
{
    match j {
        Json::Object(msv) => match spec_str_at(msv@, "kind"@) {
            Err(e) => Err(e),
            Ok(kind) => if kind == "ctor"@ {
                match spec_info_at(msv@) {
                    Err(e) => Err(e),
                    Ok(info) => match spec_body_at(msv@, "body"@, "missing body"@) {
                        Err(e) => Err(e),
                        Ok(body) => Ok(SAlt::Ctor { info, body }),
                    },
                }
            } else if kind == "default"@ {
                match spec_body_at(msv@, "body"@, "missing body"@) {
                    Err(e) => Err(e),
                    Ok(body) => Ok(SAlt::Default { body }),
                }
            } else {
                Err("Unknown Alt kind: "@ + kind)
            },
        },
        _ => Err("Missing or non-string field: kind"@),
    }
}

/// The function body of a JSON object, by its `kind`.
pub open spec fn spec_parse_body(j: Json) -> Result<SFnBody, Seq<char>>
    decreases j, 0int,
{
    match j {
        Json::Object(msv) => {
            let ms = msv@;
            match spec_str_at(ms, "kind"@) {
                Err(e) => Err(e),
                Ok(kind) => if kind == "vdecl"@ {
                    match spec_u32_at(ms, "var"@) {
                        Err(e) => Err(e),
                        Ok(var) => match spec_ty_at(ms) {
                            Err(e) => Err(e),
                            Ok(ty) => match spec_member(ms, "expr"@) {
                                None => Err("missing expr"@),
                                Some(x) => match spec_parse_expr(x) {
                                    Err(e) => Err(e),
                                    Ok(expr) => match spec_body_at(msv@, "cont"@, "missing cont"@) {
                                        Err(e) => Err(e),
                                        Ok(cont) => Ok(SFnBody::VDecl { var, ty, expr, cont: Box::new(cont) }),
                                    },
                                },
                            },
                        },
                    }
                } else if kind == "jdecl"@ {
                    match spec_u32_at(ms, "jp"@) {
                        Err(e) => Err(e),
                        Ok(jp) => match spec_params_at(ms) {
                            Err(e) => Err(e),
                            Ok(params) => match spec_body_at(msv@, "body"@, "missing body"@) {
                                Err(e) => Err(e),
                                Ok(body) => match spec_body_at(msv@, "cont"@, "missing cont"@) {
                                    Err(e) => Err(e),
                                    Ok(cont) => Ok(
                                        SFnBody::JDecl { jp, params, body: Box::new(body), cont: Box::new(cont) },
                                    ),
                                },
                            },
                        },
                    }
                } else if kind == "set"@ {
                    match spec_u32_pair(ms, "var"@, "idx"@) {
                        Err(e) => Err(e),
                        Ok((var, idx)) => match spec_arg_at(ms, "val"@, "missing val"@) {
                            Err(e) => Err(e),
                            Ok(val) => match spec_body_at(msv@, "cont"@, "missing cont"@) {
                                Err(e) => Err(e),
                                Ok(cont) => Ok(SFnBody::SetField { var, idx, val, cont: Box::new(cont) }),
                            },
                        },
                    }
                } else if kind == "uset"@ {
                    match spec_u32_pair(ms, "var"@, "idx"@) {
                        Err(e) => Err(e),
                        Ok((var, idx)) => match spec_u32_at(ms, "val"@) {
                            Err(e) => Err(e),
                            Ok(val) => match spec_body_at(msv@, "cont"@, "missing cont"@) {
                                Err(e) => Err(e),
                                Ok(cont) => Ok(SFnBody::USet { var, idx, val, cont: Box::new(cont) }),
                            },
                        },
                    }
                } else if kind == "sset"@ {
                    match spec_u32_pair(ms, "var"@, "n"@) {
                        Err(e) => Err(e),
                        Ok((var, n)) => match spec_u32_pair(ms, "offset"@, "val"@) {
                            Err(e) => Err(e),
                            Ok((offset, val)) => match spec_ty_at(ms) {
                                Err(e) => Err(e),
                                Ok(ty) => match spec_body_at(msv@, "cont"@, "missing cont"@) {
                                    Err(e) => Err(e),
                                    Ok(cont) => Ok(
                                        SFnBody::SSet { var, n, offset, val, ty, cont: Box::new(cont) },
                                    ),
                                },
                            },
                        },
                    }
                } else if kind == "setTag"@ {
                    match spec_u32_pair(ms, "var"@, "cidx"@) {
                        Err(e) => Err(e),
                        Ok((var, cidx)) => match spec_body_at(msv@, "cont"@, "missing cont"@) {
                            Err(e) => Err(e),
                            Ok(cont) => Ok(SFnBody::SetTag { var, cidx: cidx as u16, cont: Box::new(cont) }),
                        },
                    }
                } else if kind == "case"@ {
                    match spec_str_at(ms, "tid"@) {
                        Err(e) => Err(e),
                        Ok(tid) => match spec_u32_at(ms, "scrutinee"@) {
                            Err(e) => Err(e),
                            Ok(scrutinee) => match spec_alts_at(msv@) {
                                Err(e) => Err(e),
                                Ok(alts) => Ok(SFnBody::Case { tid, scrutinee, alts }),
                            },
                        },
                    }
                } else if kind == "ret"@ {
                    match spec_arg_at(ms, "arg"@, "missing arg"@) {
                        Err(e) => Err(e),
                        Ok(arg) => Ok(SFnBody::Ret { arg }),
                    }
                } else if kind == "jmp"@ {
                    match spec_u32_at(ms, "jp"@) {
                        Err(e) => Err(e),
                        Ok(jp) => match spec_args_at(ms) {
                            Err(e) => Err(e),
                            Ok(args) => Ok(SFnBody::Jmp { jp, args }),
                        },
                    }
                } else if kind == "unreachable"@ {
                    Ok(SFnBody::Unreachable)
                } else {
                    Err("Unknown FnBody kind: "@ + kind)
                },
            }
        },
        _ => Err("Missing or non-string field: kind"@),
    }
}

/// The return type member `ret_type`.
pub open spec fn spec_ret_type_at(ms: Seq<(String, Json)>) -> Result<IRType, Seq<char>> {
    match spec_member(ms, "ret_type"@) {
        Some(t) => spec_parse_ir_type(t),
        None => Err("missing ret_type"@),
    }
}

/// A declaration: a function with its body, or an extern.
pub open spec fn spec_parse_decl(j: Json) -> Result<SDecl, Seq<char>> {
    match j {
        Json::Object(msv) => {
            let ms = msv@;
            match spec_str_at(ms, "kind"@) {
                Err(e) => Err(e),
                Ok(kind) => if kind == "fdecl"@ || kind == "extern"@ {
                    match spec_str_at(ms, "name"@) {
                        Err(e) => Err(e),
                        Ok(name) => match spec_params_at(ms) {
                            Err(e) => Err(e),
                            Ok(params) => match spec_ret_type_at(ms) {
                                Err(e) => Err(e),
                                Ok(ret_type) => if kind == "extern"@ {
                                    Ok(SDecl::ExternDecl { name, params, ret_type })
                                } else {
                                    match spec_body_at(ms, "body"@, "missing body"@) {
                                        Err(e) => Err(e),
                                        Ok(body) => Ok(SDecl::FnDecl { name, params, ret_type, body }),
                                    }
                                },
                            },
                        },
                    }
                } else {
                    Err("Unknown decl kind: "@ + kind)
                },
            }
        },
        _ => Err("Missing or non-string field: kind"@),
    }
}

pub open spec fn spec_parse_decl_items(items: Seq<Json>, k: int) -> Result<Seq<SDecl>, Seq<char>>
    decreases k,
{
    if k <= 0 {
        Ok(Seq::empty())
    } else {
        match spec_parse_decl_items(items, k - 1) {
            Err(e) => Err(e),
            Ok(xs) => match spec_parse_decl(items[k - 1]) {
                Err(e) => Err(e),
                Ok(x) => Ok(xs.push(x)),
            },
        }
    }
}

/// The declarations of an IR program: a JSON array of declarations, read in order.
pub open spec fn spec_load_ir_program(j: Json) -> Result<Seq<SDecl>, Seq<char>> {
    match j {
        Json::Array(items) => spec_parse_decl_items(items@, items@.len() as int),
        _ => Err("Expected JSON array at top level"@),
    }
}


/// `Ok` of the value whose model is given, or `Err` of the same message.
pub open spec fn spec_matches<T, S>(r: Result<T, String>, s: Result<S, Seq<char>>, model: spec_fn(T) -> S) -> bool {
    match r {
        Ok(x) => s == Ok::<S, Seq<char>>(model(x)),
        Err(e) => s == Err::<S, Seq<char>>(e@),
    }
}

pub fn parse_ir_type(v: &Json) -> (r: Result<IRType, String>)
    ensures
        spec_matches(r, spec_parse_ir_type(*v), |t: IRType| t),
{
    match v {
        Json::String(s) => {
            let s = s.as_str();
            if str_equal(s, "Float") {
                Ok(IRType::Float)
            } else if str_equal(s, "UInt8") {
                Ok(IRType::UInt8)
            } else if str_equal(s, "UInt16") {
                Ok(IRType::UInt16)
            } else if str_equal(s, "UInt32") {
                Ok(IRType::UInt32)
            } else if str_equal(s, "UInt64") {
                Ok(IRType::UInt64)
            } else if str_equal(s, "USize") {
                Ok(IRType::USize)
            } else if str_equal(s, "Object") {
                Ok(IRType::Object)
            } else if str_equal(s, "TObject") {
                Ok(IRType::TObject)
            } else if str_equal(s, "Irrelevant") {
                Ok(IRType::Irrelevant)
            } else {
                error_with("Unknown IRType: ", s)
            }
        },
        _ => {
            let d = json_debug(v);
            error_with("Expected string for IRType, got ", d.as_str())
        },
    }
}

fn ty_at(ms: &Vec<(String, Json)>) -> (r: Result<IRType, String>)
    ensures
        spec_matches(r, spec_ty_at(ms@), |t: IRType| t),
{
    match find_key(ms, "ty") {
        Some(i) => parse_ir_type(&ms[i].1),
        None => error_text("missing ty"),
    }
}

fn parse_param(v: &Json) -> (r: Result<Param, String>)
    ensures
        spec_matches(r, spec_parse_param(*v), |p: Param| p),
{
    match v {
        Json::Object(ms) => {
            let var = u32_at(ms, "var")?;
            let ty = ty_at(ms)?;
            Ok(Param { var, ty, borrowed: bool_at(ms, "borrowed") })
        },
        _ => error_text("Missing or non-number field: var"),
    }
}

pub fn parse_params(v: &Json) -> (r: Result<Vec<Param>, String>)
    ensures
        spec_matches(r, spec_parse_params(*v), |ps: Vec<Param>| ps@),
{
    match v {
        Json::Array(items) => {
            let mut out: Vec<Param> = Vec::new();
            let mut i: usize = 0;
            while i < items.len()
                invariant
                    i <= items@.len(),
                    spec_parse_param_items(items@, i as int) == Ok::<Seq<Param>, Seq<char>>(out@),
                    spec_parse_params(*v) == spec_parse_param_items(items@, items@.len() as int),
                decreases items@.len() - i,
            {
                match parse_param(&items[i]) {
                    Ok(p) => out.push(p),
                    Err(e) => {
                        proof {
                            assert(spec_parse_param_items(items@, i as int + 1) == Err::<Seq<Param>, Seq<char>>(e@));
                            lemma_param_items_err(items@, i as int + 1, items@.len() as int);
                        }
                        return Err(e);
                    },
                }
                i = i + 1;
            }
            Ok(out)
        },
        _ => error_text("Expected array for params"),
    }
}

fn params_at(ms: &Vec<(String, Json)>) -> (r: Result<Vec<Param>, String>)
    ensures
        spec_matches(r, spec_params_at(ms@), |ps: Vec<Param>| ps@),
{
    match find_key(ms, "params") {
        Some(i) => parse_params(&ms[i].1),
        None => error_text("missing params"),
    }
}

pub fn parse_arg(v: &Json) -> (r: Result<Arg, String>)
    ensures
        spec_matches(r, spec_parse_arg(*v), |a: Arg| a),
{
    match v {
        Json::Object(ms) => {
            let kind = str_at(ms, "kind")?;
            if str_equal(kind, "var") {
                let var = u32_at(ms, "var")?;
                Ok(Arg::Var(var))
            } else if str_equal(kind, "irrelevant") {
                Ok(Arg::Irrelevant)
            } else {
                error_with("Unknown Arg kind: ", kind)
            }
        },
        _ => error_text("Missing or non-string field: kind"),
    }
}

pub fn parse_args(v: &Json) -> (r: Result<Vec<Arg>, String>)
    ensures
        spec_matches(r, spec_parse_args(*v), |xs: Vec<Arg>| xs@),
{
    match v {
        Json::Array(items) => {
            let mut out: Vec<Arg> = Vec::new();
            let mut i: usize = 0;
            while i < items.len()
                invariant
                    i <= items@.len(),
                    spec_parse_arg_items(items@, i as int) == Ok::<Seq<Arg>, Seq<char>>(out@),
                    spec_parse_args(*v) == spec_parse_arg_items(items@, items@.len() as int),
                decreases items@.len() - i,
            {
                match parse_arg(&items[i]) {
                    Ok(a) => out.push(a),
                    Err(e) => {
                        proof {
                            assert(spec_parse_arg_items(items@, i as int + 1) == Err::<Seq<Arg>, Seq<char>>(e@));
                            lemma_arg_items_err(items@, i as int + 1, items@.len() as int);
                        }
                        return Err(e);
                    },
                }
                i = i + 1;
            }
            Ok(out)
        },
        _ => error_text("Expected array for args"),
    }
}

fn args_at(ms: &Vec<(String, Json)>) -> (r: Result<Vec<Arg>, String>)
    ensures
        spec_matches(r, spec_args_at(ms@), |xs: Vec<Arg>| xs@),
{
    match find_key(ms, "args") {
        Some(i) => parse_args(&ms[i].1),
        None => error_text("missing args"),
    }
}

fn arg_at(ms: &Vec<(String, Json)>, key: &str, missing: &str) -> (r: Result<Arg, String>)
    ensures
        spec_matches(r, spec_arg_at(ms@, key@, missing@), |a: Arg| a),
{
    match find_key(ms, key) {
        Some(i) => parse_arg(&ms[i].1),
        None => error_text(missing),
    }
}

pub fn parse_ctor_info(v: &Json) -> (r: Result<CtorInfo, String>)
    ensures
        spec_matches(r, spec_parse_ctor_info(*v), |c: CtorInfo| c.model()),
{
    match v {
        Json::Object(ms) => {
            let name = str_at(ms, "name")?;
            let cidx = u32_at(ms, "cidx")?;
            let size = u32_at(ms, "size")?;
            let usize_fields = u32_at(ms, "usize_fields")?;
            let scalar_size = u32_at(ms, "scalar_size")?;
            Ok(CtorInfo { name: name.to_owned(), cidx: #[verifier::truncate] (cidx as u16), size, usize_fields, scalar_size })
        },
        _ => error_text("Missing or non-string field: name"),
    }
}

fn info_at(ms: &Vec<(String, Json)>) -> (r: Result<CtorInfo, String>)
    ensures
        spec_matches(r, spec_info_at(ms@), |c: CtorInfo| c.model()),
{
    match find_key(ms, "info") {
        Some(i) => parse_ctor_info(&ms[i].1),
        None => error_text("missing info"),
    }
}

pub fn parse_lit_val(v: &Json) -> (r: Result<LitValue, String>)
    ensures
        spec_matches(r, spec_parse_lit_val(*v), |l: LitValue| l.model()),
{
    match v {
        Json::Object(ms) => {
            let kind = str_at(ms, "kind")?;
            if str_equal(kind, "num") {
                match find_key(ms, "val") {
                    Some(i) => match &ms[i].1 {
                        Json::Number(Some(n), _) => Ok(LitValue::Num(*n)),
                        _ => error_text("missing num val"),
                    },
                    None => error_text("missing num val"),
                }
            } else if str_equal(kind, "str") {
                let s = str_at(ms, "val")?;
                Ok(LitValue::Str(s.to_owned()))
            } else {
                error_with("Unknown LitVal kind: ", kind)
            }
        },
        _ => error_text("Missing or non-string field: kind"),
    }
}

fn u32_pair(ms: &Vec<(String, Json)>, a: &str, b: &str) -> (r: Result<(u32, u32), String>)
    ensures
        spec_matches(r, spec_u32_pair(ms@, a@, b@), |p: (u32, u32)| p),
{
    let x = u32_at(ms, a)?;
    let y = u32_at(ms, b)?;
    Ok((x, y))
}

/// Reads an expression from its JSON object.
pub fn parse_expr(v: &Json) -> (r: Result<Expr, String>)
    ensures
        spec_matches(r, spec_parse_expr(*v), |e: Expr| e.model()),
{
    let ms = match v {
        Json::Object(ms) => ms,
        _ => {
            return error_text("Missing or non-string field: kind");
        },
    };
    let kind = str_at(ms, "kind")?;
    if str_equal(kind, "ctor") {
        let info = info_at(ms)?;
        let args = args_at(ms)?;
        Ok(Expr::Ctor { info, args })
    } else if str_equal(kind, "proj") {
        let (idx, var) = u32_pair(ms, "idx", "var")?;
        Ok(Expr::Proj { idx, var })
    } else if str_equal(kind, "uproj") {
        let (idx, var) = u32_pair(ms, "idx", "var")?;
        Ok(Expr::UProj { idx, var })
    } else if str_equal(kind, "sproj") {
        let (n, offset) = u32_pair(ms, "n", "offset")?;
        let var = u32_at(ms, "var")?;
        Ok(Expr::SProj { n, offset, var })
    } else if str_equal(kind, "fap") || str_equal(kind, "pap") {
        let fun = str_at(ms, "fun")?;
        let args = args_at(ms)?;
        if str_equal(kind, "fap") {
            Ok(Expr::FAp { fun: fun.to_owned(), args })
        } else {
            Ok(Expr::PAp { fun: fun.to_owned(), args })
        }
    } else if str_equal(kind, "ap") {
        let fun = u32_at(ms, "fun")?;
        let args = args_at(ms)?;
        Ok(Expr::Ap { fun, args })
    } else if str_equal(kind, "box") {
        let ty = ty_at(ms)?;
        let var = u32_at(ms, "var")?;
        Ok(Expr::Box { ty, var })
    } else if str_equal(kind, "unbox") {
        let var = u32_at(ms, "var")?;
        Ok(Expr::Unbox { var })
    } else if str_equal(kind, "lit") {
        match find_key(ms, "val") {
            Some(i) => {
                let val = parse_lit_val(&ms[i].1)?;
                Ok(Expr::Lit { val })
            },
            None => error_text("missing val"),
        }
    } else if str_equal(kind, "isShared") {
        let var = u32_at(ms, "var")?;
        Ok(Expr::IsShared { var })
    } else if str_equal(kind, "reset") {
        let (n, var) = u32_pair(ms, "n", "var")?;
        Ok(Expr::Reset { n, var })
    } else if str_equal(kind, "reuse") {
        let var = u32_at(ms, "var")?;
        let info = info_at(ms)?;
        let args = args_at(ms)?;
        Ok(Expr::Reuse { var, info, upd_header: bool_at(ms, "upd_header"), args })
    } else {
        error_with("Unknown Expr kind: ", kind)
    }
}

/// Reads the body member `key` of an object.
fn body_at(ms: &Vec<(String, Json)>, key: &str, missing: &str) -> (r: Result<FnBody, String>)
    ensures
        spec_matches(r, spec_body_at(ms@, key@, missing@), |b: FnBody| model_body(b)),
    decreases ms,
{
    proof {
        lemma_find_key_range(ms@, key@, 0);
    }
    match find_key(ms, key) {
        Some(i) => {
            proof {
                vstd::std_specs::vec::axiom_vec_index_decreases(*ms, i as int);
            }
            parse_fn_body(&ms[i].1)
        },
        None => error_text(missing),
    }
}

/// Reads the case alternatives of an object.
fn alts_at(ms: &Vec<(String, Json)>) -> (r: Result<Vec<Alt>, String>)
    ensures
        spec_matches(r, spec_alts_at(ms@), |a: Vec<Alt>| model_alts(a@)),
    decreases ms,
{
    proof {
        lemma_find_key_range(ms@, "alts"@, 0);
    }
    let i = match find_key(ms, "alts") {
        Some(i) => i,
        None => {
            return error_text("missing alts");
        },
    };
    proof {
        vstd::std_specs::vec::axiom_vec_index_decreases(*ms, i as int);
    }
    let items = match &ms[i].1 {
        Json::Array(items) => items,
        _ => {
            return error_text("missing alts");
        },
    };
    let mut out: Vec<Alt> = Vec::new();
    proof {
        assert(model_alts(out@) =~= Seq::<SAlt>::empty());
    }
    let mut k: usize = 0;
    while k < items.len()
        invariant
            k <= items@.len(),
            spec_parse_alt_items(items@, k as int) == Ok::<Seq<SAlt>, Seq<char>>(model_alts(out@)),
            spec_alts_at(ms@) == spec_parse_alt_items(items@, items@.len() as int),
            decreases_to!(*ms => *items),
        decreases items@.len() - k,
    {
        proof {
            vstd::std_specs::vec::axiom_vec_index_decreases(*items, k as int);
        }
        match parse_alt(&items[k]) {
            Ok(a) => {
                let ghost before = out@;
                out.push(a);
                proof {
                    assert(model_alts(out@) =~= model_alts(before).push(model_alt(a)));
                }
            },
            Err(e) => {
                proof {
                    assert(spec_parse_alt_items(items@, k as int + 1) == Err::<Seq<SAlt>, Seq<char>>(e@));
                    lemma_alt_items_err(items@, k as int + 1, items@.len() as int);
                }
                return Err(e);
            },
        }
        k = k + 1;
    }
    Ok(out)
}

/// The first error among the alternatives before `i` is the error of them all.
pub proof fn lemma_alt_items_err(items: Seq<Json>, i: int, k: int)
    requires
        0 <= i <= k <= items.len(),
        spec_parse_alt_items(items, i) is Err,
    ensures
        spec_parse_alt_items(items, k) == spec_parse_alt_items(items, i),
    decreases k - i,
{
    if i < k {
        lemma_alt_items_err(items, i, k - 1);
    }
}

/// Reads a case alternative.
pub fn parse_alt(v: &Json) -> (r: Result<Alt, String>)
    ensures
        spec_matches(r, spec_parse_alt(*v), |a: Alt| model_alt(a)),
    decreases v,
{
    let ms = match v {
        Json::Object(ms) => ms,
        _ => {
            return error_text("Missing or non-string field: kind");
        },
    };
    let kind = str_at(ms, "kind")?;
    if str_equal(kind, "ctor") {
        let info = info_at(ms)?;
        let body = body_at(ms, "body", "missing body")?;
        Ok(Alt::Ctor { info, body })
    } else if str_equal(kind, "default") {
        let body = body_at(ms, "body", "missing body")?;
        Ok(Alt::Default { body })
    } else {
        error_with("Unknown Alt kind: ", kind)
    }
}

/// Reads a function body from its JSON object; continuations, join point
/// bodies and alternatives are read the same way.
pub fn parse_fn_body(v: &Json) -> (r: Result<FnBody, String>)
    ensures
        spec_matches(r, spec_parse_body(*v), |b: FnBody| model_body(b)),
    decreases v,
{
    let ms = match v {
        Json::Object(ms) => ms,
        _ => {
            return error_text("Missing or non-string field: kind");
        },
    };
    let kind = str_at(ms, "kind")?;
    if str_equal(kind, "vdecl") {
        let var = u32_at(ms, "var")?;
        let ty = ty_at(ms)?;
        let expr = match find_key(ms, "expr") {
            Some(i) => parse_expr(&ms[i].1)?,
            None => {
                return error_text("missing expr");
            },
        };
        let cont = body_at(ms, "cont", "missing cont")?;
        Ok(FnBody::VDecl { var, ty, expr, cont: Box::new(cont) })
    } else if str_equal(kind, "jdecl") {
        let jp = u32_at(ms, "jp")?;
        let params = params_at(ms)?;
        let body = body_at(ms, "body", "missing body")?;
        let cont = body_at(ms, "cont", "missing cont")?;
        Ok(FnBody::JDecl { jp, params, body: Box::new(body), cont: Box::new(cont) })
    } else if str_equal(kind, "set") {
        let (var, idx) = u32_pair(ms, "var", "idx")?;
        let val = arg_at(ms, "val", "missing val")?;
        let cont = body_at(ms, "cont", "missing cont")?;
        Ok(FnBody::SetField { var, idx, val, cont: Box::new(cont) })
    } else if str_equal(kind, "uset") {
        let (var, idx) = u32_pair(ms, "var", "idx")?;
        let val = u32_at(ms, "val")?;
        let cont = body_at(ms, "cont", "missing cont")?;
        Ok(FnBody::USet { var, idx, val, cont: Box::new(cont) })
    } else if str_equal(kind, "sset") {
        let (var, n) = u32_pair(ms, "var", "n")?;
        let (offset, val) = u32_pair(ms, "offset", "val")?;
        let ty = ty_at(ms)?;
        let cont = body_at(ms, "cont", "missing cont")?;
        Ok(FnBody::SSet { var, n, offset, val, ty, cont: Box::new(cont) })
    } else if str_equal(kind, "setTag") {
        let (var, cidx) = u32_pair(ms, "var", "cidx")?;
        let cont = body_at(ms, "cont", "missing cont")?;
        Ok(FnBody::SetTag { var, cidx: #[verifier::truncate] (cidx as u16), cont: Box::new(cont) })
    } else if str_equal(kind, "case") {
        let tid = str_at(ms, "tid")?;
        let scrutinee = u32_at(ms, "scrutinee")?;
        let alts = alts_at(ms)?;
        Ok(FnBody::Case { tid: tid.to_owned(), scrutinee, alts })
    } else if str_equal(kind, "ret") {
        let arg = arg_at(ms, "arg", "missing arg")?;
        Ok(FnBody::Ret { arg })
    } else if str_equal(kind, "jmp") {
        let jp = u32_at(ms, "jp")?;
        let args = args_at(ms)?;
        Ok(FnBody::Jmp { jp, args })
    } else if str_equal(kind, "unreachable") {
        Ok(FnBody::Unreachable)
    } else {
        error_with("Unknown FnBody kind: ", kind)
    }
}

/// Reads a declaration: a function with its body, or an extern.
pub fn parse_decl(v: &Json) -> (r: Result<Decl, String>)
    ensures
        spec_matches(r, spec_parse_decl(*v), |d: Decl| model_decl(d)),
{
    let ms = match v {
        Json::Object(ms) => ms,
        _ => {
            return error_text("Missing or non-string field: kind");
        },
    };
    let kind = str_at(ms, "kind")?;
    if str_equal(kind, "fdecl") || str_equal(kind, "extern") {
        let name = str_at(ms, "name")?;
        let params = params_at(ms)?;
        let ret_type = match find_key(ms, "ret_type") {
            Some(i) => parse_ir_type(&ms[i].1)?,
            None => {
                return error_text("missing ret_type");
            },
        };
        if str_equal(kind, "extern") {
            Ok(Decl::ExternDecl { name: name.to_owned(), params, ret_type })
        } else {
            let body = body_at(ms, "body", "missing body")?;
            Ok(Decl::FnDecl { name: name.to_owned(), params, ret_type, body })
        }
    } else {
        error_with("Unknown decl kind: ", kind)
    }
}

/// The first error among the declarations before `i` is the error of them all.
pub proof fn lemma_decl_items_err(items: Seq<Json>, i: int, k: int)
    requires
        0 <= i <= k,
        spec_parse_decl_items(items, i) is Err,
    ensures
        spec_parse_decl_items(items, k) == spec_parse_decl_items(items, i),
    decreases k - i,
{
    if i < k {
        lemma_decl_items_err(items, i, k - 1);
    }
}

/// The models of a sequence of declarations.
pub open spec fn model_decls(ds: Seq<Decl>) -> Seq<SDecl> {
    Seq::new(ds.len(), |i: int| model_decl(ds[i]))
}

/// Reads the declarations of an IR program, in order.
pub fn load_ir_program(json: &Json) -> (r: Result<Vec<Decl>, String>)
    ensures
        spec_matches(r, spec_load_ir_program(*json), |ds: Vec<Decl>| model_decls(ds@)),
{
    match json {
        Json::Array(items) => {
            let mut out: Vec<Decl> = Vec::new();
            proof {
                assert(model_decls(out@) =~= Seq::<SDecl>::empty());
            }
            let mut i: usize = 0;
            while i < items.len()
                invariant
                    i <= items@.len(),
                    spec_parse_decl_items(items@, i as int) == Ok::<Seq<SDecl>, Seq<char>>(model_decls(out@)),
                    spec_load_ir_program(*json) == spec_parse_decl_items(items@, items@.len() as int),
                decreases items@.len() - i,
            {
                match parse_decl(&items[i]) {
                    Ok(d) => {
                        let ghost before = out@;
                        out.push(d);
                        proof {
                            assert(model_decls(out@) =~= model_decls(before).push(model_decl(d)));
                        }
                    },
                    Err(e) => {
                        proof {
                            assert(spec_parse_decl_items(items@, i as int + 1) == Err::<Seq<SDecl>, Seq<char>>(e@));
                            lemma_decl_items_err(items@, i as int + 1, items@.len() as int);
                        }
                        return Err(e);
                    },
                }
                i = i + 1;
            }
            proof {
                assert(model_decls(out@) =~= model_decls(out@));
            }
            Ok(out)
        },
        _ => error_text("Expected JSON array at top level"),
    }
}

/// Reads the declarations of an IR program from its JSON text.
pub fn load_ir_program_text(text: &str) -> (r: Result<Vec<Decl>, String>)
    ensures
        match spec_parse_json(text@) {
            Err(e) => r matches Err(m) && m@ == "Failed to parse JSON: "@ + e,
            Ok(j) => spec_matches(r, spec_load_ir_program(j), |ds: Vec<Decl>| model_decls(ds@)),
        },
{
    let json = read_json(text)?;
    load_ir_program(&json)
}


/// Each IR type name reads as that type; any other string is refused as
/// an unknown type, naming it.
pub proof fn lemma_ir_type_names(s: String)
    ensures
        s@ == "Float"@ ==> spec_parse_ir_type(Json::String(s)) == Ok::<IRType, Seq<char>>(IRType::Float),
        s@ == "UInt8"@ ==> spec_parse_ir_type(Json::String(s)) == Ok::<IRType, Seq<char>>(IRType::UInt8),
        s@ == "UInt16"@ ==> spec_parse_ir_type(Json::String(s)) == Ok::<IRType, Seq<char>>(IRType::UInt16),
        s@ == "UInt32"@ ==> spec_parse_ir_type(Json::String(s)) == Ok::<IRType, Seq<char>>(IRType::UInt32),
        s@ == "UInt64"@ ==> spec_parse_ir_type(Json::String(s)) == Ok::<IRType, Seq<char>>(IRType::UInt64),
        s@ == "USize"@ ==> spec_parse_ir_type(Json::String(s)) == Ok::<IRType, Seq<char>>(IRType::USize),
        s@ == "Object"@ ==> spec_parse_ir_type(Json::String(s)) == Ok::<IRType, Seq<char>>(IRType::Object),
        s@ == "TObject"@ ==> spec_parse_ir_type(Json::String(s)) == Ok::<IRType, Seq<char>>(IRType::TObject),
        s@ == "Irrelevant"@ ==> spec_parse_ir_type(Json::String(s)) == Ok::<IRType, Seq<char>>(IRType::Irrelevant),
        !(s@ == "Float"@ || s@ == "UInt8"@ || s@ == "UInt16"@ || s@ == "UInt32"@ || s@ == "UInt64"@ || s@ == "USize"@ || s@ == "Object"@ || s@ == "TObject"@ || s@ == "Irrelevant"@) ==> spec_parse_ir_type(Json::String(s))
            == Err::<IRType, Seq<char>>("Unknown IRType: "@ + s@),
{
    reveal_strlit("Float");
    reveal_strlit("UInt8");
    reveal_strlit("UInt16");
    reveal_strlit("UInt32");
    reveal_strlit("UInt64");
    reveal_strlit("USize");
    reveal_strlit("Object");
    reveal_strlit("TObject");
    reveal_strlit("Irrelevant");
    assert("Float"@[0] == 'F');
    assert("Float"@[1] == 'l');
    assert("Float"@[2] == 'o');
    assert("Float"@[3] == 'a');
    assert("Float"@[4] == 't');
    assert("UInt8"@[0] == 'U');
    assert("UInt8"@[1] == 'I');
    assert("UInt8"@[2] == 'n');
    assert("UInt8"@[3] == 't');
    assert("UInt8"@[4] == '8');
    assert("UInt16"@[0] == 'U');
    assert("UInt16"@[1] == 'I');
    assert("UInt16"@[2] == 'n');
    assert("UInt16"@[3] == 't');
    assert("UInt16"@[4] == '1');
    assert("UInt16"@[5] == '6');
    assert("UInt32"@[0] == 'U');
    assert("UInt32"@[1] == 'I');
    assert("UInt32"@[2] == 'n');
    assert("UInt32"@[3] == 't');
    assert("UInt32"@[4] == '3');
    assert("UInt32"@[5] == '2');
    assert("UInt64"@[0] == 'U');
    assert("UInt64"@[1] == 'I');
    assert("UInt64"@[2] == 'n');
    assert("UInt64"@[3] == 't');
    assert("UInt64"@[4] == '6');
    assert("UInt64"@[5] == '4');
    assert("USize"@[0] == 'U');
    assert("USize"@[1] == 'S');
    assert("USize"@[2] == 'i');
    assert("USize"@[3] == 'z');
    assert("USize"@[4] == 'e');
    assert("Object"@[0] == 'O');
    assert("Object"@[1] == 'b');
    assert("Object"@[2] == 'j');
    assert("Object"@[3] == 'e');
    assert("Object"@[4] == 'c');
    assert("Object"@[5] == 't');
    assert("TObject"@[0] == 'T');
    assert("TObject"@[1] == 'O');
    assert("TObject"@[2] == 'b');
    assert("TObject"@[3] == 'j');
    assert("TObject"@[4] == 'e');
    assert("TObject"@[5] == 'c');
    assert("TObject"@[6] == 't');
    assert("Irrelevant"@[0] == 'I');
    assert("Irrelevant"@[1] == 'r');
    assert("Irrelevant"@[2] == 'r');
    assert("Irrelevant"@[3] == 'e');
    assert("Irrelevant"@[4] == 'l');
    assert("Irrelevant"@[5] == 'e');
    assert("Irrelevant"@[6] == 'v');
    assert("Irrelevant"@[7] == 'a');
    assert("Irrelevant"@[8] == 'n');
    assert("Irrelevant"@[9] == 't');
}


/// An expression object is read by its `kind`: each kind gives its variant
/// with the members that kind names (`proj` and `uproj`: `idx` and `var`;
/// `sproj`: `n`, `offset` and `var`; `fap` and `pap`: the function name `fun`
/// and `args`; `ap`: the variable `fun` and `args`; `box`: `ty` and `var`;
/// `ctor`: `info` and `args`; `reuse`: `var`, `info`, `upd_header` and `args`;
/// `unbox` and `isShared`: `var`; `reset`: `n` and `var`); any other kind is
/// refused, naming it.
pub proof fn lemma_expr_kinds(ms: Vec<(String, Json)>)
    ensures
        ({
            let m = ms@;
            let j = Json::Object(ms);
            let kind = spec_str_at(m, "kind"@);
            &&& kind == Ok::<Seq<char>, Seq<char>>("ctor"@) && spec_info_at(m) is Ok && spec_args_at(m) is Ok ==> spec_parse_expr(j) == Ok::<SExpr, Seq<char>>(SExpr::Ctor { info: spec_info_at(m)->Ok_0, args: spec_args_at(m)->Ok_0 })
            &&& kind == Ok::<Seq<char>, Seq<char>>("proj"@) && spec_u32_at(m, "idx"@) is Ok && spec_u32_at(m, "var"@) is Ok ==> spec_parse_expr(j) == Ok::<SExpr, Seq<char>>(SExpr::Proj { idx: spec_u32_at(m, "idx"@)->Ok_0, var: spec_u32_at(m, "var"@)->Ok_0 })
            &&& kind == Ok::<Seq<char>, Seq<char>>("uproj"@) && spec_u32_at(m, "idx"@) is Ok && spec_u32_at(m, "var"@) is Ok ==> spec_parse_expr(j) == Ok::<SExpr, Seq<char>>(SExpr::UProj { idx: spec_u32_at(m, "idx"@)->Ok_0, var: spec_u32_at(m, "var"@)->Ok_0 })
            &&& kind == Ok::<Seq<char>, Seq<char>>("sproj"@) && spec_u32_at(m, "n"@) is Ok && spec_u32_at(m, "offset"@) is Ok && spec_u32_at(m, "var"@) is Ok ==> spec_parse_expr(j) == Ok::<SExpr, Seq<char>>(SExpr::SProj { n: spec_u32_at(m, "n"@)->Ok_0, offset: spec_u32_at(m, "offset"@)->Ok_0, var: spec_u32_at(m, "var"@)->Ok_0 })
            &&& kind == Ok::<Seq<char>, Seq<char>>("fap"@) && spec_str_at(m, "fun"@) is Ok && spec_args_at(m) is Ok ==> spec_parse_expr(j) == Ok::<SExpr, Seq<char>>(SExpr::FAp { fun: spec_str_at(m, "fun"@)->Ok_0, args: spec_args_at(m)->Ok_0 })
            &&& kind == Ok::<Seq<char>, Seq<char>>("pap"@) && spec_str_at(m, "fun"@) is Ok && spec_args_at(m) is Ok ==> spec_parse_expr(j) == Ok::<SExpr, Seq<char>>(SExpr::PAp { fun: spec_str_at(m, "fun"@)->Ok_0, args: spec_args_at(m)->Ok_0 })
            &&& kind == Ok::<Seq<char>, Seq<char>>("ap"@) && spec_u32_at(m, "fun"@) is Ok && spec_args_at(m) is Ok ==> spec_parse_expr(j) == Ok::<SExpr, Seq<char>>(SExpr::Ap { fun: spec_u32_at(m, "fun"@)->Ok_0, args: spec_args_at(m)->Ok_0 })
            &&& kind == Ok::<Seq<char>, Seq<char>>("box"@) && spec_ty_at(m) is Ok && spec_u32_at(m, "var"@) is Ok ==> spec_parse_expr(j) == Ok::<SExpr, Seq<char>>(SExpr::Box { ty: spec_ty_at(m)->Ok_0, var: spec_u32_at(m, "var"@)->Ok_0 })
            &&& kind == Ok::<Seq<char>, Seq<char>>("unbox"@) && spec_u32_at(m, "var"@) is Ok ==> spec_parse_expr(j) == Ok::<SExpr, Seq<char>>(SExpr::Unbox { var: spec_u32_at(m, "var"@)->Ok_0 })
            &&& kind == Ok::<Seq<char>, Seq<char>>("isShared"@) && spec_u32_at(m, "var"@) is Ok ==> spec_parse_expr(j) == Ok::<SExpr, Seq<char>>(SExpr::IsShared { var: spec_u32_at(m, "var"@)->Ok_0 })
            &&& kind == Ok::<Seq<char>, Seq<char>>("reset"@) && spec_u32_at(m, "n"@) is Ok && spec_u32_at(m, "var"@) is Ok ==> spec_parse_expr(j) == Ok::<SExpr, Seq<char>>(SExpr::Reset { n: spec_u32_at(m, "n"@)->Ok_0, var: spec_u32_at(m, "var"@)->Ok_0 })
            &&& kind == Ok::<Seq<char>, Seq<char>>("reuse"@) && spec_u32_at(m, "var"@) is Ok && spec_info_at(m) is Ok && spec_args_at(m) is Ok ==> spec_parse_expr(j) == Ok::<SExpr, Seq<char>>(SExpr::Reuse { var: spec_u32_at(m, "var"@)->Ok_0, info: spec_info_at(m)->Ok_0, upd_header: spec_bool_at(m, "upd_header"@), args: spec_args_at(m)->Ok_0 })
            &&& (kind matches Ok(k) && kind != Ok::<Seq<char>, Seq<char>>("ctor"@) && kind != Ok::<Seq<char>, Seq<char>>("proj"@) && kind != Ok::<Seq<char>, Seq<char>>("uproj"@) && kind != Ok::<Seq<char>, Seq<char>>("sproj"@) && kind != Ok::<Seq<char>, Seq<char>>("fap"@) && kind != Ok::<Seq<char>, Seq<char>>("pap"@) && kind != Ok::<Seq<char>, Seq<char>>("ap"@) && kind != Ok::<Seq<char>, Seq<char>>("box"@) && kind != Ok::<Seq<char>, Seq<char>>("unbox"@) && kind != Ok::<Seq<char>, Seq<char>>("lit"@) && kind != Ok::<Seq<char>, Seq<char>>("isShared"@) && kind != Ok::<Seq<char>, Seq<char>>("reset"@) && kind != Ok::<Seq<char>, Seq<char>>("reuse"@)) ==> spec_parse_expr(j) == Err::<SExpr, Seq<char>>("Unknown Expr kind: "@ + kind->Ok_0)
        }),
{
    reveal_strlit("ctor");
    reveal_strlit("proj");
    reveal_strlit("uproj");
    reveal_strlit("sproj");
    reveal_strlit("fap");
    reveal_strlit("pap");
    reveal_strlit("ap");
    reveal_strlit("box");
    reveal_strlit("unbox");
    reveal_strlit("lit");
    reveal_strlit("isShared");
    reveal_strlit("reset");
    reveal_strlit("reuse");
    assert("ctor"@[0] == 'c');
    assert("ctor"@[1] == 't');
    assert("ctor"@[2] == 'o');
    assert("ctor"@[3] == 'r');
    assert("proj"@[0] == 'p');
    assert("proj"@[1] == 'r');
    assert("proj"@[2] == 'o');
    assert("proj"@[3] == 'j');
    assert("uproj"@[0] == 'u');
    assert("uproj"@[1] == 'p');
    assert("uproj"@[2] == 'r');
    assert("uproj"@[3] == 'o');
    assert("uproj"@[4] == 'j');
    assert("sproj"@[0] == 's');
    assert("sproj"@[1] == 'p');
    assert("sproj"@[2] == 'r');
    assert("sproj"@[3] == 'o');
    assert("sproj"@[4] == 'j');
    assert("fap"@[0] == 'f');
    assert("fap"@[1] == 'a');
    assert("fap"@[2] == 'p');
    assert("pap"@[0] == 'p');
    assert("pap"@[1] == 'a');
    assert("pap"@[2] == 'p');
    assert("ap"@[0] == 'a');
    assert("ap"@[1] == 'p');
    assert("box"@[0] == 'b');
    assert("box"@[1] == 'o');
    assert("box"@[2] == 'x');
    assert("unbox"@[0] == 'u');
    assert("unbox"@[1] == 'n');
    assert("unbox"@[2] == 'b');
    assert("unbox"@[3] == 'o');
    assert("unbox"@[4] == 'x');
    assert("lit"@[0] == 'l');
    assert("lit"@[1] == 'i');
    assert("lit"@[2] == 't');
    assert("isShared"@[0] == 'i');
    assert("isShared"@[1] == 's');
    assert("isShared"@[2] == 'S');
    assert("isShared"@[3] == 'h');
    assert("isShared"@[4] == 'a');
    assert("isShared"@[5] == 'r');
    assert("isShared"@[6] == 'e');
    assert("isShared"@[7] == 'd');
    assert("reset"@[0] == 'r');
    assert("reset"@[1] == 'e');
    assert("reset"@[2] == 's');
    assert("reset"@[3] == 'e');
    assert("reset"@[4] == 't');
    assert("reuse"@[0] == 'r');
    assert("reuse"@[1] == 'e');
    assert("reuse"@[2] == 'u');
    assert("reuse"@[3] == 's');
    assert("reuse"@[4] == 'e');
}


/// A body object is read by its `kind`: each kind gives its statement with
/// the members that kind names (`vdecl`: `var`, `ty`, `expr` and `cont`;
/// `jdecl`: `jp`, `params`, `body` and `cont`; `set`: `var`, `idx`, `val`
/// and `cont`; `uset`: `var`, `idx`, the variable `val` and `cont`; `sset`:
/// `var`, `n`, `offset`, `val`, `ty` and `cont`; `setTag`: `var`, `cidx`
/// (kept to 16 bits) and `cont`; `case`: `tid`, `scrutinee` and `alts`;
/// `ret`: `arg`; `jmp`: `jp` and `args`; `unreachable`); any other kind is
/// refused, naming it.
pub proof fn lemma_body_kinds(ms: Vec<(String, Json)>)
    ensures
        ({
            let m = ms@;
            let j = Json::Object(ms);
            let kind = spec_str_at(m, "kind"@);
            &&& kind == Ok::<Seq<char>, Seq<char>>("vdecl"@) && spec_u32_at(m, "var"@) is Ok && spec_ty_at(m) is Ok && spec_member(m, "expr"@) is Some && spec_parse_expr(spec_member(m, "expr"@)->Some_0) is Ok && spec_body_at(m, "cont"@, "missing cont"@) is Ok ==> spec_parse_body(j) == Ok::<SFnBody, Seq<char>>(SFnBody::VDecl { var: spec_u32_at(m, "var"@)->Ok_0, ty: spec_ty_at(m)->Ok_0, expr: spec_parse_expr(spec_member(m, "expr"@)->Some_0)->Ok_0, cont: Box::new(spec_body_at(m, "cont"@, "missing cont"@)->Ok_0) })
            &&& kind == Ok::<Seq<char>, Seq<char>>("jdecl"@) && spec_u32_at(m, "jp"@) is Ok && spec_params_at(m) is Ok && spec_body_at(m, "body"@, "missing body"@) is Ok && spec_body_at(m, "cont"@, "missing cont"@) is Ok ==> spec_parse_body(j) == Ok::<SFnBody, Seq<char>>(SFnBody::JDecl { jp: spec_u32_at(m, "jp"@)->Ok_0, params: spec_params_at(m)->Ok_0, body: Box::new(spec_body_at(m, "body"@, "missing body"@)->Ok_0), cont: Box::new(spec_body_at(m, "cont"@, "missing cont"@)->Ok_0) })
            &&& kind == Ok::<Seq<char>, Seq<char>>("set"@) && spec_u32_at(m, "var"@) is Ok && spec_u32_at(m, "idx"@) is Ok && spec_arg_at(m, "val"@, "missing val"@) is Ok && spec_body_at(m, "cont"@, "missing cont"@) is Ok ==> spec_parse_body(j) == Ok::<SFnBody, Seq<char>>(SFnBody::SetField { var: spec_u32_at(m, "var"@)->Ok_0, idx: spec_u32_at(m, "idx"@)->Ok_0, val: spec_arg_at(m, "val"@, "missing val"@)->Ok_0, cont: Box::new(spec_body_at(m, "cont"@, "missing cont"@)->Ok_0) })
            &&& kind == Ok::<Seq<char>, Seq<char>>("uset"@) && spec_u32_at(m, "var"@) is Ok && spec_u32_at(m, "idx"@) is Ok && spec_u32_at(m, "val"@) is Ok && spec_body_at(m, "cont"@, "missing cont"@) is Ok ==> spec_parse_body(j) == Ok::<SFnBody, Seq<char>>(SFnBody::USet { var: spec_u32_at(m, "var"@)->Ok_0, idx: spec_u32_at(m, "idx"@)->Ok_0, val: spec_u32_at(m, "val"@)->Ok_0, cont: Box::new(spec_body_at(m, "cont"@, "missing cont"@)->Ok_0) })
            &&& kind == Ok::<Seq<char>, Seq<char>>("sset"@) && spec_u32_at(m, "var"@) is Ok && spec_u32_at(m, "n"@) is Ok && spec_u32_at(m, "offset"@) is Ok && spec_u32_at(m, "val"@) is Ok && spec_ty_at(m) is Ok && spec_body_at(m, "cont"@, "missing cont"@) is Ok ==> spec_parse_body(j) == Ok::<SFnBody, Seq<char>>(SFnBody::SSet { var: spec_u32_at(m, "var"@)->Ok_0, n: spec_u32_at(m, "n"@)->Ok_0, offset: spec_u32_at(m, "offset"@)->Ok_0, val: spec_u32_at(m, "val"@)->Ok_0, ty: spec_ty_at(m)->Ok_0, cont: Box::new(spec_body_at(m, "cont"@, "missing cont"@)->Ok_0) })
            &&& kind == Ok::<Seq<char>, Seq<char>>("setTag"@) && spec_u32_at(m, "var"@) is Ok && spec_u32_at(m, "cidx"@) is Ok && spec_body_at(m, "cont"@, "missing cont"@) is Ok ==> spec_parse_body(j) == Ok::<SFnBody, Seq<char>>(SFnBody::SetTag { var: spec_u32_at(m, "var"@)->Ok_0, cidx: #[verifier::truncate] (spec_u32_at(m, "cidx"@)->Ok_0 as u16), cont: Box::new(spec_body_at(m, "cont"@, "missing cont"@)->Ok_0) })
            &&& kind == Ok::<Seq<char>, Seq<char>>("case"@) && spec_str_at(m, "tid"@) is Ok && spec_u32_at(m, "scrutinee"@) is Ok && spec_alts_at(m) is Ok ==> spec_parse_body(j) == Ok::<SFnBody, Seq<char>>(SFnBody::Case { tid: spec_str_at(m, "tid"@)->Ok_0, scrutinee: spec_u32_at(m, "scrutinee"@)->Ok_0, alts: spec_alts_at(m)->Ok_0 })
            &&& kind == Ok::<Seq<char>, Seq<char>>("ret"@) && spec_arg_at(m, "arg"@, "missing arg"@) is Ok ==> spec_parse_body(j) == Ok::<SFnBody, Seq<char>>(SFnBody::Ret { arg: spec_arg_at(m, "arg"@, "missing arg"@)->Ok_0 })
            &&& kind == Ok::<Seq<char>, Seq<char>>("jmp"@) && spec_u32_at(m, "jp"@) is Ok && spec_args_at(m) is Ok ==> spec_parse_body(j) == Ok::<SFnBody, Seq<char>>(SFnBody::Jmp { jp: spec_u32_at(m, "jp"@)->Ok_0, args: spec_args_at(m)->Ok_0 })
            &&& kind == Ok::<Seq<char>, Seq<char>>("unreachable"@) ==> spec_parse_body(j) == Ok::<SFnBody, Seq<char>>(SFnBody::Unreachable)
            &&& (kind matches Ok(k) && kind != Ok::<Seq<char>, Seq<char>>("vdecl"@) && kind != Ok::<Seq<char>, Seq<char>>("jdecl"@) && kind != Ok::<Seq<char>, Seq<char>>("set"@) && kind != Ok::<Seq<char>, Seq<char>>("uset"@) && kind != Ok::<Seq<char>, Seq<char>>("sset"@) && kind != Ok::<Seq<char>, Seq<char>>("setTag"@) && kind != Ok::<Seq<char>, Seq<char>>("case"@) && kind != Ok::<Seq<char>, Seq<char>>("ret"@) && kind != Ok::<Seq<char>, Seq<char>>("jmp"@) && kind != Ok::<Seq<char>, Seq<char>>("unreachable"@)) ==> spec_parse_body(j) == Err::<SFnBody, Seq<char>>("Unknown FnBody kind: "@ + kind->Ok_0)
        }),
{
    reveal_strlit("vdecl");
    reveal_strlit("jdecl");
    reveal_strlit("set");
    reveal_strlit("uset");
    reveal_strlit("sset");
    reveal_strlit("setTag");
    reveal_strlit("case");
    reveal_strlit("ret");
    reveal_strlit("jmp");
    reveal_strlit("unreachable");
    assert("vdecl"@[0] == 'v');
    assert("vdecl"@[1] == 'd');
    assert("vdecl"@[2] == 'e');
    assert("vdecl"@[3] == 'c');
    assert("vdecl"@[4] == 'l');
    assert("jdecl"@[0] == 'j');
    assert("jdecl"@[1] == 'd');
    assert("jdecl"@[2] == 'e');
    assert("jdecl"@[3] == 'c');
    assert("jdecl"@[4] == 'l');
    assert("set"@[0] == 's');
    assert("set"@[1] == 'e');
    assert("set"@[2] == 't');
    assert("uset"@[0] == 'u');
    assert("uset"@[1] == 's');
    assert("uset"@[2] == 'e');
    assert("uset"@[3] == 't');
    assert("sset"@[0] == 's');
    assert("sset"@[1] == 's');
    assert("sset"@[2] == 'e');
    assert("sset"@[3] == 't');
    assert("setTag"@[0] == 's');
    assert("setTag"@[1] == 'e');
    assert("setTag"@[2] == 't');
    assert("setTag"@[3] == 'T');
    assert("setTag"@[4] == 'a');
    assert("setTag"@[5] == 'g');
    assert("case"@[0] == 'c');
    assert("case"@[1] == 'a');
    assert("case"@[2] == 's');
    assert("case"@[3] == 'e');
    assert("ret"@[0] == 'r');
    assert("ret"@[1] == 'e');
    assert("ret"@[2] == 't');
    assert("jmp"@[0] == 'j');
    assert("jmp"@[1] == 'm');
    assert("jmp"@[2] == 'p');
    assert("unreachable"@[0] == 'u');
    assert("unreachable"@[1] == 'n');
    assert("unreachable"@[2] == 'r');
    assert("unreachable"@[3] == 'e');
    assert("unreachable"@[4] == 'a');
    assert("unreachable"@[5] == 'c');
    assert("unreachable"@[6] == 'h');
    assert("unreachable"@[7] == 'a');
    assert("unreachable"@[8] == 'b');
    assert("unreachable"@[9] == 'l');
    assert("unreachable"@[10] == 'e');
    assert("setTag"@.len() == 6 && "set"@.len() == 3);
    assert("setTag"@ != "set"@);
    let m = ms@;
    if spec_u32_at(m, "var"@) is Ok && spec_u32_at(m, "cidx"@) is Ok {
        let c = spec_u32_at(m, "cidx"@)->Ok_0;
        assert(spec_u32_pair(m, "var"@, "cidx"@) == Ok::<(u32, u32), Seq<char>>((spec_u32_at(m, "var"@)->Ok_0, c)));
    }
}

} // verus!
