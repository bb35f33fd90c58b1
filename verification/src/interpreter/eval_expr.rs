use vstd::prelude::*;

use crate::interpreter::registry::{
    lemma_register_all_none_extend, lemma_register_all_some, lemma_register_meaning, spec_register, spec_register_all,
    SRec, ValueRegistry,
};
use crate::interpreter::stack::{spec_locals, CallFrame};
use crate::interpreter::{
    lemma_resolve_args_err_extend, spec_resolve_arg, spec_resolve_args, InterpError, SInterpError,
};
use crate::ir_types::{spec_expr_wf, Arg, CtorInfo, Expr, IRType, LitValue, SCtorInfo, SExpr, SLitValue};
use crate::trace_check::{
    lemma_extends_trans, lemma_push_step, lemma_steps_valid_extend, spec_extends, spec_lookup, spec_refs_below,
    spec_step_fault, spec_step_refs, spec_steps_valid, spec_steps_valid_from,
};
use crate::trace_types::{model_steps, STraceStep, TraceStep, ValueId};
use crate::value::{
    le_byte, le_u64_of, lemma_le_u64_of_bytes, lemma_view_values, spec_low_bytes, spec_as_u64, spec_field, spec_get_scalar_bytes,
    spec_has_u64, spec_le_u64, spec_scalar_byte, view_values, zero_bytes, SValue, Value,
};

verus! {

broadcast use {vstd::std_specs::hash::group_hash_axioms, lemma_view_values};

/// Evaluates the expressions of one function body against its frame,
/// recording constructor and projection steps in the trace.
pub struct ExprEvaluator {
    pub frame: CallFrame,
    pub trace_steps: Vec<TraceStep>,
    pub value_registry: ValueRegistry,
}

/// Byte width of a scalar read by `sproj` with size class `n`.
pub open spec fn spec_size_from_n(n: u32) -> nat {
    if n == 0 {
        1
    } else if n == 1 {
        2
    } else if n == 2 {
        4
    } else {
        8
    }
}

/// Byte width of a value of an IR scalar type (8 for boxed types).
pub open spec fn spec_type_size(ty: IRType) -> nat {
    match ty {
        IRType::UInt8 => 1,
        IRType::UInt16 => 2,
        IRType::UInt32 | IRType::Float => 4,
        _ => 8,
    }
}

/// The bytes of a machine word (`usize`).
pub open spec fn spec_word_bytes() -> int {
    (usize::BITS / 8) as int
}

/// The object that a constructor builds: its tag, its fields, and zeroed scalar bytes.
pub open spec fn spec_ctor_value(info: CtorInfo, fields: Seq<SValue>) -> SValue {
    SValue::Object {
        tag: info.cidx,
        fields,
        scalars: Seq::new(info.scalar_size as nat, |i: int| 0u8),
    }
}

/// The scalar that `sproj` reads: `size` bytes at `offset`, little-endian.
pub open spec fn spec_sproj(v: SValue, offset: u32, size: nat) -> SValue {
    SValue::Scalar(spec_le_u64(spec_get_scalar_bytes(v, offset as int, size)))
}

/// The value an expression evaluates to in a frame, or why it does not;
/// `ty` is the declared type of the variable it is bound to, when known.
pub open spec fn spec_expr_value(locals: Map<u32, SValue>, e: Expr, ty: Option<IRType>) -> Result<SValue, InterpError> {
    match e {
        Expr::Ctor { info, args } | Expr::Reuse { info, args, .. } => match spec_resolve_args(locals, args@) {
            Ok(fields) => Ok(spec_ctor_value(info, fields)),
            Err(err) => Err(err),
        },
        Expr::Proj { idx, var } => if locals.contains_key(var) {
            Ok(spec_field(locals[var], idx as int))
        } else {
            Err(InterpError::UnboundVariable(var))
        },
        Expr::UProj { idx, var } => if locals.contains_key(var) {
            let offset = idx as int * spec_word_bytes();
            match locals[var] {
                SValue::Object { scalars, .. } => if offset + 8 <= scalars.len() {
                    Ok(SValue::Scalar(spec_le_u64(scalars.subrange(offset, offset + 8))))
                } else {
                    Ok(SValue::Scalar(0))
                },
                _ => Ok(SValue::Scalar(0)),
            }
        } else {
            Err(InterpError::UnboundVariable(var))
        },
        Expr::SProj { n, offset, var } => if locals.contains_key(var) {
            let size = match ty {
                Some(t) => spec_type_size(t),
                None => spec_size_from_n(n),
            };
            if offset + size > usize::MAX {
                Err(InterpError::OffsetOverflow)
            } else {
                Ok(spec_sproj(locals[var], offset, size))
            }
        } else {
            Err(InterpError::UnboundVariable(var))
        },
        Expr::FAp { fun, args } => match spec_resolve_args(locals, args@) {
            Ok(_) => Err(InterpError::UnexpectedFAp(fun)),
            Err(err) => Err(err),
        },
        Expr::PAp { fun, args } => match spec_resolve_args(locals, args@) {
            Ok(captured) => Ok(SValue::Closure { fn_id: fun@, arity: 0, captured }),
            Err(err) => Err(err),
        },
        Expr::Ap { fun, args } => if locals.contains_key(fun) {
            match spec_resolve_args(locals, args@) {
                Ok(extra) => match locals[fun] {
                    SValue::Closure { fn_id, captured, .. } => Ok(
                        SValue::Closure { fn_id, arity: 0, captured: captured + extra },
                    ),
                    _ => Err(InterpError::ApOnNonClosure),
                },
                Err(err) => Err(err),
            }
        } else {
            Err(InterpError::UnboundVariable(fun))
        },
        Expr::Box { ty: bty, var } => if locals.contains_key(var) {
            if spec_has_u64(locals[var]) {
                let x = spec_as_u64(locals[var]);
                Ok(
                    SValue::Object {
                        tag: 0,
                        fields: Seq::empty(),
                        scalars: Seq::new(spec_type_size(bty), |i: int| le_byte(x, i)),
                    },
                )
            } else {
                Err(InterpError::NotScalar)
            }
        } else {
            Err(InterpError::UnboundVariable(var))
        },
        Expr::Unbox { var } => if locals.contains_key(var) {
            match locals[var] {
                SValue::Object { scalars, .. } => if scalars.len() > 0 {
                    let len = if scalars.len() < 8 { scalars.len() as int } else { 8 };
                    Ok(SValue::Scalar(spec_le_u64(scalars.subrange(0, len))))
                } else {
                    Ok(locals[var])
                },
                _ => Ok(locals[var]),
            }
        } else {
            Err(InterpError::UnboundVariable(var))
        },
        Expr::Lit { val } => match val {
            LitValue::Num(n) => Ok(SValue::Scalar(n)),
            LitValue::Str(s) => Ok(SValue::Str(s@)),
        },
        Expr::IsShared { .. } => Ok(SValue::Scalar(0)),
        Expr::Reset { var, .. } => if locals.contains_key(var) {
            Ok(locals[var])
        } else {
            Err(InterpError::UnboundVariable(var))
        },
    }
}

/// The object that a constructor (by its model) builds.
pub open spec fn spec_sctor_value(info: SCtorInfo, fields: Seq<SValue>) -> SValue {
    SValue::Object { tag: info.cidx, fields, scalars: Seq::new(info.scalar_size as nat, |i: int| 0u8) }
}

/// The value an expression (by its model) evaluates to in a frame, or why it
/// does not; `ty` is the declared type of the variable it is bound to, when known.
pub open spec fn spec_sexpr_value(locals: Map<u32, SValue>, e: SExpr, ty: Option<IRType>) -> Result<SValue, SInterpError> {
    match e {
        SExpr::Ctor { info, args } | SExpr::Reuse { info, args, .. } => match spec_resolve_args(locals, args) {
            Ok(fields) => Ok(spec_sctor_value(info, fields)),
            Err(err) => Err(err.model()),
        },
        SExpr::Proj { idx, var } => if locals.contains_key(var) {
            Ok(spec_field(locals[var], idx as int))
        } else {
            Err(SInterpError::UnboundVariable(var))
        },
        SExpr::UProj { idx, var } => if locals.contains_key(var) {
            let offset = idx as int * spec_word_bytes();
            match locals[var] {
                SValue::Object { scalars, .. } => if offset + 8 <= scalars.len() {
                    Ok(SValue::Scalar(spec_le_u64(scalars.subrange(offset, offset + 8))))
                } else {
                    Ok(SValue::Scalar(0))
                },
                _ => Ok(SValue::Scalar(0)),
            }
        } else {
            Err(SInterpError::UnboundVariable(var))
        },
        SExpr::SProj { n, offset, var } => if locals.contains_key(var) {
            let size = match ty {
                Some(t) => spec_type_size(t),
                None => spec_size_from_n(n),
            };
            if offset + size > usize::MAX {
                Err(SInterpError::OffsetOverflow)
            } else {
                Ok(spec_sproj(locals[var], offset, size))
            }
        } else {
            Err(SInterpError::UnboundVariable(var))
        },
        SExpr::FAp { fun, args } => match spec_resolve_args(locals, args) {
            Ok(_) => Err(SInterpError::UnexpectedFAp(fun)),
            Err(err) => Err(err.model()),
        },
        SExpr::PAp { fun, args } => match spec_resolve_args(locals, args) {
            Ok(captured) => Ok(SValue::Closure { fn_id: fun, arity: 0, captured }),
            Err(err) => Err(err.model()),
        },
        SExpr::Ap { fun, args } => if locals.contains_key(fun) {
            match spec_resolve_args(locals, args) {
                Ok(extra) => match locals[fun] {
                    SValue::Closure { fn_id, captured, .. } => Ok(
                        SValue::Closure { fn_id, arity: 0, captured: captured + extra },
                    ),
                    _ => Err(SInterpError::ApOnNonClosure),
                },
                Err(err) => Err(err.model()),
            }
        } else {
            Err(SInterpError::UnboundVariable(fun))
        },
        SExpr::Box { ty: bty, var } => if locals.contains_key(var) {
            if spec_has_u64(locals[var]) {
                let x = spec_as_u64(locals[var]);
                Ok(
                    SValue::Object {
                        tag: 0,
                        fields: Seq::empty(),
                        scalars: Seq::new(spec_type_size(bty), |i: int| le_byte(x, i)),
                    },
                )
            } else {
                Err(SInterpError::NotScalar)
            }
        } else {
            Err(SInterpError::UnboundVariable(var))
        },
        SExpr::Unbox { var } => if locals.contains_key(var) {
            match locals[var] {
                SValue::Object { scalars, .. } => if scalars.len() > 0 {
                    let len = if scalars.len() < 8 { scalars.len() as int } else { 8 };
                    Ok(SValue::Scalar(spec_le_u64(scalars.subrange(0, len))))
                } else {
                    Ok(locals[var])
                },
                _ => Ok(locals[var]),
            }
        } else {
            Err(SInterpError::UnboundVariable(var))
        },
        SExpr::Lit { val } => match val {
            SLitValue::Num(n) => Ok(SValue::Scalar(n)),
            SLitValue::Str(s) => Ok(SValue::Str(s)),
        },
        SExpr::IsShared { .. } => Ok(SValue::Scalar(0)),
        SExpr::Reset { var, .. } => if locals.contains_key(var) {
            Ok(locals[var])
        } else {
            Err(SInterpError::UnboundVariable(var))
        },
    }
}

/// Evaluating an expression and evaluating its model agree.
pub proof fn lemma_sexpr_value_model(locals: Map<u32, SValue>, e: Expr, ty: Option<IRType>)
    ensures
        spec_sexpr_value(locals, e.model(), ty) == match spec_expr_value(locals, e, ty) {
            Ok(v) => Ok::<SValue, SInterpError>(v),
            Err(err) => Err::<SValue, SInterpError>(err.model()),
        },
{
}

/// A constructor applied to arguments: the object, its fields and then the
/// object registered, and a `CtorCreate` step recorded.
pub open spec fn spec_eval_ctor(rec: SRec, locals: Map<u32, SValue>, info: SCtorInfo, args: Seq<Arg>) -> Result<
    (SValue, SRec),
    SInterpError,
> {
    match spec_resolve_args(locals, args) {
        Err(e) => Err(e.model()),
        Ok(fields) => match spec_register_all(rec.table, fields) {
            None => Err(SInterpError::ValueTableFull),
            Some((t1, ids)) => {
                let v = spec_sctor_value(info, fields);
                match spec_register(t1, v) {
                    None => Err(SInterpError::ValueTableFull),
                    Some((t2, id)) => Ok(
                        (
                            v,
                            SRec {
                                table: t2,
                                steps: rec.steps.push(
                                    STraceStep::CtorCreate {
                                        tag: info.cidx,
                                        fields: ids,
                                        scalar_data: Seq::new(info.scalar_size as nat, |i: int| 0u8),
                                        result: id,
                                    },
                                ),
                            },
                        ),
                    ),
                }
            },
        },
    }
}

/// A projection: the object and then the field registered, and a
/// `ProjResult` step recorded.
pub open spec fn spec_eval_proj(rec: SRec, locals: Map<u32, SValue>, idx: u32, var: u32) -> Result<
    (SValue, SRec),
    SInterpError,
> {
    if !locals.contains_key(var) {
        Err(SInterpError::UnboundVariable(var))
    } else {
        let obj = locals[var];
        let field = spec_field(obj, idx as int);
        match spec_register(rec.table, obj) {
            None => Err(SInterpError::ValueTableFull),
            Some((t1, oid)) => match spec_register(t1, field) {
                None => Err(SInterpError::ValueTableFull),
                Some((t2, fid)) => Ok(
                    (
                        field,
                        SRec {
                            table: t2,
                            steps: rec.steps.push(STraceStep::ProjResult { obj: oid, idx: idx as u16, result: fid }),
                        },
                    ),
                ),
            },
        }
    }
}

/// Evaluating an expression (by its model) against a value table and the
/// steps so far: its value and what it records, or why it fails.
pub open spec fn spec_eval(rec: SRec, locals: Map<u32, SValue>, e: SExpr, ty: Option<IRType>) -> Result<
    (SValue, SRec),
    SInterpError,
> {
    match e {
        SExpr::Ctor { info, args } => spec_eval_ctor(rec, locals, info, args),
        SExpr::Reuse { info, args, .. } => spec_eval_ctor(rec, locals, info, args),
        SExpr::Proj { idx, var } => spec_eval_proj(rec, locals, idx, var),
        _ => match spec_sexpr_value(locals, e, ty) {
            Ok(v) => Ok((v, rec)),
            Err(err) => Err(err),
        },
    }
}

/// Boxing a scalar and unboxing the box gives the scalar cut to the width of
/// the boxed type (1, 2, 4 or 8 bytes); neither records anything.
pub proof fn lemma_box_unbox(
    rec: SRec,
    locals: Map<u32, SValue>,
    x: u32,
    y: u32,
    ty: IRType,
    v: u64,
    t1: Option<IRType>,
    t2: Option<IRType>,
)
    requires
        locals.contains_key(x),
        locals[x] == SValue::Scalar(v),
    ensures
        ({
            let w = spec_type_size(ty);
            let b = SValue::Object { tag: 0, fields: Seq::empty(), scalars: Seq::new(w, |k: int| le_byte(v, k)) };
            &&& spec_eval(rec, locals, SExpr::Box { ty, var: x }, t1) == Ok::<(SValue, SRec), SInterpError>((b, rec))
            &&& spec_eval(rec, locals.insert(y, b), SExpr::Unbox { var: y }, t2) == Ok::<(SValue, SRec), SInterpError>(
                (SValue::Scalar(spec_low_bytes(v, w)), rec),
            )
        }),
{
    let w = spec_type_size(ty);
    let bytes = Seq::new(w, |k: int| le_byte(v, k));
    assert(1 <= w <= 8);
    assert(bytes.subrange(0, w as int) =~= bytes);
    lemma_le_u64_of_bytes(v, w);
}

/// The value an argument denotes in a frame: a bound variable's value, or
/// `Irrelevant`.
pub open spec fn spec_arg_value(locals: Map<u32, SValue>, a: Arg) -> SValue {
    match a {
        Arg::Var(x) => locals[x],
        Arg::Irrelevant => SValue::Irrelevant,
    }
}

/// Every variable among the arguments is bound.
pub open spec fn spec_args_bound(locals: Map<u32, SValue>, args: Seq<Arg>) -> bool {
    forall|j: int| 0 <= j < args.len() ==> (#[trigger] args[j] matches Arg::Var(x) ==> locals.contains_key(x))
}

/// Arguments whose variables are bound resolve to their values, in order.
pub proof fn lemma_resolve_bound_args(locals: Map<u32, SValue>, args: Seq<Arg>)
    requires
        spec_args_bound(locals, args),
    ensures
        spec_resolve_args(locals, args) == Ok::<Seq<SValue>, InterpError>(
            Seq::new(args.len(), |j: int| spec_arg_value(locals, args[j])),
        ),
    decreases args.len(),
{
    if args.len() > 0 {
        let init = args.drop_last();
        assert forall|j: int| 0 <= j < init.len() implies (#[trigger] init[j] matches Arg::Var(x) ==> locals.contains_key(
            x,
        )) by {
            assert(init[j] == args[j]);
        }
        lemma_resolve_bound_args(locals, init);
        assert(args.last() == args[args.len() - 1]);
        assert(args[args.len() - 1] matches Arg::Var(x) ==> locals.contains_key(x));
        assert(spec_resolve_arg(locals, args.last()) == Ok::<SValue, InterpError>(spec_arg_value(locals, args.last())));
        assert(Seq::new(init.len(), |j: int| spec_arg_value(locals, init[j])) =~= Seq::new(
            init.len(),
            |j: int| spec_arg_value(locals, args[j]),
        ));
        assert(Seq::new(init.len(), |j: int| spec_arg_value(locals, init[j])).push(spec_arg_value(locals, args.last()))
            =~= Seq::new(args.len(), |j: int| spec_arg_value(locals, args[j])));
    } else {
        assert(Seq::new(args.len(), |j: int| spec_arg_value(locals, args[j])) =~= Seq::<SValue>::empty());
    }
}

/// What the expressions evaluate to, with their arguments bound and room in
/// the value table:
/// - a constructor: the object with the constructor's index as its tag, the
///   argument values as its fields and zeroed scalar bytes; it records one
///   `CtorCreate` step with that tag whose ids name the object and its
///   field values in the table;
/// - a projection: the object's field at the index (`Irrelevant` when there
///   is none); it records one `ProjResult` step whose ids name the object
///   and the field;
/// - a partial application: a closure of the function on the argument
///   values; an application of a closure: the closure with the argument
///   values appended; a literal: its number or string; `reset`: the value of
///   the variable; `isShared`: 0. None of these records anything.
pub proof fn lemma_expression_values(rec: SRec, locals: Map<u32, SValue>, e: SExpr, ty: Option<IRType>)
    requires
        rec.table.len() + 3 < u32::MAX,
    ensures
        ({
            let r = spec_eval(rec, locals, e, ty);
            match e {
                SExpr::Ctor { info, args } => spec_args_bound(locals, args) && rec.table.len() + args.len() + 1
                    < u32::MAX ==> (r matches Ok((v, rec2)) && {
                    &&& v == (SValue::Object {
                        tag: info.cidx,
                        fields: Seq::new(args.len(), |j: int| spec_arg_value(locals, args[j])),
                        scalars: Seq::new(info.scalar_size as nat, |i: int| 0u8),
                    })
                    &&& rec2.steps.len() == rec.steps.len() + 1
                    &&& rec2.steps.subrange(0, rec.steps.len() as int) == rec.steps
                    &&& rec2.steps[rec.steps.len() as int] matches STraceStep::CtorCreate {
                        tag,
                        fields,
                        result,
                        ..
                    } && tag == info.cidx && rec2.table[result as int] == v && fields.len() == args.len() && forall|j: int|
                        0 <= j < args.len() ==> rec2.table[#[trigger] fields[j] as int] == spec_arg_value(locals, args[j])
                }),
                SExpr::Proj { idx, var } => locals.contains_key(var) ==> (r matches Ok((v, rec2)) && {
                    &&& v == match locals[var] {
                        SValue::Object { fields, .. } => if (idx as int) < fields.len() {
                            fields[idx as int]
                        } else {
                            SValue::Irrelevant
                        },
                        _ => SValue::Irrelevant,
                    }
                    &&& rec2.steps.len() == rec.steps.len() + 1
                    &&& rec2.steps.subrange(0, rec.steps.len() as int) == rec.steps
                    &&& rec2.steps[rec.steps.len() as int] matches STraceStep::ProjResult { obj, result, .. }
                        && rec2.table[obj as int] == locals[var] && rec2.table[result as int] == v
                }),
                SExpr::PAp { fun, args } => spec_args_bound(locals, args) ==> r == Ok::<(SValue, SRec), SInterpError>(
                    (
                        SValue::Closure {
                            fn_id: fun,
                            arity: 0,
                            captured: Seq::new(args.len(), |j: int| spec_arg_value(locals, args[j])),
                        },
                        rec,
                    ),
                ),
                SExpr::Ap { fun, args } => spec_args_bound(locals, args) && locals.contains_key(fun)
                    && locals[fun] is Closure ==> r == Ok::<(SValue, SRec), SInterpError>(
                    (
                        SValue::Closure {
                            fn_id: locals[fun]->fn_id,
                            arity: 0,
                            captured: locals[fun]->captured + Seq::new(
                                args.len(),
                                |j: int| spec_arg_value(locals, args[j]),
                            ),
                        },
                        rec,
                    ),
                ),
                SExpr::Lit { val: SLitValue::Num(n) } => r == Ok::<(SValue, SRec), SInterpError>((SValue::Scalar(n), rec)),
                SExpr::Lit { val: SLitValue::Str(t) } => r == Ok::<(SValue, SRec), SInterpError>((SValue::Str(t), rec)),
                SExpr::Reset { var, .. } => locals.contains_key(var) ==> r == Ok::<(SValue, SRec), SInterpError>(
                    (locals[var], rec),
                ),
                SExpr::IsShared { .. } => r == Ok::<(SValue, SRec), SInterpError>((SValue::Scalar(0), rec)),
                _ => true,
            }
        }),
{
    match e {
        SExpr::Ctor { info, args } => {
            if spec_args_bound(locals, args) && rec.table.len() + args.len() + 1 < u32::MAX {
                lemma_resolve_bound_args(locals, args);
                let fields = Seq::new(args.len(), |j: int| spec_arg_value(locals, args[j]));
                lemma_register_all_some(rec.table, fields);
                let (t1, ids) = spec_register_all(rec.table, fields)->Some_0;
                let v = spec_sctor_value(info, fields);
                lemma_register_meaning(t1, v);
                let (t2, id) = spec_register(t1, v)->Some_0;
                let rec2 = spec_eval(rec, locals, e, ty)->Ok_0.1;
                assert(rec2.steps.subrange(0, rec.steps.len() as int) =~= rec.steps);
                assert forall|j: int| 0 <= j < args.len() implies rec2.table[#[trigger] ids[j] as int] == spec_arg_value(
                    locals,
                    args[j],
                ) by {
                    assert(t1[ids[j] as int] == fields[j]);
                }
            }
        },
        SExpr::Proj { idx, var } => {
            if locals.contains_key(var) {
                let obj = locals[var];
                lemma_register_meaning(rec.table, obj);
                let (t1, oid) = spec_register(rec.table, obj)->Some_0;
                lemma_register_meaning(t1, spec_field(obj, idx as int));
                let rec2 = spec_eval(rec, locals, e, ty)->Ok_0.1;
                assert(rec2.steps.subrange(0, rec.steps.len() as int) =~= rec.steps);
            }
        },
        SExpr::PAp { fun, args } => {
            if spec_args_bound(locals, args) {
                lemma_resolve_bound_args(locals, args);
            }
        },
        SExpr::Ap { fun, args } => {
            if spec_args_bound(locals, args) {
                lemma_resolve_bound_args(locals, args);
            }
        },
        _ => {},
    }
}

/// A scalar projection bound to a variable of a declared type reads as many
/// bytes as that type has (1 for `UInt8`, 2 for `UInt16`, 4 for `UInt32`
/// and `Float`, 8 otherwise) at the offset, little-endian, whatever its size
/// class `n` says; it records nothing. A `UInt8` reads the byte at the
/// offset, a `UInt16` the two bytes from it, low byte first.
pub proof fn lemma_sproj_reads_declared_width(
    rec: SRec,
    locals: Map<u32, SValue>,
    n: u32,
    offset: u32,
    var: u32,
    ty: IRType,
)
    requires
        locals.contains_key(var),
    ensures
        ({
            let w: nat = match ty {
                IRType::UInt8 => 1,
                IRType::UInt16 => 2,
                IRType::UInt32 | IRType::Float => 4,
                _ => 8,
            };
            let v = locals[var];
            let r = spec_eval(rec, locals, SExpr::SProj { n, offset, var }, Some(ty));
            let b0 = spec_scalar_byte(v, offset as int);
            let b1 = spec_scalar_byte(v, offset + 1);
            &&& offset + w > usize::MAX ==> r == Err::<(SValue, SRec), SInterpError>(SInterpError::OffsetOverflow)
            &&& offset + w <= usize::MAX ==> r == Ok::<(SValue, SRec), SInterpError>(
                (SValue::Scalar(spec_le_u64(Seq::new(w, |k: int| spec_scalar_byte(v, offset + k)))), rec),
            )
            &&& ty == IRType::UInt8 && offset + 1 <= usize::MAX ==> r == Ok::<(SValue, SRec), SInterpError>(
                (SValue::Scalar(b0 as u64), rec),
            )
            &&& ty == IRType::UInt16 && offset + 2 <= usize::MAX ==> (r matches Ok((SValue::Scalar(x), rec2))
                && rec2 == rec && x == b0 + 256 * b1)
        }),
{
    let v = locals[var];
    let b0 = spec_scalar_byte(v, offset as int);
    let b1 = spec_scalar_byte(v, offset + 1);
    let one = Seq::new(1, |k: int| spec_scalar_byte(v, offset + k));
    let two = Seq::new(2, |k: int| spec_scalar_byte(v, offset + k));
    assert(spec_le_u64(Seq::<u8>::empty()) == 0);
    assert(one.drop_first() =~= Seq::<u8>::empty());
    assert(one[0] == b0);
    assert(spec_le_u64(one) == ((0u64 << 8u64) | (b0 as u64)));
    assert(((0u64 << 8u64) | (b0 as u64)) == b0 as u64) by (bit_vector);
    assert(two.drop_first() =~= Seq::new(1, |k: int| spec_scalar_byte(v, offset + 1 + k)));
    let one1 = Seq::new(1, |k: int| spec_scalar_byte(v, offset + 1 + k));
    assert(one1.drop_first() =~= Seq::<u8>::empty());
    assert(one1[0] == b1);
    assert(spec_le_u64(one1) == ((0u64 << 8u64) | (b1 as u64)));
    assert(((0u64 << 8u64) | (b1 as u64)) == b1 as u64) by (bit_vector);
    assert(spec_le_u64(two) == (((b1 as u64) << 8u64) | (b0 as u64)));
    assert((((b1 as u64) << 8u64) | (b0 as u64)) == b0 + 256 * b1) by (bit_vector);
    assert(spec_get_scalar_bytes(v, offset as int, 1) =~= one);
    assert(spec_get_scalar_bytes(v, offset as int, 2) =~= two);
    let w: nat = match ty {
        IRType::UInt8 => 1,
        IRType::UInt16 => 2,
        IRType::UInt32 | IRType::Float => 4,
        _ => 8,
    };
    assert(spec_get_scalar_bytes(v, offset as int, w) =~= Seq::new(w, |k: int| spec_scalar_byte(v, offset + k)));
}

/// Whether an evaluation agrees with its model: the same error, or the same
/// value and recording.
pub open spec fn spec_eval_agrees(out: Result<(SValue, SRec), SInterpError>, r: Result<Value, InterpError>, rec: SRec) -> bool {
    match r {
        Ok(v) => out == Ok::<(SValue, SRec), SInterpError>((v@, rec)),
        Err(e) => out == Err::<(SValue, SRec), SInterpError>(e.model()),
    }
}

/// Whether evaluating the expression records a trace step.
pub open spec fn spec_expr_records(e: Expr) -> bool {
    e is Ctor || e is Reuse || e is Proj
}

impl ExprEvaluator {
    /// The value table and the recorded steps, by their models.
    pub open spec fn rec(&self) -> SRec {
        SRec { table: view_values(self.value_registry.table@), steps: model_steps(self.trace_steps@) }
    }

    /// Every id a recorded step names is in the value table, which holds no
    /// value twice.
    pub open spec fn spec_trace_ok(&self) -> bool {
        &&& spec_refs_below(self.trace_steps@, self.value_registry.table@.len())
        &&& self.value_registry.spec_wf()
    }

    /// Every recorded step checks out against the value table.
    pub open spec fn spec_valid(&self) -> bool {
        spec_steps_valid(view_values(self.value_registry.table@), self.trace_steps@)
    }

    /// Every step recorded from the `n`-th on checks out against the value
    /// table.
    pub open spec fn spec_valid_from(&self, n: int) -> bool {
        spec_steps_valid_from(view_values(self.value_registry.table@), self.trace_steps@, n)
    }

    /// The value an argument denotes; a variable must be bound.
    pub fn resolve_arg(&self, arg: &Arg) -> (r: Value)
        requires
            spec_resolve_arg(spec_locals(self.frame.locals@), *arg) is Ok,
        ensures
            spec_resolve_arg(spec_locals(self.frame.locals@), *arg) == Ok::<SValue, InterpError>(r@),
    {
        match arg {
            Arg::Var(v) => self.frame.get_var(*v).clone_value(),
            Arg::Irrelevant => Value::Irrelevant,
        }
    }

    /// The value an argument denotes, or the error for an unbound variable.
    fn lookup_arg(&self, arg: &Arg) -> (r: Result<Value, InterpError>)
        ensures
            match r {
                Ok(v) => spec_resolve_arg(spec_locals(self.frame.locals@), *arg) == Ok::<SValue, InterpError>(v@),
                Err(e) => spec_resolve_arg(spec_locals(self.frame.locals@), *arg) == Err::<SValue, InterpError>(e),
            },
    {
        match arg {
            Arg::Var(v) => match self.frame.locals.get(v) {
                Some(x) => Ok(x.clone_value()),
                None => Err(InterpError::UnboundVariable(*v)),
            },
            Arg::Irrelevant => Ok(Value::Irrelevant),
        }
    }

    fn resolve_args(&self, args: &Vec<Arg>) -> (r: Result<Vec<Value>, InterpError>)
        ensures
            match r {
                Ok(vs) => spec_resolve_args(spec_locals(self.frame.locals@), args@) == Ok::<Seq<SValue>, InterpError>(view_values(vs@)),
                Err(e) => spec_resolve_args(spec_locals(self.frame.locals@), args@) == Err::<Seq<SValue>, InterpError>(e),
            },
    {
        let ghost locals = spec_locals(self.frame.locals@);
        let mut out: Vec<Value> = Vec::new();
        let mut i: usize = 0;
        assert(args@.take(0) =~= Seq::<Arg>::empty());
        assert(view_values(out@) =~= Seq::<SValue>::empty());
        while i < args.len()
            invariant
                i <= args@.len(),
                locals == spec_locals(self.frame.locals@),
                spec_resolve_args(locals, args@.take(i as int)) == Ok::<Seq<SValue>, InterpError>(view_values(out@)),
            decreases args@.len() - i,
        {
            assert(args@.take(i + 1).drop_last() =~= args@.take(i as int));
            match self.lookup_arg(&args[i]) {
                Ok(v) => {
                    let ghost before = out@;
                    out.push(v);
                    assert(view_values(out@) =~= view_values(before).push(v@));
                },
                Err(e) => {
                    proof {
                        lemma_resolve_args_err_extend(locals, args@, (i + 1) as int);
                    }
                    return Err(e);
                },
            }
            i = i + 1;
        }
        assert(args@.take(args@.len() as int) =~= args@);
        Ok(out)
    }

    pub fn register_value(&mut self, val: &Value) -> (r: Result<ValueId, InterpError>)
        ensures
            old(self).value_registry.spec_wf() ==> final(self).value_registry.spec_wf(),
            final(self).frame == old(self).frame,
            final(self).trace_steps == old(self).trace_steps,
            spec_extends(view_values(old(self).value_registry.table@), view_values(final(self).value_registry.table@)),
            match r {
                Ok(id) => (id as int) < final(self).value_registry.table@.len()
                    && final(self).value_registry.table@[id as int]@ == val@,
                Err(e) => e == InterpError::ValueTableFull,
            },
            old(self).value_registry.spec_wf() ==> match spec_register(view_values(old(self).value_registry.table@), val@) {
                None => r is Err,
                Some((t, id)) => r == Ok::<ValueId, InterpError>(id) && view_values(final(self).value_registry.table@) == t,
            },
    {
        let ghost before = self.value_registry.table@;
        let r = self.value_registry.register(val);
        assert(spec_extends(view_values(before), view_values(self.value_registry.table@))) by {
            assert forall|k: int| 0 <= k < view_values(before).len() implies #[trigger] view_values(self.value_registry.table@)[k] == view_values(before)[k] by {
                assert(self.value_registry.table@[k] == before[k]);
            }
        }
        match r {
            Some(id) => Ok(id),
            None => Err(InterpError::ValueTableFull),
        }
    }

    /// Registers a list of values, giving their ids in order.
    fn register_values(&mut self, vals: &Vec<Value>) -> (r: Result<Vec<ValueId>, InterpError>)
        ensures
            old(self).value_registry.spec_wf() ==> final(self).value_registry.spec_wf(),
            final(self).frame == old(self).frame,
            final(self).trace_steps == old(self).trace_steps,
            spec_extends(view_values(old(self).value_registry.table@), view_values(final(self).value_registry.table@)),
            match r {
                Ok(ids) => ids@.len() == vals@.len() && (forall|j: int| 0 <= j < ids@.len() ==> (#[trigger] ids@[j] as int) < final(self).value_registry.table@.len())
                    && spec_lookup(view_values(final(self).value_registry.table@), ids@) == view_values(vals@),
                Err(e) => e == InterpError::ValueTableFull,
            },
            old(self).value_registry.spec_wf() ==> match spec_register_all(view_values(old(self).value_registry.table@), view_values(vals@)) {
                None => r is Err,
                Some((t, ids)) => r matches Ok(x) && x@ == ids && view_values(final(self).value_registry.table@) == t,
            },
    {
        let ghost start = view_values(self.value_registry.table@);
        let mut ids: Vec<ValueId> = Vec::new();
        let mut j: usize = 0;
        while j < vals.len()
            invariant
                j <= vals@.len(),
                ids@.len() == j,
                self.frame == old(self).frame,
                self.trace_steps == old(self).trace_steps,
                start == view_values(old(self).value_registry.table@),
                spec_extends(start, view_values(self.value_registry.table@)),
                old(self).value_registry.spec_wf() ==> self.value_registry.spec_wf(),
                forall|k: int| 0 <= k < j ==> (#[trigger] ids@[k] as int) < self.value_registry.table@.len()
                    && self.value_registry.table@[ids@[k] as int]@ == vals@[k]@,
                old(self).value_registry.spec_wf() ==> spec_register_all(start, view_values(vals@).take(j as int)) == Some(
                    (view_values(self.value_registry.table@), ids@),
                ),
            decreases vals@.len() - j,
        {
            proof {
                assert(view_values(vals@).take(j + 1).drop_last() =~= view_values(vals@).take(j as int));
                assert(view_values(vals@).take(j + 1).last() == vals@[j as int]@);
            }
            let ghost mid = view_values(self.value_registry.table@);
            let ghost mid_table = self.value_registry.table@;
            let rid = self.register_value(&vals[j]);
            proof {
                lemma_extends_trans(start, mid, view_values(self.value_registry.table@));
            }
            let id = match rid {
                Ok(id) => id,
                Err(e) => {
                    proof {
                        if old(self).value_registry.spec_wf() {
                            lemma_register_all_none_extend(start, view_values(vals@), j + 1);
                        }
                    }
                    return Err(e);
                },
            };
            proof {
                assert forall|k: int| 0 <= k < j implies (#[trigger] ids@[k] as int) < self.value_registry.table@.len()
                    && self.value_registry.table@[ids@[k] as int]@ == vals@[k]@ by {
                    assert(view_values(self.value_registry.table@)[ids@[k] as int] == mid[ids@[k] as int]);
                    assert(mid[ids@[k] as int] == mid_table[ids@[k] as int]@);
                }
            }
            ids.push(id);
            j = j + 1;
        }
        assert(spec_lookup(view_values(self.value_registry.table@), ids@) =~= view_values(vals@));
        assert(view_values(vals@).take(vals@.len() as int) =~= view_values(vals@));
        Ok(ids)
    }

    /// Builds the object of a constructor and records the construction.
    fn eval_ctor(&mut self, info: &CtorInfo, args: &Vec<Arg>) -> (r: Result<Value, InterpError>)
        requires
            old(self).spec_trace_ok(),
        ensures
            final(self).frame == old(self).frame,
            final(self).spec_trace_ok(),
            old(self).spec_valid() ==> final(self).spec_valid(),
            forall|n: int| #[trigger] old(self).spec_valid_from(n) ==> final(self).spec_valid_from(n),
            spec_extends(view_values(old(self).value_registry.table@), view_values(final(self).value_registry.table@)),
            match r {
                Ok(v) => (match spec_resolve_args(spec_locals(old(self).frame.locals@), args@) {
                    Ok(fields) => v@ == spec_ctor_value(*info, fields),
                    Err(_) => false,
                }) && final(self).trace_steps@.len() == old(self).trace_steps@.len() + 1
                  && final(self).trace_steps@.subrange(0, old(self).trace_steps@.len() as int) == old(self).trace_steps@,
                Err(InterpError::ValueTableFull) => final(self).trace_steps == old(self).trace_steps,
                Err(e) => spec_resolve_args(spec_locals(old(self).frame.locals@), args@) == Err::<Seq<SValue>, InterpError>(e)
                    && final(self).trace_steps == old(self).trace_steps,
            },
            spec_eval_agrees(
                spec_eval_ctor(old(self).rec(), spec_locals(old(self).frame.locals@), info.model(), args@),
                r,
                final(self).rec(),
            ),
    {
        let ghost start = view_values(self.value_registry.table@);
        let fields = self.resolve_args(args)?;
        let scalars = zero_bytes(info.scalar_size as usize);
        let rids = self.register_values(&fields);
        proof {
            lemma_steps_valid_extend(start, view_values(self.value_registry.table@), self.trace_steps@);
        }
        let field_ids = match rids {
            Ok(ids) => ids,
            Err(e) => {
                return Err(e);
            },
        };
        let val = Value::Object { tag: info.cidx, fields, scalars };
        let ghost t0 = view_values(self.value_registry.table@);
        let rid = self.register_value(&val);
        let ghost t1 = view_values(self.value_registry.table@);
        proof {
            lemma_extends_trans(start, t0, t1);
            lemma_steps_valid_extend(start, t1, self.trace_steps@);
        }
        let result_id = match rid {
            Ok(id) => id,
            Err(e) => {
                return Err(e);
            },
        };
        let scalar_data = match &val {
            Value::Object { scalars, .. } => scalars.clone(),
            _ => Vec::new(),
        };
        let step = TraceStep::CtorCreate { tag: info.cidx, fields: field_ids, scalar_data, result: result_id };
        proof {
            assert(spec_lookup(t1, field_ids@) =~= spec_lookup(t0, field_ids@));
            assert(spec_step_fault(t1, step) is None);
            assert forall|j: int| 0 <= j < spec_step_refs(step).len() implies (#[trigger] spec_step_refs(step)[j]) < t1.len() by {
                if j < field_ids@.len() {
                    assert(spec_step_refs(step)[j] == field_ids@[j]);
                }
            }
            lemma_push_step(t1, self.trace_steps@, step);
        }
        let ghost before = self.trace_steps@;
        let ghost step_model = step.model();
        self.trace_steps.push(step);
        proof {
            assert(self.trace_steps@.subrange(0, before.len() as int) =~= before);
            assert(model_steps(self.trace_steps@) =~= model_steps(before).push(step_model));
            assert(val@ == spec_sctor_value(info.model(), view_values(fields@)));
        }
        Ok(val)
    }

    /// Evaluates an expression bound to a variable of type `ty`; a scalar
    /// projection reads as many bytes as that type has.
    pub fn eval_with_ty(&mut self, expr: &Expr, ty: &IRType) -> (r: Result<Value, InterpError>)
        requires
            old(self).spec_trace_ok(),
        ensures
            final(self).frame == old(self).frame,
            final(self).spec_trace_ok(),
            old(self).spec_valid() && spec_expr_wf(*expr) ==> final(self).spec_valid(),
            forall|n: int| #[trigger] old(self).spec_valid_from(n) && spec_expr_wf(*expr) ==> final(self).spec_valid_from(n),
            spec_extends(view_values(old(self).value_registry.table@), view_values(final(self).value_registry.table@)),
            final(self).trace_steps@.len() >= old(self).trace_steps@.len(),
            final(self).trace_steps@.subrange(0, old(self).trace_steps@.len() as int) == old(self).trace_steps@,
            spec_eval_agrees(
                spec_eval(old(self).rec(), spec_locals(old(self).frame.locals@), expr.model(), Some(*ty)),
                r,
                final(self).rec(),
            ),
    {
        proof {
            lemma_sexpr_value_model(spec_locals(self.frame.locals@), *expr, Some(*ty));
        }
        if let Expr::SProj { n: _, offset, var } = expr {
            return self.eval_sproj(*offset, *var, ir_type_size(ty), 0);
        }
        self.eval_expr(expr, Some(*ty))
    }

    /// Evaluates an expression.
    pub fn eval(&mut self, expr: &Expr) -> (r: Result<Value, InterpError>)
        requires
            old(self).spec_trace_ok(),
        ensures
            final(self).frame == old(self).frame,
            final(self).spec_trace_ok(),
            old(self).spec_valid() && spec_expr_wf(*expr) ==> final(self).spec_valid(),
            forall|n: int| #[trigger] old(self).spec_valid_from(n) && spec_expr_wf(*expr) ==> final(self).spec_valid_from(n),
            spec_extends(view_values(old(self).value_registry.table@), view_values(final(self).value_registry.table@)),
            final(self).trace_steps@.len() >= old(self).trace_steps@.len(),
            final(self).trace_steps@.subrange(0, old(self).trace_steps@.len() as int) == old(self).trace_steps@,
            spec_eval_agrees(
                spec_eval(old(self).rec(), spec_locals(old(self).frame.locals@), expr.model(), None),
                r,
                final(self).rec(),
            ),
    {
        self.eval_expr(expr, None)
    }

    /// Reads `size` scalar bytes of a variable at `offset` as a little-endian number.
    fn eval_sproj(&self, offset: u32, var: u32, size: usize, n: u32) -> (r: Result<Value, InterpError>)
        requires
            size <= 8,
        ensures
            match r {
                Ok(v) => spec_locals(self.frame.locals@).contains_key(var)
                    && offset + size <= usize::MAX
                    && v@ == spec_sproj(spec_locals(self.frame.locals@)[var], offset, size as nat),
                Err(e) => (!spec_locals(self.frame.locals@).contains_key(var) && e == InterpError::UnboundVariable(var))
                    || (spec_locals(self.frame.locals@).contains_key(var) && offset + size > usize::MAX && e == InterpError::OffsetOverflow),
            },
    {
        let obj = match self.frame.locals.get(&var) {
            Some(o) => o,
            None => {
                return Err(InterpError::UnboundVariable(var));
            },
        };
        if size > usize::MAX - (offset as usize) {
            return Err(InterpError::OffsetOverflow);
        }
        let bytes = obj.get_scalar_bytes(n, offset, size);
        Ok(Value::Scalar(le_u64_of(bytes.as_slice())))
    }

    fn eval_expr(&mut self, expr: &Expr, ty: Option<IRType>) -> (r: Result<Value, InterpError>)
        requires
            old(self).spec_trace_ok(),
        ensures
            final(self).frame == old(self).frame,
            final(self).spec_trace_ok(),
            old(self).spec_valid() && spec_expr_wf(*expr) ==> final(self).spec_valid(),
            forall|n: int| #[trigger] old(self).spec_valid_from(n) && spec_expr_wf(*expr) ==> final(self).spec_valid_from(n),
            spec_extends(view_values(old(self).value_registry.table@), view_values(final(self).value_registry.table@)),
            final(self).trace_steps@.len() >= old(self).trace_steps@.len(),
            final(self).trace_steps@.subrange(0, old(self).trace_steps@.len() as int) == old(self).trace_steps@,
            match r {
                Ok(v) => spec_expr_value(spec_locals(old(self).frame.locals@), *expr, ty) == Ok::<SValue, InterpError>(v@)
                    && final(self).trace_steps@.len() == old(self).trace_steps@.len() + (if spec_expr_records(*expr) { 1int } else { 0int }),
                Err(InterpError::ValueTableFull) => true,
                Err(e) => spec_expr_value(spec_locals(old(self).frame.locals@), *expr, ty) == Err::<SValue, InterpError>(e)
                    && final(self).trace_steps == old(self).trace_steps,
            },
            spec_eval_agrees(spec_eval(old(self).rec(), spec_locals(old(self).frame.locals@), expr.model(), ty), r, final(self).rec()),
    {
        let ghost locals = spec_locals(self.frame.locals@);
        let ghost t_start = view_values(self.value_registry.table@);
        proof {
            lemma_sexpr_value_model(locals, *expr, ty);
        }
        match expr {
            Expr::Ctor { info, args } => self.eval_ctor(info, args),
            Expr::Reuse { info, args, .. } => self.eval_ctor(info, args),
            Expr::Proj { idx, var } => {
                let obj = match self.frame.locals.get(var) {
                    Some(o) => o.clone_value(),
                    None => {
                        return Err(InterpError::UnboundVariable(*var));
                    },
                };
                let field = obj.field(*idx as usize).clone_value();
                let r1 = self.register_value(&obj);
                proof {
                    lemma_steps_valid_extend(t_start, view_values(self.value_registry.table@), self.trace_steps@);
                }
                let obj_id = match r1 {
                    Ok(id) => id,
                    Err(e) => {
                        return Err(e);
                    },
                };
                let ghost t0 = view_values(self.value_registry.table@);
                let r2 = self.register_value(&field);
                let ghost t1 = view_values(self.value_registry.table@);
                proof {
                    lemma_extends_trans(t_start, t0, t1);
                    lemma_steps_valid_extend(t_start, t1, self.trace_steps@);
                }
                let result_id = match r2 {
                    Ok(id) => id,
                    Err(e) => {
                        return Err(e);
                    },
                };
                let step = TraceStep::ProjResult { obj: obj_id, idx: *idx as u16, result: result_id };
                proof {
                    assert(t1[obj_id as int] == t0[obj_id as int]);
                    if spec_expr_wf(*expr) {
                        assert(spec_step_fault(t1, step) is None);
                    }
                    assert(spec_step_refs(step) == seq![obj_id, result_id]);
                    lemma_push_step(t1, self.trace_steps@, step);
                }
                let ghost before = self.trace_steps@;
                let ghost step_model = step.model();
                self.trace_steps.push(step);
                proof {
                    assert(self.trace_steps@.subrange(0, before.len() as int) =~= before);
                    assert(model_steps(self.trace_steps@) =~= model_steps(before).push(step_model));
                }
                Ok(field)
            },
            Expr::UProj { idx, var } => {
                let obj = match self.frame.locals.get(var) {
                    Some(o) => o,
                    None => {
                        return Err(InterpError::UnboundVariable(*var));
                    },
                };
                let word: u64 = if usize::BITS == 64 { 8 } else { 4 };
                assert(word == spec_word_bytes());
                let offset: u64 = (*idx as u64) * word;
                match obj {
                    Value::Object { scalars, .. } => {
                        if offset + 8 <= scalars.len() as u64 {
                            let o = offset as usize;
                            let window = vstd::slice::slice_subrange(scalars.as_slice(), o, o + 8);
                            Ok(Value::Scalar(le_u64_of(window)))
                        } else {
                            Ok(Value::Scalar(0))
                        }
                    },
                    _ => Ok(Value::Scalar(0)),
                }
            },
            Expr::SProj { n, offset, var } => {
                let size = match ty {
                    Some(t) => ir_type_size(&t),
                    None => ir_type_size_from_n(*n),
                };
                self.eval_sproj(*offset, *var, size, *n)
            },
            Expr::FAp { fun, args } => {
                let _arg_values = self.resolve_args(args)?;
                Err(InterpError::UnexpectedFAp(fun.clone()))
            },
            Expr::PAp { fun, args } => {
                let captured = self.resolve_args(args)?;
                Ok(Value::Closure { fn_id: fun.clone(), arity: 0, captured })
            },
            Expr::Ap { fun, args } => {
                let closure = match self.frame.locals.get(fun) {
                    Some(c) => c.clone_value(),
                    None => {
                        return Err(InterpError::UnboundVariable(*fun));
                    },
                };
                let extra_args = self.resolve_args(args)?;
                match closure {
                    Value::Closure { fn_id, captured, .. } => {
                        let mut all_args = captured;
                        let ghost first = view_values(all_args@);
                        let mut i: usize = 0;
                        while i < extra_args.len()
                            invariant
                                i <= extra_args@.len(),
                                view_values(all_args@) == first + view_values(extra_args@).subrange(0, i as int),
                            decreases extra_args@.len() - i,
                        {
                            let ghost b = all_args@;
                            let c = extra_args[i].clone_value();
                            all_args.push(c);
                            assert(view_values(all_args@) =~= view_values(b).push(c@));
                            assert(view_values(extra_args@)[i as int] == c@);
                            i = i + 1;
                            assert(view_values(all_args@) =~= first + view_values(extra_args@).subrange(0, i as int));
                        }
                        assert(view_values(extra_args@).subrange(0, extra_args@.len() as int) =~= view_values(extra_args@));
                        Ok(Value::Closure { fn_id, arity: 0, captured: all_args })
                    },
                    _ => Err(InterpError::ApOnNonClosure),
                }
            },
            Expr::Box { ty: bty, var } => {
                let val = match self.frame.locals.get(var) {
                    Some(v) => v,
                    None => {
                        return Err(InterpError::UnboundVariable(*var));
                    },
                };
                if !matches!(val, Value::Scalar(_) | Value::Irrelevant | Value::Object { .. }) {
                    return Err(InterpError::NotScalar);
                }
                let scalar_val = val.as_u64();
                let size = ir_type_size(bty);
                let mut scalars: Vec<u8> = Vec::new();
                let mut i: usize = 0;
                while i < size
                    invariant
                        i <= size,
                        size <= 8,
                        scalars@ == Seq::new(i as nat, |k: int| le_byte(scalar_val, k)),
                    decreases size - i,
                {
                    scalars.push(crate::value::le_byte_of(scalar_val, i));
                    i = i + 1;
                    assert(scalars@ =~= Seq::new(i as nat, |k: int| le_byte(scalar_val, k)));
                }
                let r = Value::Object { tag: 0, fields: Vec::new(), scalars };
                assert(view_values(Seq::<Value>::empty()) =~= Seq::<SValue>::empty());
                Ok(r)
            },
            Expr::Unbox { var } => {
                let val = match self.frame.locals.get(var) {
                    Some(v) => v.clone_value(),
                    None => {
                        return Err(InterpError::UnboundVariable(*var));
                    },
                };
                match &val {
                    Value::Object { scalars, .. } => {
                        if scalars.len() > 0 {
                            let len = if scalars.len() < 8 { scalars.len() } else { 8 };
                            let window = vstd::slice::slice_subrange(scalars.as_slice(), 0, len);
                            return Ok(Value::Scalar(le_u64_of(window)));
                        }
                    },
                    _ => {},
                }
                Ok(val)
            },
            Expr::Lit { val } => match val {
                LitValue::Num(n) => Ok(Value::Scalar(*n)),
                LitValue::Str(s) => Ok(Value::Str(s.clone())),
            },
            Expr::IsShared { .. } => Ok(Value::Scalar(0)),
            Expr::Reset { var, .. } => match self.frame.locals.get(var) {
                Some(v) => Ok(v.clone_value()),
                None => Err(InterpError::UnboundVariable(*var)),
            },
        }
    }
}

/// Byte width of a scalar read by `sproj` with size class `n`.
pub fn ir_type_size_from_n(n: u32) -> (r: usize)
    ensures
        r == spec_size_from_n(n),
{
    match n {
        0 => 1,
        1 => 2,
        2 => 4,
        _ => 8,
    }
}

/// Byte width of a value of an IR scalar type (8 for boxed types).
pub fn ir_type_size(ty: &IRType) -> (r: usize)
    ensures
        r == spec_type_size(*ty),
{
    match ty {
        IRType::UInt8 => 1,
        IRType::UInt16 => 2,
        IRType::UInt32 | IRType::Float => 4,
        IRType::UInt64 | IRType::USize => 8,
        _ => 8,
    }
}

} // verus!
